//! Reading a reply's body as a run of markup tokens.

use quick_xml::events::Event;
use quick_xml::Reader;
use vstd::prelude::*;
use vstd::slice::*;
use vstd::utf8::*;

verus! {

/// What the scanner found at the start of its input.
#[derive(Clone, Copy, Debug, PartialEq, Eq, Structural)]
pub enum TokenKind {
    /// The start tag of an element; the bytes are its name.
    Open,
    /// An element without content; the bytes are its name.
    Leaf,
    /// The end tag of an element; the bytes are its name.
    Close,
    /// Character data, with its escapes as they stand in the input.
    Text,
    /// A literal section, which holds no escapes.
    Verbatim,
    /// A declaration, comment, processing instruction or document type.
    Aside,
    /// The end of the input.
    End,
    /// Nothing that the scanner accepts.
    Broken,
}

/// The outcome of one scan: the kind of the token, its name or content still
/// in bytes, and the number of bytes of input that the scanner has not read.
pub struct Scan {
    pub kind: TokenKind,
    pub bytes: Seq<u8>,
    pub left: nat,
}

/// One scanned token of kind `Open`, `Leaf`, `Close`, `Text` or `Verbatim`,
/// its name or content still in bytes.
#[derive(Clone, Debug, PartialEq, Eq)]
pub struct RawToken {
    pub kind: TokenKind,
    pub bytes: Vec<u8>,
}

pub struct Raw {
    pub kind: TokenKind,
    pub bytes: Seq<u8>,
}

impl View for RawToken {
    type V = Raw;

    open spec fn view(&self) -> Raw {
        Raw { kind: self.kind, bytes: self.bytes@ }
    }
}

/// The views of a run of scanned tokens, in order.
pub open spec fn raw_views(tokens: Seq<RawToken>) -> Seq<Raw> {
    tokens.map_values(|t: RawToken| t@)
}

/// A token of a document's element structure, decoded to text.
#[derive(Clone, Debug, PartialEq, Eq)]
pub enum XmlToken {
    Open(String),
    Leaf(String),
    Close(String),
    Text(String),
}

pub enum Token {
    Open(Seq<char>),
    Leaf(Seq<char>),
    Close(Seq<char>),
    Text(Seq<char>),
}

impl View for XmlToken {
    type V = Token;

    open spec fn view(&self) -> Token {
        match *self {
            XmlToken::Open(name) => Token::Open(name@),
            XmlToken::Leaf(name) => Token::Leaf(name@),
            XmlToken::Close(name) => Token::Close(name@),
            XmlToken::Text(text) => Token::Text(text@),
        }
    }
}

/// The views of a run of tokens, in order.
pub open spec fn token_views(tokens: Seq<XmlToken>) -> Seq<Token> {
    tokens.map_values(|t: XmlToken| t@)
}

/// The first token that the markup scanner reads from `input`, and how many
/// bytes of `input` it has then not read.
pub uninterp spec fn xml_scan(input: Seq<u8>) -> Scan;

/// Character data with its escapes replaced by what they stand for, or
/// `None` where that cannot be done.
pub uninterp spec fn xml_unescaped(raw: Seq<char>) -> Option<Seq<char>>;

/// Reads one event with a new `quick_xml::Reader` over `input`, with the
/// check of end names against start names switched off, and asks the reader
/// for the rest of the input that it holds. Which event came and how much
/// was left unread are a function of the input alone; a failure of the
/// reader comes back as the kind `Broken`.
#[verifier::external_body]
fn scan_kind(input: &[u8]) -> (r: (TokenKind, usize))
    ensures
        r.0 == xml_scan(input@).kind,
        r.1 == xml_scan(input@).left,
{
    let mut reader = Reader::from_reader(input);
    reader.check_end_names(false);
    let kind = match reader.read_event() {
        Ok(Event::Start(_)) => TokenKind::Open,
        Ok(Event::Empty(_)) => TokenKind::Leaf,
        Ok(Event::End(_)) => TokenKind::Close,
        Ok(Event::Text(_)) => TokenKind::Text,
        Ok(Event::CData(_)) => TokenKind::Verbatim,
        Ok(Event::Eof) => TokenKind::End,
        Ok(Event::Comment(_)) | Ok(Event::Decl(_)) => TokenKind::Aside,
        Ok(Event::PI(_)) | Ok(Event::DocType(_)) => TokenKind::Aside,
        Err(_) => TokenKind::Broken,
    };
    (kind, reader.get_ref().len())
}

/// Reads the same event as `scan_kind`, in the same way, and hands out what
/// it carries: the name of a start tag, of an element without content or of
/// an end tag, the content of character data or of a literal section, and
/// nothing for any other outcome. This too is a function of the input alone.
#[verifier::external_body]
fn scan_bytes(input: &[u8]) -> (r: Vec<u8>)
    ensures
        r@ == xml_scan(input@).bytes,
{
    let mut reader = Reader::from_reader(input);
    reader.check_end_names(false);
    match reader.read_event() {
        Ok(Event::Start(e)) | Ok(Event::Empty(e)) => e.name().as_ref().to_vec(),
        Ok(Event::End(e)) => e.name().as_ref().to_vec(),
        Ok(Event::Text(e)) => e.into_inner().into_owned(),
        Ok(Event::CData(e)) => e.into_inner().into_owned(),
        Ok(Event::Comment(_)) | Ok(Event::Decl(_)) | Ok(Event::PI(_)) => Vec::new(),
        Ok(Event::DocType(_)) | Ok(Event::Eof) | Err(_) => Vec::new(),
    }
}

/// Calls `quick_xml::escape::unescape`. Its result is a function of the text
/// alone; a failure comes back as `None`.
#[verifier::external_body]
fn unescape(raw: &str) -> (r: Option<String>)
    ensures
        match r {
            Some(text) => xml_unescaped(raw@) == Some(text@),
            None => xml_unescaped(raw@) is None,
        },
{
    match quick_xml::escape::unescape(raw) {
        Ok(text) => Some(text.into_owned()),
        Err(_) => None,
    }
}

/// Calls `String::from_utf8` on a copy of the bytes: the text that they
/// encode, where they are valid UTF-8, and `None` where they are not.
#[verifier::external_body]
fn utf8_text(bytes: &[u8]) -> (r: Option<String>)
    ensures
        match r {
            Some(text) => valid_utf8(bytes@) && text@ == decode_utf8(bytes@),
            None => !valid_utf8(bytes@),
        },
{
    match String::from_utf8(bytes.to_vec()) {
        Ok(text) => Some(text),
        Err(_) => None,
    }
}

/// The text that a run of bytes encodes, if any.
pub open spec fn text_of(bytes: Seq<u8>) -> Option<Seq<char>> {
    if valid_utf8(bytes) {
        Some(decode_utf8(bytes))
    } else {
        None
    }
}

/// Where the next scan of `input` starts after `scan`, if the input goes on.
///
/// The scanner must have read something and left no more than there is.
/// Character data is read together with the `<` that ends it, so the next
/// scan starts at that `<`; character data that ends otherwise has run to
/// the end of the input, and nothing follows it. After any other token the
/// next scan starts at what was left unread.
pub open spec fn resume(input: Seq<u8>, scan: Scan) -> Option<int> {
    let taken = input.len() - scan.left;
    if taken <= 0 {
        None
    } else if scan.kind == TokenKind::Text {
        if input[taken - 1] == 60 && taken > 1 {
            Some(taken - 1)
        } else {
            None
        }
    } else {
        Some(taken)
    }
}

/// Whether `scan` is character data that ran to the end of `input`.
pub open spec fn is_last_text(input: Seq<u8>, scan: Scan) -> bool {
    &&& scan.kind == TokenKind::Text
    &&& scan.left == 0
    &&& input.len() > 0
    &&& input[input.len() - 1] != 60
}

/// The tokens that the scanner reads from `input`, one scan after the other,
/// without the asides. The run ends with the input, or where the scanner
/// fails or does not get on.
pub open spec fn raw_stream(input: Seq<u8>) -> Seq<Raw>
    decreases input.len(),
{
    let scan = xml_scan(input);
    let token = Raw { kind: scan.kind, bytes: scan.bytes };
    if scan.kind == TokenKind::End || scan.kind == TokenKind::Broken {
        Seq::empty()
    } else if is_last_text(input, scan) {
        seq![token]
    } else {
        match resume(input, scan) {
            Some(at) => if scan.kind == TokenKind::Aside {
                raw_stream(input.skip(at))
            } else {
                seq![token] + raw_stream(input.skip(at))
            },
            None => Seq::empty(),
        }
    }
}

pub open spec fn is_space_byte(b: u8) -> bool {
    b == 32 || b == 9 || b == 10 || b == 13
}

/// `bytes` without the white space at its start.
pub open spec fn trim_start(bytes: Seq<u8>) -> Seq<u8>
    decreases bytes.len(),
{
    if bytes.len() > 0 && is_space_byte(bytes[0]) {
        trim_start(bytes.skip(1))
    } else {
        bytes
    }
}

/// `bytes` without the white space at its end.
pub open spec fn trim_end(bytes: Seq<u8>) -> Seq<u8>
    decreases bytes.len(),
{
    if bytes.len() > 0 && is_space_byte(bytes.last()) {
        trim_end(bytes.drop_last())
    } else {
        bytes
    }
}

/// `bytes` without the white space at its start, at its end, or both.
pub open spec fn trimmed(bytes: Seq<u8>, start: bool, end: bool) -> Seq<u8> {
    let rest = if start {
        trim_start(bytes)
    } else {
        bytes
    };
    if end {
        trim_end(rest)
    } else {
        rest
    }
}

pub open spec fn is_textual(kind: TokenKind) -> bool {
    kind == TokenKind::Text || kind == TokenKind::Verbatim
}

/// Whether character data at place `i` stands at the start of its text: no
/// character data or literal section that counts stands right before it.
/// Character data that is all white space at the start of a text does not
/// count.
pub open spec fn leads(raw: Seq<Raw>, i: int) -> bool
    decreases i,
{
    if i <= 0 {
        true
    } else if raw[i - 1].kind == TokenKind::Text {
        leads(raw, i - 1) && trim_start(raw[i - 1].bytes).len() == 0
    } else {
        raw[i - 1].kind != TokenKind::Verbatim
    }
}

/// Whether the token at place `i` stands at the end of its text: no character
/// data or literal section follows it.
pub open spec fn ends(raw: Seq<Raw>, i: int) -> bool {
    !(i + 1 < raw.len() && is_textual(raw[i + 1].kind))
}

/// The token that a name or content of a kind stands for. There is none
/// where the bytes are no text or where escapes cannot be replaced.
pub open spec fn decoded(kind: TokenKind, bytes: Seq<u8>) -> Option<Token> {
    match text_of(bytes) {
        Some(text) => match kind {
            TokenKind::Open => Some(Token::Open(text)),
            TokenKind::Leaf => Some(Token::Leaf(text)),
            TokenKind::Close => Some(Token::Close(text)),
            TokenKind::Text => match xml_unescaped(text) {
                Some(plain) => Some(Token::Text(plain)),
                None => None,
            },
            TokenKind::Verbatim => Some(Token::Text(text)),
            _ => None,
        },
        None => None,
    }
}

/// What becomes of one scanned token.
pub enum Piece {
    /// It is white space at the start of a text and is left out.
    Skipped,
    /// It is read as this token.
    Read(Token),
    /// It cannot be decoded.
    Unreadable,
}

/// What becomes of the scanned token at place `i`.
///
/// Character data loses the white space at its start where it stands at the
/// start of its text, and is left out if nothing remains. It loses the white
/// space at its end where it stands at the end of its text. Only then are
/// its escapes replaced. Literal sections and names are taken as they are.
pub open spec fn piece(raw: Seq<Raw>, i: int) -> Piece {
    let token = raw[i];
    if token.kind == TokenKind::Text && leads(raw, i) && trim_start(token.bytes).len() == 0 {
        Piece::Skipped
    } else {
        let bytes = if token.kind == TokenKind::Text {
            trimmed(token.bytes, leads(raw, i), ends(raw, i))
        } else {
            token.bytes
        };
        match decoded(token.kind, bytes) {
            Some(read) => Piece::Read(read),
            None => Piece::Unreadable,
        }
    }
}

/// The tokens that the scanned tokens from place `i` on are read as, up to
/// the first that cannot be decoded.
pub open spec fn decoded_from(raw: Seq<Raw>, i: int) -> Seq<Token>
    decreases raw.len() - i,
{
    if i < 0 || i >= raw.len() {
        Seq::empty()
    } else {
        match piece(raw, i) {
            Piece::Skipped => decoded_from(raw, i + 1),
            Piece::Read(token) => seq![token] + decoded_from(raw, i + 1),
            Piece::Unreadable => Seq::empty(),
        }
    }
}

/// The tokens of the element structure of `input`, as far as it can be read:
/// up to its end, or to the first place where the scanner fails or a token
/// cannot be decoded.
pub open spec fn token_stream(input: Seq<u8>) -> Seq<Token> {
    decoded_from(raw_stream(input), 0)
}

/// Scans a body from its start as far as the scanner gets.
pub fn scan_all(body: &[u8]) -> (r: Vec<RawToken>)
    ensures
        raw_views(r@) == raw_stream(body@),
{
    let mut out: Vec<RawToken> = Vec::new();
    let mut pos: usize = 0;
    assert(body@.skip(0) =~= body@);
    assert(raw_views(out@) + raw_stream(body@) =~= raw_stream(body@));
    loop
        invariant
            pos <= body@.len(),
            raw_stream(body@) == raw_views(out@) + raw_stream(body@.skip(pos as int)),
        decreases body@.len() - pos,
    {
        let rest = slice_subrange(body, pos, body.len());
        assert(rest@ =~= body@.skip(pos as int));
        let (kind, left) = scan_kind(rest);
        let ghost scan = xml_scan(rest@);
        let ghost before = raw_views(out@);
        if kind == TokenKind::End || kind == TokenKind::Broken {
            assert(before + Seq::<Raw>::empty() =~= before);
            return out;
        }
        let n = rest.len();
        if kind == TokenKind::Text && left == 0 && n > 0 && rest[n - 1] != 60 {
            let bytes = scan_bytes(rest);
            let token = RawToken { kind, bytes };
            out.push(token);
            assert(raw_views(out@) =~= before + seq![token@]);
            return out;
        }
        if left >= n {
            assert(before + Seq::<Raw>::empty() =~= before);
            return out;
        }
        let taken = n - left;
        let used = if kind == TokenKind::Text {
            if rest[taken - 1] == 60 && taken > 1 {
                taken - 1
            } else {
                assert(before + Seq::<Raw>::empty() =~= before);
                return out;
            }
        } else {
            taken
        };
        assert(resume(rest@, scan) == Some(used as int));
        assert(rest@.skip(used as int) =~= body@.skip(pos + used));
        if kind != TokenKind::Aside {
            let bytes = scan_bytes(rest);
            let token = RawToken { kind, bytes };
            out.push(token);
            proof {
                let tail = raw_stream(body@.skip(pos + used));
                assert(raw_views(out@) =~= before + seq![token@]);
                assert(before + (seq![token@] + tail) =~= raw_views(out@) + tail);
            }
        }
        pos = pos + used;
    }
}

/// `bytes` without the white space at its start, at its end, or both.
pub fn trim(bytes: &[u8], start: bool, end: bool) -> (r: &[u8])
    ensures
        r@ == trimmed(bytes@, start, end),
{
    let n = bytes.len();
    let mut lo: usize = 0;
    assert(bytes@.skip(0) =~= bytes@);
    if start {
        while lo < n && (bytes[lo] == 32 || bytes[lo] == 9 || bytes[lo] == 10 || bytes[lo] == 13)
            invariant
                lo <= n,
                n == bytes@.len(),
                trim_start(bytes@) == trim_start(bytes@.skip(lo as int)),
            decreases n - lo,
        {
            assert(bytes@.skip(lo as int).skip(1) =~= bytes@.skip(lo + 1));
            lo += 1;
        }
    }
    let ghost rest = bytes@.skip(lo as int);
    assert(rest == if start {
        trim_start(bytes@)
    } else {
        bytes@
    });
    let mut hi: usize = n;
    assert(bytes@.subrange(lo as int, n as int) =~= rest);
    if end {
        while hi > lo && (bytes[hi - 1] == 32 || bytes[hi - 1] == 9 || bytes[hi - 1] == 10
            || bytes[hi - 1] == 13)
            invariant
                lo <= hi <= n,
                n == bytes@.len(),
                trim_end(rest) == trim_end(bytes@.subrange(lo as int, hi as int)),
            decreases hi - lo,
        {
            assert(bytes@.subrange(lo as int, hi as int).drop_last() =~= bytes@.subrange(
                lo as int,
                hi - 1,
            ));
            hi -= 1;
        }
    }
    slice_subrange(bytes, lo, hi)
}

/// Decodes a name or content of a kind.
fn decode_token(kind: TokenKind, bytes: &[u8]) -> (r: Option<XmlToken>)
    ensures
        match r {
            Some(token) => decoded(kind, bytes@) == Some(token@),
            None => decoded(kind, bytes@) is None,
        },
{
    let text = match utf8_text(bytes) {
        Some(text) => text,
        None => {
            return None;
        },
    };
    match kind {
        TokenKind::Open => Some(XmlToken::Open(text)),
        TokenKind::Leaf => Some(XmlToken::Leaf(text)),
        TokenKind::Close => Some(XmlToken::Close(text)),
        TokenKind::Text => match unescape(text.as_str()) {
            Some(plain) => Some(XmlToken::Text(plain)),
            None => None,
        },
        TokenKind::Verbatim => Some(XmlToken::Text(text)),
        _ => None,
    }
}

/// Reads scanned tokens as tokens of the element structure, up to the first
/// that cannot be decoded.
pub fn decode_all(raw: &Vec<RawToken>) -> (r: Vec<XmlToken>)
    ensures
        token_views(r@) == decoded_from(raw_views(raw@), 0),
{
    let ghost views = raw_views(raw@);
    let mut out: Vec<XmlToken> = Vec::new();
    let mut lead: bool = true;
    let mut i: usize = 0;
    assert(token_views(out@) + decoded_from(views, 0) =~= decoded_from(views, 0));
    while i < raw.len()
        invariant
            i <= raw.len(),
            views == raw_views(raw@),
            lead == leads(views, i as int),
            decoded_from(views, 0) == token_views(out@) + decoded_from(views, i as int),
        decreases raw.len() - i,
    {
        let token = &raw[i];
        let ghost before = token_views(out@);
        let ghost tail = decoded_from(views, i + 1);
        assert(views[i as int] == token@);
        let textual = token.kind == TokenKind::Text;
        let blank = textual && lead && trim(token.bytes.as_slice(), true, false).len() == 0;
        if !blank {
            let last = !(i + 1 < raw.len() && (raw[i + 1].kind == TokenKind::Text || raw[i
                + 1].kind == TokenKind::Verbatim));
            proof {
                if i + 1 < raw.len() {
                    assert(views[i + 1] == raw@[i + 1]@);
                }
                assert(last == ends(views, i as int));
            }
            let bytes = if textual {
                trim(token.bytes.as_slice(), lead, last)
            } else {
                token.bytes.as_slice()
            };
            match decode_token(token.kind, bytes) {
                Some(read) => {
                    out.push(read);
                    proof {
                        assert(token_views(out@) =~= before + seq![read@]);
                        assert(before + (seq![read@] + tail) =~= token_views(out@) + tail);
                    }
                },
                None => {
                    assert(before + Seq::<Token>::empty() =~= before);
                    return out;
                },
            }
        }
        lead = if textual {
            blank
        } else {
            token.kind != TokenKind::Verbatim
        };
        i += 1;
    }
    assert(token_views(out@) + Seq::<Token>::empty() =~= token_views(out@));
    out
}

/// Reads a body as tokens of its element structure, as far as it can be
/// read.
pub fn tokenize(body: &[u8]) -> (r: Vec<XmlToken>)
    ensures
        token_views(r@) == token_stream(body@),
{
    let raw = scan_all(body);
    decode_all(&raw)
}

} // verus!
