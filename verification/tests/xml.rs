use modem_exporter::document::{blank, read_document, Document, Element};
use modem_exporter::xml::{decode_all, scan_all, tokenize, trim, RawToken, TokenKind, XmlToken};

fn open(name: &str) -> XmlToken {
    XmlToken::Open(name.to_string())
}

fn close(name: &str) -> XmlToken {
    XmlToken::Close(name.to_string())
}

fn leaf(name: &str) -> XmlToken {
    XmlToken::Leaf(name.to_string())
}

fn text(content: &str) -> XmlToken {
    XmlToken::Text(content.to_string())
}

fn element(name: &str, content: Option<&str>) -> Element {
    Element { name: name.to_string(), text: content.map(|t| t.to_string()) }
}

fn raw(kind: TokenKind, bytes: &[u8]) -> RawToken {
    RawToken { kind, bytes: bytes.to_vec() }
}

fn document_of(body: &str) -> Option<Document> {
    read_document(&tokenize(body.as_bytes()))
}

#[test]
fn tokenize_reads_tags_and_text_in_order() {
    assert_eq!(
        tokenize(b"<a><b>x</b><c/></a>"),
        vec![open("a"), open("b"), text("x"), close("b"), leaf("c"), close("a")]
    );
}

#[test]
fn tokenize_of_an_empty_body_is_empty() {
    assert_eq!(tokenize(b""), vec![]);
}

#[test]
fn tokenize_leaves_out_declarations_and_comments() {
    assert_eq!(
        tokenize(b"<?xml version=\"1.0\" encoding=\"UTF-8\"?><!-- c --><a/>"),
        vec![leaf("a")]
    );
}

#[test]
fn tokenize_leaves_out_white_space_between_tags() {
    assert_eq!(
        tokenize(b" <a>\r\n<b>1</b>\r\n\t<c> </c></a>\n"),
        vec![open("a"), open("b"), text("1"), close("b"), open("c"), close("c"), close("a")]
    );
}

#[test]
fn tokenize_trims_character_data_at_the_ends_of_a_text() {
    assert_eq!(tokenize(b"<a> 100 </a>"), vec![open("a"), text("100"), close("a")]);
    assert_eq!(tokenize(b"<a>\n x  y\t</a>"), vec![open("a"), text("x  y"), close("a")]);
    assert_eq!(
        tokenize(b"<a> x <![CDATA[ y ]]> z </a>"),
        vec![open("a"), text("x "), text(" y "), text(" z"), close("a")]
    );
    assert_eq!(
        tokenize(b"<a> x <!-- c --> y </a>"),
        vec![open("a"), text("x "), text(" y"), close("a")]
    );
    assert_eq!(
        tokenize(b"<a> <!-- c --> y </a>"),
        vec![open("a"), text("y"), close("a")]
    );
    assert_eq!(
        tokenize(b"<a> x <!-- c -->  </a>"),
        vec![open("a"), text("x "), text(""), close("a")]
    );
    assert_eq!(tokenize(b"<a><![CDATA[ y ]]></a>"), vec![open("a"), text(" y "), close("a")]);
    assert_eq!(tokenize(b"<a>&#32;x&#32;</a>"), vec![open("a"), text(" x "), close("a")]);
}

#[test]
fn tokenize_takes_the_name_without_attributes() {
    assert_eq!(
        tokenize(b"<a id=\"1\" class='x'>v</a >"),
        vec![open("a"), text("v"), close("a")]
    );
}

#[test]
fn tokenize_replaces_escapes_in_text() {
    assert_eq!(
        tokenize(b"<a>x &amp; y &lt;z&gt; &#65;&#x42;</a>"),
        vec![open("a"), text("x & y <z> AB"), close("a")]
    );
}

#[test]
fn tokenize_keeps_literal_sections_as_they_are() {
    assert_eq!(
        tokenize(b"<a><![CDATA[x &amp; <y>]]></a>"),
        vec![open("a"), text("x &amp; <y>"), close("a")]
    );
}

#[test]
fn tokenize_reads_text_beyond_ascii() {
    assert_eq!(
        tokenize("<a>grüße</a>".as_bytes()),
        vec![open("a"), text("grüße"), close("a")]
    );
}

#[test]
fn tokenize_stops_at_bytes_that_are_no_text() {
    assert_eq!(tokenize(b"<a>\xff\xfe</a>"), vec![open("a")]);
    assert_eq!(tokenize(b"<\xff>x</\xff>"), vec![]);
    assert_eq!(tokenize(b"<a><b/>\xff<c/>"), vec![open("a"), leaf("b")]);
}

#[test]
fn tokenize_stops_at_escapes_that_are_unknown_or_open() {
    assert_eq!(tokenize(b"<a>&nosuch;</a>"), vec![open("a")]);
    assert_eq!(tokenize(b"<a>x & y</a>"), vec![open("a")]);
}

#[test]
fn tokenize_stops_at_a_comment_that_does_not_end() {
    assert_eq!(tokenize(b"<a><!-- never closed</a>"), vec![open("a")]);
}

#[test]
fn blank_knows_the_four_white_space_characters() {
    assert!(blank(""));
    assert!(blank(" \t\r\n"));
    assert!(!blank(" x "));
    assert!(!blank("\u{a0}"));
    assert!(!blank("\u{2003}"));
}

#[test]
fn read_document_lists_the_children_of_the_root() {
    assert_eq!(
        document_of("<response><SesInfo>abc</SesInfo><TokInfo>def</TokInfo></response>"),
        Some(Document {
            root: "response".to_string(),
            children: vec![element("SesInfo", Some("abc")), element("TokInfo", Some("def"))],
        })
    );
}

#[test]
fn read_document_skips_white_space_and_the_declaration() {
    let body = "<?xml version=\"1.0\" encoding=\"UTF-8\"?>\r\n<response>\r\n<a>1</a>\r\n<b></b>\r\n<c/>\r\n</response>\r\n";
    assert_eq!(
        document_of(body),
        Some(Document {
            root: "response".to_string(),
            children: vec![
                element("a", Some("1")),
                element("b", Some("")),
                element("c", Some("")),
            ],
        })
    );
}

#[test]
fn read_document_marks_children_that_hold_elements() {
    assert_eq!(
        document_of("<r><a>x<b>y</b>z</a><c>1</c></r>"),
        Some(Document {
            root: "r".to_string(),
            children: vec![element("a", None), element("c", Some("1"))],
        })
    );
    assert_eq!(
        document_of("<r><a><b/></a></r>"),
        Some(Document { root: "r".to_string(), children: vec![element("a", None)] })
    );
}

#[test]
fn read_document_joins_the_pieces_of_a_text() {
    assert_eq!(
        document_of("<r><a>x<!-- c -->y<![CDATA[z]]></a></r>"),
        Some(Document { root: "r".to_string(), children: vec![element("a", Some("xyz"))] })
    );
}

#[test]
fn read_document_takes_a_root_without_content() {
    assert_eq!(
        document_of("<response/>"),
        Some(Document { root: "response".to_string(), children: vec![] })
    );
    assert_eq!(
        document_of("<response></response>"),
        Some(Document { root: "response".to_string(), children: vec![] })
    );
}

#[test]
fn read_document_does_not_look_past_the_root() {
    let expected =
        Some(Document { root: "r".to_string(), children: vec![element("a", Some("1"))] });
    assert_eq!(document_of("<r><a>1</a></r><s>"), expected);
    assert_eq!(document_of("<r><a>1</a></r>trailing text"), expected);
    assert_eq!(document_of("<r><a>1</a></r><!-- never closed"), expected);
    assert_eq!(document_of("<r><a>1</a></r>&bogus;"), expected);
    assert_eq!(document_of("<r><a>1</a></r></s>"), expected);
    assert_eq!(read_document(&tokenize(b"<r><a>1</a></r>\xff\xfe")), expected);
    assert_eq!(read_document(&tokenize(b"<r><a>1</a></r><s")), expected);
}

#[test]
fn read_document_trims_the_text_of_a_child() {
    assert_eq!(
        document_of("<r>\n  <a> 100 </a>\n  <b>\tx y\n</b>\n</r>\n"),
        Some(Document {
            root: "r".to_string(),
            children: vec![element("a", Some("100")), element("b", Some("x y"))],
        })
    );
    assert_eq!(
        document_of("<r><a> x <![CDATA[ y ]]></a></r>"),
        Some(Document { root: "r".to_string(), children: vec![element("a", Some("x  y "))] })
    );
}

#[test]
fn scan_all_reads_names_and_content_as_they_stand() {
    assert_eq!(
        scan_all(b"<?xml version=\"1.0\"?>\n<a id=\"1\"> x &amp; <![CDATA[ y ]]><b/></a>"),
        vec![
            raw(TokenKind::Text, b"\n"),
            raw(TokenKind::Open, b"a"),
            raw(TokenKind::Text, b" x &amp; "),
            raw(TokenKind::Verbatim, b" y "),
            raw(TokenKind::Leaf, b"b"),
            raw(TokenKind::Close, b"a"),
        ]
    );
    assert_eq!(scan_all(b""), vec![]);
    assert_eq!(scan_all(b"<a><b"), vec![raw(TokenKind::Open, b"a")]);
}

#[test]
fn decode_all_works_on_tokens_that_were_built_by_hand() {
    let scanned = vec![
        raw(TokenKind::Text, b" \n"),
        raw(TokenKind::Open, b"a"),
        raw(TokenKind::Text, b"  "),
        raw(TokenKind::Text, b" x &lt; "),
        raw(TokenKind::Verbatim, b" y "),
        raw(TokenKind::Text, b" z "),
        raw(TokenKind::Close, b"a"),
        raw(TokenKind::Text, b"\xff"),
        raw(TokenKind::Leaf, b"never"),
    ];
    assert_eq!(
        decode_all(&scanned),
        vec![open("a"), text("x < "), text(" y "), text(" z"), close("a")]
    );
    assert_eq!(decode_all(&vec![]), vec![]);
    assert_eq!(decode_all(&vec![raw(TokenKind::End, b"")]), vec![]);
}

#[test]
fn trim_takes_white_space_from_the_ends_that_are_asked_for() {
    assert_eq!(trim(b" \t x y \r\n", true, true), b"x y");
    assert_eq!(trim(b" \t x y \r\n", true, false), b"x y \r\n");
    assert_eq!(trim(b" \t x y \r\n", false, true), b" \t x y");
    assert_eq!(trim(b" \t x y \r\n", false, false), b" \t x y \r\n");
    assert_eq!(trim(b" \n ", true, true), b"");
    assert_eq!(trim(b" \n ", false, true), b"");
    assert_eq!(trim(b"", true, true), b"");
    assert_eq!(trim(b"\x0bx\x0c", true, true), b"\x0bx\x0c");
}

#[test]
fn read_document_refuses_tags_that_do_not_match() {
    assert_eq!(document_of("<r><a>1</b></r>"), None);
    assert_eq!(document_of("<r><a><b>1</a></b></r>"), None);
    assert_eq!(document_of("<r><a>1</a></s>"), None);
    assert_eq!(document_of("</r>"), None);
}

#[test]
fn read_document_refuses_a_root_that_is_not_closed() {
    assert_eq!(document_of(""), None);
    assert_eq!(document_of("   "), None);
    assert_eq!(document_of("<r>"), None);
    assert_eq!(document_of("<r><a>1</a>"), None);
    assert_eq!(document_of("<r><a>1"), None);
}

#[test]
fn read_document_refuses_text_before_the_root() {
    assert_eq!(document_of("hello<r></r>"), None);
    assert_eq!(document_of("not a document"), None);
}

#[test]
fn read_document_works_on_tokens_that_were_built_by_hand() {
    let tokens = vec![open("r"), text("\n"), open("a"), text("1"), close("a"), close("r")];
    assert_eq!(
        read_document(&tokens),
        Some(Document { root: "r".to_string(), children: vec![element("a", Some("1"))] })
    );
    assert_eq!(read_document(&vec![open("r"), close("a")]), None);
    assert_eq!(read_document(&vec![]), None);
    assert_eq!(read_document(&vec![text("x"), leaf("r")]), None);
    assert_eq!(
        read_document(&vec![text(" "), leaf("r")]),
        Some(Document { root: "r".to_string(), children: vec![] })
    );
}

#[test]
fn tokenize_passes_a_byte_order_mark() {
    assert_eq!(
        tokenize("\u{feff}<?xml version=\"1.0\"?><r><a>1</a></r>".as_bytes()),
        vec![open("r"), open("a"), text("1"), close("a"), close("r")]
    );
    assert_eq!(tokenize("\u{feff}".as_bytes()), vec![]);
}

#[test]
fn tokenize_reads_text_that_runs_to_the_end() {
    assert_eq!(tokenize(b"x"), vec![text("x")]);
    assert_eq!(tokenize(b"<a/>\n"), vec![leaf("a")]);
    assert_eq!(tokenize(b"<a/> tail \n"), vec![leaf("a"), text("tail")]);
    assert_eq!(tokenize(b"<a/>tail"), vec![leaf("a"), text("tail")]);
    assert_eq!(tokenize(b"<a>x<"), vec![open("a"), text("x")]);
}

#[test]
fn tokenize_stops_at_a_tag_that_is_cut_off() {
    assert_eq!(tokenize(b"<a><b"), vec![open("a")]);
    assert_eq!(tokenize(b"<a><b attr='1'"), vec![open("a")]);
    assert_eq!(tokenize(b"<"), vec![]);
}

#[test]
fn odd_bodies_are_read_or_refused_but_never_more() {
    let bodies: [&[u8]; 24] = [
        b"<!-->",
        b"<!--->",
        b"<!---->",
        b"<![CDATA[]]>",
        b"<![CDATA[",
        b"<!DOCTYPE",
        b"<!DOCTYPE html>",
        b"<!",
        b"<!x>",
        b"<?",
        b"<?>",
        b"<??>",
        b"<?xml?>",
        b"</>",
        b"<>",
        b"< >",
        b"</ >",
        b"<a/ >",
        b"<a b='>",
        b"<a b=\">\"/>",
        b"&",
        b"\xef\xbb\xbf\xef\xbb\xbf<a/>",
        b"\x00",
        b"<\x00>",
    ];
    for body in bodies {
        let _ = read_document(&tokenize(body));
    }
}

#[test]
fn odd_escapes_are_replaced_or_refused() {
    assert_eq!(tokenize(b"<a>&#48;&#x31;</a>"), vec![open("a"), text("01"), close("a")]);
    assert_eq!(
        tokenize(b"<a>&quot;&apos;</a>"),
        vec![open("a"), text("\"'"), close("a")]
    );
    let refused: [&[u8]; 8] = [
        b"<a>&;</a>",
        b"<a>&#;</a>",
        b"<a>&#x;</a>",
        b"<a>&#xFFFFFFFFFF;</a>",
        b"<a>&#99999999999;</a>",
        b"<a>&#xD800;</a>",
        b"<a>&amp</a>",
        b"<a>&#-1;</a>",
    ];
    for body in refused {
        assert_eq!(tokenize(body), vec![open("a")], "{:?}", body);
    }
}
