//! Decimal numbers as text: how counters and codes are read from a reply and
//! written into a message.

use vstd::prelude::*;
use vstd::string::*;
use vstd::utf8::*;

verus! {

pub open spec fn is_digit(c: char) -> bool {
    '0' <= c <= '9'
}

pub open spec fn digit_value(c: char) -> nat
    recommends
        is_digit(c),
{
    (c as int - '0' as int) as nat
}

pub open spec fn digit_char(d: nat) -> char
    recommends
        d < 10,
{
    if d == 0 {
        '0'
    } else if d == 1 {
        '1'
    } else if d == 2 {
        '2'
    } else if d == 3 {
        '3'
    } else if d == 4 {
        '4'
    } else if d == 5 {
        '5'
    } else if d == 6 {
        '6'
    } else if d == 7 {
        '7'
    } else if d == 8 {
        '8'
    } else {
        '9'
    }
}

pub open spec fn all_digits(s: Seq<char>) -> bool {
    forall|i: int| 0 <= i < s.len() ==> is_digit(#[trigger] s[i])
}

/// The number that a run of digits denotes, the first digit weighing most.
pub open spec fn digits_value(s: Seq<char>) -> nat
    decreases s.len(),
{
    if s.len() == 0 {
        0
    } else {
        digits_value(s.drop_last()) * 10 + digit_value(s.last())
    }
}

/// The number that `s` denotes if it is one digit or more and nothing else.
pub open spec fn unsigned_value(s: Seq<char>) -> Option<nat> {
    if s.len() > 0 && all_digits(s) {
        Some(digits_value(s))
    } else {
        None
    }
}

/// What is left of a number's text after its sign.
pub open spec fn after_sign(s: Seq<char>, minus_allowed: bool) -> Seq<char> {
    if s.len() > 0 && (s[0] == '+' || (minus_allowed && s[0] == '-')) {
        s.skip(1)
    } else {
        s
    }
}

/// The unsigned 64-bit number that `s` denotes: an optional `+` and then
/// digits, whose value fits.
pub open spec fn spec_parse_u64(s: Seq<char>) -> Option<u64> {
    match unsigned_value(after_sign(s, false)) {
        Some(v) => if v <= u64::MAX {
            Some(v as u64)
        } else {
            None
        },
        None => None,
    }
}

/// The signed 32-bit number that `s` denotes: an optional `+` or `-` and then
/// digits, whose value fits.
pub open spec fn spec_parse_i32(s: Seq<char>) -> Option<i32> {
    match unsigned_value(after_sign(s, true)) {
        Some(v) => {
            let n = if s[0] == '-' {
                -(v as int)
            } else {
                v as int
            };
            if i32::MIN <= n <= i32::MAX {
                Some(n as i32)
            } else {
                None
            }
        },
        None => None,
    }
}

/// The digits of `n`, without leading zeros.
pub open spec fn decimal(n: nat) -> Seq<char>
    decreases n,
{
    if n < 10 {
        seq![digit_char(n)]
    } else {
        decimal(n / 10).push(digit_char(n % 10))
    }
}

/// The text of `n`: a `-` where it is negative, then the digits of its size.
pub open spec fn signed_decimal(n: int) -> Seq<char> {
    if n < 0 {
        seq!['-'] + decimal((-n) as nat)
    } else {
        decimal(n as nat)
    }
}

/// A longer run of digits denotes no smaller a number than its beginning.
pub proof fn lemma_digits_value_grows(s: Seq<char>, k: int)
    requires
        0 <= k <= s.len(),
    ensures
        digits_value(s.take(k)) <= digits_value(s),
    decreases s.len(),
{
    if k < s.len() {
        assert(s.drop_last().take(k) =~= s.take(k));
        lemma_digits_value_grows(s.drop_last(), k);
        assert(digits_value(s.drop_last()) * 10 >= digits_value(s.drop_last())) by (nonlinear_arith);
    } else {
        assert(s.take(k) =~= s);
    }
}

fn digit_str(d: u64) -> (r: &'static str)
    requires
        d < 10,
    ensures
        r@ == seq![digit_char(d as nat)],
{
    proof {
        reveal_strlit("0");
        reveal_strlit("1");
        reveal_strlit("2");
        reveal_strlit("3");
        reveal_strlit("4");
        reveal_strlit("5");
        reveal_strlit("6");
        reveal_strlit("7");
        reveal_strlit("8");
        reveal_strlit("9");
    }
    let r = if d == 0 {
        "0"
    } else if d == 1 {
        "1"
    } else if d == 2 {
        "2"
    } else if d == 3 {
        "3"
    } else if d == 4 {
        "4"
    } else if d == 5 {
        "5"
    } else if d == 6 {
        "6"
    } else if d == 7 {
        "7"
    } else if d == 8 {
        "8"
    } else {
        "9"
    };
    assert(r@ =~= seq![digit_char(d as nat)]);
    r
}

/// The digits of `n` as text.
pub fn u64_text(n: u64) -> (r: String)
    ensures
        r@ == decimal(n as nat),
    decreases n,
{
    if n < 10 {
        String::from_str(digit_str(n))
    } else {
        let head = u64_text(n / 10);
        let r = head.concat(digit_str(n % 10));
        assert(r@ =~= decimal(n as nat));
        r
    }
}

/// The text of `n`, with a `-` in front where it is negative.
pub fn i32_text(n: i32) -> (r: String)
    ensures
        r@ == signed_decimal(n as int),
{
    if n < 0 {
        let size: u64 = (-(n as i64)) as u64;
        let digits = u64_text(size);
        let r = String::from_str("-").concat(digits.as_str());
        proof {
            reveal_strlit("-");
            assert(r@ =~= signed_decimal(n as int));
        }
        r
    } else {
        u64_text(n as u64)
    }
}

/// The length of an ASCII text, in characters.
pub(crate) fn ascii_len(s: &str) -> (n: usize)
    requires
        s.is_ascii(),
    ensures
        n == s@.len(),
{
    proof {
        is_ascii_chars_encode_utf8(s@);
    }
    s.as_bytes().len()
}

/// The code of the character at position `i` of an ASCII text.
pub(crate) fn ascii_at(s: &str, i: usize) -> (b: u8)
    requires
        s.is_ascii(),
        i < s@.len(),
    ensures
        b as int == s@[i as int] as int,
        b < 128,
{
    proof {
        is_ascii_chars_nat_bound(s@);
        assert((s@.index(i as int) as nat) < 128);
    }
    s.get_ascii(i)
}

/// Reads digits from position `start` of an ASCII text to its end, as a
/// number of at most `limit`.
fn parse_digits(s: &str, start: usize, limit: u64) -> (r: Option<u64>)
    requires
        s.is_ascii(),
        start <= s@.len(),
    ensures
        r == match unsigned_value(s@.skip(start as int)) {
            Some(v) => if v <= limit {
                Some(v as u64)
            } else {
                None
            },
            None => None,
        },
{
    let ghost body = s@.skip(start as int);
    let n = ascii_len(s);
    if start == n {
        return None;
    }
    let mut acc: u64 = 0;
    let mut i: usize = start;
    assert(body.take(0) =~= Seq::<char>::empty());
    while i < n
        invariant
            s.is_ascii(),
            n == s@.len(),
            start <= i <= n,
            body == s@.skip(start as int),
            all_digits(body.take(i - start)),
            acc == digits_value(body.take(i - start)),
            acc <= limit,
        decreases n - i,
    {
        let b = ascii_at(s, i);
        let ghost c = s@[i as int];
        proof {
            assert(c == body[i - start]);
        }
        if b < 48 || b > 57 {
            assert(!is_digit(body[i - start]));
            return None;
        }
        let d: u64 = (b - 48) as u64;
        let ghost next = body.take(i + 1 - start);
        proof {
            assert(is_digit(c));
            assert(next.drop_last() =~= body.take(i - start));
            assert(next.last() == c);
            assert(digits_value(next) == acc * 10 + d);
            assert forall|k: int| 0 <= k < next.len() implies is_digit(#[trigger] next[k]) by {
                if k < i - start {
                    assert(next[k] == body.take(i - start)[k]);
                }
            }
        }
        if limit < d || acc > (limit - d) / 10 {
            proof {
                lemma_digits_value_grows(body, i + 1 - start);
            }
            return None;
        }
        acc = acc * 10 + d;
        i += 1;
    }
    assert(body.take(i - start) =~= body);
    Some(acc)
}

/// Reads an unsigned 64-bit number from its text.
pub fn parse_u64(s: &str) -> (r: Option<u64>)
    ensures
        r == spec_parse_u64(s@),
{
    if !s.is_ascii() {
        proof {
            lemma_not_ascii_not_number(s@, false);
        }
        return None;
    }
    let n = ascii_len(s);
    proof {
        assert(s@.skip(0) =~= s@);
    }
    if n > 0 && ascii_at(s, 0) == 43 {
        parse_digits(s, 1, u64::MAX)
    } else {
        parse_digits(s, 0, u64::MAX)
    }
}

/// Reads a signed 32-bit number from its text.
pub fn parse_i32(s: &str) -> (r: Option<i32>)
    ensures
        r == spec_parse_i32(s@),
{
    if !s.is_ascii() {
        proof {
            lemma_not_ascii_not_number(s@, true);
        }
        return None;
    }
    let n = ascii_len(s);
    proof {
        assert(s@.skip(0) =~= s@);
    }
    if n > 0 && ascii_at(s, 0) == 45 {
        match parse_digits(s, 1, 2147483648) {
            Some(v) => Some((-(v as i64)) as i32),
            None => None,
        }
    } else if n > 0 && ascii_at(s, 0) == 43 {
        match parse_digits(s, 1, 2147483647) {
            Some(v) => Some(v as i32),
            None => None,
        }
    } else {
        match parse_digits(s, 0, 2147483647) {
            Some(v) => Some(v as i32),
            None => None,
        }
    }
}

/// A text with a character outside ASCII denotes no number.
proof fn lemma_not_ascii_not_number(s: Seq<char>, minus_allowed: bool)
    requires
        !is_ascii_chars(s),
    ensures
        unsigned_value(after_sign(s, minus_allowed)) is None,
{
    let i = choose|i: int| 0 <= i < s.len() && !('\0' <= #[trigger] s[i] <= '\u{7f}');
    let body = after_sign(s, minus_allowed);
    if body.len() == s.len() {
        assert(!is_digit(body[i]));
    } else {
        assert(i > 0);
        assert(body[i - 1] == s[i]);
        assert(!is_digit(body[i - 1]));
    }
}

} // verus!
