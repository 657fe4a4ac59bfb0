//! Percent-encoding of URL path segments and quoting of JSON strings.
use vstd::prelude::*;
use vstd::string::StringSliceAdditionalSpecFns;
use vstd::utf8::encode_utf8;

verus! {

/// A byte that a URL segment may carry as it is: ASCII letters, digits and `- . _ ~`.
pub open spec fn is_unreserved(b: u8) -> bool {
    (48 <= b <= 57) || (65 <= b <= 90) || (97 <= b <= 122) || b == 45 || b == 46 || b == 95
        || b == 126
}

/// The upper-case hexadecimal digit for a value below 16.
pub open spec fn hex_digit(d: u8) -> char {
    if d < 10 {
        (d + 48) as u8 as char
    } else {
        (d + 55) as u8 as char
    }
}

/// The value of a hexadecimal digit (either case).
pub open spec fn hex_value(c: char) -> int {
    if '0' <= c <= '9' {
        c as int - 48
    } else if 'A' <= c <= 'F' {
        c as int - 55
    } else if 'a' <= c <= 'f' {
        c as int - 87
    } else {
        0
    }
}

/// How one byte is written in a URL segment: as itself, or as `%XY`.
pub open spec fn encode_byte(b: u8) -> Seq<char> {
    if is_unreserved(b) {
        seq![b as char]
    } else {
        seq!['%', hex_digit(b / 16), hex_digit(b % 16)]
    }
}

pub open spec fn percent_encode_bytes(bs: Seq<u8>) -> Seq<char>
    decreases bs.len(),
{
    if bs.len() == 0 {
        Seq::empty()
    } else {
        encode_byte(bs[0]) + percent_encode_bytes(bs.drop_first())
    }
}

/// The percent-encoding of a string: each byte of its UTF-8 form, in order.
pub open spec fn percent_encode(s: Seq<char>) -> Seq<char> {
    percent_encode_bytes(encode_utf8(s))
}

/// Reading a percent-encoded segment back into bytes.
pub open spec fn percent_decode(cs: Seq<char>) -> Seq<u8>
    decreases cs.len(),
{
    if cs.len() == 0 {
        Seq::empty()
    } else if cs[0] == '%' && cs.len() >= 3 {
        seq![(hex_value(cs[1]) * 16 + hex_value(cs[2])) as u8] + percent_decode(
            cs.subrange(3, cs.len() as int),
        )
    } else {
        seq![cs[0] as u8] + percent_decode(cs.drop_first())
    }
}

/// A character that may stand in an encoded segment: an unreserved byte, `%`, or a hex digit.
pub open spec fn is_encoded_char(c: char) -> bool {
    c == '%' || ('0' <= c <= '9') || ('A' <= c <= 'Z') || ('a' <= c <= 'z') || c == '-' || c
        == '.' || c == '_' || c == '~'
}

proof fn lemma_encode_byte(b: u8)
    ensures
        encode_byte(b).len() >= 1,
        is_unreserved(b) ==> encode_byte(b).len() == 1 && encode_byte(b)[0] != '%' && (
        encode_byte(b)[0] as u8) == b,
        !is_unreserved(b) ==> encode_byte(b).len() == 3 && encode_byte(b)[0] == '%' && (
        (hex_value(encode_byte(b)[1]) * 16 + hex_value(encode_byte(b)[2])) as u8) == b,
        forall|i: int| 0 <= i < encode_byte(b).len() ==> is_encoded_char(#[trigger] encode_byte(b)[i]),
{
    let hi = b / 16;
    let lo = b % 16;
    assert(hex_value(hex_digit(hi)) == hi);
    assert(hex_value(hex_digit(lo)) == lo);
    assert(hi * 16 + lo == b);
}

proof fn lemma_bytes_round_trip(bs: Seq<u8>)
    ensures
        percent_decode(percent_encode_bytes(bs)) == bs,
        forall|i: int|
            0 <= i < percent_encode_bytes(bs).len() ==> is_encoded_char(
                #[trigger] percent_encode_bytes(bs)[i],
            ),
    decreases bs.len(),
{
    if bs.len() > 0 {
        let e = encode_byte(bs[0]);
        let r = percent_encode_bytes(bs.drop_first());
        lemma_encode_byte(bs[0]);
        lemma_bytes_round_trip(bs.drop_first());
        let all = e + r;
        assert(percent_encode_bytes(bs) == all);
        if is_unreserved(bs[0]) {
            assert(all.drop_first() =~= r);
        } else {
            assert(all.subrange(3, all.len() as int) =~= r);
        }
        assert(percent_decode(all) =~= bs);
        assert forall|i: int| 0 <= i < all.len() implies is_encoded_char(#[trigger] all[i]) by {
            if i >= e.len() {
                assert(all[i] == r[i - e.len()]);
            }
        }
    }
}

/// Percent-encoding a string and decoding the result gives back the string's UTF-8
/// bytes, and the encoded form holds only unreserved characters, `%` and hex digits:
/// reserved characters such as `/ : ! @ #` and space never appear in it literally.
pub proof fn lemma_percent_round_trip(s: Seq<char>)
    ensures
        percent_decode(percent_encode(s)) == encode_utf8(s),
        forall|i: int|
            0 <= i < percent_encode(s).len() ==> is_encoded_char(#[trigger] percent_encode(s)[i]),
{
    lemma_bytes_round_trip(encode_utf8(s));
}

/// Relies on `urlencoding::encode`: every byte of the UTF-8 form except ASCII
/// alphanumerics and `- . _ ~` becomes `%` and two upper-case hex digits.
#[verifier::external_body]
pub(crate) fn url_encode(s: &str) -> (r: String)
    ensures
        r@ == percent_encode_bytes(s.spec_bytes()),
{
    urlencoding::encode(s).into_owned()
}

/// The lower-case hexadecimal digit for a value below 16.
pub open spec fn lower_hex_digit(d: u32) -> char {
    if d < 10 {
        (d + 48) as u8 as char
    } else {
        (d + 87) as u8 as char
    }
}

/// How one character is written inside a JSON string: `"` and `\` and the
/// ASCII control characters are escaped, the short forms where JSON has one
/// and `\u00xx` otherwise; every other character stands as it is.
pub open spec fn json_escape(c: char) -> Seq<char> {
    if c == '"' {
        seq!['\\', '"']
    } else if c == '\\' {
        seq!['\\', '\\']
    } else if c == '\u{8}' {
        seq!['\\', 'b']
    } else if c == '\t' {
        seq!['\\', 't']
    } else if c == '\n' {
        seq!['\\', 'n']
    } else if c == '\u{c}' {
        seq!['\\', 'f']
    } else if c == '\r' {
        seq!['\\', 'r']
    } else if (c as u32) < 32 {
        seq!['\\', 'u', '0', '0', lower_hex_digit((c as u32) / 16), lower_hex_digit((c as u32) % 16)]
    } else {
        seq![c]
    }
}

pub open spec fn json_escaped(s: Seq<char>) -> Seq<char>
    decreases s.len(),
{
    if s.len() == 0 {
        Seq::empty()
    } else {
        json_escape(s[0]) + json_escaped(s.drop_first())
    }
}

/// A string as a JSON string literal: quoted, with its characters escaped.
pub open spec fn json_quoted(s: Seq<char>) -> Seq<char> {
    seq!['"'] + json_escaped(s) + seq!['"']
}

/// Relies on `serde_json::to_string` on a `str`: it writes the quoted literal,
/// escaping by its table (`ESCAPE` in ser.rs) with lower-case hex digits, and
/// serialising a string into memory does not fail.
#[verifier::external_body]
pub(crate) fn quote_json(s: &str) -> (r: String)
    ensures
        r@ == json_quoted(s@),
{
    serde_json::to_string(s).unwrap_or_default()
}

} // verus!
