//! Percent-encoding of URL components, as the `urlencoding` crate performs it,
//! stated over the UTF-8 bytes of a string.

use vstd::prelude::*;
use vstd::utf8::*;

verus! {

/// Bytes that are written as they are: ASCII letters, digits, `-`, `.`, `_`, `~`.
pub open spec fn is_unreserved(b: u8) -> bool {
    ||| 0x30 <= b <= 0x39
    ||| 0x41 <= b <= 0x5a
    ||| 0x61 <= b <= 0x7a
    ||| b == 0x2d
    ||| b == 0x2e
    ||| b == 0x5f
    ||| b == 0x7e
}

/// The upper-case hexadecimal digit for `n < 16`, as an ASCII byte.
pub open spec fn hex_digit(n: u8) -> u8 {
    if n < 10 {
        (0x30 + n) as u8
    } else {
        (0x41 + n - 10) as u8
    }
}

/// The value of a hexadecimal digit of either case.
pub open spec fn hex_value(b: u8) -> Option<u8> {
    if 0x30 <= b <= 0x39 {
        Some((b - 0x30) as u8)
    } else if 0x41 <= b <= 0x46 {
        Some((b - 0x41 + 10) as u8)
    } else if 0x61 <= b <= 0x66 {
        Some((b - 0x61 + 10) as u8)
    } else {
        None
    }
}

/// One byte, escaped: itself where unreserved, else `%` and two hex digits.
pub open spec fn escape_byte(b: u8) -> Seq<u8> {
    if is_unreserved(b) {
        seq![b]
    } else {
        seq![0x25u8, hex_digit(b / 16), hex_digit(b % 16)]
    }
}

/// Every byte of `bytes`, escaped.
pub open spec fn escape_bytes(bytes: Seq<u8>) -> Seq<u8>
    decreases bytes.len(),
{
    if bytes.len() == 0 {
        seq![]
    } else {
        escape_byte(bytes[0]) + escape_bytes(bytes.drop_first())
    }
}

/// Escapes resolved from left to right: `%` followed by two hex digits
/// becomes the byte they spell; any other byte, a stray `%` too, stays.
pub open spec fn unescape_bytes(bytes: Seq<u8>) -> Seq<u8>
    decreases bytes.len(),
{
    if bytes.len() == 0 {
        seq![]
    } else if bytes[0] == 0x25 && bytes.len() >= 3 && hex_value(bytes[1]) is Some && hex_value(
        bytes[2],
    ) is Some {
        seq![(hex_value(bytes[1])->0 * 16 + hex_value(bytes[2])->0) as u8] + unescape_bytes(
            bytes.skip(3),
        )
    } else {
        seq![bytes[0]] + unescape_bytes(bytes.drop_first())
    }
}

/// ASCII bytes read as characters.
pub open spec fn ascii_text(bytes: Seq<u8>) -> Seq<char> {
    Seq::new(bytes.len(), |i: int| bytes[i] as char)
}

/// The percent-encoded form of a string: its UTF-8 bytes, escaped.
pub open spec fn percent_encode(s: Seq<char>) -> Seq<char> {
    ascii_text(escape_bytes(encode_utf8(s)))
}

/// The string that a percent-encoded text stands for, or `None` where the
/// unescaped bytes are not UTF-8.
pub open spec fn percent_decode(s: Seq<char>) -> Option<Seq<char>> {
    let bytes = unescape_bytes(encode_utf8(s));
    if valid_utf8(bytes) {
        Some(decode_utf8(bytes))
    } else {
        None
    }
}

/// Decoding that keeps the text as written where it cannot be decoded.
pub open spec fn decode_or_raw(s: Seq<char>) -> Seq<char> {
    match percent_decode(s) {
        Some(decoded) => decoded,
        None => s,
    }
}

/// Bytes that an escaped text can hold: unreserved ones and `%`.
pub open spec fn is_escaped_byte(b: u8) -> bool {
    is_unreserved(b) || b == 0x25
}

/// `urlencoding::encode`: every byte of the input except ASCII letters,
/// digits, `-`, `.`, `_` and `~` is replaced by `%` and two upper-case hex digits.
#[verifier::external_body]
pub(crate) fn encode_component(s: &str) -> (encoded: String)
    ensures
        encoded@ == percent_encode(s@),
{
    urlencoding::encode(s).into_owned()
}

/// `urlencoding::decode`: `%XX` escapes are resolved from left to right, other
/// bytes are kept, and the call fails exactly when the outcome is not UTF-8.
#[verifier::external_body]
pub(crate) fn decode_component(s: &str) -> (decoded: Option<String>)
    ensures
        match decoded {
            Some(text) => percent_decode(s@) == Some(text@),
            None => percent_decode(s@) is None,
        },
{
    urlencoding::decode(s).ok().map(|text| text.into_owned())
}

/// The percent-decoded form of `s`, or `s` itself where that is not UTF-8.
pub fn decode_lenient(s: &str) -> (out: String)
    ensures
        out@ == decode_or_raw(s@),
{
    match decode_component(s) {
        Some(text) => text,
        None => s.to_owned(),
    }
}

/// Escaped bytes are unreserved bytes and `%` only.
pub proof fn lemma_escape_bytes_safe(bytes: Seq<u8>)
    ensures
        forall|i: int| 0 <= i < escape_bytes(bytes).len() ==> is_escaped_byte(#[trigger] escape_bytes(bytes)[i]),
    decreases bytes.len(),
{
    if bytes.len() > 0 {
        lemma_escape_bytes_safe(bytes.drop_first());
        let head = escape_byte(bytes[0]);
        let tail = escape_bytes(bytes.drop_first());
        assert forall|i: int| 0 <= i < escape_bytes(bytes).len() implies is_escaped_byte(
            #[trigger] escape_bytes(bytes)[i],
        ) by {
            if i < head.len() {
                assert(escape_bytes(bytes)[i] == head[i]);
            } else {
                assert(escape_bytes(bytes)[i] == tail[i - head.len()]);
            }
        }
    }
}

/// Unescaping undoes escaping.
pub proof fn lemma_unescape_escape(bytes: Seq<u8>)
    ensures
        unescape_bytes(escape_bytes(bytes)) == bytes,
    decreases bytes.len(),
{
    if bytes.len() > 0 {
        let b = bytes[0];
        let rest = bytes.drop_first();
        let escaped = escape_bytes(bytes);
        lemma_unescape_escape(rest);
        if is_unreserved(b) {
            assert(escaped.drop_first() =~= escape_bytes(rest));
            assert(escaped[0] == b);
        } else {
            assert(escaped.skip(3) =~= escape_bytes(rest));
            assert(escaped[0] == 0x25);
            assert(escaped[1] == hex_digit(b / 16));
            assert(escaped[2] == hex_digit(b % 16));
            assert(hex_value(hex_digit(b / 16)) == Some((b / 16) as u8));
            assert(hex_value(hex_digit(b % 16)) == Some((b % 16) as u8));
            assert((b / 16) * 16 + b % 16 == b);
        }
        assert(unescape_bytes(escaped) =~= seq![b] + rest);
        assert(seq![b] + rest =~= bytes);
    }
}

/// The UTF-8 bytes of an escaped text are the escaped bytes themselves.
pub proof fn lemma_escaped_text_bytes(bytes: Seq<u8>)
    ensures
        is_ascii_chars(ascii_text(escape_bytes(bytes))),
        encode_utf8(ascii_text(escape_bytes(bytes))) == escape_bytes(bytes),
{
    let escaped = escape_bytes(bytes);
    let text = ascii_text(escaped);
    lemma_escape_bytes_safe(bytes);
    assert forall|i: int| 0 <= i < text.len() implies '\0' <= #[trigger] text[i] <= '\u{7f}' by {
        assert(is_escaped_byte(escaped[i]));
    }
    is_ascii_chars_encode_utf8(text);
    assert forall|i: int| 0 <= i < escaped.len() implies encode_utf8(text)[i] == escaped[i] by {
        assert(is_escaped_byte(escaped[i]));
        assert(text[i] as u8 == escaped[i]);
    }
    assert(encode_utf8(text) =~= escaped);
}

/// Decoding the percent-encoded form of a string gives the string back.
pub proof fn lemma_decode_encode(s: Seq<char>)
    ensures
        percent_decode(percent_encode(s)) == Some(s),
        decode_or_raw(percent_encode(s)) == s,
{
    let bytes = encode_utf8(s);
    lemma_escaped_text_bytes(bytes);
    lemma_unescape_escape(bytes);
    encode_utf8_valid_utf8(s);
    encode_utf8_decode_utf8(s);
}

/// A percent-encoded text holds none of the characters that delimit a query.
pub proof fn lemma_encode_no_delimiter(s: Seq<char>)
    ensures
        forall|i: int|
            0 <= i < percent_encode(s).len() ==> {
                let c = #[trigger] percent_encode(s)[i];
                c != '&' && c != '=' && c != '?'
            },
{
    let escaped = escape_bytes(encode_utf8(s));
    lemma_escape_bytes_safe(encode_utf8(s));
    assert forall|i: int| 0 <= i < percent_encode(s).len() implies {
        let c = #[trigger] percent_encode(s)[i];
        c != '&' && c != '=' && c != '?'
    } by {
        assert(is_escaped_byte(escaped[i]));
        assert(percent_encode(s)[i] == escaped[i] as char);
    }
}

} // verus!
