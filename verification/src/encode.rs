//! Percent-encoding of text for use inside a URL's query.

use vstd::prelude::*;
use vstd::utf8::encode_utf8;

verus! {

/// Bytes that stand for themselves in a URL: ASCII letters and digits, and
/// `-`, `.`, `_`, `~`.
pub open spec fn is_unreserved(byte: u8) -> bool {
    ||| 0x30 <= byte <= 0x39
    ||| 0x41 <= byte <= 0x5A
    ||| 0x61 <= byte <= 0x7A
    ||| byte == 0x2D
    ||| byte == 0x2E
    ||| byte == 0x5F
    ||| byte == 0x7E
}

/// The upper-case hexadecimal digit for a value below 16.
pub open spec fn hex_digit(value: int) -> char
    recommends
        0 <= value < 16,
{
    if value < 10 {
        (0x30 + value) as u8 as char
    } else {
        (0x41 + value - 10) as u8 as char
    }
}

/// How one byte is written: as itself where it is unreserved, else as `%`
/// and its two hexadecimal digits.
pub open spec fn percent_byte(byte: u8) -> Seq<char> {
    if is_unreserved(byte) {
        seq![byte as char]
    } else {
        seq!['%', hex_digit(byte as int / 16), hex_digit(byte as int % 16)]
    }
}

/// The bytes written one after another.
pub open spec fn percent_bytes(bytes: Seq<u8>) -> Seq<char> {
    bytes.map_values(|byte: u8| percent_byte(byte)).flatten()
}

/// The percent-encoding of a text: that of its UTF-8 bytes.
pub open spec fn percent_encoded(text: Seq<char>) -> Seq<char> {
    percent_bytes(encode_utf8(text))
}

/// Calls `urlencoding::encode`, which walks the UTF-8 bytes of `text`, keeps
/// ASCII letters, digits and `-`, `.`, `_`, `~`, and writes every other byte
/// as `%` followed by two upper-case hexadecimal digits.
#[verifier::external_body]
pub(crate) fn percent_encode(text: &str) -> (encoded: String)
    ensures
        encoded@ == percent_encoded(text@),
{
    urlencoding::encode(text).into_owned()
}

/// Characters that cannot end a query or split it: `%` and the characters
/// of the unreserved bytes.
pub open spec fn query_safe(c: char) -> bool {
    c == '%' || (c as u32 <= 0x7F && is_unreserved(c as u8))
}

/// One byte is written in query-safe characters, one or three of them.
pub proof fn lemma_percent_byte_is_query_safe(byte: u8)
    ensures
        percent_byte(byte).len() == 1 || percent_byte(byte).len() == 3,
        forall|i: int|
            0 <= i < percent_byte(byte).len() ==> query_safe(#[trigger] percent_byte(byte)[i]),
{
}

/// Whatever the text, its percent-encoding holds query-safe characters
/// only: no space, `&`, `=`, `#` or `?`, and nothing outside ASCII.
pub proof fn lemma_percent_encoded_is_query_safe(text: Seq<char>)
    ensures
        forall|i: int|
            0 <= i < percent_encoded(text).len() ==> query_safe(#[trigger] percent_encoded(text)[i]),
{
    lemma_percent_bytes_are_query_safe(encode_utf8(text));
}

proof fn lemma_percent_bytes_are_query_safe(bytes: Seq<u8>)
    ensures
        forall|i: int|
            0 <= i < percent_bytes(bytes).len() ==> query_safe(#[trigger] percent_bytes(bytes)[i]),
    decreases bytes.len(),
{
    if bytes.len() > 0 {
        let front = bytes.drop_last();
        lemma_percent_bytes_are_query_safe(front);
        lemma_percent_byte_is_query_safe(bytes.last());
        front.lemma_flat_map_push(|byte: u8| percent_byte(byte), bytes.last());
        assert(front.push(bytes.last()) =~= bytes);
        assert(percent_bytes(bytes) =~= percent_bytes(front) + percent_byte(bytes.last()));
    }
}

} // verus!
