//! Percent-encoding of a string for use in a URL query component.

use vstd::prelude::*;
use vstd::utf8::encode_utf8;
use crate::whitespace::is_whitespace;

verus! {

/// Bytes that are written as they are: ASCII letters and digits, `-`, `.`,
/// `_` and `~`.
pub open spec fn is_unreserved(b: u8) -> bool {
    ||| 0x30 <= b <= 0x39
    ||| 0x41 <= b <= 0x5A
    ||| 0x61 <= b <= 0x7A
    ||| b == 0x2D
    ||| b == 0x2E
    ||| b == 0x5F
    ||| b == 0x7E
}

/// The upper-case hexadecimal digit for `n`, which is below 16.
pub open spec fn hex_digit(n: u8) -> char
    recommends
        n < 16,
{
    if n < 10 {
        (0x30 + n) as u8 as char
    } else {
        (0x37 + n) as u8 as char
    }
}

/// What one byte becomes: itself, or `%` and its two hexadecimal digits.
pub open spec fn escaped_byte(b: u8) -> Seq<char> {
    if is_unreserved(b) {
        seq![b as char]
    } else {
        seq!['%', hex_digit(b / 16), hex_digit(b % 16)]
    }
}

/// The percent-encoding of a byte sequence.
pub open spec fn percent_encoded(bytes: Seq<u8>) -> Seq<char>
    decreases bytes.len(),
{
    if bytes.len() == 0 {
        Seq::empty()
    } else {
        escaped_byte(bytes.first()) + percent_encoded(bytes.drop_first())
    }
}

/// The percent-encoding of the UTF-8 form of a string.
pub open spec fn percent_encoded_text(s: Seq<char>) -> Seq<char> {
    percent_encoded(encode_utf8(s))
}

/// A percent-encoding holds no whitespace, and is empty only for no bytes.
pub proof fn lemma_percent_encoded_chars(bytes: Seq<u8>)
    ensures
        forall|i: int|
            0 <= i < percent_encoded(bytes).len() ==> !is_whitespace(
                #[trigger] percent_encoded(bytes)[i],
            ),
        bytes.len() > 0 ==> percent_encoded(bytes).len() > 0,
    decreases bytes.len(),
{
    if bytes.len() > 0 {
        let head = escaped_byte(bytes.first());
        let tail = percent_encoded(bytes.drop_first());
        lemma_percent_encoded_chars(bytes.drop_first());
        assert forall|i: int| 0 <= i < (head + tail).len() implies !is_whitespace(
            #[trigger] (head + tail)[i],
        ) by {
            if i < head.len() {
                assert((head + tail)[i] == head[i]);
            } else {
                assert((head + tail)[i] == tail[i - head.len()]);
            }
        }
    }
}

/// The percent-encoding of a non-empty string is not empty.
pub proof fn lemma_percent_encoded_text_nonempty(s: Seq<char>)
    requires
        s.len() > 0,
    ensures
        percent_encoded_text(s).len() > 0,
{
    let bytes = encode_utf8(s);
    assert(bytes.len() > 0);
    lemma_percent_encoded_chars(bytes);
}

/// `urlencoding::encode`: every byte of the string's UTF-8 form is kept if
/// it is an ASCII letter, a digit, `-`, `.`, `_` or `~`, and is otherwise
/// written as `%` and two upper-case hexadecimal digits.
#[verifier::external_body]
pub(crate) fn percent_encode(s: &str) -> (r: String)
    ensures
        r@ == percent_encoded_text(s@),
{
    urlencoding::encode(s).into_owned()
}

} // verus!
