//! Text encodings used on the wire: percent-encoding and base64.

use base64::Engine;
use vstd::prelude::*;
use vstd::slice::*;
use vstd::string::StringSliceAdditionalSpecFns;

verus! {

/// A text of `len` bytes is short enough for an encoder to hold its output
/// in memory.
pub open spec fn encodable(len: nat) -> bool {
    8 * len + 64 <= isize::MAX
}

/// Tells whether `s` is short enough to be encoded.
pub fn is_encodable(s: &str) -> (r: bool)
    ensures
        r == encodable(s.spec_bytes().len()),
{
    let n = s.as_bytes().len();
    let limit: usize = (isize::MAX as usize - 64) / 8;
    n <= limit
}

/// The bytes that percent-encoding leaves as they are: ASCII letters and
/// digits, `-`, `.`, `_` and `~`.
pub open spec fn is_unreserved(b: u8) -> bool {
    ||| 0x30 <= b <= 0x39
    ||| 0x41 <= b <= 0x5a
    ||| 0x61 <= b <= 0x7a
    ||| b == 0x2d
    ||| b == 0x2e
    ||| b == 0x5f
    ||| b == 0x7e
}

/// The upper-case hexadecimal digit for `d`, for `d < 16`.
pub open spec fn hex_digit(d: u8) -> char {
    if d < 10 {
        ((0x30 + d) as u8) as char
    } else {
        ((0x41 + d - 10) as u8) as char
    }
}

/// One byte, percent-encoded: itself where it is unreserved, else `%` and
/// its two hexadecimal digits.
pub open spec fn percent_encoded_byte(b: u8) -> Seq<char> {
    if is_unreserved(b) {
        seq![b as char]
    } else {
        seq!['%', hex_digit(b / 16), hex_digit(b % 16)]
    }
}

/// A run of bytes, percent-encoded byte by byte.
pub open spec fn percent_encoded(bytes: Seq<u8>) -> Seq<char>
    decreases bytes.len(),
{
    if bytes.len() == 0 {
        Seq::empty()
    } else {
        percent_encoded(bytes.drop_last()) + percent_encoded_byte(bytes.last())
    }
}

/// Base64 of a run of bytes, in the standard alphabet and without padding.
pub uninterp spec fn base64_no_pad(bytes: Seq<u8>) -> Seq<char>;

/// Calls `urlencoding::encode`. Trusted: it percent-encodes every byte of
/// the UTF-8 form of `s` but the unreserved ones, with upper-case digits.
#[verifier::external_body]
pub(crate) fn percent_encode(s: &str) -> (r: String)
    requires
        encodable(s.spec_bytes().len()),
    ensures
        r@ == percent_encoded(s.spec_bytes()),
{
    urlencoding::encode(s).into_owned()
}

/// Calls `encode` of `base64::engine::general_purpose::STANDARD_NO_PAD`.
/// Trusted: the text is a function of the bytes of `s` alone, named
/// [`base64_no_pad`].
#[verifier::external_body]
pub(crate) fn base64_encode(s: &str) -> (r: String)
    requires
        encodable(s.spec_bytes().len()),
    ensures
        r@ == base64_no_pad(s.spec_bytes()),
{
    base64::engine::general_purpose::STANDARD_NO_PAD.encode(s)
}

} // verus!
