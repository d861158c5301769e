//! Encodings that the judge relies on but does not implement: base64 and the
//! decoding of UTF-8. Each function here calls the implementation it names; its
//! contract is taken on trust.

use vstd::prelude::*;
use vstd::utf8::*;

verus! {

/// The standard, padded base64 text of a byte string.
pub uninterp spec fn base64_text(data: Seq<u8>) -> Seq<char>;

/// The bytes that a text stands for when read as base64 with the standard
/// alphabet, or `None` where the text cannot be read so. The padding at the
/// end may be left out.
pub uninterp spec fn base64_bytes(text: Seq<char>) -> Option<Seq<u8>>;

/// The text that lossy UTF-8 decoding makes of a byte string: every malformed
/// sequence is replaced by U+FFFD.
pub uninterp spec fn lossy_text(bytes: Seq<u8>) -> Seq<char>;

/// Whether `len` bytes can be encoded: the length of the encoded text, four
/// characters for every three bytes, has to fit in `usize`.
pub open spec fn encodable_len(len: nat) -> bool {
    len / 3 < usize::MAX / 4
}

#[verifier::external_type_specification]
#[verifier::external_body]
pub struct ExDecodeError(base64::DecodeError);

/// `base64::encode`: the result is the standard base64 text of `data`, and
/// decoding that text gives `data` back. The call panics only when the length
/// of the result overflows `usize`, which `requires` rules out.
#[verifier::external_body]
pub(crate) fn base64_encode(data: &[u8]) -> (r: String)
    requires
        encodable_len(data@.len()),
    ensures
        r@ == base64_text(data@),
        base64_bytes(r@) == Some(data@),
{
    base64::encode(data)
}

/// `base64::decode`: succeeds exactly on the texts that can be read as
/// base64 with the standard alphabet, with the bytes they stand for.
#[verifier::external_body]
pub(crate) fn base64_decode(text: &str) -> (r: Result<Vec<u8>, base64::DecodeError>)
    ensures
        match r {
            Ok(bytes) => base64_bytes(text@) == Some(bytes@),
            Err(_) => base64_bytes(text@) is None,
        },
{
    base64::decode(text)
}

/// `String::from_utf8_lossy`: well-formed input is decoded as it is, anything
/// else with replacement characters.
#[verifier::external_body]
pub(crate) fn utf8_lossy(bytes: &[u8]) -> (r: String)
    ensures
        r@ == lossy_text(bytes@),
        valid_utf8(bytes@) ==> r@ == decode_utf8(bytes@),
{
    String::from_utf8_lossy(bytes).into_owned()
}

/// `String::from_utf8`: succeeds exactly on well-formed UTF-8, with the text
/// that the bytes encode.
#[verifier::external_body]
pub(crate) fn utf8_strict(bytes: Vec<u8>) -> (r: Option<String>)
    ensures
        r is Some <==> valid_utf8(bytes@),
        r matches Some(text) ==> text@ == decode_utf8(bytes@),
{
    String::from_utf8(bytes).ok()
}

} // verus!
