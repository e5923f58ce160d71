//! Base64 text and fresh random bytes, as the `base64` and `getrandom`
//! crates provide them.

use vstd::prelude::*;

verus! {

/// What `base64::Engine::encode` returns for `bytes` on the `STANDARD`
/// engine: their padded base64 text in the standard alphabet.
pub uninterp spec fn base64_encoded(bytes: Seq<u8>) -> Seq<char>;

/// What `base64::Engine::decode` returns for `text` on the `STANDARD`
/// engine: the bytes that the text stands for, `None` where the engine
/// rejects the text.
pub uninterp spec fn base64_decoded(text: Seq<char>) -> Option<Seq<u8>>;

/// `getrandom::Error`, carried from the call to the place where its text
/// is taken.
#[verifier::external_type_specification]
#[verifier::external_body]
pub struct ExRandomError(getrandom::Error);

/// Whether `c` can stand in padded base64 text of the standard alphabet:
/// a letter, a digit, `+`, `/`, or the padding `=`.
pub open spec fn is_base64_char(c: char) -> bool {
    let u = c as u32;
    ||| 0x41 <= u <= 0x5A
    ||| 0x61 <= u <= 0x7A
    ||| 0x30 <= u <= 0x39
    ||| u == 0x2B
    ||| u == 0x2F
    ||| u == 0x3D
}

/// The length of the padded base64 text of `len` bytes: four characters
/// for every three bytes begun.
pub open spec fn base64_len(len: nat) -> nat {
    4 * ((len + 2) / 3)
}

/// `base64::Engine::encode` on the `STANDARD` engine: the result is the
/// encoding of exactly the given bytes. It has four characters for every
/// three bytes begun, all of the standard alphabet or the padding, and the
/// engine decodes it to the bytes it was made from. The engine panics where
/// the length of the encoding does not fit the machine's word: such inputs
/// are left out.
#[verifier::external_body]
pub(crate) fn encode_standard(bytes: &Vec<u8>) -> (text: String)
    requires
        bytes@.len() <= usize::MAX / 2,
    ensures
        text@ == base64_encoded(bytes@),
        text@.len() == base64_len(bytes@.len()),
        forall|i: int| 0 <= i < text@.len() ==> is_base64_char(#[trigger] text@[i]),
        base64_decoded(text@) == Some(bytes@),
{
    base64::Engine::encode(&base64::engine::general_purpose::STANDARD, bytes)
}

/// `base64::Engine::decode` on the `STANDARD` engine: `Some` with the decoded
/// bytes when the text is valid, `None` when the engine rejects it.
#[verifier::external_body]
pub(crate) fn decode_standard(text: &str) -> (bytes: Option<Vec<u8>>)
    ensures
        match bytes {
            Some(b) => base64_decoded(text@) == Some(b@),
            None => base64_decoded(text@) is None,
        },
{
    base64::Engine::decode(&base64::engine::general_purpose::STANDARD, text).ok()
}

/// `getrandom::getrandom` on a zeroed buffer of `len` bytes: on success the
/// buffer comes back with its length unchanged. Nothing is claimed of the
/// bytes themselves.
#[verifier::external_body]
pub(crate) fn random_bytes(len: usize) -> (out: Result<Vec<u8>, getrandom::Error>)
    ensures
        out matches Ok(bytes) ==> bytes@.len() == len,
{
    let mut buffer = vec![0u8; len];
    getrandom::getrandom(&mut buffer).map(|_| buffer)
}

/// `to_string` on a `getrandom::Error`: the text that the error displays.
/// Nothing is claimed of the text.
#[verifier::external_body]
pub(crate) fn random_error_text(error: &getrandom::Error) -> String {
    error.to_string()
}

} // verus!
