//! Text forms of byte strings: base-58 and base-64.
//!
//! The two alphabets are the business of the `bs58` and `base64` crates. This
//! module gives each direction a name and states the one relation between the
//! directions that the rest of the library relies on: decoding what was
//! encoded gives the bytes back.

use vstd::prelude::*;

verus! {

/// The base-58 text that `bs58::encode(..).into_string()` produces for `bytes`.
pub uninterp spec fn base58_text(bytes: Seq<u8>) -> Seq<char>;

/// The bytes that `bs58::decode(..).into_vec()` produces for `text`, or `None`
/// where it reports an error.
pub uninterp spec fn base58_bytes(text: Seq<char>) -> Option<Seq<u8>>;

/// The base-64 text that `base64::encode` produces for `bytes`.
pub uninterp spec fn base64_text(bytes: Seq<u8>) -> Seq<char>;

/// The bytes that `base64::decode` produces for `text`, or `None` where it
/// reports an error.
pub uninterp spec fn base64_bytes(text: Seq<char>) -> Option<Seq<u8>>;

/// Calls `bs58::encode(bytes).into_string()`. Trusted: the result is the
/// base-58 text of `bytes` in the default alphabet, and that text decodes back
/// to `bytes`.
#[verifier::external_body]
pub(crate) fn base58_encode(bytes: &[u8]) -> (text: String)
    ensures
        text@ == base58_text(bytes@),
        base58_bytes(text@) == Some(bytes@),
{
    bs58::encode(bytes).into_string()
}

/// Calls `bs58::decode(text).into_vec()`. Trusted: the result is a function of
/// the text alone; an error of the crate is reported as `None`.
#[verifier::external_body]
pub(crate) fn base58_decode(text: &str) -> (bytes: Option<Vec<u8>>)
    ensures
        bytes.deep_view() == base58_bytes(text@),
{
    bs58::decode(text).into_vec().ok()
}

/// Calls `base64::encode(bytes)`. Trusted: the result is the base-64 text of
/// `bytes` in the standard alphabet with padding, and that text decodes back
/// to `bytes`.
#[verifier::external_body]
pub(crate) fn base64_encode(bytes: &[u8]) -> (text: String)
    ensures
        text@ == base64_text(bytes@),
        base64_bytes(text@) == Some(bytes@),
{
    base64::encode(bytes)
}

/// Calls `base64::decode(text)`. Trusted: the result is a function of the text
/// alone; an error of the crate is reported as `None`.
#[verifier::external_body]
pub(crate) fn base64_decode(text: &str) -> (bytes: Option<Vec<u8>>)
    ensures
        bytes.deep_view() == base64_bytes(text@),
{
    base64::decode(text).ok()
}

} // verus!
