//! Text encodings of byte strings.

use base64::Engine;
use vstd::prelude::*;

verus! {

/// The bytes that `bs58::decode(..).into_vec()` reads out of a text with the
/// default (Bitcoin) alphabet, or `None` where it rejects the text.
pub uninterp spec fn base58_decoded(text: Seq<char>) -> Option<Seq<u8>>;

/// The bytes that the `STANDARD` engine of `base64` reads out of a text, or
/// `None` where it rejects the text.
pub uninterp spec fn base64_decoded(text: Seq<char>) -> Option<Seq<u8>>;

/// Decodes a base58 text.
///
/// Calls `bs58::decode(text).into_vec()`. The contract claims only that the
/// outcome is the one that [`base58_decoded`] names for this text.
#[verifier::external_body]
pub(crate) fn decode_base58(text: &str) -> (res: Option<Vec<u8>>)
    ensures
        match res {
            Some(bytes) => base58_decoded(text@) == Some(bytes@),
            None => base58_decoded(text@).is_none(),
        },
{
    bs58::decode(text).into_vec().ok()
}

/// Decodes a base64 text.
///
/// Calls `Engine::decode` on `base64::engine::general_purpose::STANDARD`.
/// The contract claims only that the outcome is the one that
/// [`base64_decoded`] names for this text.
#[verifier::external_body]
pub(crate) fn decode_base64(text: &str) -> (res: Option<Vec<u8>>)
    ensures
        match res {
            Some(bytes) => base64_decoded(text@) == Some(bytes@),
            None => base64_decoded(text@).is_none(),
        },
{
    base64::engine::general_purpose::STANDARD.decode(text).ok()
}

} // verus!
