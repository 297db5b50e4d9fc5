//! Ed25519 signatures, as the `ed25519-consensus` crate makes and checks them.

use vstd::prelude::*;

verus! {

/// Whether `signature` is accepted as a signature of `msg` under the
/// verification key `vk`.
pub uninterp spec fn signature_valid(vk: Seq<u8>, msg: Seq<u8>, signature: Seq<u8>) -> bool;

/// The signature that the signing key `key` makes of `msg`.
pub uninterp spec fn signature_by(key: Seq<u8>, msg: Seq<u8>) -> Seq<u8>;

/// Reads `vk` as an `ed25519_consensus::VerificationKey` and `signature` as
/// an `ed25519_consensus::Signature`, and calls `VerificationKey::verify`. The
/// contract gives the answer a name: true where both read and the call accepts
/// the signature, false otherwise.
#[verifier::external_body]
fn ed25519_verify(vk: &[u8], msg: &[u8], signature: &[u8]) -> (ok: bool)
    ensures
        ok == signature_valid(vk@, msg@, signature@),
{
    match (
        ed25519_consensus::VerificationKey::try_from(vk),
        ed25519_consensus::Signature::try_from(signature),
    ) {
        (Ok(vk), Ok(signature)) => vk.verify(&signature, msg).is_ok(),
        _ => false,
    }
}

/// Makes an `ed25519_consensus::SigningKey` of `key` and calls its `sign`.
/// The contract gives the 64 bytes of the signature a name; they depend on the
/// key and the message alone.
#[verifier::external_body]
fn ed25519_sign(key: &[u8; 32], msg: &[u8]) -> (signature: Vec<u8>)
    ensures
        signature@ == signature_by(key@, msg@),
{
    ed25519_consensus::SigningKey::from(*key).sign(msg).to_bytes().to_vec()
}

/// Whether `signature` is accepted as a signature of `msg` under `vk`.
pub fn verify_signature(vk: &[u8], msg: &[u8], signature: &[u8]) -> (ok: bool)
    ensures
        ok == signature_valid(vk@, msg@, signature@),
{
    ed25519_verify(vk, msg, signature)
}

/// The signature that `key` makes of `msg`.
pub fn sign_message(key: &[u8; 32], msg: &[u8]) -> (signature: Vec<u8>)
    ensures
        signature@ == signature_by(key@, msg@),
{
    ed25519_sign(key, msg)
}

} // verus!
