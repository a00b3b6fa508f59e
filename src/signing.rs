use vstd::prelude::*;

use sp_core::Pair;

verus! {

/// Whether `signature` is a valid sr25519 signature of `message` under `public`.
pub uninterp spec fn sr25519_verifies(signature: Seq<u8>, message: Seq<u8>, public: Seq<u8>) -> bool;

/// Relies on sp-core's sr25519 `Pair::generate`, `Pair::public` and
/// `Pair::sign`: a fresh random key pair signs `message`, and the signature
/// verifies under the pair's public key. The key pair is dropped on return.
#[verifier::external_body]
pub(crate) fn sign_with_fresh_key(message: &Vec<u8>) -> (r: ([u8; 32], [u8; 64]))
    ensures
        sr25519_verifies(r.1@, message@, r.0@),
{
    let pair = sp_core::sr25519::Pair::generate().0;
    (pair.public().0, pair.sign(message.as_slice()).0)
}

/// Relies on sp-core's sr25519 `Pair::verify`, a function of its arguments.
#[verifier::external_body]
pub(crate) fn sr25519_verify(signature: &[u8; 64], message: &Vec<u8>, public: &[u8; 32]) -> (r: bool)
    ensures
        r == sr25519_verifies(signature@, message@, public@),
{
    sp_core::sr25519::Pair::verify(
        &sp_core::sr25519::Signature::from(*signature),
        message.as_slice(),
        &sp_core::sr25519::Public::from(*public),
    )
}

} // verus!
