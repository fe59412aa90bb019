use vstd::prelude::*;
use ring::agreement::{agree_ephemeral, EphemeralPrivateKey, UnparsedPublicKey, X25519};
use ring::rand::SystemRandom;
use crate::aead::KEY_LEN;

verus! {

/// ring's single-use X25519 private key, carried opaquely from its generation
/// to the agreement that consumes it.
#[verifier::external_type_specification]
#[verifier::external_body]
pub struct ExEphemeralPrivateKey(EphemeralPrivateKey);

/// Bytes of an X25519 public key.
pub const PUBLIC_KEY_LEN: usize = 32;

/// Relies on ring's `EphemeralPrivateKey::generate` for X25519 with the
/// system random source; it may fail.
#[verifier::external_body]
fn generate_x25519() -> (r: Option<EphemeralPrivateKey>)
{
    EphemeralPrivateKey::generate(&X25519, &SystemRandom::new()).ok()
}

/// Relies on ring's `EphemeralPrivateKey::compute_public_key`: an X25519
/// public key is 32 bytes.
#[verifier::external_body]
fn x25519_public_key(key: &EphemeralPrivateKey) -> (r: Option<Vec<u8>>)
    ensures
        r matches Some(v) ==> v@.len() == PUBLIC_KEY_LEN,
{
    key.compute_public_key().ok().map(|p| p.as_ref().to_vec())
}

/// Relies on ring's `agree_ephemeral` for X25519: the shared secret is 32
/// bytes, and a peer key that is not 32 bytes is refused.
#[verifier::external_body]
fn x25519_agree(key: EphemeralPrivateKey, peer: &[u8]) -> (r: Option<Vec<u8>>)
    ensures
        peer@.len() != PUBLIC_KEY_LEN ==> r is None,
        r matches Some(v) ==> v@.len() == KEY_LEN,
{
    agree_ephemeral(key, &UnparsedPublicKey::new(&X25519, peer), |m| m.to_vec()).ok()
}

/// Runs an ephemeral X25519 agreement with a peer's public key: a fresh key
/// pair is drawn, and its public key is returned with the shared secret. A peer
/// key that is not 32 bytes is refused; the outside calls may also fail.
pub fn ephemeral_agreement(peer: &[u8]) -> (r: Option<(Vec<u8>, Vec<u8>)>)
    ensures
        peer@.len() != PUBLIC_KEY_LEN ==> r is None,
        r matches Some((public, shared)) ==> public@.len() == PUBLIC_KEY_LEN && shared@.len() == KEY_LEN,
{
    let key = match generate_x25519() {
        Some(k) => k,
        None => return None,
    };
    let public = match x25519_public_key(&key) {
        Some(p) => p,
        None => return None,
    };
    match x25519_agree(key, peer) {
        Some(shared) => Some((public, shared)),
        None => None,
    }
}

} // verus!
