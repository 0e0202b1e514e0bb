//! Ed25519 keys and signatures as plain bytes, and the entropy they are made of.

use ed25519_dalek::Signature;
use ed25519_dalek::SignatureError;
use ed25519_dalek::Signer;
use ed25519_dalek::SigningKey;
use ed25519_dalek::Verifier;
use ed25519_dalek::VerifyingKey;
use rand::rngs::OsRng;
use rand::RngCore;
use vstd::prelude::*;

verus! {

/// Length of the seed that a signing key is made of.
pub const SEED_BYTES: usize = 32;

/// Length of an encoded public key.
pub const PUBLIC_KEY_BYTES: usize = 32;

/// Length of an encoded signature.
pub const SIGNATURE_BYTES: usize = 64;

#[verifier::external_type_specification]
#[verifier::external_body]
pub struct ExSignatureError(SignatureError);

#[verifier::external_type_specification]
#[verifier::external_body]
pub struct ExEntropyError(rand::Error);

/// The encoded public key of the signing key made of `seed`.
pub uninterp spec fn ed25519_public_key(seed: Seq<u8>) -> Seq<u8>;

/// The signature that the signing key made of `seed` gives `message`.
pub uninterp spec fn ed25519_signature(seed: Seq<u8>, message: Seq<u8>) -> Seq<u8>;

/// Whether `signature` is accepted for `message` under the encoded public key.
pub uninterp spec fn ed25519_verifies(
    public_key: Seq<u8>,
    message: Seq<u8>,
    signature: Seq<u8>,
) -> bool;

/// `RngCore::try_fill_bytes` of rand's `OsRng`, on a fresh buffer of `count`
/// bytes. Trusted: where the entropy source answers, the buffer comes back
/// with the length it was made with. Nothing is said of the bytes.
#[verifier::external_body]
pub(crate) fn os_entropy(count: usize) -> (drawn: Result<Vec<u8>, rand::Error>)
    ensures
        drawn matches Ok(bytes) ==> bytes@.len() == count,
{
    let mut buffer = vec![0u8; count];
    OsRng.try_fill_bytes(&mut buffer)?;
    Ok(buffer)
}

/// `SigningKey::from_bytes`, `SigningKey::verifying_key` and
/// `VerifyingKey::to_bytes` of ed25519-dalek. Trusted: the result is the
/// 32-byte encoding of the public key that belongs to `seed`.
#[verifier::external_body]
pub(crate) fn signing_key_public(seed: &[u8; 32]) -> (public_key: Vec<u8>)
    ensures
        public_key@ == ed25519_public_key(seed@),
        public_key@.len() == PUBLIC_KEY_BYTES,
{
    SigningKey::from_bytes(seed).verifying_key().to_bytes().to_vec()
}

/// `Signer::sign` of ed25519-dalek's `SigningKey`. Trusted: the result is the
/// signature of `message` under `seed`, which is a function of the two alone,
/// and the public key that belongs to `seed` accepts it for `message`.
#[verifier::external_body]
pub(crate) fn signing_key_sign(seed: &[u8; 32], message: &[u8]) -> (signature: [u8; 64])
    ensures
        signature@ == ed25519_signature(seed@, message@),
        ed25519_verifies(ed25519_public_key(seed@), message@, signature@),
{
    SigningKey::from_bytes(seed).sign(message).to_bytes()
}

/// `Signature::from_slice` of ed25519-dalek. Trusted: it accepts exactly the
/// slices of 64 bytes, and the signature it builds holds those bytes.
#[verifier::external_body]
pub(crate) fn signature_from_slice(bytes: &[u8]) -> (parsed: Result<[u8; 64], SignatureError>)
    ensures
        parsed is Ok <==> bytes@.len() == SIGNATURE_BYTES,
        parsed matches Ok(signature) ==> signature@ == bytes@,
{
    Signature::from_slice(bytes).map(|signature| signature.to_bytes())
}

/// `VerifyingKey::try_from` a slice and `Verifier::verify` of ed25519-dalek.
/// Trusted: the result says whether the key that `public_key` encodes accepts
/// `signature` for `message`; bytes that encode no key accept nothing.
#[verifier::external_body]
pub(crate) fn verifying_key_verify(
    public_key: &[u8],
    message: &[u8],
    signature: &[u8; 64],
) -> (accepted: bool)
    ensures
        accepted == ed25519_verifies(public_key@, message@, signature@),
{
    match VerifyingKey::try_from(public_key) {
        Ok(key) => key.verify(message, &Signature::from_bytes(signature)).is_ok(),
        Err(_) => false,
    }
}

/// The bytes of `bytes` as a seed, where there are as many as a seed has.
pub fn seed_from(bytes: &[u8]) -> (seed: Option<[u8; 32]>)
    ensures
        seed is Some <==> bytes@.len() == SEED_BYTES,
        seed matches Some(s) ==> s@ == bytes@,
{
    if bytes.len() != SEED_BYTES {
        return None;
    }
    let mut seed: [u8; 32] = [0u8; 32];
    let mut i: usize = 0;
    while i < SEED_BYTES
        invariant
            i <= SEED_BYTES,
            bytes@.len() == SEED_BYTES,
            forall|j: int| 0 <= j < i ==> seed@[j] == bytes@[j],
        decreases SEED_BYTES - i,
    {
        seed[i] = bytes[i];
        i += 1;
    }
    assert(seed@ =~= bytes@);
    Some(seed)
}

} // verus!
