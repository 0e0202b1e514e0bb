//! Proof of possession: the holder of a credential's private key signs a
//! message, and the signature is checked against the public key.

use crate::codec::{base64url_bytes, base64url_text, decode, encode, is_base64url};
use crate::keys::{
    ed25519_public_key, ed25519_signature, ed25519_verifies, seed_from, signature_from_slice,
    signing_key_sign, verifying_key_verify, SEED_BYTES, SIGNATURE_BYTES,
};
use vstd::prelude::*;
use vstd::utf8::encode_utf8;

verus! {

/// Number of characters of a signature in wire text.
pub const PROOF_CHARS: usize = 86;

/// Why a signature is no proof of possession.
#[derive(Clone, Copy, Debug, PartialEq, Eq, Structural)]
pub enum ProofRejection {
    /// The signature is not base64 text of the URL-safe alphabet.
    NotBase64url,
    /// The signature decodes to something that is not 64 bytes long.
    InvalidFormat,
    /// The signature does not verify under the public key.
    InvalidSignature,
}

/// Why no proof of possession could be made.
#[derive(Clone, Copy, Debug, PartialEq, Eq, Structural)]
pub enum SigningError {
    /// The private key is not base64 text of the URL-safe alphabet.
    PrivateKeyNotBase64url,
    /// The private key decodes to something that is not 32 bytes long.
    PrivateKeyInvalidLength,
}

/// The outcome of checking a proof of possession.
pub type Verdict = Result<(), ProofRejection>;

/// The outcome of making a proof of possession, as text.
pub type ProofText = Result<Seq<char>, SigningError>;

/// The verdict that rejects for `reason`.
pub open spec fn rejected(reason: ProofRejection) -> Verdict {
    Err(reason)
}

/// What a made proof says, with the text taken by its characters.
pub open spec fn proof_text(made: Result<String, SigningError>) -> ProofText {
    match made {
        Ok(text) => Ok(text@),
        Err(e) => Err(e),
    }
}

/// What becomes of a signature in wire text that is offered for `message`
/// under `public_key`: it is decoded, its length is looked at, and only then
/// is it tried against the key. The message is signed as its UTF-8 bytes.
pub open spec fn proof_verdict(
    public_key: Seq<u8>,
    message: Seq<char>,
    signature: Seq<char>,
) -> Verdict {
    match base64url_bytes(signature) {
        None => Err(ProofRejection::NotBase64url),
        Some(bytes) => if bytes.len() != SIGNATURE_BYTES {
            Err(ProofRejection::InvalidFormat)
        } else if ed25519_verifies(public_key, encode_utf8(message), bytes) {
            Ok(())
        } else {
            Err(ProofRejection::InvalidSignature)
        },
    }
}

/// Whether `signature` is wire text that proves, for `message`, possession of
/// the private key made of `seed`.
pub open spec fn proves_possession(seed: Seq<u8>, message: Seq<char>, signature: Seq<char>) -> bool {
    signature.len() > 0 && proof_verdict(ed25519_public_key(seed), message, signature) is Ok
}

/// The proof that the holder of the private key in wire text makes for
/// `message`.
pub open spec fn signed_proof(credential_private: Seq<char>, message: Seq<char>) -> ProofText {
    match base64url_bytes(credential_private) {
        None => Err(SigningError::PrivateKeyNotBase64url),
        Some(seed) => if seed.len() != SEED_BYTES {
            Err(SigningError::PrivateKeyInvalidLength)
        } else {
            Ok(base64url_text(ed25519_signature(seed, encode_utf8(message))))
        },
    }
}

/// Checks a signature in wire text that is offered for `message` under
/// `public_key`, telling a signature that cannot be read from one that does
/// not verify.
pub fn check_proof(public_key: &[u8], message: &str, signature: &str) -> (verdict: Verdict)
    ensures
        verdict == proof_verdict(public_key@, message@, signature@),
        !is_base64url(signature@) ==> verdict == rejected(ProofRejection::NotBase64url),
{
    let bytes = match decode(signature) {
        Some(bytes) => bytes,
        None => {
            return Err(ProofRejection::NotBase64url);
        },
    };
    let parsed = match signature_from_slice(bytes.as_slice()) {
        Ok(parsed) => parsed,
        Err(_) => {
            return Err(ProofRejection::InvalidFormat);
        },
    };
    if verifying_key_verify(public_key, message.as_bytes(), &parsed) {
        Ok(())
    } else {
        Err(ProofRejection::InvalidSignature)
    }
}

/// Whether `signature` is a proof of possession for `message` under
/// `public_key`; a signature that cannot be read is none.
pub fn verify(public_key: &[u8], message: &str, signature: &str) -> (accepted: bool)
    ensures
        accepted == (proof_verdict(public_key@, message@, signature@) is Ok),
{
    check_proof(public_key, message, signature).is_ok()
}

/// Signs `message` with the private key in wire text, and gives the signature
/// in wire text. The proof is one that the matching public key accepts.
pub fn sign_proof(credential_private: &str, message: &str) -> (made: Result<String, SigningError>)
    ensures
        proof_text(made) == signed_proof(credential_private@, message@),
        made matches Ok(text) ==> proves_possession(
            base64url_bytes(credential_private@).unwrap(),
            message@,
            text@,
        ),
        made matches Ok(text) ==> is_base64url(text@) && text@.len() == PROOF_CHARS,
{
    let bytes = match decode(credential_private) {
        Some(bytes) => bytes,
        None => {
            return Err(SigningError::PrivateKeyNotBase64url);
        },
    };
    let seed = match seed_from(bytes.as_slice()) {
        Some(seed) => seed,
        None => {
            return Err(SigningError::PrivateKeyInvalidLength);
        },
    };
    let signature = signing_key_sign(&seed, message.as_bytes());
    let text = encode(signature.as_slice());
    Ok(text)
}

} // verus!
