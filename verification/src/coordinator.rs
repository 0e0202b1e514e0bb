//! The handshake itself: three registries and the three steps that lead from
//! a one-time code to a session.
//!
//! A verification token and a temporary credential stay usable until they
//! expire: neither is deleted when it is used. An entry leaves a registry
//! when a step finds it expired, or when the registry is swept.
//!
//! Every step takes the coordinator exclusively and is one move of the state
//! machine: what it reads and what it writes cannot be told apart by any
//! other step. Whoever shares a coordinator among tasks hands it to one step
//! at a time.
//!
//! Each step comes twice. The form whose name ends in `_with` takes the
//! entropy that its token is minted from, and says exactly what it returns;
//! the other draws the entropy from the operating system and then does the
//! same.

use crate::clock::{
    deadline_of, expired, live_at, whole_seconds, CREDENTIAL_TTL_MS, SESSION_TTL_MS, VERIFICATION_TTL_MS,
};
use crate::codec::{base64url_bytes, base64url_text, encodable, encode, encoded_len, is_base64url};
use crate::error::{AuthorizationError, ClientInputError, HandshakeError};
use crate::keys::{ed25519_public_key, os_entropy, seed_from, signing_key_public};
use crate::possession::{check_proof, proof_verdict, ProofRejection};
use crate::registry::{holds_live, swept, Entries, TimedRegistry};
use crate::text::{blank, is_blank, same, trim, trimmed};
use vstd::prelude::*;

verus! {

/// Bytes of entropy in a verification token and in a session token.
pub const TOKEN_BYTES: usize = 32;

/// Bytes of entropy in a credential identifier.
pub const CREDENTIAL_ID_BYTES: usize = 24;

/// The least entropy, in bytes, that any token or identifier is made of.
pub const MIN_ENTROPY_BYTES: usize = 24;

/// What a successful code check hands out.
#[derive(Clone, Debug)]
pub struct VerificationGrant {
    pub verification_token: String,
    pub expires_in_seconds: u64,
}

/// What the exchange of a verification token hands out. The private key is
/// handed out here and kept nowhere.
#[derive(Clone, Debug)]
pub struct CredentialGrant {
    pub credential_id: String,
    pub credential_private: String,
    pub expires_in_seconds: u64,
}

/// What a proof of possession hands out.
#[derive(Clone, Debug)]
pub struct SessionGrant {
    pub session_token: String,
    pub expires_in_seconds: u64,
}

/// The outcome of deciding whether a step may go on.
pub type Admission = Result<(), HandshakeError>;

/// What the three registries hold.
pub struct Registries {
    pub verification_tokens: Entries,
    pub temporary_credentials: Entries,
    pub sessions: Entries,
}

/// Whether `entropy` can be made into a token on this machine: there is
/// enough of it, and not more than the encoder can size its output for.
pub open spec fn mintable(entropy: Seq<u8>) -> bool {
    MIN_ENTROPY_BYTES <= entropy.len() && encodable(entropy.len())
}

/// A token as the coordinator mints them: text of the URL-safe alphabet,
/// and not empty.
pub open spec fn is_token(text: Seq<char>) -> bool {
    text.len() > 0 && is_base64url(text)
}

/// The one-time code that the stand-in for a code provider accepts.
pub open spec fn code_is_valid(code: Seq<char>) -> bool {
    code == "123456"@
}

/// Whether a code check may go on: a username must be given, and the code
/// must be the right one.
pub open spec fn code_admission(username: Seq<char>, code: Seq<char>) -> Admission {
    if is_blank(username) {
        Err(HandshakeError::ClientInput(ClientInputError::UsernameRequired))
    } else if !code_is_valid(code) {
        Err(HandshakeError::Authorization(AuthorizationError::InvalidCode))
    } else {
        Ok(())
    }
}

/// `entries` with a new entry under `key` that carries `payload` and lives
/// for `ttl` from `now`.
pub open spec fn granted(
    entries: Entries,
    key: Seq<char>,
    payload: Seq<u8>,
    now: u64,
    ttl: u64,
) -> Entries {
    entries.insert(key, (deadline_of(now, ttl) as u64, payload))
}

/// The registries once a verification token has been granted at `now`.
pub open spec fn verification_granted(before: Registries, token: Seq<char>, now: u64) -> Registries {
    Registries {
        verification_tokens: granted(
            before.verification_tokens,
            token,
            Seq::empty(),
            now,
            VERIFICATION_TTL_MS,
        ),
        ..before
    }
}

/// The registries after a code check at `now` that would mint `token`.
pub open spec fn after_check_code(
    before: Registries,
    username: Seq<char>,
    code: Seq<char>,
    token: Seq<char>,
    now: u64,
) -> Registries {
    if code_admission(username, code) is Ok {
        verification_granted(before, token, now)
    } else {
        before
    }
}

/// The admission that refuses with `e`.
pub open spec fn refused(e: HandshakeError) -> Admission {
    Err(e)
}

/// Whether a verification token may be exchanged at `now`: it must be
/// given, and the registry must hold it, trimmed, with a live entry. An
/// unknown token and an expired one are refused alike.
pub open spec fn token_admission(tokens: Entries, verification_token: Seq<char>, now: u64) -> Admission {
    if is_blank(verification_token) {
        Err(HandshakeError::ClientInput(ClientInputError::VerificationTokenRequired))
    } else if !holds_live(tokens, trimmed(verification_token), now) {
        Err(HandshakeError::Authorization(AuthorizationError::InvalidOrExpiredVerificationToken))
    } else {
        Ok(())
    }
}

/// `entries` after a lookup of `key` at `now` on behalf of a request whose
/// fields were all given if `given`: an entry that the lookup finds expired
/// is deleted, and nothing else changes.
pub open spec fn after_lookup(entries: Entries, given: bool, key: Seq<char>, now: u64) -> Entries {
    if given && entries.contains_key(key) && !live_at(entries[key].0, now) {
        entries.remove(key)
    } else {
        entries
    }
}

/// The registries once a credential with the public key of `seed` has been
/// granted at `now` under `credential_id`.
pub open spec fn credential_granted(
    before: Registries,
    credential_id: Seq<char>,
    seed: Seq<u8>,
    now: u64,
) -> Registries {
    Registries {
        temporary_credentials: granted(
            before.temporary_credentials,
            credential_id,
            ed25519_public_key(seed),
            now,
            CREDENTIAL_TTL_MS,
        ),
        ..before
    }
}

/// The registries after an exchange at `now` that was refused: the entry of
/// the token is deleted where the lookup found it expired.
pub open spec fn token_looked_up(
    before: Registries,
    verification_token: Seq<char>,
    now: u64,
) -> Registries {
    Registries {
        verification_tokens: after_lookup(
            before.verification_tokens,
            !is_blank(verification_token),
            trimmed(verification_token),
            now,
        ),
        ..before
    }
}

/// The registries after an exchange of `verification_token` at `now` that
/// would mint `credential_id` for the key made of `seed`.
pub open spec fn after_issue_credential(
    before: Registries,
    verification_token: Seq<char>,
    credential_id: Seq<char>,
    seed: Seq<u8>,
    now: u64,
) -> Registries {
    if token_admission(before.verification_tokens, verification_token, now) is Ok {
        credential_granted(before, credential_id, seed, now)
    } else {
        token_looked_up(before, verification_token, now)
    }
}

/// Whether every field of a request to enter a session was given.
pub open spec fn proof_fields_given(
    credential_id: Seq<char>,
    message: Seq<char>,
    signature: Seq<char>,
) -> bool {
    !is_blank(credential_id) && message.len() > 0 && signature.len() > 0
}

/// Whether a session may be entered at `now`: every field must be given, the
/// registry must hold the credential, trimmed, with a live entry, and the
/// signature must prove possession of the credential's private key for the
/// message as it was sent.
pub open spec fn proof_admission(
    credentials: Entries,
    credential_id: Seq<char>,
    message: Seq<char>,
    signature: Seq<char>,
    now: u64,
) -> Admission {
    if is_blank(credential_id) {
        Err(HandshakeError::ClientInput(ClientInputError::CredentialIdRequired))
    } else if message.len() == 0 {
        Err(HandshakeError::ClientInput(ClientInputError::MessageRequired))
    } else if signature.len() == 0 {
        Err(HandshakeError::ClientInput(ClientInputError::SignatureRequired))
    } else if !holds_live(credentials, trimmed(credential_id), now) {
        Err(HandshakeError::Authorization(AuthorizationError::InvalidOrExpiredCredential))
    } else {
        match proof_verdict(credentials[trimmed(credential_id)].1, message, signature) {
            Ok(_) => Ok(()),
            Err(ProofRejection::NotBase64url) => Err(
                HandshakeError::ClientInput(ClientInputError::SignatureNotBase64url),
            ),
            Err(ProofRejection::InvalidFormat) => Err(
                HandshakeError::ClientInput(ClientInputError::SignatureInvalidFormat),
            ),
            Err(ProofRejection::InvalidSignature) => Err(
                HandshakeError::Authorization(AuthorizationError::InvalidSignature),
            ),
        }
    }
}

/// The registries once a session has been granted at `now`.
pub open spec fn session_granted(before: Registries, token: Seq<char>, now: u64) -> Registries {
    Registries {
        sessions: granted(before.sessions, token, Seq::empty(), now, SESSION_TTL_MS),
        ..before
    }
}

/// The registries after a request at `now` to enter a session that was
/// refused: the entry of the credential is deleted where the lookup found it
/// expired.
pub open spec fn credential_looked_up(
    before: Registries,
    credential_id: Seq<char>,
    message: Seq<char>,
    signature: Seq<char>,
    now: u64,
) -> Registries {
    Registries {
        temporary_credentials: after_lookup(
            before.temporary_credentials,
            proof_fields_given(credential_id, message, signature),
            trimmed(credential_id),
            now,
        ),
        ..before
    }
}

/// The registries after a request at `now` to enter a session that would
/// mint `token`.
pub open spec fn after_enter_session(
    before: Registries,
    credential_id: Seq<char>,
    message: Seq<char>,
    signature: Seq<char>,
    token: Seq<char>,
    now: u64,
) -> Registries {
    if proof_admission(before.temporary_credentials, credential_id, message, signature, now) is Ok {
        session_granted(before, token, now)
    } else {
        credential_looked_up(before, credential_id, message, signature, now)
    }
}

/// Whether a request to enter a session at `now` gets as far as its
/// signature, and the signature holds a character that is not of the
/// URL-safe alphabet.
pub open spec fn signature_is_garbled(
    credentials: Entries,
    credential_id: Seq<char>,
    message: Seq<char>,
    signature: Seq<char>,
    now: u64,
) -> bool {
    &&& proof_fields_given(credential_id, message, signature)
    &&& holds_live(credentials, trimmed(credential_id), now)
    &&& !is_base64url(signature)
}

/// A token that is the wire text of `count` bytes.
pub open spec fn is_token_of(text: Seq<char>, count: nat) -> bool {
    &&& is_token(text)
    &&& text.len() == encoded_len(count)
    &&& exists|entropy: Seq<u8>| entropy.len() == count && text == #[trigger] base64url_text(entropy)
}

/// The registries after a sweep at `now`.
pub open spec fn after_sweep(before: Registries, now: u64) -> Registries {
    Registries {
        verification_tokens: swept(before.verification_tokens, now),
        temporary_credentials: swept(before.temporary_credentials, now),
        sessions: swept(before.sessions, now),
    }
}

/// Whether `code` is the one-time code that is accepted.
pub fn validate_code(code: &str) -> (valid: bool)
    ensures
        valid == code_is_valid(code@),
{
    same(code, "123456")
}

/// Decides whether a code check may go on.
pub fn admit_code(username: &str, code: &str) -> (admission: Admission)
    ensures
        admission == code_admission(username@, code@),
{
    if blank(username) {
        return Err(HandshakeError::ClientInput(ClientInputError::UsernameRequired));
    }
    if !validate_code(code) {
        return Err(HandshakeError::Authorization(AuthorizationError::InvalidCode));
    }
    Ok(())
}

/// The coordinator of the handshake, which owns the three registries.
pub struct Coordinator {
    verification_tokens: TimedRegistry,
    temporary_credentials: TimedRegistry,
    sessions: TimedRegistry,
}

impl View for Coordinator {
    type V = Registries;

    closed spec fn view(&self) -> Registries {
        Registries {
            verification_tokens: self.verification_tokens@,
            temporary_credentials: self.temporary_credentials@,
            sessions: self.sessions@,
        }
    }
}

impl Coordinator {
    /// A coordinator whose registries hold nothing.
    pub fn new() -> (coordinator: Coordinator)
        ensures
            coordinator@.verification_tokens == Entries::empty(),
            coordinator@.temporary_credentials == Entries::empty(),
            coordinator@.sessions == Entries::empty(),
    {
        Coordinator {
            verification_tokens: TimedRegistry::new(),
            temporary_credentials: TimedRegistry::new(),
            sessions: TimedRegistry::new(),
        }
    }

    /// The registry of verification tokens.
    pub fn verification_tokens(&self) -> (registry: &TimedRegistry)
        ensures
            registry@ == self@.verification_tokens,
    {
        &self.verification_tokens
    }

    /// The registry of temporary credentials.
    pub fn temporary_credentials(&self) -> (registry: &TimedRegistry)
        ensures
            registry@ == self@.temporary_credentials,
    {
        &self.temporary_credentials
    }

    /// The registry of sessions.
    pub fn sessions(&self) -> (registry: &TimedRegistry)
        ensures
            registry@ == self@.sessions,
    {
        &self.sessions
    }

    /// Mints a verification token from `entropy` and registers it at `now`.
    pub fn grant_verification(&mut self, entropy: &[u8], now: u64) -> (grant: VerificationGrant)
        requires
            mintable(entropy@),
            deadline_of(now, VERIFICATION_TTL_MS) <= u64::MAX,
        ensures
            grant.verification_token@ == base64url_text(entropy@),
            is_token(grant.verification_token@),
            grant.verification_token@.len() == encoded_len(entropy@.len()),
            grant.expires_in_seconds == 300,
            final(self)@ == verification_granted(old(self)@, grant.verification_token@, now),
    {
        let token = encode(entropy);
        self.verification_tokens.insert(token.clone(), Vec::new(), now, VERIFICATION_TTL_MS);
        VerificationGrant {
            verification_token: token,
            expires_in_seconds: whole_seconds(VERIFICATION_TTL_MS),
        }
    }

    /// The code check, with the entropy that the token is minted from given
    /// by the caller: a username and the right code earn a verification
    /// token that lives for five minutes.
    pub fn check_code_with(
        &mut self,
        username: &str,
        code: &str,
        entropy: &[u8],
        now: u64,
    ) -> (outcome: Result<VerificationGrant, HandshakeError>)
        requires
            mintable(entropy@),
            deadline_of(now, VERIFICATION_TTL_MS) <= u64::MAX,
        ensures
            match outcome {
                Ok(grant) => {
                    &&& code_admission(username@, code@) is Ok
                    &&& grant.verification_token@ == base64url_text(entropy@)
                    &&& is_token(grant.verification_token@)
                    &&& grant.expires_in_seconds == 300
                },
                Err(e) => code_admission(username@, code@) == refused(e),
            },
            final(self)@ == after_check_code(
                old(self)@,
                username@,
                code@,
                base64url_text(entropy@),
                now,
            ),
    {
        match admit_code(username, code) {
            Err(e) => Err(e),
            Ok(()) => Ok(self.grant_verification(entropy, now)),
        }
    }

    /// The code check: a username and the right code earn a verification
    /// token, minted from fresh entropy, that lives for five minutes.
    /// Nothing is registered where the check fails or no entropy is to be had.
    pub fn check_code(
        &mut self,
        username: &str,
        code: &str,
        now: u64,
    ) -> (outcome: Result<VerificationGrant, HandshakeError>)
        requires
            deadline_of(now, VERIFICATION_TTL_MS) <= u64::MAX,
        ensures
            match outcome {
                Ok(grant) => {
                    &&& code_admission(username@, code@) is Ok
                    &&& is_token_of(grant.verification_token@, TOKEN_BYTES as nat)
                    &&& grant.expires_in_seconds == 300
                    &&& final(self)@ == verification_granted(
                        old(self)@,
                        grant.verification_token@,
                        now,
                    )
                },
                Err(e) => {
                    &&& final(self)@ == old(self)@
                    &&& if e is Fatal {
                        code_admission(username@, code@) is Ok
                    } else {
                        code_admission(username@, code@) == refused(e)
                    }
                },
            },
    {
        match admit_code(username, code) {
            Err(e) => Err(e),
            Ok(()) => match os_entropy(TOKEN_BYTES) {
                Err(_) => Err(HandshakeError::Fatal),
                Ok(entropy) => Ok(self.grant_verification(entropy.as_slice(), now)),
            },
        }
    }

    /// Decides whether `verification_token` may be exchanged at `now`, and
    /// deletes its entry where the lookup finds it expired.
    pub fn authorize_token(&mut self, verification_token: &str, now: u64) -> (admission: Admission)
        ensures
            admission == token_admission(old(self)@.verification_tokens, verification_token@, now),
            final(self)@ == token_looked_up(old(self)@, verification_token@, now),
            admission is Ok ==> final(self)@ == old(self)@,
    {
        let token = trim(verification_token);
        if token.is_empty() {
            return Err(HandshakeError::ClientInput(ClientInputError::VerificationTokenRequired));
        }
        match self.verification_tokens.get(token) {
            None => Err(
                HandshakeError::Authorization(AuthorizationError::InvalidOrExpiredVerificationToken),
            ),
            Some(entry) => {
                if expired(entry.0, now) {
                    self.verification_tokens.remove(token);
                    Err(
                        HandshakeError::Authorization(
                            AuthorizationError::InvalidOrExpiredVerificationToken,
                        ),
                    )
                } else {
                    Ok(())
                }
            },
        }
    }

    /// Makes the credential of the key that `seed` gives, registers its
    /// public key at `now` under an identifier minted from `id_entropy`, and
    /// hands out the identifier and the private key.
    pub fn grant_credential(
        &mut self,
        id_entropy: &[u8],
        seed: &[u8; 32],
        now: u64,
    ) -> (grant: CredentialGrant)
        requires
            mintable(id_entropy@),
            deadline_of(now, CREDENTIAL_TTL_MS) <= u64::MAX,
        ensures
            grant.credential_id@ == base64url_text(id_entropy@),
            is_token(grant.credential_id@),
            grant.credential_id@.len() == encoded_len(id_entropy@.len()),
            grant.credential_private@ == base64url_text(seed@),
            is_token(grant.credential_private@),
            base64url_bytes(grant.credential_private@) == Some(seed@),
            grant.expires_in_seconds == 300,
            final(self)@ == credential_granted(old(self)@, grant.credential_id@, seed@, now),
    {
        let public_key = signing_key_public(seed);
        let credential_id = encode(id_entropy);
        let credential_private = encode(seed.as_slice());
        self.temporary_credentials.insert(
            credential_id.clone(),
            public_key,
            now,
            CREDENTIAL_TTL_MS,
        );
        CredentialGrant {
            credential_id,
            credential_private,
            expires_in_seconds: whole_seconds(CREDENTIAL_TTL_MS),
        }
    }

    /// The exchange of a verification token, with the entropy of the
    /// identifier and the seed of the key given by the caller: a live token
    /// earns a credential that lives for five minutes. The token stays.
    pub fn issue_credential_with(
        &mut self,
        verification_token: &str,
        id_entropy: &[u8],
        seed: &[u8; 32],
        now: u64,
    ) -> (outcome: Result<CredentialGrant, HandshakeError>)
        requires
            mintable(id_entropy@),
            deadline_of(now, CREDENTIAL_TTL_MS) <= u64::MAX,
        ensures
            match outcome {
                Ok(grant) => {
                    &&& token_admission(old(self)@.verification_tokens, verification_token@, now)
                        is Ok
                    &&& grant.credential_id@ == base64url_text(id_entropy@)
                    &&& is_token(grant.credential_id@)
                    &&& grant.credential_private@ == base64url_text(seed@)
                    &&& base64url_bytes(grant.credential_private@) == Some(seed@)
                    &&& grant.expires_in_seconds == 300
                },
                Err(e) => token_admission(
                    old(self)@.verification_tokens,
                    verification_token@,
                    now,
                ) == refused(e),
            },
            final(self)@ == after_issue_credential(
                old(self)@,
                verification_token@,
                base64url_text(id_entropy@),
                seed@,
                now,
            ),
    {
        match self.authorize_token(verification_token, now) {
            Err(e) => Err(e),
            Ok(()) => Ok(self.grant_credential(id_entropy, seed, now)),
        }
    }

    /// The exchange of a verification token: a live token earns a credential
    /// with a freshly made key, which lives for five minutes. The token
    /// stays. Where no entropy is to be had, nothing is registered.
    pub fn issue_credential(
        &mut self,
        verification_token: &str,
        now: u64,
    ) -> (outcome: Result<CredentialGrant, HandshakeError>)
        requires
            deadline_of(now, CREDENTIAL_TTL_MS) <= u64::MAX,
        ensures
            match outcome {
                Ok(grant) => {
                    &&& token_admission(old(self)@.verification_tokens, verification_token@, now)
                        is Ok
                    &&& is_token_of(grant.credential_id@, CREDENTIAL_ID_BYTES as nat)
                    &&& is_token(grant.credential_private@)
                    &&& base64url_bytes(grant.credential_private@) is Some
                    &&& base64url_bytes(grant.credential_private@).unwrap().len() == 32
                    &&& grant.expires_in_seconds == 300
                    &&& final(self)@ == credential_granted(
                        old(self)@,
                        grant.credential_id@,
                        base64url_bytes(grant.credential_private@).unwrap(),
                        now,
                    )
                },
                Err(e) => if e is Fatal {
                    &&& token_admission(old(self)@.verification_tokens, verification_token@, now)
                        is Ok
                    &&& final(self)@ == old(self)@
                } else {
                    &&& token_admission(old(self)@.verification_tokens, verification_token@, now)
                        == refused(e)
                    &&& final(self)@ == token_looked_up(old(self)@, verification_token@, now)
                },
            },
    {
        match self.authorize_token(verification_token, now) {
            Err(e) => {
                return Err(e);
            },
            Ok(()) => {},
        }
        let id_entropy = match os_entropy(CREDENTIAL_ID_BYTES) {
            Ok(bytes) => bytes,
            Err(_) => {
                return Err(HandshakeError::Fatal);
            },
        };
        let seed_bytes = match os_entropy(32) {
            Ok(bytes) => bytes,
            Err(_) => {
                return Err(HandshakeError::Fatal);
            },
        };
        match seed_from(seed_bytes.as_slice()) {
            Some(seed) => Ok(self.grant_credential(id_entropy.as_slice(), &seed, now)),
            None => Err(HandshakeError::Fatal),
        }
    }

    /// Decides whether a session may be entered at `now`, and deletes the
    /// credential's entry where the lookup finds it expired. A signature that
    /// cannot be read is the caller's malformed input; one that does not
    /// verify is a refusal.
    pub fn authorize_proof(
        &mut self,
        credential_id: &str,
        message: &str,
        signature: &str,
        now: u64,
    ) -> (admission: Admission)
        ensures
            admission == proof_admission(
                old(self)@.temporary_credentials,
                credential_id@,
                message@,
                signature@,
                now,
            ),
            final(self)@ == credential_looked_up(
                old(self)@,
                credential_id@,
                message@,
                signature@,
                now,
            ),
            admission is Ok ==> final(self)@ == old(self)@,
            signature_is_garbled(
                old(self)@.temporary_credentials,
                credential_id@,
                message@,
                signature@,
                now,
            ) ==> admission == refused(
                HandshakeError::ClientInput(ClientInputError::SignatureNotBase64url),
            ),
    {
        let id = trim(credential_id);
        if id.is_empty() {
            return Err(HandshakeError::ClientInput(ClientInputError::CredentialIdRequired));
        }
        if message.is_empty() {
            return Err(HandshakeError::ClientInput(ClientInputError::MessageRequired));
        }
        if signature.is_empty() {
            return Err(HandshakeError::ClientInput(ClientInputError::SignatureRequired));
        }
        let public_key = match self.temporary_credentials.get(id) {
            None => {
                return Err(
                    HandshakeError::Authorization(AuthorizationError::InvalidOrExpiredCredential),
                );
            },
            Some(entry) => {
                if expired(entry.0, now) {
                    self.temporary_credentials.remove(id);
                    return Err(
                        HandshakeError::Authorization(
                            AuthorizationError::InvalidOrExpiredCredential,
                        ),
                    );
                }
                entry.1
            },
        };
        match check_proof(public_key.as_slice(), message, signature) {
            Ok(()) => Ok(()),
            Err(ProofRejection::NotBase64url) => Err(
                HandshakeError::ClientInput(ClientInputError::SignatureNotBase64url),
            ),
            Err(ProofRejection::InvalidFormat) => Err(
                HandshakeError::ClientInput(ClientInputError::SignatureInvalidFormat),
            ),
            Err(ProofRejection::InvalidSignature) => Err(
                HandshakeError::Authorization(AuthorizationError::InvalidSignature),
            ),
        }
    }

    /// Mints a session token from `entropy` and registers it at `now`.
    pub fn grant_session(&mut self, entropy: &[u8], now: u64) -> (grant: SessionGrant)
        requires
            mintable(entropy@),
            deadline_of(now, SESSION_TTL_MS) <= u64::MAX,
        ensures
            grant.session_token@ == base64url_text(entropy@),
            is_token(grant.session_token@),
            grant.session_token@.len() == encoded_len(entropy@.len()),
            grant.expires_in_seconds == 1800,
            final(self)@ == session_granted(old(self)@, grant.session_token@, now),
    {
        let token = encode(entropy);
        self.sessions.insert(token.clone(), Vec::new(), now, SESSION_TTL_MS);
        SessionGrant { session_token: token, expires_in_seconds: whole_seconds(SESSION_TTL_MS) }
    }

    /// Entering a session, with the entropy that the token is minted from
    /// given by the caller: a proof of possession under a live credential
    /// earns a session token that lives for thirty minutes. The credential
    /// stays, and can be used again.
    pub fn enter_session_with(
        &mut self,
        credential_id: &str,
        message: &str,
        signature: &str,
        entropy: &[u8],
        now: u64,
    ) -> (outcome: Result<SessionGrant, HandshakeError>)
        requires
            mintable(entropy@),
            deadline_of(now, SESSION_TTL_MS) <= u64::MAX,
        ensures
            match outcome {
                Ok(grant) => {
                    &&& proof_admission(
                        old(self)@.temporary_credentials,
                        credential_id@,
                        message@,
                        signature@,
                        now,
                    ) is Ok
                    &&& grant.session_token@ == base64url_text(entropy@)
                    &&& is_token(grant.session_token@)
                    &&& grant.expires_in_seconds == 1800
                },
                Err(e) => proof_admission(
                    old(self)@.temporary_credentials,
                    credential_id@,
                    message@,
                    signature@,
                    now,
                ) == refused(e),
            },
            final(self)@ == after_enter_session(
                old(self)@,
                credential_id@,
                message@,
                signature@,
                base64url_text(entropy@),
                now,
            ),
            signature_is_garbled(
                old(self)@.temporary_credentials,
                credential_id@,
                message@,
                signature@,
                now,
            ) ==> outcome is Err && outcome->Err_0 == HandshakeError::ClientInput(
                ClientInputError::SignatureNotBase64url,
            ),
    {
        match self.authorize_proof(credential_id, message, signature, now) {
            Err(e) => Err(e),
            Ok(()) => Ok(self.grant_session(entropy, now)),
        }
    }

    /// Entering a session: a proof of possession under a live credential
    /// earns a session token, minted from fresh entropy, that lives for
    /// thirty minutes. The credential stays, and can be used again. Where no
    /// entropy is to be had, nothing is registered.
    pub fn enter_session(
        &mut self,
        credential_id: &str,
        message: &str,
        signature: &str,
        now: u64,
    ) -> (outcome: Result<SessionGrant, HandshakeError>)
        requires
            deadline_of(now, SESSION_TTL_MS) <= u64::MAX,
        ensures
            match outcome {
                Ok(grant) => {
                    &&& proof_admission(
                        old(self)@.temporary_credentials,
                        credential_id@,
                        message@,
                        signature@,
                        now,
                    ) is Ok
                    &&& is_token_of(grant.session_token@, TOKEN_BYTES as nat)
                    &&& grant.expires_in_seconds == 1800
                    &&& final(self)@ == session_granted(old(self)@, grant.session_token@, now)
                },
                Err(e) => if e is Fatal {
                    &&& proof_admission(
                        old(self)@.temporary_credentials,
                        credential_id@,
                        message@,
                        signature@,
                        now,
                    ) is Ok
                    &&& final(self)@ == old(self)@
                } else {
                    &&& proof_admission(
                        old(self)@.temporary_credentials,
                        credential_id@,
                        message@,
                        signature@,
                        now,
                    ) == refused(e)
                    &&& final(self)@ == credential_looked_up(
                        old(self)@,
                        credential_id@,
                        message@,
                        signature@,
                        now,
                    )
                },
            },
            signature_is_garbled(
                old(self)@.temporary_credentials,
                credential_id@,
                message@,
                signature@,
                now,
            ) ==> outcome is Err && outcome->Err_0 == HandshakeError::ClientInput(
                ClientInputError::SignatureNotBase64url,
            ),
    {
        match self.authorize_proof(credential_id, message, signature, now) {
            Err(e) => Err(e),
            Ok(()) => match os_entropy(TOKEN_BYTES) {
                Err(_) => Err(HandshakeError::Fatal),
                Ok(entropy) => Ok(self.grant_session(entropy.as_slice(), now)),
            },
        }
    }

    /// Deletes from all three registries every entry that is no longer live
    /// at `now`. Only housekeeping: no step relies on it.
    pub fn sweep(&mut self, now: u64)
        ensures
            final(self)@ == after_sweep(old(self)@, now),
    {
        self.verification_tokens.sweep(now);
        self.temporary_credentials.sweep(now);
        self.sessions.sweep(now);
    }
}

} // verus!
