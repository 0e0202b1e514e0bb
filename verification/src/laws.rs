//! What holds of the handshake as a whole, proved from what each step states.

use crate::clock::{deadline_of, CREDENTIAL_TTL_MS, VERIFICATION_TTL_MS};
use crate::codec::{base64url_bytes, base64url_is_tight};
use crate::coordinator::{
    after_check_code, after_enter_session, after_issue_credential, code_admission, is_token,
    proof_admission, proof_fields_given, refused, token_admission, Registries,
};
use crate::error::{AuthorizationError, ClientInputError, HandshakeError};
use crate::keys::{ed25519_verifies, SIGNATURE_BYTES};
use crate::possession::proves_possession;
use crate::registry::{holds_live, swept, Entries};
use crate::text::{is_blank, trimmed};
use vstd::prelude::*;
use vstd::utf8::encode_utf8;

verus! {

/// A verification token that a code check has granted is admitted to the
/// exchange at every instant before its five minutes have elapsed, and is
/// refused as invalid or expired at every instant from then on.
pub proof fn granted_token_is_admitted_until_it_expires(
    before: Registries,
    username: Seq<char>,
    code: Seq<char>,
    token: Seq<char>,
    now: u64,
    later: u64,
)
    requires
        code_admission(username, code) is Ok,
        is_token(token),
        deadline_of(now, VERIFICATION_TTL_MS) <= u64::MAX,
        now <= later,
    ensures
        token_admission(
            after_check_code(before, username, code, token, now).verification_tokens,
            token,
            later,
        ) == if later - now < VERIFICATION_TTL_MS {
            Ok(())
        } else {
            refused(
                HandshakeError::Authorization(
                    AuthorizationError::InvalidOrExpiredVerificationToken,
                ),
            )
        },
{
    base64url_is_tight(token);
}

/// A verification token that the registry does not hold is refused as invalid
/// or expired, at whatever instant it is offered.
pub proof fn absent_token_is_refused(tokens: Entries, verification_token: Seq<char>, now: u64)
    requires
        !is_blank(verification_token),
        !tokens.contains_key(trimmed(verification_token)),
    ensures
        token_admission(tokens, verification_token, now) == refused(
            HandshakeError::Authorization(AuthorizationError::InvalidOrExpiredVerificationToken),
        ),
{
}

/// Once an exchange has found a verification token expired, the token is
/// gone: it is refused in the same way at every instant, earlier ones too.
pub proof fn expired_token_is_gone_for_good(
    before: Registries,
    verification_token: Seq<char>,
    credential_id: Seq<char>,
    seed: Seq<u8>,
    now: u64,
    again: u64,
)
    requires
        !is_blank(verification_token),
        before.verification_tokens.contains_key(trimmed(verification_token)),
        !holds_live(before.verification_tokens, trimmed(verification_token), now),
    ensures
        !after_issue_credential(
            before,
            verification_token,
            credential_id,
            seed,
            now,
        ).verification_tokens.contains_key(trimmed(verification_token)),
        token_admission(
            after_issue_credential(
                before,
                verification_token,
                credential_id,
                seed,
                now,
            ).verification_tokens,
            verification_token,
            again,
        ) == refused(
            HandshakeError::Authorization(AuthorizationError::InvalidOrExpiredVerificationToken),
        ),
{
}

/// The private key that an exchange hands out opens a session: while the
/// credential lives, a signature that the key made over any message that is
/// not empty is admitted under the credential's identifier.
pub proof fn issued_key_opens_session(
    before: Registries,
    verification_token: Seq<char>,
    credential_id: Seq<char>,
    seed: Seq<u8>,
    now: u64,
    message: Seq<char>,
    signature: Seq<char>,
    later: u64,
)
    requires
        token_admission(before.verification_tokens, verification_token, now) is Ok,
        is_token(credential_id),
        deadline_of(now, CREDENTIAL_TTL_MS) <= u64::MAX,
        message.len() > 0,
        proves_possession(seed, message, signature),
        now <= later,
        later - now < CREDENTIAL_TTL_MS,
    ensures
        proof_admission(
            after_issue_credential(
                before,
                verification_token,
                credential_id,
                seed,
                now,
            ).temporary_credentials,
            credential_id,
            message,
            signature,
            later,
        ) is Ok,
{
    base64url_is_tight(credential_id);
}

/// Under a live credential, a signature that is no wire text is the caller's
/// malformed input, and not a refusal.
pub proof fn unreadable_signature_is_malformed_input(
    credentials: Entries,
    credential_id: Seq<char>,
    message: Seq<char>,
    signature: Seq<char>,
    now: u64,
)
    requires
        proof_fields_given(credential_id, message, signature),
        holds_live(credentials, trimmed(credential_id), now),
        base64url_bytes(signature) is None,
    ensures
        proof_admission(credentials, credential_id, message, signature, now) == refused(
            HandshakeError::ClientInput(ClientInputError::SignatureNotBase64url),
        ),
{
}

/// Under a live credential, a signature of the right length that the
/// credential's key does not accept for the message is refused: no session
/// is granted, and the registries stay as they are.
pub proof fn rejected_signature_opens_nothing(
    before: Registries,
    credential_id: Seq<char>,
    message: Seq<char>,
    signature: Seq<char>,
    token: Seq<char>,
    now: u64,
)
    requires
        proof_fields_given(credential_id, message, signature),
        holds_live(before.temporary_credentials, trimmed(credential_id), now),
        base64url_bytes(signature) is Some,
        base64url_bytes(signature).unwrap().len() == SIGNATURE_BYTES,
        !ed25519_verifies(
            before.temporary_credentials[trimmed(credential_id)].1,
            encode_utf8(message),
            base64url_bytes(signature).unwrap(),
        ),
    ensures
        proof_admission(before.temporary_credentials, credential_id, message, signature, now)
            == refused(HandshakeError::Authorization(AuthorizationError::InvalidSignature)),
        after_enter_session(before, credential_id, message, signature, token, now) == before,
{
}

/// A credential is not used up: a request that has entered a session is
/// admitted again, for as long as the credential lives.
pub proof fn credential_is_reusable(
    before: Registries,
    credential_id: Seq<char>,
    message: Seq<char>,
    signature: Seq<char>,
    token: Seq<char>,
    now: u64,
    later: u64,
)
    requires
        proof_admission(before.temporary_credentials, credential_id, message, signature, now)
            is Ok,
        holds_live(before.temporary_credentials, trimmed(credential_id), later),
    ensures
        after_enter_session(
            before,
            credential_id,
            message,
            signature,
            token,
            now,
        ).temporary_credentials == before.temporary_credentials,
        proof_admission(
            after_enter_session(
                before,
                credential_id,
                message,
                signature,
                token,
                now,
            ).temporary_credentials,
            credential_id,
            message,
            signature,
            later,
        ) is Ok,
{
}

/// A verification token is not used up either: an exchange that was admitted
/// leaves the token where it was.
pub proof fn token_outlives_its_exchange(
    before: Registries,
    verification_token: Seq<char>,
    credential_id: Seq<char>,
    seed: Seq<u8>,
    now: u64,
)
    requires
        token_admission(before.verification_tokens, verification_token, now) is Ok,
    ensures
        after_issue_credential(
            before,
            verification_token,
            credential_id,
            seed,
            now,
        ).verification_tokens == before.verification_tokens,
{
}

/// A code check without a username is the caller's malformed input, and
/// leaves the registries as they are.
pub proof fn missing_username_is_malformed_input(
    before: Registries,
    username: Seq<char>,
    code: Seq<char>,
    token: Seq<char>,
    now: u64,
)
    requires
        is_blank(username),
    ensures
        code_admission(username, code) == refused(
            HandshakeError::ClientInput(ClientInputError::UsernameRequired),
        ),
        after_check_code(before, username, code, token, now) == before,
{
}

/// An exchange without a verification token is the caller's malformed input,
/// whatever the registry holds, and leaves the registries as they are.
pub proof fn missing_token_is_malformed_input(
    before: Registries,
    verification_token: Seq<char>,
    credential_id: Seq<char>,
    seed: Seq<u8>,
    now: u64,
)
    requires
        is_blank(verification_token),
    ensures
        token_admission(before.verification_tokens, verification_token, now) == refused(
            HandshakeError::ClientInput(ClientInputError::VerificationTokenRequired),
        ),
        after_issue_credential(before, verification_token, credential_id, seed, now) == before,
{
    let after = after_issue_credential(before, verification_token, credential_id, seed, now);
    assert(after.verification_tokens == before.verification_tokens);
}

/// A request to enter a session that lacks a field is the caller's malformed
/// input: the same one whatever the registry holds, since the registry is not
/// looked at. The registries stay as they are.
pub proof fn missing_proof_field_is_malformed_input(
    before: Registries,
    other: Entries,
    credential_id: Seq<char>,
    message: Seq<char>,
    signature: Seq<char>,
    token: Seq<char>,
    now: u64,
)
    requires
        !proof_fields_given(credential_id, message, signature),
    ensures
        proof_admission(before.temporary_credentials, credential_id, message, signature, now)
            == refused(
            HandshakeError::ClientInput(
                if is_blank(credential_id) {
                    ClientInputError::CredentialIdRequired
                } else if message.len() == 0 {
                    ClientInputError::MessageRequired
                } else {
                    ClientInputError::SignatureRequired
                },
            ),
        ),
        proof_admission(before.temporary_credentials, credential_id, message, signature, now)
            == proof_admission(other, credential_id, message, signature, now),
        after_enter_session(before, credential_id, message, signature, token, now) == before,
{
    let after = after_enter_session(before, credential_id, message, signature, token, now);
    assert(after.temporary_credentials == before.temporary_credentials);
}

/// No step relies on the sweep: a sweep at an instant that is not in the
/// future changes neither what is admitted to the exchange nor what is
/// admitted to a session.
pub proof fn sweep_changes_no_admission(
    entries: Entries,
    key: Seq<char>,
    message: Seq<char>,
    signature: Seq<char>,
    swept_at: u64,
    now: u64,
)
    requires
        swept_at <= now,
    ensures
        holds_live(swept(entries, swept_at), trimmed(key), now) == holds_live(
            entries,
            trimmed(key),
            now,
        ),
        token_admission(swept(entries, swept_at), key, now) == token_admission(entries, key, now),
        proof_admission(swept(entries, swept_at), key, message, signature, now) == proof_admission(
            entries,
            key,
            message,
            signature,
            now,
        ),
{
}

/// A sweep deletes exactly the entries that are no longer live, and leaves
/// every other entry as it is.
pub proof fn sweep_keeps_the_living(entries: Entries, key: Seq<char>, now: u64)
    ensures
        swept(entries, now).contains_key(key) <==> holds_live(entries, key, now),
        holds_live(entries, key, now) ==> swept(entries, now)[key] == entries[key],
{
}

} // verus!
