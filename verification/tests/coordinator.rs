use handshake::codec::{decode, encode};
use handshake::coordinator::{admit_code, validate_code, Coordinator};
use handshake::error::{AuthorizationError, ClientInputError, HandshakeError};
use handshake::possession::sign_proof;

const TOKEN_ENTROPY: [u8; 32] = [0x11; 32];
const ID_ENTROPY: [u8; 24] = [0x22; 24];
const SESSION_ENTROPY: [u8; 32] = [0x33; 32];
const SEED: [u8; 32] = [0x44; 32];

fn client(error: ClientInputError) -> HandshakeError {
    HandshakeError::ClientInput(error)
}

fn refusal(error: AuthorizationError) -> HandshakeError {
    HandshakeError::Authorization(error)
}

fn is_wire_text(text: &str) -> bool {
    !text.is_empty()
        && text
            .chars()
            .all(|c| c.is_ascii_alphanumeric() || c == '-' || c == '_')
}

/// A coordinator that has granted a token at 1000 and a credential at 2000.
fn with_credential() -> (Coordinator, String, String) {
    let mut coordinator = Coordinator::new();
    let token = coordinator
        .check_code_with("alice", "123456", &TOKEN_ENTROPY, 1_000)
        .unwrap()
        .verification_token;
    let grant = coordinator
        .issue_credential_with(&token, &ID_ENTROPY, &SEED, 2_000)
        .unwrap();
    (coordinator, grant.credential_id, grant.credential_private)
}

#[test]
fn validate_code_accepts_the_one_code() {
    assert!(validate_code("123456"));
    assert!(!validate_code("123457"));
    assert!(!validate_code(""));
    assert!(!validate_code(" 123456"));
    assert!(!validate_code("1234567"));
}

#[test]
fn admit_code_wants_a_username_and_then_the_code() {
    assert_eq!(admit_code("alice", "123456"), Ok(()));
    assert_eq!(
        admit_code("", "123456"),
        Err(client(ClientInputError::UsernameRequired))
    );
    assert_eq!(
        admit_code("   ", "000000"),
        Err(client(ClientInputError::UsernameRequired))
    );
    assert_eq!(
        admit_code("alice", "000000"),
        Err(refusal(AuthorizationError::InvalidCode))
    );
}

#[test]
fn check_code_mints_the_token_from_the_entropy() {
    let mut coordinator = Coordinator::new();
    let grant = coordinator
        .check_code_with("alice", "123456", &TOKEN_ENTROPY, 1_000)
        .unwrap();
    assert_eq!(grant.verification_token, encode(&TOKEN_ENTROPY));
    assert_eq!(grant.expires_in_seconds, 300);
    assert_eq!(
        coordinator.verification_tokens().get(&grant.verification_token),
        Some((301_000, vec![]))
    );
    assert!(!coordinator.temporary_credentials().contains(&grant.verification_token));
    assert!(!coordinator.sessions().contains(&grant.verification_token));
}

#[test]
fn check_code_without_username_is_a_client_error_and_registers_nothing() {
    let mut coordinator = Coordinator::new();
    let outcome = coordinator.check_code_with(" \t", "123456", &TOKEN_ENTROPY, 0);
    assert_eq!(
        outcome.unwrap_err(),
        client(ClientInputError::UsernameRequired)
    );
    assert!(!coordinator.verification_tokens().contains(&encode(&TOKEN_ENTROPY)));
    let outcome = coordinator.check_code("", "123456", 0);
    assert_eq!(
        outcome.unwrap_err(),
        client(ClientInputError::UsernameRequired)
    );
}

#[test]
fn check_code_with_the_wrong_code_is_refused_and_registers_nothing() {
    let mut coordinator = Coordinator::new();
    let outcome = coordinator.check_code_with("alice", "654321", &TOKEN_ENTROPY, 0);
    assert_eq!(
        outcome.unwrap_err(),
        refusal(AuthorizationError::InvalidCode)
    );
    assert!(!coordinator.verification_tokens().contains(&encode(&TOKEN_ENTROPY)));
    let outcome = coordinator.check_code("alice", "", 0);
    assert_eq!(
        outcome.unwrap_err(),
        refusal(AuthorizationError::InvalidCode)
    );
}

#[test]
fn check_code_draws_a_fresh_token_each_time() {
    let mut coordinator = Coordinator::new();
    let first = coordinator.check_code("alice", "123456", 0).unwrap();
    let second = coordinator.check_code("alice", "123456", 0).unwrap();
    assert_eq!(first.verification_token.len(), 43);
    assert_eq!(second.verification_token.len(), 43);
    assert!(is_wire_text(&first.verification_token));
    assert!(is_wire_text(&second.verification_token));
    assert_ne!(first.verification_token, second.verification_token);
    assert!(coordinator.verification_tokens().contains(&first.verification_token));
    assert!(coordinator.verification_tokens().contains(&second.verification_token));
}

#[test]
fn a_token_is_usable_until_its_lifetime_has_elapsed() {
    let mut coordinator = Coordinator::new();
    let token = coordinator
        .check_code_with("alice", "123456", &TOKEN_ENTROPY, 1_000)
        .unwrap()
        .verification_token;
    assert!(coordinator
        .issue_credential_with(&token, &ID_ENTROPY, &SEED, 1_000)
        .is_ok());
    assert!(coordinator
        .issue_credential_with(&token, &[0x23; 24], &SEED, 300_999)
        .is_ok());
    assert_eq!(
        coordinator
            .issue_credential_with(&token, &[0x24; 24], &SEED, 301_000)
            .unwrap_err(),
        refusal(AuthorizationError::InvalidOrExpiredVerificationToken)
    );
    assert!(!coordinator.temporary_credentials().contains(&encode(&[0x24; 24])));
}

#[test]
fn an_expired_token_is_removed_and_stays_refused() {
    let mut coordinator = Coordinator::new();
    let token = coordinator
        .check_code_with("alice", "123456", &TOKEN_ENTROPY, 1_000)
        .unwrap()
        .verification_token;
    assert_eq!(
        coordinator.issue_credential(&token, 400_000).unwrap_err(),
        refusal(AuthorizationError::InvalidOrExpiredVerificationToken)
    );
    assert!(!coordinator.verification_tokens().contains(&token));
    assert_eq!(
        coordinator.issue_credential(&token, 1_000).unwrap_err(),
        refusal(AuthorizationError::InvalidOrExpiredVerificationToken)
    );
}

#[test]
fn an_unknown_token_is_refused_like_an_expired_one() {
    let mut coordinator = Coordinator::new();
    assert_eq!(
        coordinator.issue_credential("nobody-gave-this-out", 0).unwrap_err(),
        refusal(AuthorizationError::InvalidOrExpiredVerificationToken)
    );
    assert_eq!(
        coordinator
            .issue_credential_with("nobody-gave-this-out", &ID_ENTROPY, &SEED, 0)
            .unwrap_err(),
        refusal(AuthorizationError::InvalidOrExpiredVerificationToken)
    );
}

#[test]
fn a_removed_token_is_refused() {
    let mut coordinator = Coordinator::new();
    let token = coordinator
        .check_code_with("alice", "123456", &TOKEN_ENTROPY, 1_000)
        .unwrap()
        .verification_token;
    coordinator.sweep(301_000);
    assert!(!coordinator.verification_tokens().contains(&token));
    assert_eq!(
        coordinator.issue_credential(&token, 1_000).unwrap_err(),
        refusal(AuthorizationError::InvalidOrExpiredVerificationToken)
    );
}

#[test]
fn an_empty_token_is_a_client_error() {
    let (mut coordinator, _, _) = with_credential();
    assert_eq!(
        coordinator.issue_credential("", 1_000).unwrap_err(),
        client(ClientInputError::VerificationTokenRequired)
    );
    assert_eq!(
        coordinator
            .issue_credential_with("  \n", &ID_ENTROPY, &SEED, 1_000)
            .unwrap_err(),
        client(ClientInputError::VerificationTokenRequired)
    );
}

#[test]
fn a_token_is_found_with_whitespace_around_it() {
    let mut coordinator = Coordinator::new();
    let token = coordinator
        .check_code_with("alice", "123456", &TOKEN_ENTROPY, 1_000)
        .unwrap()
        .verification_token;
    let padded = format!("  {token}\n");
    assert!(coordinator
        .issue_credential_with(&padded, &ID_ENTROPY, &SEED, 1_000)
        .is_ok());
}

#[test]
fn a_token_can_be_exchanged_more_than_once() {
    let mut coordinator = Coordinator::new();
    let token = coordinator.check_code("alice", "123456", 0).unwrap().verification_token;
    let first = coordinator.issue_credential(&token, 10).unwrap();
    let second = coordinator.issue_credential(&token, 20).unwrap();
    assert_ne!(first.credential_id, second.credential_id);
    assert_ne!(first.credential_private, second.credential_private);
    assert!(coordinator.verification_tokens().contains(&token));
}

#[test]
fn issue_credential_registers_the_public_key_of_the_seed() {
    let seed: Vec<u8> = decode("TM0Imyj_ltqdtsNG7BFOD1uKMZ81q6Yk2oz27U-4pvs").unwrap();
    let seed: [u8; 32] = seed.try_into().unwrap();
    let mut coordinator = Coordinator::new();
    let token = coordinator
        .check_code_with("alice", "123456", &TOKEN_ENTROPY, 1_000)
        .unwrap()
        .verification_token;
    let grant = coordinator
        .issue_credential_with(&token, &ID_ENTROPY, &seed, 2_000)
        .unwrap();
    assert_eq!(grant.credential_id, encode(&ID_ENTROPY));
    assert_eq!(grant.credential_id.len(), 32);
    assert_eq!(grant.credential_private, encode(&seed));
    assert_eq!(grant.expires_in_seconds, 300);
    let (expires_at, public_key) = coordinator
        .temporary_credentials()
        .get(&grant.credential_id)
        .unwrap();
    assert_eq!(expires_at, 302_000);
    assert_eq!(
        encode(&public_key),
        "PUAXw-hDiVqStwqnTRt-vJyYLM8uxJaMwM1V8Sr0Zgw"
    );
}

#[test]
fn issue_credential_hands_out_a_fresh_key() {
    let mut coordinator = Coordinator::new();
    let token = coordinator.check_code("alice", "123456", 0).unwrap().verification_token;
    let grant = coordinator.issue_credential(&token, 0).unwrap();
    assert_eq!(grant.credential_id.len(), 32);
    assert_eq!(grant.credential_private.len(), 43);
    assert!(is_wire_text(&grant.credential_id));
    assert!(is_wire_text(&grant.credential_private));
    assert_eq!(decode(&grant.credential_private).unwrap().len(), 32);
    let (_, public_key) = coordinator
        .temporary_credentials()
        .get(&grant.credential_id)
        .unwrap();
    assert_eq!(public_key.len(), 32);
    assert_ne!(encode(&public_key), grant.credential_private);
}

#[test]
fn a_signature_by_the_issued_key_enters_a_session() {
    let (mut coordinator, id, private) = with_credential();
    for message in ["hello-proof", "x", " spaced ", "zażółć"] {
        let signature = sign_proof(&private, message).unwrap();
        let grant = coordinator
            .enter_session_with(&id, message, &signature, &SESSION_ENTROPY, 3_000)
            .unwrap();
        assert_eq!(grant.session_token, encode(&SESSION_ENTROPY));
        assert_eq!(grant.expires_in_seconds, 1800);
    }
    assert_eq!(
        coordinator.sessions().get(&encode(&SESSION_ENTROPY)),
        Some((1_803_000, vec![]))
    );
}

#[test]
fn a_credential_can_enter_more_than_one_session() {
    let (mut coordinator, id, private) = with_credential();
    let signature = sign_proof(&private, "hello-proof").unwrap();
    let first = coordinator.enter_session(&id, "hello-proof", &signature, 3_000).unwrap();
    let second = coordinator.enter_session(&id, "hello-proof", &signature, 3_000).unwrap();
    assert_ne!(first.session_token, second.session_token);
    assert_eq!(first.session_token.len(), 43);
    assert!(is_wire_text(&first.session_token));
    assert!(coordinator.sessions().contains(&first.session_token));
    assert!(coordinator.sessions().contains(&second.session_token));
    assert!(coordinator.temporary_credentials().contains(&id));
}

#[test]
fn a_credential_is_usable_until_its_lifetime_has_elapsed() {
    let (mut coordinator, id, private) = with_credential();
    let signature = sign_proof(&private, "hello-proof").unwrap();
    assert!(coordinator
        .enter_session(&id, "hello-proof", &signature, 301_999)
        .is_ok());
    assert_eq!(
        coordinator
            .enter_session(&id, "hello-proof", &signature, 302_000)
            .unwrap_err(),
        refusal(AuthorizationError::InvalidOrExpiredCredential)
    );
    assert!(!coordinator.temporary_credentials().contains(&id));
    assert_eq!(
        coordinator
            .enter_session(&id, "hello-proof", &signature, 3_000)
            .unwrap_err(),
        refusal(AuthorizationError::InvalidOrExpiredCredential)
    );
}

#[test]
fn an_unknown_credential_is_refused() {
    let (mut coordinator, _, private) = with_credential();
    let signature = sign_proof(&private, "hello-proof").unwrap();
    assert_eq!(
        coordinator
            .enter_session("no-such-credential", "hello-proof", &signature, 3_000)
            .unwrap_err(),
        refusal(AuthorizationError::InvalidOrExpiredCredential)
    );
}

#[test]
fn a_tampered_message_is_refused() {
    let (mut coordinator, id, private) = with_credential();
    let signature = sign_proof(&private, "hello-proof").unwrap();
    assert_eq!(
        coordinator
            .enter_session_with(&id, "hello-proog", &signature, &SESSION_ENTROPY, 3_000)
            .unwrap_err(),
        refusal(AuthorizationError::InvalidSignature)
    );
    assert!(!coordinator.sessions().contains(&encode(&SESSION_ENTROPY)));
    assert!(coordinator.temporary_credentials().contains(&id));
}

#[test]
fn a_tampered_signature_is_refused() {
    let (mut coordinator, id, private) = with_credential();
    let signature = decode(&sign_proof(&private, "hello-proof").unwrap()).unwrap();
    let mut at: usize = 0;
    while at < signature.len() {
        let mut tampered = signature.clone();
        tampered[at] ^= 0x80;
        assert_eq!(
            coordinator
                .enter_session(&id, "hello-proof", &encode(&tampered), 3_000)
                .unwrap_err(),
            refusal(AuthorizationError::InvalidSignature)
        );
        at += 1;
    }
    assert!(coordinator.temporary_credentials().contains(&id));
}

#[test]
fn a_signature_by_another_key_is_refused() {
    let (mut coordinator, id, _) = with_credential();
    let signature = sign_proof(&encode(&[0x45; 32]), "hello-proof").unwrap();
    assert_eq!(
        coordinator
            .enter_session(&id, "hello-proof", &signature, 3_000)
            .unwrap_err(),
        refusal(AuthorizationError::InvalidSignature)
    );
}

#[test]
fn a_signature_that_is_no_wire_text_is_a_client_error() {
    let (mut coordinator, id, _) = with_credential();
    for signature in ["not base64!", "abc=", "a+b/", "ż"] {
        let error = coordinator
            .enter_session(&id, "hello-proof", signature, 3_000)
            .unwrap_err();
        assert_eq!(error, client(ClientInputError::SignatureNotBase64url));
        assert_ne!(error, refusal(AuthorizationError::InvalidSignature));
        assert_eq!(error.status(), 400);
    }
}

#[test]
fn a_signature_of_the_wrong_length_is_a_client_error() {
    let (mut coordinator, id, _) = with_credential();
    assert_eq!(
        coordinator
            .enter_session(&id, "hello-proof", &encode(&[0u8; 63]), 3_000)
            .unwrap_err(),
        client(ClientInputError::SignatureInvalidFormat)
    );
    assert_eq!(
        coordinator
            .enter_session(&id, "hello-proof", &encode(&[0u8; 65]), 3_000)
            .unwrap_err(),
        client(ClientInputError::SignatureInvalidFormat)
    );
}

#[test]
fn the_credential_is_looked_up_before_the_signature_is_read() {
    let (mut coordinator, _, _) = with_credential();
    assert_eq!(
        coordinator
            .enter_session("no-such-credential", "hello-proof", "not base64!", 3_000)
            .unwrap_err(),
        refusal(AuthorizationError::InvalidOrExpiredCredential)
    );
}

#[test]
fn empty_fields_are_client_errors_before_any_lookup() {
    let (mut coordinator, id, private) = with_credential();
    let signature = sign_proof(&private, "hello-proof").unwrap();
    assert_eq!(
        coordinator
            .enter_session("", "hello-proof", &signature, 3_000)
            .unwrap_err(),
        client(ClientInputError::CredentialIdRequired)
    );
    assert_eq!(
        coordinator
            .enter_session(" ", "", "", 3_000)
            .unwrap_err(),
        client(ClientInputError::CredentialIdRequired)
    );
    assert_eq!(
        coordinator.enter_session(&id, "", &signature, 3_000).unwrap_err(),
        client(ClientInputError::MessageRequired)
    );
    assert_eq!(
        coordinator
            .enter_session(&id, "hello-proof", "", 3_000)
            .unwrap_err(),
        client(ClientInputError::SignatureRequired)
    );
    assert_eq!(
        coordinator
            .enter_session("no-such-credential", "", "", 3_000)
            .unwrap_err(),
        client(ClientInputError::MessageRequired)
    );
}

#[test]
fn an_expired_credential_with_an_empty_message_stays_in_place() {
    let (mut coordinator, id, _) = with_credential();
    assert_eq!(
        coordinator.enter_session(&id, "", "sig", 999_999).unwrap_err(),
        client(ClientInputError::MessageRequired)
    );
    assert!(coordinator.temporary_credentials().contains(&id));
}

#[test]
fn a_message_of_whitespace_is_signed_as_it_is() {
    let (mut coordinator, id, private) = with_credential();
    let signature = sign_proof(&private, " ").unwrap();
    assert!(coordinator.enter_session(&id, " ", &signature, 3_000).is_ok());
    assert_eq!(
        coordinator.enter_session(&id, "", &signature, 3_000).unwrap_err(),
        client(ClientInputError::MessageRequired)
    );
}

#[test]
fn sweep_deletes_what_has_expired_in_every_registry() {
    let (mut coordinator, id, private) = with_credential();
    let token = encode(&TOKEN_ENTROPY);
    let signature = sign_proof(&private, "hello-proof").unwrap();
    let session = coordinator
        .enter_session(&id, "hello-proof", &signature, 3_000)
        .unwrap()
        .session_token;
    coordinator.sweep(300_999);
    assert!(coordinator.verification_tokens().contains(&token));
    assert!(coordinator.temporary_credentials().contains(&id));
    assert!(coordinator.sessions().contains(&session));
    coordinator.sweep(301_000);
    assert!(!coordinator.verification_tokens().contains(&token));
    assert!(coordinator.temporary_credentials().contains(&id));
    coordinator.sweep(302_000);
    assert!(!coordinator.temporary_credentials().contains(&id));
    assert!(coordinator.sessions().contains(&session));
    coordinator.sweep(1_803_000);
    assert!(!coordinator.sessions().contains(&session));
}

#[test]
fn liveness_does_not_wait_for_the_sweep() {
    let (mut coordinator, id, private) = with_credential();
    let signature = sign_proof(&private, "hello-proof").unwrap();
    coordinator.sweep(2_500);
    assert!(coordinator.enter_session(&id, "hello-proof", &signature, 3_000).is_ok());
    assert_eq!(
        coordinator
            .enter_session(&id, "hello-proof", &signature, 302_000)
            .unwrap_err(),
        refusal(AuthorizationError::InvalidOrExpiredCredential)
    );
}

#[test]
fn the_handshake_from_code_to_session() {
    let mut coordinator = Coordinator::new();
    let now = 5_000;
    let verified = coordinator.check_code("alice", "123456", now).unwrap();
    assert_eq!(verified.expires_in_seconds, 300);
    assert!(is_wire_text(&verified.verification_token));

    let credential = coordinator
        .issue_credential(&verified.verification_token, now + 100)
        .unwrap();
    assert_eq!(credential.expires_in_seconds, 300);
    assert!(is_wire_text(&credential.credential_id));
    assert!(is_wire_text(&credential.credential_private));

    let signature = sign_proof(&credential.credential_private, "hello-proof").unwrap();
    assert!(is_wire_text(&signature));
    assert_eq!(decode(&signature).unwrap().len(), 64);

    let session = coordinator
        .enter_session(&credential.credential_id, "hello-proof", &signature, now + 200)
        .unwrap();
    assert_eq!(session.expires_in_seconds, 1800);
    assert!(is_wire_text(&session.session_token));
    assert_eq!(
        coordinator.sessions().get_live(&session.session_token, now + 200 + 1_799_999),
        Some(vec![])
    );
    assert_eq!(
        coordinator.sessions().get_live(&session.session_token, now + 200 + 1_800_000),
        None
    );
}
