//! Why a step of the handshake was refused.

use vstd::prelude::*;

verus! {

/// A request that is malformed, whatever the registries hold.
#[derive(Clone, Copy, Debug, PartialEq, Eq, Structural)]
pub enum ClientInputError {
    /// The username is empty or whitespace alone.
    UsernameRequired,
    /// The verification token is empty or whitespace alone.
    VerificationTokenRequired,
    /// The credential identifier is empty or whitespace alone.
    CredentialIdRequired,
    /// The message is empty.
    MessageRequired,
    /// The signature is empty.
    SignatureRequired,
    /// The signature is not base64 text of the URL-safe alphabet.
    SignatureNotBase64url,
    /// The signature decodes to something that is not 64 bytes long.
    SignatureInvalidFormat,
}

/// A well-formed request that proves too little.
#[derive(Clone, Copy, Debug, PartialEq, Eq, Structural)]
pub enum AuthorizationError {
    /// The one-time code is wrong.
    InvalidCode,
    /// The verification token is unknown or no longer live; which of the two
    /// is not told.
    InvalidOrExpiredVerificationToken,
    /// The credential is unknown or no longer live; which of the two is not
    /// told.
    InvalidOrExpiredCredential,
    /// The signature does not verify under the credential's public key.
    InvalidSignature,
}

/// Why a step of the handshake was refused.
#[derive(Clone, Copy, Debug, PartialEq, Eq, Structural)]
pub enum HandshakeError {
    /// The request is malformed; sending it again cannot help.
    ClientInput(ClientInputError),
    /// The request is well formed and is refused.
    Authorization(AuthorizationError),
    /// The entropy source is unavailable; the step was given up.
    Fatal,
}

/// Status of a malformed request.
pub const STATUS_BAD_REQUEST: u16 = 400;

/// Status of a refused request.
pub const STATUS_UNAUTHORIZED: u16 = 401;

/// Status of a step that was given up.
pub const STATUS_INTERNAL_ERROR: u16 = 500;

impl ClientInputError {
    /// The word by which the error is reported.
    pub fn message(&self) -> (text: &'static str)
        ensures
            text@ == self.spec_message(),
    {
        match self {
            ClientInputError::UsernameRequired => "username_required",
            ClientInputError::VerificationTokenRequired => "verification_token_required",
            ClientInputError::CredentialIdRequired => "credential_id_required",
            ClientInputError::MessageRequired => "message_required",
            ClientInputError::SignatureRequired => "signature_required",
            ClientInputError::SignatureNotBase64url => "signature_not_base64url",
            ClientInputError::SignatureInvalidFormat => "signature_invalid_format",
        }
    }

    /// The word by which the error is reported.
    pub open spec fn spec_message(&self) -> Seq<char> {
        match self {
            ClientInputError::UsernameRequired => "username_required"@,
            ClientInputError::VerificationTokenRequired => "verification_token_required"@,
            ClientInputError::CredentialIdRequired => "credential_id_required"@,
            ClientInputError::MessageRequired => "message_required"@,
            ClientInputError::SignatureRequired => "signature_required"@,
            ClientInputError::SignatureNotBase64url => "signature_not_base64url"@,
            ClientInputError::SignatureInvalidFormat => "signature_invalid_format"@,
        }
    }
}

impl AuthorizationError {
    /// The word by which the error is reported.
    pub fn message(&self) -> (text: &'static str)
        ensures
            text@ == self.spec_message(),
    {
        match self {
            AuthorizationError::InvalidCode => "invalid code",
            AuthorizationError::InvalidOrExpiredVerificationToken => {
                "invalid_or_expired_verification_token"
            },
            AuthorizationError::InvalidOrExpiredCredential => "invalid_or_expired_credential",
            AuthorizationError::InvalidSignature => "invalid_signature",
        }
    }

    /// The word by which the error is reported.
    pub open spec fn spec_message(&self) -> Seq<char> {
        match self {
            AuthorizationError::InvalidCode => "invalid code"@,
            AuthorizationError::InvalidOrExpiredVerificationToken => {
                "invalid_or_expired_verification_token"@
            },
            AuthorizationError::InvalidOrExpiredCredential => "invalid_or_expired_credential"@,
            AuthorizationError::InvalidSignature => "invalid_signature"@,
        }
    }
}

impl HandshakeError {
    /// The status under which the error is reported: one for each class.
    pub open spec fn spec_status(&self) -> u16 {
        match self {
            HandshakeError::ClientInput(_) => STATUS_BAD_REQUEST,
            HandshakeError::Authorization(_) => STATUS_UNAUTHORIZED,
            HandshakeError::Fatal => STATUS_INTERNAL_ERROR,
        }
    }

    /// The word by which the error is reported.
    pub open spec fn spec_message(&self) -> Seq<char> {
        match self {
            HandshakeError::ClientInput(e) => e.spec_message(),
            HandshakeError::Authorization(e) => e.spec_message(),
            HandshakeError::Fatal => "entropy_unavailable"@,
        }
    }

    /// The status under which the error is reported.
    pub fn status(&self) -> (code: u16)
        ensures
            code == self.spec_status(),
    {
        match self {
            HandshakeError::ClientInput(_) => STATUS_BAD_REQUEST,
            HandshakeError::Authorization(_) => STATUS_UNAUTHORIZED,
            HandshakeError::Fatal => STATUS_INTERNAL_ERROR,
        }
    }

    /// The word by which the error is reported.
    pub fn message(&self) -> (text: &'static str)
        ensures
            text@ == self.spec_message(),
    {
        match self {
            HandshakeError::ClientInput(e) => e.message(),
            HandshakeError::Authorization(e) => e.message(),
            HandshakeError::Fatal => "entropy_unavailable",
        }
    }

    /// Whether the error is the caller's malformed input.
    pub fn is_client_input(&self) -> (yes: bool)
        ensures
            yes == (self is ClientInput),
    {
        match self {
            HandshakeError::ClientInput(_) => true,
            _ => false,
        }
    }

    /// Whether the error is a refusal of a well-formed request.
    pub fn is_authorization(&self) -> (yes: bool)
        ensures
            yes == (self is Authorization),
    {
        match self {
            HandshakeError::Authorization(_) => true,
            _ => false,
        }
    }
}

} // verus!
