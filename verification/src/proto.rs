//! The vocabulary shared with the authentication engine: mechanisms,
//! credential prompts, steps, outcomes and faults.

use compact_jwt::JwsCompact;
use vstd::prelude::*;
use webauthn_rs::prelude::{PublicKeyCredential, RequestChallengeResponse};

verus! {

#[verifier::external_type_specification]
#[verifier::external_body]
pub struct ExPublicKeyCredential(PublicKeyCredential);

#[verifier::external_type_specification]
#[verifier::external_body]
pub struct ExRequestChallengeResponse(RequestChallengeResponse);

#[verifier::external_type_specification]
#[verifier::external_body]
pub struct ExJwsCompact(JwsCompact);

#[verifier::external_type_specification]
#[verifier::external_body]
pub struct ExJsonError(serde_json::Error);

/// The JSON text of a WebAuthn challenge, where it has one.
pub uninterp spec fn challenge_json(chal: RequestChallengeResponse) -> Option<Seq<char>>;

/// The text of a compact JWS: header, payload and signature, with dots
/// between.
pub uninterp spec fn token_text(token: JwsCompact) -> Seq<char>;

/// `serde_json::to_string` on a challenge. The text depends on the challenge
/// alone.
#[verifier::external_body]
pub(crate) fn challenge_to_json(chal: &RequestChallengeResponse) -> (json: Result<
    String,
    serde_json::Error,
>)
    ensures
        json is Ok <==> challenge_json(*chal) is Some,
        json matches Ok(text) ==> challenge_json(*chal) == Some(text@),
{
    serde_json::to_string(chal)
}

/// `to_string` on a compact JWS, by its `Display`.
#[verifier::external_body]
pub(crate) fn token_to_string(token: &JwsCompact) -> (text: String)
    ensures
        text@ == token_text(*token),
{
    token.to_string()
}

/// A way to authenticate that the engine may offer.
#[derive(Clone, Copy, Debug, PartialEq, Eq, Structural)]
pub enum AuthMech {
    Anonymous,
    Password,
    PasswordBackupCode,
    PasswordTotp,
    PasswordSecurityKey,
    Passkey,
}

impl AuthMech {
    /// The form value that names each mechanism on the wire.
    pub open spec fn value_spec(self) -> Seq<char> {
        match self {
            AuthMech::Anonymous => "anonymous"@,
            AuthMech::Password => "password"@,
            AuthMech::PasswordBackupCode => "passwordbackupcode"@,
            AuthMech::PasswordTotp => "passwordmfa"@,
            AuthMech::PasswordSecurityKey => "passwordsecuritykey"@,
            AuthMech::Passkey => "passkey"@,
        }
    }

    /// The form value of this mechanism.
    pub fn to_value(&self) -> (value: &'static str)
        ensures
            value@ == self.value_spec(),
    {
        match self {
            AuthMech::Anonymous => "anonymous",
            AuthMech::Password => "password",
            AuthMech::PasswordBackupCode => "passwordbackupcode",
            AuthMech::PasswordTotp => "passwordmfa",
            AuthMech::PasswordSecurityKey => "passwordsecuritykey",
            AuthMech::Passkey => "passkey",
        }
    }
}

/// Names one login attempt from its first step to its last.
#[derive(Clone, Copy, Debug, PartialEq, Eq)]
pub struct SessionId {
    pub sessionid: [u8; 16],
}

impl View for SessionId {
    type V = Seq<u8>;

    open spec fn view(&self) -> Seq<u8> {
        self.sessionid@
    }
}

/// An identifier that may be missing, as contracts see it.
pub open spec fn session_view(sessionid: Option<SessionId>) -> Option<Seq<u8>> {
    match sessionid {
        Some(id) => Some(id@),
        None => None,
    }
}

/// Names one request, so that what the client is told of a fault can be
/// matched with what the server recorded of it.
#[derive(Clone, Copy, Debug, PartialEq, Eq, Structural)]
pub struct KOpId {
    pub eventid: u128,
}

/// Why a request could not be served.
#[derive(Clone, Copy, Debug, PartialEq, Eq, Structural)]
pub enum OperationError {
    NotAuthenticated,
    SessionExpired,
    InvalidState,
    InvalidSessionState,
    InvalidRequestState,
    SerdeJsonError,
    AccessDenied,
    NoMatchingEntries,
    Backend,
}

/// How a completed login hands its session to the client.
#[derive(Clone, Copy, Debug, PartialEq, Eq, Structural)]
pub enum AuthIssueSession {
    Token,
    Cookie,
}

/// What the client submits to answer a prompt.
#[derive(Debug)]
pub enum AuthCredential {
    Anonymous,
    Password(String),
    Totp(u32),
    SecurityKey(Box<PublicKeyCredential>),
    BackupCode(String),
    Passkey(Box<PublicKeyCredential>),
}

/// A credential, as contracts see it.
pub ghost enum CredentialView {
    Anonymous,
    Password(Seq<char>),
    Totp(u32),
    SecurityKey(PublicKeyCredential),
    BackupCode(Seq<char>),
    Passkey(PublicKeyCredential),
}

impl View for AuthCredential {
    type V = CredentialView;

    open spec fn view(&self) -> CredentialView {
        match self {
            AuthCredential::Anonymous => CredentialView::Anonymous,
            AuthCredential::Password(password) => CredentialView::Password(password@),
            AuthCredential::Totp(code) => CredentialView::Totp(*code),
            AuthCredential::SecurityKey(assertion) => CredentialView::SecurityKey(**assertion),
            AuthCredential::BackupCode(code) => CredentialView::BackupCode(code@),
            AuthCredential::Passkey(assertion) => CredentialView::Passkey(**assertion),
        }
    }
}

/// One step of a login, as the engine takes it.
#[derive(Debug)]
pub enum AuthStep {
    Init2 { username: String, remember_me: Option<u8>, issue: AuthIssueSession, privileged: bool },
    Begin(AuthMech),
    Cred(AuthCredential),
}

/// A step, as contracts see it.
pub ghost enum StepView {
    Init2 {
        username: Seq<char>,
        remember_me: Option<u8>,
        issue: AuthIssueSession,
        privileged: bool,
    },
    Begin(AuthMech),
    Cred(CredentialView),
}

impl View for AuthStep {
    type V = StepView;

    open spec fn view(&self) -> StepView {
        match self {
            AuthStep::Init2 { username, remember_me, issue, privileged } => StepView::Init2 {
                username: username@,
                remember_me: *remember_me,
                issue: *issue,
                privileged: *privileged,
            },
            AuthStep::Begin(mech) => StepView::Begin(*mech),
            AuthStep::Cred(cred) => StepView::Cred(cred@),
        }
    }
}

/// A request to the engine.
#[derive(Debug)]
pub struct AuthRequest {
    pub step: AuthStep,
}

impl View for AuthRequest {
    type V = StepView;

    open spec fn view(&self) -> StepView {
        self.step@
    }
}

/// What the client must supply next.
#[derive(Debug)]
pub enum AuthAllowed {
    Anonymous,
    BackupCode,
    Password,
    Totp,
    SecurityKey(RequestChallengeResponse),
    Passkey(RequestChallengeResponse),
}

/// Where a login stands after a step, as the engine answers.
#[derive(Debug)]
pub enum AuthState {
    Choose(Vec<AuthMech>),
    Continue(Vec<AuthAllowed>),
    Denied(String),
    Success(Box<JwsCompact>, AuthIssueSession),
}

/// The engine's answer to a step.
#[derive(Debug)]
pub struct AuthResult {
    pub sessionid: SessionId,
    pub state: AuthState,
}

} // verus!
