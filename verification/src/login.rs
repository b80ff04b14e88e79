//! The login flow: what to ask the authentication engine next, and what to
//! answer the client, for each form the client posts and each answer the
//! engine gives.
//!
//! The flow never calls the engine itself. Every entry point returns a
//! [`LoginAction`]: either the response for the client, or a request for the
//! engine together with what has to be kept until its answer is handed to
//! [`login_resume`].

use crate::cookies::{
    apply_bearer, apply_continuity, auth_session_cookie, bearer_cookie, bearer_view, clear,
    continuity_view, cookie_value, jar_cookies, CookieView, COOKIE_AUTH_SESSION_ID,
};
use crate::proto::{
    challenge_json, challenge_to_json, session_view, token_text, token_to_string, AuthAllowed,
    AuthCredential, AuthIssueSession, AuthMech, AuthRequest, AuthResult, AuthState, AuthStep,
    CredentialView, KOpId, OperationError, SessionId, StepView,
};
use crate::session::{decode, decode_spec, encode, encode_spec};
use crate::text::{parse_totp, totp_spec, trim_spec, trimmed};
use axum_extra::extract::cookie::CookieJar;
use vstd::prelude::*;
use webauthn_rs::prelude::PublicKeyCredential;

verus! {

/// How many answers of the engine one request may settle before the flow
/// gives up on it.
pub const LOGIN_LOOP_BUDGET: u8 = 3;

/// What the flow needs to know of the deployment.
pub struct ServerState {
    /// The HMAC-SHA256 key that seals continuity tokens.
    pub jws_key: Vec<u8>,
    /// Whether cookies are sent over secure transport only.
    pub secure_cookies: bool,
    /// The domain whose hosts share the bearer cookie.
    pub domain: String,
}

/// A deployment, as contracts see it.
pub ghost struct Deployment {
    pub key: Seq<u8>,
    pub secure: bool,
    pub domain: Seq<char>,
}

impl View for ServerState {
    type V = Deployment;

    open spec fn view(&self) -> Deployment {
        Deployment { key: self.jws_key@, secure: self.secure_cookies, domain: self.domain@ }
    }
}

/// The marker that the one-time code prompt is shown with.
#[derive(Clone, Copy, Debug, PartialEq, Eq, Structural)]
pub enum LoginTotpError {
    /// Nothing to report.
    NoError,
    /// The field did not hold a number.
    Syntax,
}

/// One entry of the mechanism list: the mechanism and its form value.
#[derive(Debug)]
pub struct Mech<'a> {
    pub name: AuthMech,
    pub value: &'a str,
}

/// An entry of the mechanism list, as contracts see it.
pub ghost struct MechView {
    pub name: AuthMech,
    pub value: Seq<char>,
}

impl<'a> View for Mech<'a> {
    type V = MechView;

    open spec fn view(&self) -> MechView {
        MechView { name: self.name, value: self.value@ }
    }
}

/// What the client is shown.
#[derive(Debug)]
pub enum Screen {
    /// The form that starts a login.
    Login { username: String, remember_me: bool },
    /// The mechanisms to choose from, in the engine's order.
    MechChoose { mechs: Vec<Mech<'static>> },
    /// The prompt for a one-time code.
    Totp { errors: LoginTotpError },
    /// The prompt for a password.
    Password,
    /// The prompt for a backup code.
    BackupCode,
    /// The prompt for a security key or a passkey, with the challenge as JSON.
    Webauthn { passkey: bool, chal: String },
    /// The page for a fault that the client cannot mend, with the request's
    /// identifier to report it by.
    UnrecoverableError { err_code: OperationError, operation_id: u128 },
    /// A redirect, temporary or not.
    Redirect { location: &'static str, temporary: bool },
}

/// A screen, as contracts see it.
pub ghost enum ScreenView {
    Login { username: Seq<char>, remember_me: bool },
    MechChoose { mechs: Seq<MechView> },
    Totp { errors: LoginTotpError },
    Password,
    BackupCode,
    Webauthn { passkey: bool, chal: Seq<char> },
    UnrecoverableError { err_code: OperationError, operation_id: u128 },
    Redirect { location: Seq<char>, temporary: bool },
}

impl View for Screen {
    type V = ScreenView;

    open spec fn view(&self) -> ScreenView {
        match self {
            Screen::Login { username, remember_me } => ScreenView::Login {
                username: username@,
                remember_me: *remember_me,
            },
            Screen::MechChoose { mechs } => ScreenView::MechChoose {
                mechs: Seq::new(mechs@.len(), |i: int| mechs@[i]@),
            },
            Screen::Totp { errors } => ScreenView::Totp { errors: *errors },
            Screen::Password => ScreenView::Password,
            Screen::BackupCode => ScreenView::BackupCode,
            Screen::Webauthn { passkey, chal } => ScreenView::Webauthn {
                passkey: *passkey,
                chal: chal@,
            },
            Screen::UnrecoverableError { err_code, operation_id } => {
                ScreenView::UnrecoverableError {
                    err_code: *err_code,
                    operation_id: *operation_id,
                }
            },
            Screen::Redirect { location, temporary } => ScreenView::Redirect {
                location: location@,
                temporary: *temporary,
            },
        }
    }
}

/// Where a completed login is sent.
pub open spec fn apps_landing() -> Seq<char> {
    "/ui/apps"@
}

/// Where a denied login is sent.
pub open spec fn denied_landing() -> Seq<char> {
    "/ui/getrekt"@
}

/// The start page: the landing redirect for a client that is logged in, the
/// empty login form for one that is not, the error page for any other fault.
pub open spec fn index_spec(session_valid: Result<(), OperationError>, kopid: KOpId) -> ScreenView {
    match session_valid {
        Ok(_) => ScreenView::Redirect { location: apps_landing(), temporary: false },
        Err(OperationError::NotAuthenticated) | Err(OperationError::SessionExpired) => {
            ScreenView::Login { username: Seq::empty(), remember_me: false }
        },
        Err(err_code) => ScreenView::UnrecoverableError { err_code, operation_id: kopid.eventid },
    }
}

/// Decides the start page from what the engine says of the client's session.
pub fn view_index_get(session_valid_result: Result<(), OperationError>, kopid: KOpId) -> (screen:
    Screen)
    ensures
        screen@ == index_spec(session_valid_result, kopid),
{
    match session_valid_result {
        Ok(()) => Screen::Redirect { location: "/ui/apps", temporary: false },
        Err(OperationError::NotAuthenticated) | Err(OperationError::SessionExpired) => {
            Screen::Login { username: String::new(), remember_me: false }
        },
        Err(err_code) => Screen::UnrecoverableError { err_code, operation_id: kopid.eventid },
    }
}

/// What a request keeps while the engine works on a step.
#[derive(Debug)]
pub struct Pending {
    /// The cookies as they stand.
    pub jar: CookieJar,
    /// The session that the request is bound to, once an answer has named it.
    pub sessionid: Option<SessionId>,
    /// How many more answers may be settled.
    pub safety: u8,
}

/// What a request keeps, as contracts see it.
pub ghost struct PendingView {
    pub cookies: Map<Seq<char>, CookieView>,
    pub sessionid: Option<Seq<u8>>,
    pub safety: nat,
}

impl View for Pending {
    type V = PendingView;

    open spec fn view(&self) -> PendingView {
        PendingView {
            cookies: jar_cookies(self.jar),
            sessionid: session_view(self.sessionid),
            safety: self.safety as nat,
        }
    }
}

/// What the client is answered: a screen, and the jar whose changes go with
/// it, or no jar where the cookies stay as the client has them.
#[derive(Debug)]
pub struct LoginResponse {
    pub jar: Option<CookieJar>,
    pub screen: Screen,
}

/// An answer, as contracts see it.
pub ghost struct ResponseView {
    pub cookies: Option<Map<Seq<char>, CookieView>>,
    pub screen: ScreenView,
}

impl View for LoginResponse {
    type V = ResponseView;

    open spec fn view(&self) -> ResponseView {
        ResponseView {
            cookies: match self.jar {
                Some(jar) => Some(jar_cookies(jar)),
                None => None,
            },
            screen: self.screen@,
        }
    }
}

/// What happens next in a request.
#[derive(Debug)]
pub enum LoginAction {
    /// Hand `request` to the engine for `sessionid`, and its answer, with
    /// `pending`, to [`login_resume`].
    Submit { pending: Pending, sessionid: Option<SessionId>, request: AuthRequest },
    /// Answer the client.
    Respond(LoginResponse),
}

/// An action, as contracts see it.
pub ghost enum ActionView {
    Submit { pending: PendingView, sessionid: Option<Seq<u8>>, step: StepView },
    Respond(ResponseView),
}

impl View for LoginAction {
    type V = ActionView;

    open spec fn view(&self) -> ActionView {
        match self {
            LoginAction::Submit { pending, sessionid, request } => ActionView::Submit {
                pending: pending@,
                sessionid: session_view(*sessionid),
                step: request@,
            },
            LoginAction::Respond(response) => ActionView::Respond(response@),
        }
    }
}

/// A screen or a fault, as contracts see it.
pub open spec fn screen_result(screen: Result<Screen, OperationError>) -> Result<
    ScreenView,
    OperationError,
> {
    match screen {
        Ok(s) => Ok(s@),
        Err(e) => Err(e),
    }
}

/// An action or a fault, as contracts see it.
pub open spec fn action_result(action: Result<LoginAction, OperationError>) -> Result<
    ActionView,
    OperationError,
> {
    match action {
        Ok(a) => Ok(a@),
        Err(e) => Err(e),
    }
}

/// The answer that shows `screen` and sends the changes made to `cookies`.
pub open spec fn respond_with(cookies: Map<Seq<char>, CookieView>, screen: ScreenView) -> ActionView {
    ActionView::Respond(ResponseView { cookies: Some(cookies), screen })
}

/// The answer to a fault: the error page, and no change to the cookies.
pub open spec fn fault_response(err_code: OperationError, kopid: KOpId) -> ActionView {
    ActionView::Respond(
        ResponseView {
            cookies: None,
            screen: ScreenView::UnrecoverableError { err_code, operation_id: kopid.eventid },
        },
    )
}

/// The error page for an invalid state.
pub open spec fn invalid_state_page(kopid: KOpId) -> ScreenView {
    ScreenView::UnrecoverableError {
        err_code: OperationError::InvalidState,
        operation_id: kopid.eventid,
    }
}

/// The mechanism list for what the engine allows: one entry each, in the
/// engine's order, with the mechanism's form value.
pub open spec fn mech_choices(allowed: Seq<AuthMech>) -> Seq<MechView> {
    Seq::new(allowed.len(), |i: int| MechView { name: allowed[i], value: allowed[i].value_spec() })
}

/// Builds the mechanism list.
pub fn mech_list(allowed: &Vec<AuthMech>) -> (mechs: Vec<Mech<'static>>)
    ensures
        Seq::new(mechs@.len(), |i: int| mechs@[i]@) == mech_choices(allowed@),
{
    let mut mechs: Vec<Mech<'static>> = Vec::new();
    let mut i: usize = 0;
    while i < allowed.len()
        invariant
            i <= allowed@.len(),
            mechs@.len() == i,
            forall|k: int|
                0 <= k < i ==> (#[trigger] mechs@[k])@ == (MechView {
                    name: allowed@[k],
                    value: allowed@[k].value_spec(),
                }),
        decreases allowed@.len() - i,
    {
        let name: AuthMech = allowed[i];
        mechs.push(Mech { name, value: name.to_value() });
        i += 1;
    }
    assert(Seq::new(mechs@.len(), |i: int| mechs@[i]@) =~= mech_choices(allowed@));
    mechs
}

/// The screen for a WebAuthn prompt: the challenge as JSON, for a passkey or
/// for a security key.
pub fn webauthn_screen(passkey: bool, json: Result<String, serde_json::Error>) -> (screen: Result<
    Screen,
    OperationError,
>)
    ensures
        match json {
            Ok(chal) => screen_result(screen) == Ok::<ScreenView, OperationError>(
                ScreenView::Webauthn { passkey, chal: chal@ },
            ),
            Err(_) => screen_result(screen) == Err::<ScreenView, OperationError>(
                OperationError::SerdeJsonError,
            ),
        },
{
    match json {
        Ok(chal) => Ok(Screen::Webauthn { passkey, chal }),
        Err(_) => Err(OperationError::SerdeJsonError),
    }
}

/// The screen that asks for what the engine wants next: one screen for each
/// kind of prompt, and a fault for a prompt that no screen serves.
pub open spec fn prompt_screen_spec(prompt: AuthAllowed) -> Result<ScreenView, OperationError> {
    match prompt {
        AuthAllowed::Totp => Ok(ScreenView::Totp { errors: LoginTotpError::NoError }),
        AuthAllowed::Password => Ok(ScreenView::Password),
        AuthAllowed::BackupCode => Ok(ScreenView::BackupCode),
        AuthAllowed::SecurityKey(chal) => match challenge_json(chal) {
            Some(json) => Ok(ScreenView::Webauthn { passkey: false, chal: json }),
            None => Err(OperationError::SerdeJsonError),
        },
        AuthAllowed::Passkey(chal) => match challenge_json(chal) {
            Some(json) => Ok(ScreenView::Webauthn { passkey: true, chal: json }),
            None => Err(OperationError::SerdeJsonError),
        },
        AuthAllowed::Anonymous => Err(OperationError::InvalidState),
    }
}

/// Picks the screen for a prompt.
pub fn prompt_screen(prompt: AuthAllowed) -> (screen: Result<Screen, OperationError>)
    ensures
        screen_result(screen) == prompt_screen_spec(prompt),
{
    match prompt {
        AuthAllowed::Totp => Ok(Screen::Totp { errors: LoginTotpError::NoError }),
        AuthAllowed::Password => Ok(Screen::Password),
        AuthAllowed::BackupCode => Ok(Screen::BackupCode),
        AuthAllowed::SecurityKey(chal) => webauthn_screen(false, challenge_to_json(&chal)),
        AuthAllowed::Passkey(chal) => webauthn_screen(true, challenge_to_json(&chal)),
        AuthAllowed::Anonymous => Err(OperationError::InvalidState),
    }
}

/// What follows a `Choose` answer once the continuity token is made. The
/// continuity cookie is set first, whatever the list holds. Then: an empty
/// list is the engine's fault and gets the error page; a single mechanism is
/// begun at once, on the same session and with one unit less to spend; a
/// longer list is shown for the client to choose from.
pub open spec fn choose_spec(
    kopid: KOpId,
    cookies: Map<Seq<char>, CookieView>,
    allowed: Seq<AuthMech>,
    sessionid: Seq<u8>,
    token: Seq<char>,
    secure: bool,
    remaining: nat,
) -> ActionView {
    let cookies = cookies.insert(auth_session_cookie(), continuity_view(token, secure));
    if allowed.len() == 0 {
        respond_with(cookies, invalid_state_page(kopid))
    } else if allowed.len() == 1 {
        ActionView::Submit {
            pending: PendingView { cookies, sessionid: Some(sessionid), safety: remaining },
            sessionid: Some(sessionid),
            step: StepView::Begin(allowed[0]),
        }
    } else {
        respond_with(cookies, ScreenView::MechChoose { mechs: mech_choices(allowed) })
    }
}

/// Acts on a `Choose` answer, given the continuity token for the session.
pub fn login_choose(
    kopid: KOpId,
    jar: CookieJar,
    allowed: Vec<AuthMech>,
    sessionid: SessionId,
    token: String,
    secure: bool,
    remaining: u8,
) -> (action: LoginAction)
    ensures
        action@ == choose_spec(
            kopid,
            jar_cookies(jar),
            allowed@,
            sessionid@,
            token@,
            secure,
            remaining as nat,
        ),
{
    let jar = apply_continuity(jar, token, secure);
    if allowed.len() == 0 {
        LoginAction::Respond(
            LoginResponse {
                jar: Some(jar),
                screen: Screen::UnrecoverableError {
                    err_code: OperationError::InvalidState,
                    operation_id: kopid.eventid,
                },
            },
        )
    } else if allowed.len() == 1 {
        let mech: AuthMech = allowed[0];
        LoginAction::Submit {
            pending: Pending { jar, sessionid: Some(sessionid), safety: remaining },
            sessionid: Some(sessionid),
            request: AuthRequest { step: AuthStep::Begin(mech) },
        }
    } else {
        let mechs = mech_list(&allowed);
        LoginAction::Respond(LoginResponse { jar: Some(jar), screen: Screen::MechChoose { mechs } })
    }
}

/// What follows a `Success` answer that issues a cookie: the bearer cookie is
/// set, the continuity cookie is taken away, and the client is sent to the
/// landing page.
pub open spec fn success_spec(
    cfg: Deployment,
    cookies: Map<Seq<char>, CookieView>,
    token: Seq<char>,
) -> ActionView {
    respond_with(
        cookies.insert(bearer_cookie(), bearer_view(token, cfg.secure, cfg.domain)).remove(
            auth_session_cookie(),
        ),
        ScreenView::Redirect { location: apps_landing(), temporary: false },
    )
}

/// Acts on a `Success` answer, given the text of its bearer token.
pub fn login_success(state: &ServerState, jar: CookieJar, token: String) -> (action: LoginAction)
    ensures
        action@ == success_spec(state@, jar_cookies(jar), token@),
{
    let jar = apply_bearer(jar, token, state.secure_cookies, state.domain.clone());
    let jar = clear(jar, COOKIE_AUTH_SESSION_ID);
    LoginAction::Respond(
        LoginResponse {
            jar: Some(jar),
            screen: Screen::Redirect { location: "/ui/apps", temporary: false },
        },
    )
}

/// What one answer of the engine comes to, with `safety` units left.
///
/// With nothing left the request fails. Otherwise, by the answer:
/// - `Choose`: the continuity token is made, and the rest is `choose_spec`;
///   without a token the request fails.
/// - `Continue`: the screen of the one prompt, and the cookies as they were.
///   No prompt gets the error page; a prompt that no screen serves, or more
///   than one prompt, fails the request.
/// - `Success`: `success_spec` where a cookie is to be issued, else a fault.
/// - `Denied`: the continuity cookie is taken away and the client is sent to
///   the denial page; the reason is not passed on.
pub open spec fn login_step_spec(
    cfg: Deployment,
    kopid: KOpId,
    cookies: Map<Seq<char>, CookieView>,
    auth_state: AuthState,
    sessionid: Seq<u8>,
    safety: nat,
) -> Result<ActionView, OperationError> {
    if safety == 0 {
        Err(OperationError::InvalidSessionState)
    } else {
        match auth_state {
            AuthState::Choose(allowed) => match encode_spec(cfg.key, sessionid) {
                Some(token) => Ok(
                    choose_spec(
                        kopid,
                        cookies,
                        allowed@,
                        sessionid,
                        token,
                        cfg.secure,
                        (safety - 1) as nat,
                    ),
                ),
                None => Err(OperationError::InvalidSessionState),
            },
            AuthState::Continue(allowed) => if allowed@.len() == 0 {
                Ok(respond_with(cookies, invalid_state_page(kopid)))
            } else if allowed@.len() == 1 {
                match prompt_screen_spec(allowed@[0]) {
                    Ok(screen) => Ok(respond_with(cookies, screen)),
                    Err(e) => Err(e),
                }
            } else {
                Err(OperationError::InvalidState)
            },
            AuthState::Success(token, issue) => match issue {
                AuthIssueSession::Token => Err(OperationError::InvalidState),
                AuthIssueSession::Cookie => Ok(success_spec(cfg, cookies, token_text(*token))),
            },
            AuthState::Denied(_) => Ok(
                respond_with(
                    cookies.remove(auth_session_cookie()),
                    ScreenView::Redirect { location: denied_landing(), temporary: true },
                ),
            ),
        }
    }
}

/// Settles one answer of the engine for the session `sessionid`: the next
/// request for the engine, the response for the client, or the fault that
/// ends the request.
pub fn partial_view_login_step(
    state: &ServerState,
    kopid: KOpId,
    jar: CookieJar,
    auth_state: AuthState,
    sessionid: SessionId,
    safety: u8,
) -> (step: Result<LoginAction, OperationError>)
    ensures
        action_result(step) == login_step_spec(
            state@,
            kopid,
            jar_cookies(jar),
            auth_state,
            sessionid@,
            safety as nat,
        ),
{
    if safety == 0 {
        return Err(OperationError::InvalidSessionState);
    }
    let remaining: u8 = safety - 1;
    match auth_state {
        AuthState::Choose(allowed) => match encode(state.jws_key.as_slice(), &sessionid) {
            Ok(token) => Ok(
                login_choose(
                    kopid,
                    jar,
                    allowed,
                    sessionid,
                    token,
                    state.secure_cookies,
                    remaining,
                ),
            ),
            Err(e) => Err(e),
        },
        AuthState::Continue(mut allowed) => {
            let count: usize = allowed.len();
            if count == 0 {
                Ok(
                    LoginAction::Respond(
                        LoginResponse {
                            jar: Some(jar),
                            screen: Screen::UnrecoverableError {
                                err_code: OperationError::InvalidState,
                                operation_id: kopid.eventid,
                            },
                        },
                    ),
                )
            } else if count == 1 {
                match allowed.pop() {
                    Some(prompt) => match prompt_screen(prompt) {
                        Ok(screen) => Ok(
                            LoginAction::Respond(LoginResponse { jar: Some(jar), screen }),
                        ),
                        Err(e) => Err(e),
                    },
                    None => Err(OperationError::InvalidState),
                }
            } else {
                Err(OperationError::InvalidState)
            }
        },
        AuthState::Success(token, issue) => match issue {
            AuthIssueSession::Token => Err(OperationError::InvalidState),
            AuthIssueSession::Cookie => {
                let text = token_to_string(&*token);
                Ok(login_success(state, jar, text))
            },
        },
        AuthState::Denied(_reason) => {
            let jar = clear(jar, COOKIE_AUTH_SESSION_ID);
            Ok(
                LoginAction::Respond(
                    LoginResponse {
                        jar: Some(jar),
                        screen: Screen::Redirect { location: "/ui/getrekt", temporary: true },
                    },
                ),
            )
        },
    }
}

/// What a fault comes to: the error page for it, if the flow ended on one.
pub open spec fn settle(step: Result<ActionView, OperationError>, kopid: KOpId) -> ActionView {
    match step {
        Ok(action) => action,
        Err(err_code) => fault_response(err_code, kopid),
    }
}

/// What the engine's answer to a submitted step comes to. A fault of the
/// engine ends the request on the error page. An answer is settled by
/// `login_step_spec`, for the session that the request is bound to, or, on
/// the first answer, for the session that the answer names.
pub open spec fn resume_spec(
    cfg: Deployment,
    kopid: KOpId,
    pending: PendingView,
    reply: Result<AuthResult, OperationError>,
) -> ActionView {
    match reply {
        Ok(answer) => settle(
            login_step_spec(
                cfg,
                kopid,
                pending.cookies,
                answer.state,
                match pending.sessionid {
                    Some(id) => id,
                    None => answer.sessionid@,
                },
                pending.safety,
            ),
            kopid,
        ),
        Err(err_code) => fault_response(err_code, kopid),
    }
}

/// Takes the engine's answer to the step of a `Submit` and says what happens
/// next.
pub fn login_resume(
    state: &ServerState,
    kopid: KOpId,
    pending: Pending,
    reply: Result<AuthResult, OperationError>,
) -> (action: LoginAction)
    ensures
        action@ == resume_spec(state@, kopid, pending@, reply),
{
    let step = match reply {
        Ok(answer) => {
            let sessionid = match pending.sessionid {
                Some(id) => id,
                None => answer.sessionid,
            };
            partial_view_login_step(
                state,
                kopid,
                pending.jar,
                answer.state,
                sessionid,
                pending.safety,
            )
        },
        Err(err_code) => Err(err_code),
    };
    match step {
        Ok(action) => action,
        Err(err_code) => LoginAction::Respond(
            LoginResponse {
                jar: None,
                screen: Screen::UnrecoverableError { err_code, operation_id: kopid.eventid },
            },
        ),
    }
}

/// The first request of a form: the step goes to the engine for `sessionid`,
/// with the cookies as the client sent them and the whole budget to spend.
pub open spec fn submit_spec(
    cookies: Map<Seq<char>, CookieView>,
    sessionid: Option<Seq<u8>>,
    step: StepView,
) -> ActionView {
    ActionView::Submit {
        pending: PendingView { cookies, sessionid: None, safety: LOGIN_LOOP_BUDGET as nat },
        sessionid,
        step,
    }
}

/// The session that a client's cookies name: the one sealed in the
/// continuity cookie, if there is such a cookie and it reads under the key.
pub open spec fn jar_session_spec(key: Seq<u8>, cookies: Map<Seq<char>, CookieView>) -> Option<
    Seq<u8>,
> {
    if cookies.contains_key(auth_session_cookie()) {
        decode_spec(key, cookies[auth_session_cookie()].value)
    } else {
        None
    }
}

/// Reads the session that the client's cookies name.
pub fn session_from_jar(state: &ServerState, jar: &CookieJar) -> (sessionid: Option<SessionId>)
    ensures
        session_view(sessionid) == jar_session_spec(state@.key, jar_cookies(*jar)),
{
    match cookie_value(jar, COOKIE_AUTH_SESSION_ID) {
        Some(raw) => decode(state.jws_key.as_slice(), raw.as_str()),
        None => None,
    }
}

/// The form that starts a login.
#[derive(Debug, Clone)]
pub struct LoginBeginForm {
    pub username: String,
    pub remember_me: Option<u8>,
}

/// The form that picks a mechanism.
#[derive(Debug, Clone)]
pub struct LoginMechForm {
    pub mech: AuthMech,
}

/// The form that carries a one-time code.
#[derive(Debug, Clone)]
pub struct LoginTotpForm {
    pub totp: String,
}

/// The form that carries a password.
#[derive(Debug, Clone)]
pub struct LoginPwForm {
    pub password: String,
}

/// The form that carries a backup code.
#[derive(Debug, Clone)]
pub struct LoginBackupCodeForm {
    pub backupcode: String,
}

/// Starts a login for the user named in the form, with the form's wish to
/// be remembered: a new session that is to end in a cookie, without
/// privileges.
pub fn partial_view_login_begin_post(jar: CookieJar, login_begin_form: LoginBeginForm) -> (action:
    LoginAction)
    ensures
        action@ == submit_spec(
            jar_cookies(jar),
            None,
            StepView::Init2 {
                username: login_begin_form.username@,
                remember_me: login_begin_form.remember_me,
                issue: AuthIssueSession::Cookie,
                privileged: false,
            },
        ),
{
    let LoginBeginForm { username, remember_me } = login_begin_form;
    LoginAction::Submit {
        pending: Pending { jar, sessionid: None, safety: LOGIN_LOOP_BUDGET },
        sessionid: None,
        request: AuthRequest {
            step: AuthStep::Init2 {
                username,
                remember_me,
                issue: AuthIssueSession::Cookie,
                privileged: false,
            },
        },
    }
}

/// Begins the mechanism picked in the form, on the session that the cookies
/// name.
pub fn partial_view_login_mech_choose_post(
    state: &ServerState,
    jar: CookieJar,
    login_mech_form: LoginMechForm,
) -> (action: LoginAction)
    ensures
        action@ == submit_spec(
            jar_cookies(jar),
            jar_session_spec(state@.key, jar_cookies(jar)),
            StepView::Begin(login_mech_form.mech),
        ),
{
    let maybe_sessionid = session_from_jar(state, &jar);
    let LoginMechForm { mech } = login_mech_form;
    LoginAction::Submit {
        pending: Pending { jar, sessionid: None, safety: LOGIN_LOOP_BUDGET },
        sessionid: maybe_sessionid,
        request: AuthRequest { step: AuthStep::Begin(mech) },
    }
}

/// Submits a credential on the session that the cookies name.
pub fn credential_step(state: &ServerState, jar: CookieJar, auth_cred: AuthCredential) -> (action:
    LoginAction)
    ensures
        action@ == submit_spec(
            jar_cookies(jar),
            jar_session_spec(state@.key, jar_cookies(jar)),
            StepView::Cred(auth_cred@),
        ),
{
    let maybe_sessionid = session_from_jar(state, &jar);
    LoginAction::Submit {
        pending: Pending { jar, sessionid: None, safety: LOGIN_LOOP_BUDGET },
        sessionid: maybe_sessionid,
        request: AuthRequest { step: AuthStep::Cred(auth_cred) },
    }
}

/// The answer to a one-time code that is no number: the prompt again, marked,
/// and no change to the cookies.
pub open spec fn totp_syntax_response() -> ActionView {
    ActionView::Respond(
        ResponseView {
            cookies: None,
            screen: ScreenView::Totp { errors: LoginTotpError::Syntax },
        },
    )
}

/// Submits the one-time code of the form, white space around it aside. A
/// field that holds no number is answered at once and never reaches the
/// engine.
pub fn partial_view_login_totp_post(
    state: &ServerState,
    jar: CookieJar,
    login_totp_form: LoginTotpForm,
) -> (action: LoginAction)
    ensures
        action@ == match totp_spec(login_totp_form.totp@) {
            Some(totp) => submit_spec(
                jar_cookies(jar),
                jar_session_spec(state@.key, jar_cookies(jar)),
                StepView::Cred(CredentialView::Totp(totp)),
            ),
            None => totp_syntax_response(),
        },
{
    match parse_totp(login_totp_form.totp.as_str()) {
        Some(totp) => credential_step(state, jar, AuthCredential::Totp(totp)),
        None => LoginAction::Respond(
            LoginResponse { jar: None, screen: Screen::Totp { errors: LoginTotpError::Syntax } },
        ),
    }
}

/// Submits the password of the form as it is.
pub fn partial_view_login_pw_post(state: &ServerState, jar: CookieJar, login_pw_form: LoginPwForm)
    -> (action: LoginAction)
    ensures
        action@ == submit_spec(
            jar_cookies(jar),
            jar_session_spec(state@.key, jar_cookies(jar)),
            StepView::Cred(CredentialView::Password(login_pw_form.password@)),
        ),
{
    let auth_cred = AuthCredential::Password(login_pw_form.password);
    credential_step(state, jar, auth_cred)
}

/// Submits the backup code of the form without the white space around it.
pub fn partial_view_login_backupcode_post(
    state: &ServerState,
    jar: CookieJar,
    login_bc_form: LoginBackupCodeForm,
) -> (action: LoginAction)
    ensures
        action@ == submit_spec(
            jar_cookies(jar),
            jar_session_spec(state@.key, jar_cookies(jar)),
            StepView::Cred(CredentialView::BackupCode(trim_spec(login_bc_form.backupcode@))),
        ),
{
    let code = trimmed(login_bc_form.backupcode.as_str());
    let auth_cred = AuthCredential::BackupCode(code);
    credential_step(state, jar, auth_cred)
}

/// Submits a passkey assertion as it is.
pub fn partial_view_login_passkey_post(
    state: &ServerState,
    jar: CookieJar,
    assertion: Box<PublicKeyCredential>,
) -> (action: LoginAction)
    ensures
        action@ == submit_spec(
            jar_cookies(jar),
            jar_session_spec(state@.key, jar_cookies(jar)),
            StepView::Cred(CredentialView::Passkey(*assertion)),
        ),
{
    let auth_cred = AuthCredential::Passkey(assertion);
    credential_step(state, jar, auth_cred)
}

/// Submits a security key assertion as it is.
pub fn partial_view_login_seckey_post(
    state: &ServerState,
    jar: CookieJar,
    assertion: Box<PublicKeyCredential>,
) -> (action: LoginAction)
    ensures
        action@ == submit_spec(
            jar_cookies(jar),
            jar_session_spec(state@.key, jar_cookies(jar)),
            StepView::Cred(CredentialView::SecurityKey(*assertion)),
        ),
{
    let auth_cred = AuthCredential::SecurityKey(assertion);
    credential_step(state, jar, auth_cred)
}

} // verus!
