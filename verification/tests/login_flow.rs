use axum_extra::extract::cookie::{Cookie, CookieJar, SameSite};
use compact_jwt::JwsCompact;
use login_flow::cookies::{COOKIE_AUTH_SESSION_ID, COOKIE_BEARER_TOKEN};
use login_flow::login::{
    credential_step, login_choose, login_resume, login_success, mech_list,
    partial_view_login_backupcode_post, partial_view_login_begin_post,
    partial_view_login_mech_choose_post, partial_view_login_passkey_post,
    partial_view_login_pw_post, partial_view_login_seckey_post, partial_view_login_step,
    partial_view_login_totp_post, prompt_screen, session_from_jar, view_index_get,
    webauthn_screen, LoginAction, LoginBackupCodeForm, LoginBeginForm, LoginMechForm,
    LoginPwForm, LoginResponse, LoginTotpError, LoginTotpForm, Screen, ServerState,
    LOGIN_LOOP_BUDGET,
};
use login_flow::proto::{
    AuthAllowed, AuthCredential, AuthIssueSession, AuthMech, AuthRequest, AuthResult, AuthState,
    AuthStep, KOpId, OperationError, SessionId,
};
use login_flow::session::{decode, encode};
use std::str::FromStr;
use webauthn_rs::prelude::{PublicKeyCredential, RequestChallengeResponse};

const CHALLENGE: &str = "{\"publicKey\":{\"challenge\":\"AAECAwQFBgc\",\"timeout\":60000,\"rpId\":\"idm.example.com\",\"allowCredentials\":[],\"userVerification\":\"preferred\"}}";

const ASSERTION: &str = "{\"id\":\"AAEC\",\"rawId\":\"AAEC\",\"response\":{\"authenticatorData\":\"AAEC\",\"clientDataJSON\":\"AAEC\",\"signature\":\"AAEC\",\"userHandle\":null},\"extensions\":{},\"type\":\"public-key\"}";

const KOPID: KOpId = KOpId { eventid: 77 };

fn state(secure: bool) -> ServerState {
    ServerState {
        jws_key: vec![42u8; 32],
        secure_cookies: secure,
        domain: "idm.example.com".to_string(),
    }
}

fn sid(n: u8) -> SessionId {
    SessionId { sessionid: [n; 16] }
}

fn challenge() -> RequestChallengeResponse {
    serde_json::from_str(CHALLENGE).unwrap()
}

fn assertion() -> Box<PublicKeyCredential> {
    Box::new(serde_json::from_str(ASSERTION).unwrap())
}

fn bearer(state: &ServerState) -> Box<JwsCompact> {
    Box::new(JwsCompact::from_str(&encode(&state.jws_key, &sid(200)).unwrap()).unwrap())
}

fn answer(id: SessionId, state: AuthState) -> Result<AuthResult, OperationError> {
    Ok(AuthResult { sessionid: id, state })
}

fn jar_with_session(state: &ServerState, id: SessionId) -> CookieJar {
    let token = encode(&state.jws_key, &id).unwrap();
    CookieJar::new().add(Cookie::new(COOKIE_AUTH_SESSION_ID, token))
}

/// Hands each submitted step to a scripted engine and returns the action the
/// request ends on, with every step that was submitted.
fn drive(
    state: &ServerState,
    first: LoginAction,
    replies: Vec<Result<AuthResult, OperationError>>,
) -> (LoginAction, Vec<(Option<SessionId>, AuthRequest)>) {
    let mut asked = Vec::new();
    let mut action = first;
    let mut replies = replies.into_iter();
    loop {
        match action {
            LoginAction::Submit { pending, sessionid, request } => match replies.next() {
                Some(reply) => {
                    asked.push((sessionid, request));
                    action = login_resume(state, KOPID, pending, reply);
                }
                None => {
                    return (LoginAction::Submit { pending, sessionid, request }, asked);
                }
            },
            done => return (done, asked),
        }
    }
}

fn response(action: LoginAction) -> LoginResponse {
    match action {
        LoginAction::Respond(r) => r,
        other => panic!("expected a response, got {other:?}"),
    }
}

fn step_ok(
    state: &ServerState,
    jar: CookieJar,
    auth_state: AuthState,
    id: SessionId,
) -> LoginResponse {
    response(
        partial_view_login_step(state, KOPID, jar, auth_state, id, LOGIN_LOOP_BUDGET).unwrap(),
    )
}

#[test]
fn budget_is_three() {
    assert_eq!(LOGIN_LOOP_BUDGET, 3);
}

#[test]
fn cookie_names() {
    assert_eq!(COOKIE_AUTH_SESSION_ID, "session-continuity");
    assert_eq!(COOKIE_BEARER_TOKEN, "bearer-token");
}

#[test]
fn single_mechanism_is_selected_without_a_screen() {
    let st = state(true);
    let action = partial_view_login_step(
        &st,
        KOPID,
        CookieJar::new(),
        AuthState::Choose(vec![AuthMech::PasswordTotp]),
        sid(1),
        LOGIN_LOOP_BUDGET,
    )
    .unwrap();
    match action {
        LoginAction::Submit { pending, sessionid, request } => {
            assert_eq!(sessionid, Some(sid(1)));
            assert_eq!(pending.sessionid, Some(sid(1)));
            assert_eq!(pending.safety, 2);
            assert!(matches!(request.step, AuthStep::Begin(AuthMech::PasswordTotp)));
            let cookie = pending.jar.get(COOKIE_AUTH_SESSION_ID).unwrap();
            assert_eq!(decode(&st.jws_key, cookie.value()), Some(sid(1)));
        }
        other => panic!("expected a submission, got {other:?}"),
    }
}

#[test]
fn single_mechanism_costs_exactly_one_more_submission() {
    let st = state(true);
    let first = partial_view_login_begin_post(
        CookieJar::new(),
        LoginBeginForm { username: "alice".to_string(), remember_me: None },
    );
    let (end, asked) = drive(
        &st,
        first,
        vec![
            answer(sid(3), AuthState::Choose(vec![AuthMech::Passkey])),
            answer(sid(3), AuthState::Continue(vec![AuthAllowed::Passkey(challenge())])),
        ],
    );
    assert_eq!(asked.len(), 2);
    assert!(matches!(asked[1].1.step, AuthStep::Begin(AuthMech::Passkey)));
    assert_eq!(asked[1].0, Some(sid(3)));
    assert!(matches!(response(end).screen, Screen::Webauthn { passkey: true, .. }));
}

#[test]
fn empty_mechanism_list_is_an_error_page_with_the_cookie_set() {
    let st = state(true);
    let r = step_ok(&st, CookieJar::new(), AuthState::Choose(vec![]), sid(4));
    assert!(matches!(
        r.screen,
        Screen::UnrecoverableError { err_code: OperationError::InvalidState, operation_id: 77 }
    ));
    let jar = r.jar.unwrap();
    let cookie = jar.get(COOKIE_AUTH_SESSION_ID).unwrap();
    assert_eq!(decode(&st.jws_key, cookie.value()), Some(sid(4)));
}

#[test]
fn empty_mechanism_list_asks_the_engine_no_more() {
    let st = state(true);
    let first = partial_view_login_begin_post(
        CookieJar::new(),
        LoginBeginForm { username: "alice".to_string(), remember_me: Some(1) },
    );
    let (end, asked) = drive(
        &st,
        first,
        vec![
            answer(sid(4), AuthState::Choose(vec![])),
            answer(sid(4), AuthState::Continue(vec![AuthAllowed::Password])),
        ],
    );
    assert_eq!(asked.len(), 1);
    assert!(matches!(
        response(end).screen,
        Screen::UnrecoverableError { err_code: OperationError::InvalidState, operation_id: 77 }
    ));
}

#[test]
fn several_mechanisms_are_listed_in_the_engines_order() {
    let st = state(false);
    let allowed = vec![
        AuthMech::PasswordSecurityKey,
        AuthMech::Password,
        AuthMech::Passkey,
        AuthMech::PasswordBackupCode,
    ];
    let r = step_ok(&st, CookieJar::new(), AuthState::Choose(allowed.clone()), sid(5));
    match r.screen {
        Screen::MechChoose { mechs } => {
            let names: Vec<AuthMech> = mechs.iter().map(|m| m.name).collect();
            assert_eq!(names, allowed);
            let values: Vec<&str> = mechs.iter().map(|m| m.value).collect();
            assert_eq!(
                values,
                vec!["passwordsecuritykey", "password", "passkey", "passwordbackupcode"]
            );
        }
        other => panic!("expected the mechanism list, got {other:?}"),
    }
    assert!(r.jar.unwrap().get(COOKIE_AUTH_SESSION_ID).is_some());
}

#[test]
fn mechanism_values() {
    assert_eq!(AuthMech::Anonymous.to_value(), "anonymous");
    assert_eq!(AuthMech::Password.to_value(), "password");
    assert_eq!(AuthMech::PasswordBackupCode.to_value(), "passwordbackupcode");
    assert_eq!(AuthMech::PasswordTotp.to_value(), "passwordmfa");
    assert_eq!(AuthMech::PasswordSecurityKey.to_value(), "passwordsecuritykey");
    assert_eq!(AuthMech::Passkey.to_value(), "passkey");
    let list = mech_list(&vec![AuthMech::PasswordTotp, AuthMech::Anonymous]);
    assert_eq!(list.len(), 2);
    assert_eq!((list[0].name, list[0].value), (AuthMech::PasswordTotp, "passwordmfa"));
    assert_eq!((list[1].name, list[1].value), (AuthMech::Anonymous, "anonymous"));
    assert!(mech_list(&vec![]).is_empty());
}

#[test]
fn continuity_cookie_attributes() {
    for secure in [true, false] {
        let st = state(secure);
        let r = step_ok(
            &st,
            CookieJar::new(),
            AuthState::Choose(vec![AuthMech::Password, AuthMech::Passkey]),
            sid(6),
        );
        let jar = r.jar.unwrap();
        let cookie = jar.get(COOKIE_AUTH_SESSION_ID).unwrap();
        assert_eq!(cookie.secure(), Some(secure));
        assert_eq!(cookie.http_only(), Some(true));
        assert_eq!(cookie.same_site(), Some(SameSite::Strict));
        assert_eq!(cookie.domain(), None);
        assert_eq!(cookie.path(), None);
        assert_eq!(cookie.value(), encode(&st.jws_key, &sid(6)).unwrap());
        assert!(jar.get(COOKIE_BEARER_TOKEN).is_none());
    }
}

#[test]
fn each_prompt_has_its_screen() {
    let st = state(true);
    let r = step_ok(&st, CookieJar::new(), AuthState::Continue(vec![AuthAllowed::Password]), sid(7));
    assert!(matches!(r.screen, Screen::Password));
    let r = step_ok(&st, CookieJar::new(), AuthState::Continue(vec![AuthAllowed::Totp]), sid(7));
    assert!(matches!(r.screen, Screen::Totp { errors: LoginTotpError::NoError }));
    let r =
        step_ok(&st, CookieJar::new(), AuthState::Continue(vec![AuthAllowed::BackupCode]), sid(7));
    assert!(matches!(r.screen, Screen::BackupCode));
    let expected = serde_json::to_string(&challenge()).unwrap();
    let r = step_ok(
        &st,
        CookieJar::new(),
        AuthState::Continue(vec![AuthAllowed::SecurityKey(challenge())]),
        sid(7),
    );
    match r.screen {
        Screen::Webauthn { passkey, chal } => {
            assert!(!passkey);
            assert_eq!(chal, expected);
            assert!(chal.contains("\"rpId\":\"idm.example.com\""));
        }
        other => panic!("expected the security key prompt, got {other:?}"),
    }
    let r = step_ok(
        &st,
        CookieJar::new(),
        AuthState::Continue(vec![AuthAllowed::Passkey(challenge())]),
        sid(7),
    );
    match r.screen {
        Screen::Webauthn { passkey, chal } => {
            assert!(passkey);
            assert_eq!(chal, expected);
        }
        other => panic!("expected the passkey prompt, got {other:?}"),
    }
}

#[test]
fn prompt_screen_by_itself() {
    assert!(matches!(prompt_screen(AuthAllowed::Password), Ok(Screen::Password)));
    assert!(matches!(
        prompt_screen(AuthAllowed::Anonymous),
        Err(OperationError::InvalidState)
    ));
    match webauthn_screen(true, Ok("{}".to_string())) {
        Ok(Screen::Webauthn { passkey, chal }) => {
            assert!(passkey);
            assert_eq!(chal, "{}");
        }
        other => panic!("expected the passkey prompt, got {other:?}"),
    }
    let broken = serde_json::from_str::<u8>("x").unwrap_err();
    assert!(matches!(
        webauthn_screen(false, Err(broken)),
        Err(OperationError::SerdeJsonError)
    ));
}

#[test]
fn continue_never_touches_cookies() {
    let st = state(true);
    let jar = jar_with_session(&st, sid(8)).add(Cookie::new("other", "kept"));
    let before = jar.get(COOKIE_AUTH_SESSION_ID).unwrap().value().to_string();
    let r = step_ok(&st, jar, AuthState::Continue(vec![AuthAllowed::Totp]), sid(8));
    let jar = r.jar.unwrap();
    assert_eq!(jar.get(COOKIE_AUTH_SESSION_ID).unwrap().value(), before);
    assert_eq!(jar.get("other").unwrap().value(), "kept");
    assert_eq!(jar.iter().count(), 2);
}

#[test]
fn continue_without_a_prompt_is_an_error_page() {
    let st = state(true);
    let r = step_ok(&st, jar_with_session(&st, sid(8)), AuthState::Continue(vec![]), sid(8));
    assert!(matches!(
        r.screen,
        Screen::UnrecoverableError { err_code: OperationError::InvalidState, operation_id: 77 }
    ));
    assert!(r.jar.unwrap().get(COOKIE_AUTH_SESSION_ID).is_some());
}

#[test]
fn continue_with_an_unsupported_prompt_is_a_fault() {
    let st = state(true);
    let r = partial_view_login_step(
        &st,
        KOPID,
        CookieJar::new(),
        AuthState::Continue(vec![AuthAllowed::Anonymous]),
        sid(8),
        LOGIN_LOOP_BUDGET,
    );
    assert!(matches!(r, Err(OperationError::InvalidState)));
}

#[test]
fn continue_with_two_prompts_is_a_fault() {
    let st = state(true);
    let r = partial_view_login_step(
        &st,
        KOPID,
        CookieJar::new(),
        AuthState::Continue(vec![AuthAllowed::Password, AuthAllowed::Totp]),
        sid(8),
        LOGIN_LOOP_BUDGET,
    );
    assert!(matches!(r, Err(OperationError::InvalidState)));
}

#[test]
fn loop_budget_stops_an_engine_that_always_offers_one_mechanism() {
    let st = state(true);
    let first = partial_view_login_begin_post(
        CookieJar::new(),
        LoginBeginForm { username: "alice".to_string(), remember_me: None },
    );
    let replies = (0..10)
        .map(|_| answer(sid(9), AuthState::Choose(vec![AuthMech::Password])))
        .collect();
    let (end, asked) = drive(&st, first, replies);
    assert_eq!(asked.len(), 4);
    assert!(matches!(asked[0].1.step, AuthStep::Init2 { .. }));
    for (id, request) in &asked[1..] {
        assert_eq!(*id, Some(sid(9)));
        assert!(matches!(request.step, AuthStep::Begin(AuthMech::Password)));
    }
    let r = response(end);
    assert!(matches!(
        r.screen,
        Screen::UnrecoverableError { err_code: OperationError::InvalidSessionState, operation_id: 77 }
    ));
    assert!(r.jar.is_none());
}

#[test]
fn step_without_budget_is_a_fault() {
    let st = state(true);
    let r = partial_view_login_step(
        &st,
        KOPID,
        CookieJar::new(),
        AuthState::Continue(vec![AuthAllowed::Password]),
        sid(9),
        0,
    );
    assert!(matches!(r, Err(OperationError::InvalidSessionState)));
    let r = partial_view_login_step(
        &st,
        KOPID,
        CookieJar::new(),
        AuthState::Denied("no".into()),
        sid(9),
        0,
    );
    assert!(matches!(r, Err(OperationError::InvalidSessionState)));
}

#[test]
fn budget_goes_down_by_one_for_each_selection() {
    let st = state(true);
    for safety in 1u8..=3 {
        let action = partial_view_login_step(
            &st,
            KOPID,
            CookieJar::new(),
            AuthState::Choose(vec![AuthMech::Password]),
            sid(9),
            safety,
        )
        .unwrap();
        match action {
            LoginAction::Submit { pending, .. } => assert_eq!(pending.safety, safety - 1),
            other => panic!("expected a submission, got {other:?}"),
        }
    }
}

#[test]
fn success_sets_the_bearer_cookie_and_drops_the_continuity_cookie() {
    for secure in [true, false] {
        let st = state(secure);
        let token = bearer(&st);
        let text = token.to_string();
        let r = step_ok(
            &st,
            jar_with_session(&st, sid(10)),
            AuthState::Success(token, AuthIssueSession::Cookie),
            sid(10),
        );
        assert!(matches!(r.screen, Screen::Redirect { location: "/ui/apps", temporary: false }));
        let jar = r.jar.unwrap();
        assert!(jar.get(COOKIE_AUTH_SESSION_ID).is_none());
        let cookie = jar.get(COOKIE_BEARER_TOKEN).unwrap();
        assert_eq!(cookie.value(), text);
        assert_eq!(cookie.secure(), Some(secure));
        assert_eq!(cookie.http_only(), Some(true));
        assert_eq!(cookie.same_site(), Some(SameSite::Lax));
        assert_eq!(cookie.domain(), Some("idm.example.com"));
        assert_eq!(cookie.path(), Some("/"));
    }
}

#[test]
fn success_with_a_token_to_issue_is_a_fault() {
    let st = state(true);
    let r = partial_view_login_step(
        &st,
        KOPID,
        jar_with_session(&st, sid(10)),
        AuthState::Success(bearer(&st), AuthIssueSession::Token),
        sid(10),
        LOGIN_LOOP_BUDGET,
    );
    assert!(matches!(r, Err(OperationError::InvalidState)));
}

#[test]
fn success_by_itself() {
    let st = state(true);
    let r = response(login_success(&st, jar_with_session(&st, sid(10)), "tok".to_string()));
    let jar = r.jar.unwrap();
    assert_eq!(jar.get(COOKIE_BEARER_TOKEN).unwrap().value(), "tok");
    assert!(jar.get(COOKIE_AUTH_SESSION_ID).is_none());
}

#[test]
fn choose_by_itself() {
    let r = response(login_choose(
        KOPID,
        CookieJar::new(),
        vec![AuthMech::Password, AuthMech::Passkey],
        sid(1),
        "tok".to_string(),
        false,
        2,
    ));
    assert!(matches!(r.screen, Screen::MechChoose { .. }));
    let jar = r.jar.unwrap();
    let cookie = jar.get(COOKIE_AUTH_SESSION_ID).unwrap();
    assert_eq!(cookie.value(), "tok");
    assert_eq!(cookie.secure(), Some(false));
}

#[test]
fn denied_drops_the_continuity_cookie_and_sets_no_bearer() {
    let st = state(true);
    let r = step_ok(
        &st,
        jar_with_session(&st, sid(11)),
        AuthState::Denied("the password was wrong".to_string()),
        sid(11),
    );
    match &r.screen {
        Screen::Redirect { location, temporary } => {
            assert_eq!(*location, "/ui/getrekt");
            assert!(*temporary);
        }
        other => panic!("expected a redirect, got {other:?}"),
    }
    assert!(!format!("{:?}", r.screen).contains("password"));
    let jar = r.jar.unwrap();
    assert!(jar.get(COOKIE_AUTH_SESSION_ID).is_none());
    assert!(jar.get(COOKIE_BEARER_TOKEN).is_none());
    assert_eq!(jar.iter().count(), 0);
}

#[test]
fn denied_without_a_continuity_cookie() {
    let st = state(true);
    let r = step_ok(&st, CookieJar::new(), AuthState::Denied(String::new()), sid(11));
    let jar = r.jar.unwrap();
    assert!(jar.get(COOKIE_AUTH_SESSION_ID).is_none());
    assert!(jar.get(COOKIE_BEARER_TOKEN).is_none());
}

#[test]
fn denied_leaves_a_bearer_cookie_that_was_there() {
    let st = state(true);
    let jar = jar_with_session(&st, sid(11)).add(Cookie::new(COOKIE_BEARER_TOKEN, "old"));
    let r = step_ok(&st, jar, AuthState::Denied(String::new()), sid(11));
    let jar = r.jar.unwrap();
    assert!(jar.get(COOKIE_AUTH_SESSION_ID).is_none());
    assert_eq!(jar.get(COOKIE_BEARER_TOKEN).unwrap().value(), "old");
}

#[test]
fn totp_with_white_space_is_accepted() {
    let st = state(true);
    let jar = jar_with_session(&st, sid(12));
    let action =
        partial_view_login_totp_post(&st, jar, LoginTotpForm { totp: " 123456 ".to_string() });
    match action {
        LoginAction::Submit { pending, sessionid, request } => {
            assert_eq!(sessionid, Some(sid(12)));
            assert_eq!(pending.sessionid, None);
            assert_eq!(pending.safety, 3);
            assert!(matches!(request.step, AuthStep::Cred(AuthCredential::Totp(123456))));
        }
        other => panic!("expected a submission, got {other:?}"),
    }
}

#[test]
fn totp_that_is_no_number_is_rejected_locally() {
    let st = state(true);
    let first = partial_view_login_totp_post(
        &st,
        jar_with_session(&st, sid(12)),
        LoginTotpForm { totp: "abc123".to_string() },
    );
    let (end, asked) =
        drive(&st, first, vec![answer(sid(12), AuthState::Denied(String::new()))]);
    assert!(asked.is_empty());
    let r = response(end);
    assert!(matches!(r.screen, Screen::Totp { errors: LoginTotpError::Syntax }));
    assert!(r.jar.is_none());
}

#[test]
fn totp_edge_cases() {
    let st = state(true);
    for (field, expected) in [
        ("0", Some(0u32)),
        ("000123", Some(123)),
        ("+7", Some(7)),
        ("\t42\r\n", Some(42)),
        ("\u{3000}9\u{a0}", Some(9)),
        ("4294967295", Some(u32::MAX)),
        ("4294967296", None),
        ("", None),
        ("   ", None),
        ("+", None),
        ("-1", None),
        ("12 34", None),
        ("1_000", None),
        ("١٢٣", None),
        ("12a", None),
    ] {
        let action = partial_view_login_totp_post(
            &st,
            CookieJar::new(),
            LoginTotpForm { totp: field.to_string() },
        );
        match (action, expected) {
            (LoginAction::Submit { request, .. }, Some(n)) => {
                assert!(
                    matches!(request.step, AuthStep::Cred(AuthCredential::Totp(m)) if m == n),
                    "{field:?}"
                );
            }
            (LoginAction::Respond(r), None) => {
                assert!(
                    matches!(r.screen, Screen::Totp { errors: LoginTotpError::Syntax }),
                    "{field:?}"
                );
            }
            (other, _) => panic!("{field:?}: {other:?}"),
        }
    }
}

#[test]
fn backup_code_is_trimmed() {
    let st = state(true);
    let action = partial_view_login_backupcode_post(
        &st,
        jar_with_session(&st, sid(13)),
        LoginBackupCodeForm { backupcode: " AB12-CD34 ".to_string() },
    );
    match action {
        LoginAction::Submit { sessionid, request, .. } => {
            assert_eq!(sessionid, Some(sid(13)));
            match request.step {
                AuthStep::Cred(AuthCredential::BackupCode(code)) => assert_eq!(code, "AB12-CD34"),
                other => panic!("expected a backup code, got {other:?}"),
            }
        }
        other => panic!("expected a submission, got {other:?}"),
    }
}

#[test]
fn backup_code_keeps_inner_white_space() {
    let st = state(true);
    let action = partial_view_login_backupcode_post(
        &st,
        CookieJar::new(),
        LoginBackupCodeForm { backupcode: "\n\u{2003}AB 12\t".to_string() },
    );
    match action {
        LoginAction::Submit { request, .. } => match request.step {
            AuthStep::Cred(AuthCredential::BackupCode(code)) => assert_eq!(code, "AB 12"),
            other => panic!("expected a backup code, got {other:?}"),
        },
        other => panic!("expected a submission, got {other:?}"),
    }
}

#[test]
fn password_is_submitted_as_it_is() {
    let st = state(true);
    let action = partial_view_login_pw_post(
        &st,
        jar_with_session(&st, sid(14)),
        LoginPwForm { password: " pass word ".to_string() },
    );
    match action {
        LoginAction::Submit { sessionid, request, .. } => {
            assert_eq!(sessionid, Some(sid(14)));
            match request.step {
                AuthStep::Cred(AuthCredential::Password(pw)) => assert_eq!(pw, " pass word "),
                other => panic!("expected a password, got {other:?}"),
            }
        }
        other => panic!("expected a submission, got {other:?}"),
    }
}

#[test]
fn passkey_and_security_key_assertions_are_passed_on() {
    let st = state(true);
    let action = partial_view_login_passkey_post(&st, jar_with_session(&st, sid(15)), assertion());
    match action {
        LoginAction::Submit { sessionid, request, .. } => {
            assert_eq!(sessionid, Some(sid(15)));
            match request.step {
                AuthStep::Cred(AuthCredential::Passkey(a)) => {
                    assert_eq!(a.id, "AAEC");
                    assert_eq!(a.type_, "public-key");
                }
                other => panic!("expected a passkey, got {other:?}"),
            }
        }
        other => panic!("expected a submission, got {other:?}"),
    }
    let action = partial_view_login_seckey_post(&st, jar_with_session(&st, sid(15)), assertion());
    match action {
        LoginAction::Submit { request, .. } => {
            assert!(matches!(request.step, AuthStep::Cred(AuthCredential::SecurityKey(_))));
        }
        other => panic!("expected a submission, got {other:?}"),
    }
}

#[test]
fn begin_starts_a_session_that_ends_in_a_cookie() {
    let action = partial_view_login_begin_post(
        jar_with_session(&state(true), sid(16)),
        LoginBeginForm { username: "alice".to_string(), remember_me: Some(1) },
    );
    match action {
        LoginAction::Submit { pending, sessionid, request } => {
            assert_eq!(sessionid, None);
            assert_eq!(pending.sessionid, None);
            assert_eq!(pending.safety, 3);
            match request.step {
                AuthStep::Init2 { username, remember_me, issue, privileged } => {
                    assert_eq!(username, "alice");
                    assert_eq!(remember_me, Some(1));
                    assert_eq!(issue, AuthIssueSession::Cookie);
                    assert!(!privileged);
                }
                other => panic!("expected the first step, got {other:?}"),
            }
        }
        other => panic!("expected a submission, got {other:?}"),
    }
}

#[test]
fn mechanism_choice_goes_to_the_session_of_the_cookie() {
    let st = state(true);
    let action = partial_view_login_mech_choose_post(
        &st,
        jar_with_session(&st, sid(17)),
        LoginMechForm { mech: AuthMech::PasswordBackupCode },
    );
    match action {
        LoginAction::Submit { sessionid, request, .. } => {
            assert_eq!(sessionid, Some(sid(17)));
            assert!(matches!(request.step, AuthStep::Begin(AuthMech::PasswordBackupCode)));
        }
        other => panic!("expected a submission, got {other:?}"),
    }
}

#[test]
fn missing_or_forged_cookie_means_no_session() {
    let st = state(true);
    assert_eq!(session_from_jar(&st, &CookieJar::new()), None);
    let forged = CookieJar::new().add(Cookie::new(COOKIE_AUTH_SESSION_ID, "a.b.c"));
    assert_eq!(session_from_jar(&st, &forged), None);
    let other = ServerState { jws_key: vec![1u8; 32], secure_cookies: true, domain: String::new() };
    assert_eq!(session_from_jar(&st, &jar_with_session(&other, sid(18))), None);
    assert_eq!(session_from_jar(&st, &jar_with_session(&st, sid(18))), Some(sid(18)));
    let action = credential_step(&st, forged, AuthCredential::Anonymous);
    assert!(matches!(action, LoginAction::Submit { sessionid: None, .. }));
}

#[test]
fn first_answer_names_the_session_and_later_answers_do_not_change_it() {
    let st = state(true);
    let first = partial_view_login_begin_post(
        CookieJar::new(),
        LoginBeginForm { username: "alice".to_string(), remember_me: None },
    );
    let (end, asked) = drive(
        &st,
        first,
        vec![
            answer(sid(20), AuthState::Choose(vec![AuthMech::Password])),
            answer(sid(21), AuthState::Choose(vec![AuthMech::Password, AuthMech::Passkey])),
        ],
    );
    assert_eq!(asked.len(), 2);
    assert_eq!(asked[1].0, Some(sid(20)));
    let r = response(end);
    let jar = r.jar.unwrap();
    let cookie = jar.get(COOKIE_AUTH_SESSION_ID).unwrap();
    assert_eq!(decode(&st.jws_key, cookie.value()), Some(sid(20)));
}

#[test]
fn engine_fault_is_an_error_page_without_cookie_changes() {
    let st = state(true);
    let first = partial_view_login_pw_post(
        &st,
        jar_with_session(&st, sid(22)),
        LoginPwForm { password: "x".to_string() },
    );
    let (end, asked) = drive(&st, first, vec![Err(OperationError::NoMatchingEntries)]);
    assert_eq!(asked.len(), 1);
    let r = response(end);
    assert!(matches!(
        r.screen,
        Screen::UnrecoverableError { err_code: OperationError::NoMatchingEntries, operation_id: 77 }
    ));
    assert!(r.jar.is_none());
}

#[test]
fn engine_fault_during_selection_drops_the_cookie_that_was_set() {
    let st = state(true);
    let first = partial_view_login_begin_post(
        CookieJar::new(),
        LoginBeginForm { username: "alice".to_string(), remember_me: None },
    );
    let (end, asked) = drive(
        &st,
        first,
        vec![
            answer(sid(23), AuthState::Choose(vec![AuthMech::Password])),
            Err(OperationError::Backend),
        ],
    );
    assert_eq!(asked.len(), 2);
    let r = response(end);
    assert!(matches!(r.screen, Screen::UnrecoverableError { err_code: OperationError::Backend, operation_id: 77 }));
    assert!(r.jar.is_none());
}

#[test]
fn signer_fault_is_an_invalid_session_state() {
    let st = ServerState { jws_key: vec![1u8; 8], secure_cookies: true, domain: String::new() };
    let r = partial_view_login_step(
        &st,
        KOPID,
        CookieJar::new(),
        AuthState::Choose(vec![AuthMech::Password, AuthMech::Passkey]),
        sid(24),
        LOGIN_LOOP_BUDGET,
    );
    assert!(matches!(r, Err(OperationError::InvalidSessionState)));
    let action = login_resume(
        &st,
        KOPID,
        login_flow::login::Pending { jar: CookieJar::new(), sessionid: None, safety: 3 },
        answer(sid(24), AuthState::Choose(vec![AuthMech::Password])),
    );
    let r = response(action);
    assert!(matches!(
        r.screen,
        Screen::UnrecoverableError { err_code: OperationError::InvalidSessionState, operation_id: 77 }
    ));
    assert!(r.jar.is_none());
}

#[test]
fn index_page() {
    assert!(matches!(
        view_index_get(Ok(()), KOPID),
        Screen::Redirect { location: "/ui/apps", temporary: false }
    ));
    for err in [OperationError::NotAuthenticated, OperationError::SessionExpired] {
        match view_index_get(Err(err), KOPID) {
            Screen::Login { username, remember_me } => {
                assert_eq!(username, "");
                assert!(!remember_me);
            }
            other => panic!("expected the login form, got {other:?}"),
        }
    }
    assert!(matches!(
        view_index_get(Err(OperationError::AccessDenied), KOPID),
        Screen::UnrecoverableError { err_code: OperationError::AccessDenied, operation_id: 77 }
    ));
}

#[test]
fn login_with_a_password_from_start_to_end() {
    let st = state(true);
    let first = partial_view_login_begin_post(
        CookieJar::new(),
        LoginBeginForm { username: "alice".to_string(), remember_me: None },
    );
    let (end, asked) = drive(
        &st,
        first,
        vec![
            answer(sid(30), AuthState::Choose(vec![AuthMech::Password])),
            answer(sid(30), AuthState::Continue(vec![AuthAllowed::Password])),
        ],
    );
    assert_eq!(asked.len(), 2);
    assert_eq!(asked[0].0, None);
    assert!(matches!(&asked[0].1.step, AuthStep::Init2 { username, .. } if username == "alice"));
    assert_eq!(asked[1].0, Some(sid(30)));
    assert!(matches!(asked[1].1.step, AuthStep::Begin(AuthMech::Password)));
    let prompt = response(end);
    assert!(matches!(prompt.screen, Screen::Password));
    let sent = prompt.jar.unwrap();
    let continuity = sent.get(COOKIE_AUTH_SESSION_ID).unwrap().clone();

    let browser = CookieJar::new().add(Cookie::new(
        COOKIE_AUTH_SESSION_ID,
        continuity.value().to_string(),
    ));
    let token = bearer(&st);
    let text = token.to_string();
    let second = partial_view_login_pw_post(
        &st,
        browser,
        LoginPwForm { password: "correct-password".to_string() },
    );
    let (end, asked) = drive(
        &st,
        second,
        vec![answer(sid(30), AuthState::Success(token, AuthIssueSession::Cookie))],
    );
    assert_eq!(asked.len(), 1);
    assert_eq!(asked[0].0, Some(sid(30)));
    assert!(matches!(
        &asked[0].1.step,
        AuthStep::Cred(AuthCredential::Password(pw)) if pw == "correct-password"
    ));
    let done = response(end);
    assert!(matches!(done.screen, Screen::Redirect { location: "/ui/apps", temporary: false }));
    let jar = done.jar.unwrap();
    assert_eq!(jar.get(COOKIE_BEARER_TOKEN).unwrap().value(), text);
    assert!(jar.get(COOKIE_AUTH_SESSION_ID).is_none());
}

#[test]
fn error_pages_carry_the_identifier_of_the_request() {
    let st = state(true);
    for eventid in [0u128, 1, u128::MAX] {
        let kopid = KOpId { eventid };
        let action = login_resume(
            &st,
            kopid,
            login_flow::login::Pending { jar: CookieJar::new(), sessionid: None, safety: 3 },
            Err(OperationError::AccessDenied),
        );
        match response(action).screen {
            Screen::UnrecoverableError { err_code, operation_id } => {
                assert_eq!(err_code, OperationError::AccessDenied);
                assert_eq!(operation_id, eventid);
            }
            other => panic!("expected the error page, got {other:?}"),
        }
        let r = response(
            partial_view_login_step(&st, kopid, CookieJar::new(), AuthState::Choose(vec![]), sid(1), 3)
                .unwrap(),
        );
        assert!(matches!(
            r.screen,
            Screen::UnrecoverableError { err_code: OperationError::InvalidState, operation_id }
                if operation_id == eventid
        ));
        assert!(matches!(
            view_index_get(Err(OperationError::Backend), kopid),
            Screen::UnrecoverableError { err_code: OperationError::Backend, operation_id }
                if operation_id == eventid
        ));
    }
}

#[test]
fn begin_without_the_wish_to_be_remembered() {
    let action = partial_view_login_begin_post(
        CookieJar::new(),
        LoginBeginForm { username: String::new(), remember_me: None },
    );
    match action {
        LoginAction::Submit { request, .. } => {
            assert!(matches!(
                &request.step,
                AuthStep::Init2 { username, remember_me: None, issue: AuthIssueSession::Cookie, privileged: false }
                    if username.is_empty()
            ));
        }
        other => panic!("expected a submission, got {other:?}"),
    }
}
