//! Whole requests: what a form comes to when the engine's answers are known,
//! and what holds of every such run.

use crate::cookies::{
    auth_session_cookie, bearer_cookie, bearer_view, continuity_view, lemma_cookie_names_differ,
    CookieView,
};
use crate::login::{
    apps_landing, denied_landing, fault_response, invalid_state_page, login_step_spec,
    prompt_screen_spec, respond_with, resume_spec, settle, submit_spec, ActionView, Deployment,
    LoginTotpError, PendingView, ResponseView, ScreenView,
};
use crate::proto::{
    token_text, AuthIssueSession, AuthResult, AuthState, KOpId, OperationError, StepView,
};
use crate::session::encode_spec;
use vstd::prelude::*;

verus! {

/// Where a request stands after the engine's answers `replies`, taken in
/// order from the action `action`: each answer settles the step that was
/// submitted before it, until the client is answered or the answers run out.
pub open spec fn run_spec(
    cfg: Deployment,
    kopid: KOpId,
    action: ActionView,
    replies: Seq<Result<AuthResult, OperationError>>,
) -> ActionView
    decreases replies.len(),
{
    match action {
        ActionView::Submit { pending, .. } => if replies.len() == 0 {
            action
        } else {
            run_spec(cfg, kopid, resume_spec(cfg, kopid, pending, replies[0]), replies.skip(1))
        },
        ActionView::Respond(_) => action,
    }
}

/// The steps that such a run hands to the engine, each with the session it
/// is submitted for, in order.
pub open spec fn asked_spec(
    cfg: Deployment,
    kopid: KOpId,
    action: ActionView,
    replies: Seq<Result<AuthResult, OperationError>>,
) -> Seq<(Option<Seq<u8>>, StepView)>
    decreases replies.len(),
{
    match action {
        ActionView::Submit { pending, sessionid, step } => if replies.len() == 0 {
            seq![(sessionid, step)]
        } else {
            seq![(sessionid, step)] + asked_spec(
                cfg,
                kopid,
                resume_spec(cfg, kopid, pending, replies[0]),
                replies.skip(1),
            )
        },
        ActionView::Respond(_) => Seq::empty(),
    }
}

/// How many steps an action may still cause: for a submission, itself and one
/// for each unit of its budget; for a response, none.
pub open spec fn steps_left(action: ActionView) -> nat {
    match action {
        ActionView::Submit { pending, .. } => pending.safety + 1,
        ActionView::Respond(_) => 0,
    }
}

/// Whether an answer is a `Choose` with exactly one mechanism.
pub open spec fn is_single_choice(reply: Result<AuthResult, OperationError>) -> bool {
    reply matches Ok(answer) && answer.state matches AuthState::Choose(allowed) && allowed@.len()
        == 1
}

/// Settling an answer spends one unit of the budget: a submission follows
/// an answer only where budget was left and the answer allowed exactly one
/// mechanism, and it has one unit less than the one before.
pub proof fn law_resubmission_spends_budget(
    cfg: Deployment,
    kopid: KOpId,
    pending: PendingView,
    reply: Result<AuthResult, OperationError>,
)
    ensures
        resume_spec(cfg, kopid, pending, reply) matches ActionView::Submit { pending: next, .. }
            ==> pending.safety > 0 && next.safety == pending.safety - 1 && is_single_choice(reply),
{
}

/// No answers of the engine make a request ask more often than its budget
/// allows: a form with the whole budget of three asks at most four times,
/// once for the form and three times for a mechanism it selected itself.
pub proof fn law_budget_bounds_requests(
    cfg: Deployment,
    kopid: KOpId,
    action: ActionView,
    replies: Seq<Result<AuthResult, OperationError>>,
)
    ensures
        asked_spec(cfg, kopid, action, replies).len() <= steps_left(action),
        asked_spec(cfg, kopid, action, replies).len() <= replies.len() + 1,
    decreases replies.len(),
{
    match action {
        ActionView::Submit { pending, .. } => {
            if replies.len() > 0 {
                law_resubmission_spends_budget(cfg, kopid, pending, replies[0]);
                law_budget_bounds_requests(
                    cfg,
                    kopid,
                    resume_spec(cfg, kopid, pending, replies[0]),
                    replies.skip(1),
                );
            }
        },
        ActionView::Respond(_) => {},
    }
}

/// A form asks the engine at most four times, whatever the engine answers:
/// once for what the form holds, and at most three times to begin a
/// mechanism that was the only one allowed.
pub proof fn law_form_asks_at_most_four_times(
    cfg: Deployment,
    kopid: KOpId,
    cookies: Map<Seq<char>, CookieView>,
    sessionid: Option<Seq<u8>>,
    step: StepView,
    replies: Seq<Result<AuthResult, OperationError>>,
)
    ensures
        asked_spec(cfg, kopid, submit_spec(cookies, sessionid, step), replies).len() <= 4,
{
    law_budget_bounds_requests(cfg, kopid, submit_spec(cookies, sessionid, step), replies);
}

/// An engine that answers every step with a single mechanism to choose does
/// not keep a request going: the request ends on the error page for an
/// invalid session state, with the cookies unchanged, after no more steps
/// than the budget allows; where every token can be made, after exactly one
/// step for each unit of the budget besides the first.
pub proof fn law_single_choices_exhaust_budget(
    cfg: Deployment,
    kopid: KOpId,
    pending: PendingView,
    sessionid: Option<Seq<u8>>,
    step: StepView,
    replies: Seq<Result<AuthResult, OperationError>>,
)
    requires
        replies.len() > pending.safety,
        forall|i: int| 0 <= i < replies.len() ==> is_single_choice(#[trigger] replies[i]),
    ensures
        run_spec(cfg, kopid, ActionView::Submit { pending, sessionid, step }, replies) == fault_response(
            OperationError::InvalidSessionState,
            kopid,
        ),
        asked_spec(cfg, kopid, ActionView::Submit { pending, sessionid, step }, replies).len()
            <= pending.safety + 1,
        (forall|id: Seq<u8>| (#[trigger] encode_spec(cfg.key, id)) is Some) ==> asked_spec(
            cfg,
            kopid,
            ActionView::Submit { pending, sessionid, step },
            replies,
        ).len() == pending.safety + 1,
    decreases replies.len(),
{
    let next = resume_spec(cfg, kopid, pending, replies[0]);
    let rest = replies.skip(1);
    assert(is_single_choice(replies[0]));
    if next is Submit {
        assert forall|i: int| 0 <= i < rest.len() implies is_single_choice(#[trigger] rest[i]) by {
            assert(rest[i] == replies[i + 1]);
        }
        law_single_choices_exhaust_budget(
            cfg,
            kopid,
            next->Submit_pending,
            next->Submit_sessionid,
            next->Submit_step,
            rest,
        );
    } else {
        assert(next == fault_response(OperationError::InvalidSessionState, kopid));
        assert(run_spec(cfg, kopid, next, rest) == next);
        assert(asked_spec(cfg, kopid, next, rest) =~= Seq::empty());
        if forall|id: Seq<u8>| (#[trigger] encode_spec(cfg.key, id)) is Some {
            let answer = replies[0]->Ok_0;
            let id = match pending.sessionid {
                Some(id) => id,
                None => answer.sessionid@,
            };
            assert(encode_spec(cfg.key, id) is Some);
            assert(pending.safety == 0);
        }
    }
}

/// A single mechanism is begun at once: a `Choose` answer that allows exactly
/// one mechanism leads to one submission, which begins that mechanism on the
/// same session with the continuity cookie set, and to no screen; unless the
/// budget is spent or no token can be made, which ends the request on the
/// error page for an invalid session state.
pub proof fn law_single_mechanism_is_begun(
    cfg: Deployment,
    kopid: KOpId,
    cookies: Map<Seq<char>, CookieView>,
    auth_state: AuthState,
    sessionid: Seq<u8>,
    safety: nat,
)
    requires
        auth_state matches AuthState::Choose(allowed) && allowed@.len() == 1,
    ensures
        settle(login_step_spec(cfg, kopid, cookies, auth_state, sessionid, safety), kopid) == (if safety
            > 0 && encode_spec(cfg.key, sessionid) is Some {
            ActionView::Submit {
                pending: PendingView {
                    cookies: cookies.insert(
                        auth_session_cookie(),
                        continuity_view(encode_spec(cfg.key, sessionid)->Some_0, cfg.secure),
                    ),
                    sessionid: Some(sessionid),
                    safety: (safety - 1) as nat,
                },
                sessionid: Some(sessionid),
                step: StepView::Begin(auth_state->Choose_0@[0]),
            }
        } else {
            fault_response(OperationError::InvalidSessionState, kopid)
        }),
{
}

/// A list of mechanisms is shown only where there is a choice: whatever the
/// engine answers, a request that ends on the mechanism list shows two
/// entries or more.
pub proof fn law_shown_list_offers_a_choice(
    cfg: Deployment,
    kopid: KOpId,
    action: ActionView,
    replies: Seq<Result<AuthResult, OperationError>>,
)
    requires
        action is Submit,
    ensures
        run_spec(cfg, kopid, action, replies) matches ActionView::Respond(
            ResponseView { screen: ScreenView::MechChoose { mechs }, .. },
        ) ==> mechs.len() >= 2,
    decreases replies.len(),
{
    if replies.len() > 0 {
        let next = resume_spec(cfg, kopid, action->Submit_pending, replies[0]);
        if next is Submit {
            law_shown_list_offers_a_choice(cfg, kopid, next, replies.skip(1));
        }
    }
}

/// Every step but the first of a request begins a mechanism: the flow asks
/// the engine for nothing else on its own.
pub proof fn law_later_steps_begin_mechanisms(
    cfg: Deployment,
    kopid: KOpId,
    action: ActionView,
    replies: Seq<Result<AuthResult, OperationError>>,
    i: int,
)
    requires
        1 <= i < asked_spec(cfg, kopid, action, replies).len(),
    ensures
        asked_spec(cfg, kopid, action, replies)[i].1 is Begin,
        asked_spec(cfg, kopid, action, replies)[i].0 is Some,
    decreases replies.len(),
{
    let pending = action->Submit_pending;
    let next = resume_spec(cfg, kopid, pending, replies[0]);
    let rest = replies.skip(1);
    assert(asked_spec(cfg, kopid, action, replies)[i] == asked_spec(cfg, kopid, next, rest)[i - 1]);
    if i > 1 {
        law_later_steps_begin_mechanisms(cfg, kopid, next, rest, i - 1);
    }
}

/// An empty list of mechanisms ends the request: the client gets an error
/// page and the engine is not asked again. With budget left and a token made
/// the page is the one for an invalid state, and the continuity cookie is
/// set with it.
pub proof fn law_empty_choice_is_a_fault(
    cfg: Deployment,
    kopid: KOpId,
    cookies: Map<Seq<char>, CookieView>,
    auth_state: AuthState,
    sessionid: Seq<u8>,
    safety: nat,
    replies: Seq<Result<AuthResult, OperationError>>,
)
    requires
        auth_state matches AuthState::Choose(allowed) && allowed@.len() == 0,
    ensures
        settle(
            login_step_spec(cfg, kopid, cookies, auth_state, sessionid, safety),
            kopid,
        ) matches ActionView::Respond(response) && response.screen is UnrecoverableError,
        asked_spec(
            cfg,
            kopid,
            settle(login_step_spec(cfg, kopid, cookies, auth_state, sessionid, safety), kopid),
            replies,
        ).len() == 0,
        safety > 0 && encode_spec(cfg.key, sessionid) is Some ==> login_step_spec(
            cfg,
            kopid,
            cookies,
            auth_state,
            sessionid,
            safety,
        ) == Ok::<ActionView, OperationError>(
            respond_with(
                cookies.insert(
                    auth_session_cookie(),
                    continuity_view(encode_spec(cfg.key, sessionid)->Some_0, cfg.secure),
                ),
                invalid_state_page(kopid),
            ),
        ),
{
}

/// Each kind of prompt has its own screen: with budget left, a `Continue`
/// answer with one prompt that a screen serves shows the screen of that kind
/// and of no other, and leaves the cookies as they were.
pub proof fn law_one_prompt_one_screen(
    cfg: Deployment,
    kopid: KOpId,
    cookies: Map<Seq<char>, CookieView>,
    auth_state: AuthState,
    sessionid: Seq<u8>,
    safety: nat,
)
    requires
        safety > 0,
        auth_state matches AuthState::Continue(allowed) && allowed@.len() == 1
            && prompt_screen_spec(allowed@[0]) is Ok,
    ensures
        ({
            let prompt = auth_state->Continue_0@[0];
            let screen = prompt_screen_spec(prompt)->Ok_0;
            &&& login_step_spec(cfg, kopid, cookies, auth_state, sessionid, safety) == Ok::<
                ActionView,
                OperationError,
            >(respond_with(cookies, screen))
            &&& prompt is Password <==> screen is Password
            &&& prompt is Totp <==> screen == (ScreenView::Totp { errors: LoginTotpError::NoError })
            &&& prompt is BackupCode <==> screen is BackupCode
            &&& prompt is SecurityKey <==> (screen matches ScreenView::Webauthn { passkey, .. }
                && !passkey)
            &&& prompt is Passkey <==> (screen matches ScreenView::Webauthn { passkey, .. }
                && passkey)
        }),
{
}

/// After a completed login the cookies hold the bearer cookie, with the
/// token and the bearer's attributes, and no continuity cookie.
pub proof fn law_success_swaps_cookies(
    cfg: Deployment,
    kopid: KOpId,
    cookies: Map<Seq<char>, CookieView>,
    auth_state: AuthState,
    sessionid: Seq<u8>,
    safety: nat,
)
    requires
        safety > 0,
        auth_state matches AuthState::Success(_, issue) && issue == AuthIssueSession::Cookie,
    ensures
        login_step_spec(cfg, kopid, cookies, auth_state, sessionid, safety) matches Ok(
            ActionView::Respond(ResponseView { cookies: Some(after), screen }),
        ) && after.contains_key(bearer_cookie()) && after[bearer_cookie()] == bearer_view(
            token_text(*auth_state->Success_0),
            cfg.secure,
            cfg.domain,
        ) && !after.contains_key(auth_session_cookie()) && screen == (ScreenView::Redirect {
            location: apps_landing(),
            temporary: false,
        }),
{
    lemma_cookie_names_differ();
}

/// After a denied login the cookies hold neither the continuity cookie nor,
/// where the client brought none, a bearer cookie; the reason for the denial
/// is not part of the answer.
pub proof fn law_denial_leaves_no_session(
    cfg: Deployment,
    kopid: KOpId,
    cookies: Map<Seq<char>, CookieView>,
    auth_state: AuthState,
    sessionid: Seq<u8>,
    safety: nat,
)
    requires
        safety > 0,
        auth_state is Denied,
        !cookies.contains_key(bearer_cookie()),
    ensures
        login_step_spec(cfg, kopid, cookies, auth_state, sessionid, safety) matches Ok(
            ActionView::Respond(ResponseView { cookies: Some(after), screen }),
        ) && !after.contains_key(auth_session_cookie()) && !after.contains_key(bearer_cookie())
            && screen == (ScreenView::Redirect { location: denied_landing(), temporary: true }),
{
    lemma_cookie_names_differ();
}

/// A fault of the engine ends the request on the error page for that fault
/// and changes no cookie, whatever was set while the request went on.
pub proof fn law_engine_fault_keeps_cookies(
    cfg: Deployment,
    kopid: KOpId,
    pending: PendingView,
    err_code: OperationError,
    replies: Seq<Result<AuthResult, OperationError>>,
)
    ensures
        resume_spec(cfg, kopid, pending, Err(err_code)) == fault_response(err_code, kopid),
        fault_response(err_code, kopid) matches ActionView::Respond(response) && response.cookies
            is None,
        run_spec(cfg, kopid, fault_response(err_code, kopid), replies) == fault_response(err_code, kopid),
{
}

} // verus!
