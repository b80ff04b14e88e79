//! The two cookies of a login: the continuity cookie that carries the signed
//! session identifier between steps, and the bearer cookie that proves a
//! completed login. The jar itself is `axum_extra`'s; this module fixes the
//! attributes each cookie is sent with and what each change does to the jar.

use axum_extra::extract::cookie::{Cookie, CookieJar, SameSite};
use vstd::prelude::*;

verus! {

#[verifier::external_type_specification]
#[verifier::external_body]
pub struct ExCookieJar(CookieJar);

/// Which requests from other sites a cookie is sent with.
#[derive(Clone, Copy, Debug, PartialEq, Eq, Structural)]
pub enum SameSitePolicy {
    /// With none.
    Strict,
    /// With top-level navigation only.
    Lax,
    /// With all.
    Unrestricted,
}

/// What a jar shows of one cookie, besides its name.
pub ghost struct CookieView {
    pub value: Seq<char>,
    pub secure: Option<bool>,
    pub http_only: Option<bool>,
    pub same_site: Option<SameSitePolicy>,
    pub domain: Option<Seq<char>>,
    pub path: Option<Seq<char>>,
}

/// The cookies that a jar shows, by name: those that came with the request or
/// were added since, without those removed since.
pub uninterp spec fn jar_cookies(jar: CookieJar) -> Map<Seq<char>, CookieView>;

/// A cookie about to be put in a jar, with every attribute decided.
pub struct NewCookie {
    pub name: String,
    pub value: String,
    pub secure: bool,
    pub http_only: bool,
    pub same_site: SameSitePolicy,
    pub domain: Option<String>,
    pub path: Option<String>,
}

impl View for NewCookie {
    type V = CookieView;

    open spec fn view(&self) -> CookieView {
        CookieView {
            value: self.value@,
            secure: Some(self.secure),
            http_only: Some(self.http_only),
            same_site: Some(self.same_site),
            domain: match self.domain {
                Some(d) => Some(d@),
                None => None,
            },
            path: match self.path {
                Some(p) => Some(p@),
                None => None,
            },
        }
    }
}

/// `CookieJar::add` on a cookie made by `Cookie::new` and the setters of each
/// attribute: the jar then shows this cookie under its name, in place of any
/// other of that name, and every other cookie as before.
#[verifier::external_body]
fn jar_add(jar: CookieJar, cookie: NewCookie) -> (out: CookieJar)
    ensures
        jar_cookies(out) == jar_cookies(jar).insert(cookie.name@, cookie@),
{
    let mut c = Cookie::new(cookie.name, cookie.value);
    c.set_secure(cookie.secure);
    c.set_http_only(cookie.http_only);
    c.set_same_site(match cookie.same_site {
        SameSitePolicy::Strict => SameSite::Strict,
        SameSitePolicy::Lax => SameSite::Lax,
        SameSitePolicy::Unrestricted => SameSite::None,
    });
    if let Some(domain) = cookie.domain {
        c.set_domain(domain);
    }
    if let Some(path) = cookie.path {
        c.set_path(path);
    }
    jar.add(c)
}

/// `CookieJar::remove`: the jar no longer shows a cookie of this name, and
/// shows every other cookie as before.
#[verifier::external_body]
fn jar_remove(jar: CookieJar, name: &str) -> (out: CookieJar)
    ensures
        jar_cookies(out) == jar_cookies(jar).remove(name@),
{
    jar.remove(Cookie::from(name.to_string()))
}

/// `CookieJar::get` and `Cookie::value`: the value of the cookie shown under
/// this name, if one is.
#[verifier::external_body]
fn jar_value(jar: &CookieJar, name: &str) -> (value: Option<String>)
    ensures
        value is Some <==> jar_cookies(*jar).contains_key(name@),
        value matches Some(v) ==> v@ == jar_cookies(*jar)[name@].value,
{
    jar.get(name).map(|c| c.value().to_string())
}

/// Name of the continuity cookie.
pub open spec fn auth_session_cookie() -> Seq<char> {
    "session-continuity"@
}

/// Name of the bearer cookie.
pub open spec fn bearer_cookie() -> Seq<char> {
    "bearer-token"@
}

/// Name of the continuity cookie.
pub const COOKIE_AUTH_SESSION_ID: &'static str = "session-continuity";

/// Name of the bearer cookie.
pub const COOKIE_BEARER_TOKEN: &'static str = "bearer-token";

/// The continuity cookie as it is sent: kept from scripts, sent only with
/// same-site requests, bound to the host that set it.
pub open spec fn continuity_view(token: Seq<char>, secure: bool) -> CookieView {
    CookieView {
        value: token,
        secure: Some(secure),
        http_only: Some(true),
        same_site: Some(SameSitePolicy::Strict),
        domain: None,
        path: None,
    }
}

/// The bearer cookie as it is sent: kept from scripts, sent on top-level
/// navigation from other sites too, shared with the hosts under `domain`.
pub open spec fn bearer_view(token: Seq<char>, secure: bool, domain: Seq<char>) -> CookieView {
    CookieView {
        value: token,
        secure: Some(secure),
        http_only: Some(true),
        same_site: Some(SameSitePolicy::Lax),
        domain: Some(domain),
        path: Some("/"@),
    }
}

/// The two cookie names differ.
pub proof fn lemma_cookie_names_differ()
    ensures
        auth_session_cookie() != bearer_cookie(),
{
    reveal_strlit("session-continuity");
    reveal_strlit("bearer-token");
    assert(auth_session_cookie().len() == 18);
    assert(bearer_cookie().len() == 12);
}

/// Puts the continuity cookie in the jar.
pub fn apply_continuity(jar: CookieJar, token: String, secure: bool) -> (out: CookieJar)
    ensures
        jar_cookies(out) == jar_cookies(jar).insert(
            auth_session_cookie(),
            continuity_view(token@, secure),
        ),
{
    let cookie = NewCookie {
        name: COOKIE_AUTH_SESSION_ID.to_string(),
        value: token,
        secure,
        http_only: true,
        same_site: SameSitePolicy::Strict,
        domain: None,
        path: None,
    };
    jar_add(jar, cookie)
}

/// Puts the bearer cookie in the jar.
pub fn apply_bearer(jar: CookieJar, token: String, secure: bool, domain: String) -> (out:
    CookieJar)
    ensures
        jar_cookies(out) == jar_cookies(jar).insert(
            bearer_cookie(),
            bearer_view(token@, secure, domain@),
        ),
{
    let cookie = NewCookie {
        name: COOKIE_BEARER_TOKEN.to_string(),
        value: token,
        secure,
        http_only: true,
        same_site: SameSitePolicy::Lax,
        domain: Some(domain),
        path: Some("/".to_string()),
    };
    jar_add(jar, cookie)
}

/// Takes the cookie of this name out of the jar.
pub fn clear(jar: CookieJar, cookie_name: &str) -> (out: CookieJar)
    ensures
        jar_cookies(out) == jar_cookies(jar).remove(cookie_name@),
{
    jar_remove(jar, cookie_name)
}

/// The value of the cookie of this name, if the jar shows one.
pub fn cookie_value(jar: &CookieJar, cookie_name: &str) -> (value: Option<String>)
    ensures
        value is Some <==> jar_cookies(*jar).contains_key(cookie_name@),
        value matches Some(v) ==> v@ == jar_cookies(*jar)[cookie_name@].value,
{
    jar_value(jar, cookie_name)
}

} // verus!
