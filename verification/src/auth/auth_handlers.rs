//! The login and logout handlers: who is admitted, and what the client is told.

use vstd::prelude::*;

use crate::auth::jwt::{
    generate_token, issued_token, presented_token, session_cookie, session_cookie_name_text,
    session_cookie_view, token_for_reading, token_result_view, TokenError,
};
use crate::models::{login_result, AuthError, User};
use crate::reply::{one_field, CookieView, JsonReply, ReplyView};

verus! {

/// Why a login could not be answered.
#[derive(Debug, Clone, Copy, PartialEq, Eq)]
pub enum LoginError {
    /// The stored password hash of the user is not a PHC string.
    MalformedPasswordHash,
    /// No session token could be issued.
    Token(TokenError),
}

/// The reply to an admitted login: status 200, the session cookie holding the
/// token for `max_age_seconds`, and the token as `access_token`.
pub open spec fn granted_reply(token: Seq<char>, max_age_seconds: i64) -> ReplyView {
    ReplyView {
        status: 200,
        cookie: Some(session_cookie_view(token, max_age_seconds)),
        body: seq![("access_token"@, token)],
    }
}

/// The reply to a refused login: status 403, no cookie, and the error `Unauthorized`.
pub open spec fn denied_reply() -> ReplyView {
    ReplyView { status: 403, cookie: None, body: seq![("error"@, "Unauthorized"@)] }
}

/// The cookie that ends a session: the session cookie, emptied and already expired.
pub open spec fn logout_cookie_view() -> CookieView {
    session_cookie_view(Seq::empty(), -1i64)
}

/// The reply to a logout: status 200, the expired session cookie, and status `success`.
pub open spec fn logout_reply() -> ReplyView {
    ReplyView {
        status: 200,
        cookie: Some(logout_cookie_view()),
        body: seq![("status"@, "success"@)],
    }
}

/// The user admitted by a login: the record found by the email, when the
/// password matches its stored hash.
pub fn authenticate(record: Option<User>, password: &[u8]) -> (r: Result<Option<User>, AuthError>)
    ensures
        r == login_result(record, password@),
{
    User::authenticate(record, password)
}

/// The reply to a login, given the token issued to the admitted user, or none
/// when the login was refused.
pub fn login_reply(token: Option<String>, max_age_seconds: i64) -> (r: JsonReply)
    ensures
        match token {
            Some(t) => r@ == granted_reply(t@, max_age_seconds),
            None => r@ == denied_reply(),
        },
        token is Some ==> r.status == 200,
        token matches Some(t) ==> (r.cookie matches Some(c) && c.name@ == "__tk_sess"@
            && c.name@ == session_cookie_name_text() && c.value@ == t@ && c.path@ == "/"@
            && c.max_age_seconds == max_age_seconds && c.http_only),
        token is None ==> r.status == 403 && r.cookie is None,
{
    match token {
        Some(t) => {
            let cookie = session_cookie(t.clone(), max_age_seconds);
            let r = JsonReply { status: 200, cookie: Some(cookie), body: one_field("access_token", t) };
            assert(r@ =~= granted_reply(t@, max_age_seconds));
            r
        },
        None => {
            let r = JsonReply {
                status: 403,
                cookie: None,
                body: one_field("error", String::from_str("Unauthorized")),
            };
            assert(r@ =~= denied_reply());
            r
        },
    }
}

/// The reply to a login with `password` for the record found by the email:
/// an admitted user gets a fresh session token signed with `secret`, in the
/// body and in a cookie that lasts `max_age_seconds`.
pub fn user_login(record: Option<User>, password: &[u8], secret: &str, max_age_seconds: i64) -> (r: Result<JsonReply, LoginError>)
    ensures
        match login_result(record, password@) {
            Err(_) => r == Err::<JsonReply, LoginError>(LoginError::MalformedPasswordHash),
            Ok(None) => r matches Ok(reply) && reply@ == denied_reply(),
            Ok(Some(u)) => match r {
                Ok(reply) => reply@.cookie matches Some(c) && issued_token(c.value, u.id, secret@)
                    && reply@ == granted_reply(c.value, max_age_seconds),
                Err(e) => e matches LoginError::Token(_),
            },
        },
        login_result(record, password@) matches Ok(Some(u)) ==> exists|reading: Option<u64>|
            match #[trigger] token_for_reading(u.id, secret@, reading) {
                Ok(t) => r matches Ok(reply) && reply@ == granted_reply(t, max_age_seconds),
                Err(e) => r == Err::<JsonReply, LoginError>(LoginError::Token(e)),
            },
{
    let admitted = match authenticate(record, password) {
        Ok(a) => a,
        Err(_) => return Err(LoginError::MalformedPasswordHash),
    };
    match admitted {
        None => Ok(login_reply(None, max_age_seconds)),
        Some(user) => {
            let issued = generate_token(user.id, secret);
            let ghost reading = choose|reading: Option<u64>|
                token_result_view(issued) == #[trigger] token_for_reading(user.id, secret@, reading);
            let r = match issued {
                Ok(token) => Ok(login_reply(Some(token), max_age_seconds)),
                Err(e) => Err(LoginError::Token(e)),
            };
            assert(token_result_view(issued) == token_for_reading(user.id, secret@, reading));
            r
        },
    }
}

/// The reply to a logout.
pub fn user_logout() -> (r: JsonReply)
    ensures
        r@ == logout_reply(),
        r.status == 200,
        r.cookie matches Some(c) && c.name@ == "__tk_sess"@ && c.value@.len() == 0 && c.path@ == "/"@
            && c.max_age_seconds < 0 && c.http_only,
{
    let r = JsonReply {
        status: 200,
        cookie: Some(session_cookie(String::new(), -1)),
        body: one_field("status", String::from_str("success")),
    };
    assert(r@ =~= logout_reply());
    r
}

/// The logout cookie replaces the login cookie (same name and path) with an
/// empty value that has already expired.
pub proof fn lemma_logout_replaces_session_cookie(token: Seq<char>, max_age_seconds: i64)
    ensures
        ({
            let login = granted_reply(token, max_age_seconds).cookie.unwrap();
            let logout = logout_reply().cookie.unwrap();
            &&& logout.name == login.name
            &&& logout.path == login.path
            &&& logout.value.len() == 0
            &&& logout.max_age_seconds < 0
        }),
{
}

/// An admitted login hands the client one token: the body's `access_token` is
/// the session cookie's value.
pub proof fn lemma_granted_token_matches_cookie(token: Seq<char>, max_age_seconds: i64)
    ensures
        granted_reply(token, max_age_seconds).body[0].1
            == granted_reply(token, max_age_seconds).cookie.unwrap().value,
        granted_reply(token, max_age_seconds).body[0].0 == "access_token"@,
{
}

/// A refused login sets no cookie and an admitted one does, so no client is
/// handed a session without its credentials being accepted.
pub proof fn lemma_only_admitted_logins_get_a_session(token: Seq<char>, max_age_seconds: i64)
    ensures
        denied_reply().cookie is None,
        denied_reply().status == 403,
        granted_reply(token, max_age_seconds).cookie is Some,
        granted_reply(token, max_age_seconds).status == 200,
{
}

/// A client that sends back the session cookie of an admitted login presents
/// exactly the token it was issued, whatever `Authorization` header it adds.
pub proof fn lemma_session_cookie_round_trip(
    token: Seq<char>,
    max_age_seconds: i64,
    authorization: Option<Seq<char>>,
)
    ensures
        presented_token(Some(granted_reply(token, max_age_seconds).cookie.unwrap().value), authorization)
            == Some(token),
{
}

/// A client that sends the `access_token` of an admitted login after the
/// scheme `Bearer `, and no cookie, presents exactly that token.
pub proof fn lemma_bearer_round_trip_of_granted_token(token: Seq<char>, max_age_seconds: i64)
    ensures
        presented_token(None, Some("Bearer "@ + granted_reply(token, max_age_seconds).body[0].1))
            == Some(token),
{
    reveal_strlit("Bearer ");
    crate::auth::jwt::lemma_bearer_round_trip("Bearer "@, token);
}

/// The token that a client presents with the cookie of its admitted login is
/// a token issued for the user who logged in, whatever `Authorization` header
/// it adds.
pub proof fn lemma_login_session_identifies_the_user(
    reply: ReplyView,
    user_id: u128,
    secret: Seq<char>,
    max_age_seconds: i64,
    authorization: Option<Seq<char>>,
)
    requires
        reply.cookie matches Some(c) && issued_token(c.value, user_id, secret)
            && reply == granted_reply(c.value, max_age_seconds),
    ensures
        presented_token(Some(reply.cookie.unwrap().value), authorization) matches Some(t)
            && issued_token(t, user_id, secret),
{
}

/// An admitted login sets the cookie `__tk_sess` (the one requests are read
/// for) holding the token for the given time, and a client that sends it back
/// presents exactly that token; the body's `access_token` is the same token.
pub proof fn lemma_login_cookie_is_the_session_cookie(
    token: Seq<char>,
    max_age_seconds: i64,
    authorization: Option<Seq<char>>,
)
    ensures
        granted_reply(token, max_age_seconds).cookie matches Some(c) && c.name == "__tk_sess"@
            && c.name == session_cookie_name_text() && c.value == token && c.path == "/"@
            && c.max_age_seconds == max_age_seconds && c.http_only,
        presented_token(Some(granted_reply(token, max_age_seconds).cookie.unwrap().value), authorization)
            == Some(token),
        granted_reply(token, max_age_seconds).body == seq![("access_token"@, token)],
{
}

} // verus!
