//! Login and logout, in the form whose replies carry a `status` field and
//! whose session cookie lasts one hour.

pub mod auth_handlers;
pub mod jwt;

use vstd::prelude::*;

use crate::auth::auth_handlers::{logout_reply, LoginError};
use crate::auth::jwt::{
    generate_token, issued_token, presented_token, session_cookie, session_cookie_name_text,
    session_cookie_view, token_for_reading, token_result_view,
};
use crate::models::{login_result, User};
use crate::reply::{two_fields, JsonReply, ReplyView};

verus! {

/// How long the session cookie of an admitted login lasts, in seconds.
pub const SESSION_COOKIE_SECONDS: i64 = 3600;

/// The reply to an admitted login: status 200, the session cookie holding the
/// token for an hour, status `success` and the token as `access_token`.
pub open spec fn granted_reply(token: Seq<char>) -> ReplyView {
    ReplyView {
        status: 200,
        cookie: Some(session_cookie_view(token, SESSION_COOKIE_SECONDS)),
        body: seq![("status"@, "success"@), ("access_token"@, token)],
    }
}

/// The reply to a refused login: status 403, no cookie, status `error` and the
/// data `Unauthorized`.
pub open spec fn denied_reply() -> ReplyView {
    ReplyView {
        status: 403,
        cookie: None,
        body: seq![("status"@, "error"@), ("data"@, "Unauthorized"@)],
    }
}

/// The reply to a login, given the token issued to the admitted user, or none
/// when the login was refused.
pub fn login_reply(token: Option<String>) -> (r: JsonReply)
    ensures
        match token {
            Some(t) => r@ == granted_reply(t@),
            None => r@ == denied_reply(),
        },
        token is Some ==> r.status == 200,
        token matches Some(t) ==> (r.cookie matches Some(c) && c.name@ == "__tk_sess"@
            && c.name@ == session_cookie_name_text() && c.value@ == t@ && c.path@ == "/"@
            && c.max_age_seconds == 3600 && c.http_only),
        token is None ==> r.status == 403 && r.cookie is None,
{
    match token {
        Some(t) => {
            let cookie = session_cookie(t.clone(), SESSION_COOKIE_SECONDS);
            let r = JsonReply {
                status: 200,
                cookie: Some(cookie),
                body: two_fields("status", String::from_str("success"), "access_token", t),
            };
            assert(r@ =~= granted_reply(t@));
            r
        },
        None => {
            let r = JsonReply {
                status: 403,
                cookie: None,
                body: two_fields(
                    "status",
                    String::from_str("error"),
                    "data",
                    String::from_str("Unauthorized"),
                ),
            };
            assert(r@ =~= denied_reply());
            r
        },
    }
}

/// The reply to a login with `password` for the record found by the email:
/// an admitted user gets a fresh session token signed with `secret`.
pub fn user_login(record: Option<User>, password: &[u8], secret: &str) -> (r: Result<JsonReply, LoginError>)
    ensures
        match login_result(record, password@) {
            Err(_) => r == Err::<JsonReply, LoginError>(LoginError::MalformedPasswordHash),
            Ok(None) => r matches Ok(reply) && reply@ == denied_reply(),
            Ok(Some(u)) => match r {
                Ok(reply) => reply@.cookie matches Some(c) && issued_token(c.value, u.id, secret@)
                    && reply@ == granted_reply(c.value),
                Err(e) => e matches LoginError::Token(_),
            },
        },
        login_result(record, password@) matches Ok(Some(u)) ==> exists|reading: Option<u64>|
            match #[trigger] token_for_reading(u.id, secret@, reading) {
                Ok(t) => r matches Ok(reply) && reply@ == granted_reply(t),
                Err(e) => r == Err::<JsonReply, LoginError>(LoginError::Token(e)),
            },
{
    let admitted = match User::authenticate(record, password) {
        Ok(a) => a,
        Err(_) => return Err(LoginError::MalformedPasswordHash),
    };
    match admitted {
        None => Ok(login_reply(None)),
        Some(user) => {
            let issued = generate_token(user.id, secret);
            let ghost reading = choose|reading: Option<u64>|
                token_result_view(issued) == #[trigger] token_for_reading(user.id, secret@, reading);
            let r = match issued {
                Ok(token) => Ok(login_reply(Some(token))),
                Err(e) => Err(LoginError::Token(e)),
            };
            assert(token_result_view(issued) == token_for_reading(user.id, secret@, reading));
            r
        },
    }
}

/// The reply to a logout.
pub fn user_logout() -> (r: JsonReply)
    ensures
        r@ == logout_reply(),
{
    auth_handlers::user_logout()
}

/// An admitted login sets the cookie `__tk_sess` (the one requests are read
/// for) holding the token for an hour, and a client that sends it back
/// presents exactly that token; a refused login sets no cookie.
pub proof fn lemma_login_cookie_is_the_session_cookie(token: Seq<char>, authorization: Option<Seq<char>>)
    ensures
        granted_reply(token).cookie matches Some(c) && c.name == "__tk_sess"@
            && c.name == session_cookie_name_text() && c.value == token && c.path == "/"@
            && c.max_age_seconds == 3600 && c.http_only,
        presented_token(Some(granted_reply(token).cookie.unwrap().value), authorization) == Some(token),
        granted_reply(token).body[1] == ("access_token"@, token),
        denied_reply().cookie is None,
        denied_reply().status == 403,
{
}

} // verus!
