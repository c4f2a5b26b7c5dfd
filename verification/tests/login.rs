use argon2::password_hash::{PasswordHasher, SaltString};
use argon2::{Algorithm, Argon2, Params, Version};
use patidar_auth::auth::auth_handlers::{authenticate, login_reply, user_login, user_logout, LoginError};
use patidar_auth::models::{AuthError, User};
use patidar_auth::reply::JsonReply;

fn hash(password: &str) -> String {
    let argon = Argon2::new(Algorithm::Argon2id, Version::V0x13, Params::new(1024, 1, 1, None).unwrap());
    let salt = SaltString::from_b64("c29tZXNhbHRzb21lc2FsdA").unwrap();
    argon.hash_password(password.as_bytes(), &salt).unwrap().to_string()
}

fn user(password_hash: String) -> User {
    User {
        id: 7,
        first_name: Some("Ada".to_string()),
        last_name: None,
        email: "ada@example.com".to_string(),
        password: password_hash,
        created_at: Some(1_700_000_000_000_000),
        updated_at: None,
    }
}

fn body(reply: &JsonReply) -> Vec<(&str, &str)> {
    reply.body.iter().map(|(k, v)| (k.as_str(), v.as_str())).collect()
}

#[test]
fn password_check() {
    let u = user(hash("hunter2"));
    assert_eq!(u.check_password(b"hunter2"), Some(true));
    assert_eq!(u.check_password(b"hunter3"), Some(false));
    assert!(u.verify_password(b"hunter2"));
    assert!(!u.verify_password(b""));
    assert_eq!(user("not a phc string".to_string()).check_password(b"hunter2"), None);
}

#[test]
fn authenticate_admits_only_the_right_password() {
    let u = user(hash("hunter2"));
    assert_eq!(User::authenticate(Some(u.clone()), b"hunter2"), Ok(Some(u.clone())));
    assert_eq!(User::authenticate(Some(u.clone()), b"wrong"), Ok(None));
    assert_eq!(User::authenticate(None, b"hunter2"), Ok(None));
    assert_eq!(authenticate(Some(u.clone()), b"hunter2"), Ok(Some(u.clone())));
    assert_eq!(authenticate(Some(u), b"wrong"), Ok(None));
}

#[test]
fn malformed_stored_hash_is_an_error() {
    let u = user("plain-text-password".to_string());
    assert_eq!(User::authenticate(Some(u.clone()), b"plain-text-password"), Err(AuthError::MalformedPasswordHash));
    assert_eq!(
        user_login(Some(u), b"plain-text-password", "k", 60),
        Err(LoginError::MalformedPasswordHash)
    );
}

#[test]
fn granted_reply_shape() {
    let r = login_reply(Some("tok".to_string()), 7200);
    assert_eq!(r.status, 200);
    let c = r.cookie.clone().unwrap();
    assert_eq!((c.name.as_str(), c.value.as_str(), c.path.as_str(), c.max_age_seconds, c.http_only), ("__tk_sess", "tok", "/", 7200, true));
    assert_eq!(body(&r), vec![("access_token", "tok")]);
}

#[test]
fn denied_reply_shape() {
    let r = login_reply(None, 7200);
    assert_eq!(r.status, 403);
    assert_eq!(r.cookie, None);
    assert_eq!(body(&r), vec![("error", "Unauthorized")]);
}

#[test]
fn login_with_right_password_issues_a_session() {
    let r = user_login(Some(user(hash("hunter2"))), b"hunter2", "s3cr3t", 3600).unwrap();
    assert_eq!(r.status, 200);
    let cookie = r.cookie.clone().unwrap();
    assert_eq!(cookie.max_age_seconds, 3600);
    assert_eq!(body(&r), vec![("access_token", cookie.value.as_str())]);
    let data = jsonwebtoken::decode::<serde_json::Value>(
        &cookie.value,
        &jsonwebtoken::DecodingKey::from_secret(b"s3cr3t"),
        &jsonwebtoken::Validation::default(),
    )
    .unwrap();
    assert_eq!(data.claims["user_id"], "00000000-0000-0000-0000-000000000007");
}

#[test]
fn login_with_wrong_password_or_unknown_email_is_refused() {
    let r = user_login(Some(user(hash("hunter2"))), b"nope", "s3cr3t", 3600).unwrap();
    assert_eq!(r.status, 403);
    assert_eq!(r.cookie, None);
    let r = user_login(None, b"hunter2", "s3cr3t", 3600).unwrap();
    assert_eq!(r.status, 403);
    assert_eq!(body(&r), vec![("error", "Unauthorized")]);
}

#[test]
fn logout_expires_the_session_cookie() {
    let r = user_logout();
    assert_eq!(r.status, 200);
    let c = r.cookie.clone().unwrap();
    assert_eq!((c.name.as_str(), c.value.as_str(), c.path.as_str(), c.max_age_seconds, c.http_only), ("__tk_sess", "", "/", -1, true));
    assert_eq!(body(&r), vec![("status", "success")]);
}

#[test]
fn status_style_login_replies() {
    let r = patidar_auth::auth::login_reply(Some("tok".to_string()));
    assert_eq!(r.status, 200);
    assert_eq!(r.cookie.clone().unwrap().max_age_seconds, 3600);
    assert_eq!(body(&r), vec![("status", "success"), ("access_token", "tok")]);
    let r = patidar_auth::auth::login_reply(None);
    assert_eq!(r.status, 403);
    assert_eq!(r.cookie, None);
    assert_eq!(body(&r), vec![("status", "error"), ("data", "Unauthorized")]);
}

#[test]
fn status_style_login_and_logout() {
    let r = patidar_auth::auth::user_login(Some(user(hash("pw"))), b"pw", "k").unwrap();
    assert_eq!(r.status, 200);
    assert_eq!(r.body[0], ("status".to_string(), "success".to_string()));
    assert_eq!(r.body[1].1, r.cookie.clone().unwrap().value);
    let r = patidar_auth::auth::user_login(Some(user(hash("pw"))), b"px", "k").unwrap();
    assert_eq!(r.status, 403);
    assert_eq!(patidar_auth::auth::user_logout(), user_logout());
}
