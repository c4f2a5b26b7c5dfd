//! Session tokens: the claims they carry, how they are issued, and how a
//! request presents one.

use vstd::prelude::*;

use crate::reply::{CookieView, SessionCookie};
use crate::text::{
    all_digits, append_decimal, decimal, is_digit, lemma_decimal_digits, lemma_uuid_text_plain,
    member_text, members_text, object_text, parse_decimal, parse_uuid_hyphenated, plain_members,
    uuid_hyphenated, uuid_text, JsonScalar,
};

verus! {

/// How long an issued token stays valid, in seconds.
pub const TOKEN_LIFETIME_SECONDS: usize = 3600;

/// The claims of a session token: whose session it is, when it expires and
/// when it was issued (Unix seconds).
#[derive(Debug, Clone, Copy, PartialEq, Eq)]
pub struct TokenClaims {
    pub user_id: u128,
    pub exp: usize,
    pub iat: usize,
}

/// Why a token could not be issued.
#[derive(Debug, Clone, Copy, PartialEq, Eq)]
pub enum TokenError {
    /// The clock reading gives an expiry time beyond the range of `usize`, or
    /// lies beyond the range of `i64`.
    ClockOutOfRange,
    /// The clock reads a time before the Unix epoch.
    ClockBeforeEpoch,
    /// The token encoder refused the claims.
    Encoding,
}

/// The claims issued for `user_id` at the clock reading `now`: the reading
/// taken as `usize` (as Rust's `as` does) is the issue time, and the expiry
/// lies one lifetime later; none where that sum leaves the range of `usize`.
pub open spec fn claims_at(user_id: u128, now: i64) -> Option<TokenClaims> {
    let iat = now as usize;
    if iat + TOKEN_LIFETIME_SECONDS <= usize::MAX {
        Some(TokenClaims { user_id, exp: (iat + TOKEN_LIFETIME_SECONDS) as usize, iat })
    } else {
        None
    }
}

/// The claims as compact JSON, fields in the order `user_id`, `exp`, `iat`,
/// the user id in hyphenated form.
pub open spec fn claims_text(c: TokenClaims) -> Seq<char> {
    "{\"user_id\":\""@ + uuid_text(c.user_id) + "\",\"exp\":"@ + decimal(c.exp as nat)
        + ",\"iat\":"@ + decimal(c.iat as nat) + "}"@
}

/// The HS256 JSON Web Token, with the default header `{"typ":"JWT","alg":"HS256"}`,
/// that carries the JSON text `claims` and is signed with `secret`.
pub uninterp spec fn hs256_jwt(claims: Seq<char>, secret: Seq<char>) -> Seq<char>;

/// `token` is the token issued for `user_id` with `secret` at some clock reading.
pub open spec fn issued_token(token: Seq<char>, user_id: u128, secret: Seq<char>) -> bool {
    exists|now: i64| #[trigger] claims_at(user_id, now) matches Some(c)
        && token == hs256_jwt(claims_text(c), secret)
}

/// Trusted: the current time in whole seconds since the Unix epoch, from
/// `std::time::SystemTime::now().duration_since(UNIX_EPOCH)`; none when the
/// system clock reads a time before the epoch. Nothing is stated of the reading.
#[verifier::external_body]
pub(crate) fn unix_seconds_now() -> Option<u64> {
    std::time::SystemTime::now().duration_since(std::time::UNIX_EPOCH).ok().map(|d| d.as_secs())
}

/// What issuing a token for `user_id` with `secret` gives at the clock reading
/// `reading` (whole seconds since the epoch; none before the epoch).
pub open spec fn token_for_reading(user_id: u128, secret: Seq<char>, reading: Option<u64>) -> Result<Seq<char>, TokenError> {
    match reading {
        None => Err(TokenError::ClockBeforeEpoch),
        Some(secs) => if secs > i64::MAX {
            Err(TokenError::ClockOutOfRange)
        } else {
            match claims_at(user_id, secs as i64) {
                None => Err(TokenError::ClockOutOfRange),
                Some(c) => Ok(hs256_jwt(claims_text(c), secret)),
            }
        },
    }
}

/// The view of a token result.
pub open spec fn token_result_view(r: Result<String, TokenError>) -> Result<Seq<char>, TokenError> {
    match r {
        Ok(t) => Ok(t@),
        Err(e) => Err(e),
    }
}

/// Where `usize` has 64 bits, every reading at or after the epoch that fits in
/// `i64` gives a token.
pub proof fn lemma_token_after_epoch(user_id: u128, secret: Seq<char>, secs: u64)
    requires
        usize::MAX == u64::MAX,
        secs <= i64::MAX,
    ensures
        token_for_reading(user_id, secret, Some(secs)) is Ok,
{
}

#[verifier::external_type_specification]
#[verifier::external_body]
pub struct ExJwtError(jsonwebtoken::errors::Error);

/// Trusted: `jsonwebtoken::encode` with the default header (HS256) and the key
/// `EncodingKey::from_secret` of the secret's bytes, on the claims given as JSON
/// text (carried verbatim through `serde_json::value::RawValue::from_string`).
/// A token that comes back is `hs256_jwt` of the text and the secret. An error
/// comes back only when the text is not JSON (`RawValue::from_string`); the
/// default header and an HMAC key are of one family, and serialising the header
/// and the raw claims and HMAC signing do not fail. So a flat object of plain
/// keys, plain strings and decimal numbers is always encoded. Which other texts
/// are encoded is left unsaid.
#[verifier::external_body]
fn encode_hs256(claims_json: &str, secret: &str) -> (r: Result<String, jsonwebtoken::errors::Error>)
    ensures
        r matches Ok(t) ==> t@ == hs256_jwt(claims_json@, secret@),
        (exists|members: Seq<(Seq<char>, JsonScalar)>|
            plain_members(members) && #[trigger] object_text(members) == claims_json@) ==> r is Ok,
{
    let claims = serde_json::value::RawValue::from_string(claims_json.to_owned())?;
    jsonwebtoken::encode(
        &jsonwebtoken::Header::default(),
        &claims,
        &jsonwebtoken::EncodingKey::from_secret(secret.as_bytes()),
    )
}

/// The claims issued for `user_id` at the clock reading `now`.
pub fn token_claims(user_id: u128, now: i64) -> (r: Option<TokenClaims>)
    ensures
        r == claims_at(user_id, now),
        r matches Some(c) ==> c.exp == c.iat + TOKEN_LIFETIME_SECONDS && c.user_id == user_id
            && c.iat == now as usize,
        r is None <==> (now as usize) + TOKEN_LIFETIME_SECONDS > usize::MAX,
{
    let iat = now as usize;
    match iat.checked_add(TOKEN_LIFETIME_SECONDS) {
        Some(exp) => Some(TokenClaims { user_id, exp, iat }),
        None => None,
    }
}

/// The claims as the JSON text that the token carries.
pub fn claims_json(c: &TokenClaims) -> (s: String)
    ensures
        s@ == claims_text(*c),
{
    let mut s = String::from_str("{\"user_id\":\"");
    let id = uuid_hyphenated(c.user_id);
    s.append(id.as_str());
    s.append("\",\"exp\":");
    append_decimal(&mut s, c.exp);
    s.append(",\"iat\":");
    append_decimal(&mut s, c.iat);
    s.append("}");
    assert(s@ =~= claims_text(*c));
    s
}

/// The members of the claims object, in the order `user_id`, `exp`, `iat`.
pub open spec fn claims_members(c: TokenClaims) -> Seq<(Seq<char>, JsonScalar)> {
    seq![
        ("user_id"@, JsonScalar::Str(uuid_text(c.user_id))),
        ("exp"@, JsonScalar::Num(c.exp as nat)),
        ("iat"@, JsonScalar::Num(c.iat as nat)),
    ]
}

/// The claims text is a flat JSON object of plain keys, a plain string and
/// two decimal numbers.
pub proof fn lemma_claims_text_is_flat_object(c: TokenClaims)
    ensures
        plain_members(claims_members(c)),
        object_text(claims_members(c)) == claims_text(c),
{
    reveal_strlit("user_id");
    reveal_strlit("exp");
    reveal_strlit("iat");
    reveal_strlit("{\"user_id\":\"");
    reveal_strlit("\",\"exp\":");
    reveal_strlit(",\"iat\":");
    reveal_strlit("}");
    lemma_uuid_text_plain(c.user_id);
    let ms = claims_members(c);
    assert(ms.drop_last().drop_last() =~= seq![ms[0]]);
    assert(ms.drop_last().last() == ms[1]);
    assert(members_text(ms.drop_last().drop_last()) == member_text(ms[0]));
    assert(members_text(ms.drop_last()) == member_text(ms[0]) + seq![','] + member_text(ms[1]));
    assert(members_text(ms) == member_text(ms[0]) + seq![','] + member_text(ms[1]) + seq![','] + member_text(ms[2]));
    assert(object_text(ms) =~= claims_text(c));
}

/// The token for `user_id`, signed with `secret`, issued at the clock reading
/// `now`; it is issued whenever the claims fit in `usize`.
pub fn generate_token_at(user_id: u128, secret: &str, now: i64) -> (r: Result<String, TokenError>)
    ensures
        claims_at(user_id, now) is None <==> r == Err::<String, TokenError>(TokenError::ClockOutOfRange),
        claims_at(user_id, now) matches Some(c) ==> r matches Ok(t)
            && t@ == hs256_jwt(claims_text(c), secret@),
{
    match token_claims(user_id, now) {
        None => Err(TokenError::ClockOutOfRange),
        Some(claims) => {
            let text = claims_json(&claims);
            proof {
                lemma_claims_text_is_flat_object(claims);
                assert(plain_members(claims_members(claims)) && object_text(claims_members(claims)) == text@);
            }
            match encode_hs256(text.as_str(), secret) {
                Ok(token) => Ok(token),
                Err(_) => Err(TokenError::Encoding),
            }
        },
    }
}

/// A session token for `user_id`, signed with `secret`, issued now and valid
/// for one lifetime: what `token_for_reading` gives at the clock reading taken.
/// It fails only when the clock reads a time before the epoch or out of range.
pub fn generate_token(user_id: u128, secret: &str) -> (r: Result<String, TokenError>)
    ensures
        exists|reading: Option<u64>| token_result_view(r) == #[trigger] token_for_reading(user_id, secret@, reading),
        r matches Ok(t) ==> issued_token(t@, user_id, secret@),
{
    let reading = unix_seconds_now();
    let r = match reading {
        None => Err(TokenError::ClockBeforeEpoch),
        Some(secs) => if secs > 9_223_372_036_854_775_807u64 {
            Err(TokenError::ClockOutOfRange)
        } else {
            let now = secs as i64;
            generate_token_at(user_id, secret, now)
        },
    };
    assert(token_result_view(r) == token_for_reading(user_id, secret@, reading));
    proof {
        if r is Ok {
            let secs = reading.unwrap();
            assert(claims_at(user_id, secs as i64) is Some);
        }
    }
    r
}


/// The token a request presents: the session cookie's value when the request
/// carries the cookie, otherwise the `Authorization` header without its first
/// seven characters (the scheme `Bearer `), otherwise none.
pub open spec fn presented_token(cookie: Option<Seq<char>>, authorization: Option<Seq<char>>) -> Option<Seq<char>> {
    match cookie {
        Some(c) => Some(c),
        None => match authorization {
            Some(h) => Some(h.subrange(7, h.len() as int)),
            None => None,
        },
    }
}

/// The view of an optional string.
pub open spec fn opt_view(s: Option<String>) -> Option<Seq<char>> {
    match s {
        Some(t) => Some(t@),
        None => None,
    }
}

/// The message with which a request without a token is refused.
pub open spec fn missing_token_message() -> Seq<char> {
    "Please provide valid token"@
}

/// The token a request presents, from its session cookie and its
/// `Authorization` header. A header that is read must be ASCII and at least
/// seven characters long.
pub fn extract_token(cookie: Option<String>, authorization: Option<String>) -> (r: Option<String>)
    requires
        cookie is None ==> (authorization matches Some(h) ==> h.is_ascii() && h@.len() >= 7),
    ensures
        opt_view(r) == presented_token(opt_view(cookie), opt_view(authorization)),
{
    match cookie {
        Some(c) => Some(c),
        None => match authorization {
            Some(h) => {
                let s = h.as_str();
                let rest = s.substring_ascii(7, s.unicode_len());
                Some(String::from_str(rest))
            },
            None => None,
        },
    }
}

/// The refusal of a request that presents no token.
#[derive(Debug, Clone, PartialEq, Eq)]
pub struct Unauthorized {
    pub message: String,
}

/// The token to check for a request, or the refusal when it presents none.
pub fn authorize(cookie: Option<String>, authorization: Option<String>) -> (r: Result<String, Unauthorized>)
    requires
        cookie is None ==> (authorization matches Some(h) ==> h.is_ascii() && h@.len() >= 7),
    ensures
        match presented_token(opt_view(cookie), opt_view(authorization)) {
            Some(t) => r matches Ok(s) && s@ == t,
            None => r matches Err(u) && u.message@ == missing_token_message(),
        },
{
    match extract_token(cookie, authorization) {
        Some(t) => Ok(t),
        None => Err(Unauthorized { message: String::from_str("Please provide valid token") }),
    }
}

/// An authenticated request: the user whose session token it presented.
#[derive(Debug, Clone, Copy, PartialEq, Eq)]
pub struct JWTMiddleware {
    pub user_id: u128,
}

impl JWTMiddleware {
    /// The authenticated request of the user named in the token's claims.
    pub fn from_claims(claims: &TokenClaims) -> (m: JWTMiddleware)
        ensures
            m.user_id == claims.user_id,
    {
        JWTMiddleware { user_id: claims.user_id }
    }
}

/// A request that carries the session cookie presents the cookie's value,
/// whatever its `Authorization` header holds.
pub proof fn lemma_cookie_takes_precedence(cookie: Seq<char>, authorization: Option<Seq<char>>)
    ensures
        presented_token(Some(cookie), authorization) == Some(cookie),
{
}

/// A request without the cookie whose `Authorization` header is a
/// seven-character scheme followed by a token presents exactly that token.
pub proof fn lemma_bearer_round_trip(scheme: Seq<char>, token: Seq<char>)
    requires
        scheme.len() == 7,
    ensures
        presented_token(None, Some(scheme + token)) == Some(token),
{
    assert((scheme + token).subrange(7, (scheme + token).len() as int) =~= token);
}

/// A request with neither the cookie nor the header presents no token.
pub proof fn lemma_no_credentials_no_token()
    ensures
        presented_token(None, None) is None,
{
}

/// Every issued token expires one lifetime after it was issued.
pub proof fn lemma_claims_lifetime(user_id: u128, now: i64)
    ensures
        claims_at(user_id, now) matches Some(c) ==> c.exp - c.iat == TOKEN_LIFETIME_SECONDS
            && c.exp > c.iat && c.user_id == user_id,
{
}

/// The name of the cookie that carries the session token.
pub open spec fn session_cookie_name_text() -> Seq<char> {
    "__tk_sess"@
}

/// The session cookie: named `__tk_sess`, for the whole site (path `/`),
/// hidden from scripts, holding `value` for `max_age_seconds`.
pub open spec fn session_cookie_view(value: Seq<char>, max_age_seconds: i64) -> CookieView {
    CookieView {
        name: session_cookie_name_text(),
        value,
        path: "/"@,
        max_age_seconds,
        http_only: true,
    }
}

/// The session cookie holding `value` for `max_age_seconds`.
pub fn session_cookie(value: String, max_age_seconds: i64) -> (c: SessionCookie)
    ensures
        c@ == session_cookie_view(value@, max_age_seconds),
{
    SessionCookie {
        name: String::from_str("__tk_sess"),
        value,
        path: String::from_str("/"),
        max_age_seconds,
        http_only: true,
    }
}

/// The name of the cookie that carries the session token.
pub fn session_cookie_name() -> (name: &'static str)
    ensures
        name@ == session_cookie_name_text(),
{
    "__tk_sess"
}

/// What `jsonwebtoken::decode` gives for `token` with the key of `secret`, the
/// algorithm HS256 and no check of the expiry time: the claims text of a token
/// whose header names HS256, whose signature verifies and whose claims hold a
/// numeric `exp`; none otherwise.
pub uninterp spec fn hs256_claims(token: Seq<char>, secret: Seq<char>) -> Option<Seq<char>>;

/// Trusted: `jsonwebtoken::decode::<Box<serde_json::value::RawValue>>(token,
/// &DecodingKey::from_secret(secret bytes), &v)` with
/// `v = Validation::new(Algorithm::HS256)` and `v.validate_exp = false` (so no
/// clock is read), giving the raw claims text. The result is `hs256_claims`.
/// A token that `encode_hs256` made of library claims decodes to those claims:
/// its header is the default HS256 header, `decode` re-signs the message with
/// the same key and compares, the payload decodes to the claims text, and that
/// text holds a numeric `exp` and no `aud`.
#[verifier::external_body]
fn decode_hs256(token: &str, secret: &str) -> (r: Option<String>)
    ensures
        opt_view(r) == hs256_claims(token@, secret@),
        forall|c: TokenClaims| token@ == #[trigger] hs256_jwt(claims_text(c), secret@)
            ==> opt_view(r) == Some(claims_text(c)),
{
    let mut validation = jsonwebtoken::Validation::new(jsonwebtoken::Algorithm::HS256);
    validation.validate_exp = false;
    jsonwebtoken::decode::<Box<serde_json::value::RawValue>>(
        token,
        &jsonwebtoken::DecodingKey::from_secret(secret.as_bytes()),
        &validation,
    ).ok().map(|data| data.claims.get().to_string())
}

/// The claims whose text is `text`, if there are any.
pub open spec fn claims_of_text(text: Seq<char>) -> Option<TokenClaims> {
    if exists|c: TokenClaims| claims_text(c) == text {
        Some(choose|c: TokenClaims| claims_text(c) == text)
    } else {
        None
    }
}

/// How long after its expiry a token is still accepted, in seconds.
pub const EXPIRY_LEEWAY_SECONDS: usize = 60;

/// The claims, when the clock reading `now` is at most the leeway past their
/// expiry; none otherwise, and none without claims.
pub open spec fn unexpired(claims: Option<TokenClaims>, now: i64) -> Option<TokenClaims> {
    match claims {
        Some(c) => if now <= c.exp + EXPIRY_LEEWAY_SECONDS { Some(c) } else { None },
        None => None,
    }
}

/// Whether two strings hold the same characters.
fn same_text(a: &str, b: &str) -> (r: bool)
    ensures
        r == (a@ == b@),
{
    String::from_str(a) == String::from_str(b)
}

/// The parts of the claims text and where they stand.
proof fn lemma_claims_text_parts(c: TokenClaims)
    ensures
        ({
            let t = claims_text(c);
            let e = decimal(c.exp as nat);
            let i = decimal(c.iat as nat);
            let el = e.len() as int;
            &&& t.len() == 64 + el + i.len()
            &&& e.len() >= 1 && i.len() >= 1
            &&& all_digits(e) && all_digits(i)
            &&& t.subrange(0, 12) == "{\"user_id\":\""@
            &&& t.subrange(12, 48) == uuid_text(c.user_id)
            &&& t.subrange(48, 56) == "\",\"exp\":"@
            &&& t.subrange(56, 56 + el) == e
            &&& t[56 + el] == ','
            &&& t.subrange(56 + el, 63 + el) == ",\"iat\":"@
            &&& t.subrange(63 + el, t.len() - 1) == i
            &&& t.subrange(t.len() - 1, t.len() as int) == "}"@
        }),
{
    reveal_strlit("{\"user_id\":\"");
    reveal_strlit("\",\"exp\":");
    reveal_strlit(",\"iat\":");
    reveal_strlit("}");
    lemma_decimal_digits(c.exp as nat);
    lemma_decimal_digits(c.iat as nat);
    let t = claims_text(c);
    let e = decimal(c.exp as nat);
    let i = decimal(c.iat as nat);
    let el = e.len() as int;
    assert(t.subrange(0, 12) =~= "{\"user_id\":\""@);
    assert(t.subrange(12, 48) =~= uuid_text(c.user_id));
    assert(t.subrange(48, 56) =~= "\",\"exp\":"@);
    assert(t.subrange(56, 56 + el) =~= e);
    assert(t.subrange(56 + el, 63 + el) =~= ",\"iat\":"@);
    assert(t.subrange(63 + el, t.len() - 1) =~= i);
    assert(t.subrange(t.len() - 1, t.len() as int) =~= "}"@);
}

/// The claims whose text, in the form this library issues, is `text`; none
/// when `text` is not of that form. Reading the claims text of an issued
/// token back gives exactly the claims it was issued with.
pub fn parse_claims(text: &str) -> (r: Option<TokenClaims>)
    ensures
        r matches Some(c) ==> claims_text(c) == text@,
        forall|c: TokenClaims| #[trigger] claims_text(c) == text@ ==> r == Some(c),
        r == claims_of_text(text@),
{
    let r = parse_claims_form(text);
    proof {
        if r is Some {
            assert(claims_text(r.unwrap()) == text@);
        }
    }
    r
}

/// The claims of `text`, in the form this library issues.
fn parse_claims_form(text: &str) -> (r: Option<TokenClaims>)
    ensures
        r matches Some(c) ==> claims_text(c) == text@,
        forall|c: TokenClaims| #[trigger] claims_text(c) == text@ ==> r == Some(c),
{
    proof {
        reveal_strlit("{\"user_id\":\"");
        reveal_strlit("\",\"exp\":");
        reveal_strlit(",\"iat\":");
        reveal_strlit("}");
    }
    let ghost t = text@;
    let n = text.unicode_len();
    if n < 66 {
        proof {
            assert forall|c: TokenClaims| #[trigger] claims_text(c) == t implies false by {
                lemma_claims_text_parts(c);
            }
        }
        return None;
    }
    if !same_text(text.substring_char(0, 12), "{\"user_id\":\"") {
        proof {
            assert forall|c: TokenClaims| #[trigger] claims_text(c) == t implies false by {
                lemma_claims_text_parts(c);
            }
        }
        return None;
    }
    let user_id = match parse_uuid_hyphenated(text.substring_char(12, 48)) {
        Some(id) => id,
        None => {
            proof {
                assert forall|c: TokenClaims| #[trigger] claims_text(c) == t implies false by {
                    lemma_claims_text_parts(c);
                }
            }
            return None;
        },
    };
    if !same_text(text.substring_char(48, 56), "\",\"exp\":") {
        proof {
            assert forall|c: TokenClaims| #[trigger] claims_text(c) == t implies false by {
                lemma_claims_text_parts(c);
            }
        }
        return None;
    }
    let mut j: usize = 56;
    while j < n && text.get_char(j) != ','
        invariant
            56 <= j <= n,
            n == t.len(),
            t == text@,
            forall|k: int| 56 <= k < j ==> t[k] != ',',
        decreases n - j,
    {
        j = j + 1;
    }
    proof {
        assert forall|c: TokenClaims| #[trigger] claims_text(c) == t implies j == 56 + decimal(c.exp as nat).len() by {
            lemma_claims_text_parts(c);
            let e = decimal(c.exp as nat);
            let el = e.len() as int;
            if j < 56 + el {
                assert(t.subrange(56, 56 + el)[j - 56] == t[j as int]);
                assert(is_digit(e[j - 56]));
            } else if j > 56 + el {
                assert(t[56 + el] == ',');
            }
        }
    }
    if n - j < 8 {
        proof {
            assert forall|c: TokenClaims| #[trigger] claims_text(c) == t implies false by {
                lemma_claims_text_parts(c);
            }
        }
        return None;
    }
    let exp = match parse_decimal(text.substring_char(56, j)) {
        Some(v) => v,
        None => {
            proof {
                assert forall|c: TokenClaims| #[trigger] claims_text(c) == t implies false by {
                    lemma_claims_text_parts(c);
                }
            }
            return None;
        },
    };
    if !same_text(text.substring_char(j, j + 7), ",\"iat\":") || !same_text(text.substring_char(n - 1, n), "}") {
        proof {
            assert forall|c: TokenClaims| #[trigger] claims_text(c) == t implies false by {
                lemma_claims_text_parts(c);
            }
        }
        return None;
    }
    let iat = match parse_decimal(text.substring_char(j + 7, n - 1)) {
        Some(v) => v,
        None => {
            proof {
                assert forall|c: TokenClaims| #[trigger] claims_text(c) == t implies false by {
                    lemma_claims_text_parts(c);
                }
            }
            return None;
        },
    };
    let claims = TokenClaims { user_id, exp, iat };
    proof {
        assert(t =~= t.subrange(0, 12) + t.subrange(12, 48) + t.subrange(48, 56) + t.subrange(56, j as int)
            + t.subrange(j as int, j + 7) + t.subrange(j + 7, n - 1) + t.subrange(n - 1, n as int));
        assert(claims_text(claims) =~= t);
        assert forall|c: TokenClaims| #[trigger] claims_text(c) == t implies c == claims by {
            lemma_claims_text_parts(c);
            assert(t.subrange(12, 48) == uuid_text(c.user_id));
            assert(t.subrange(56, j as int) == decimal(c.exp as nat));
            assert(t.subrange(j + 7, n - 1) == decimal(c.iat as nat));
        }
    }
    Some(claims)
}

/// The claims text of `token`: present when the token's header names HS256,
/// its signature verifies under `secret` and its claims hold a numeric `exp`.
/// The text of a token issued by this library is the text of its claims.
pub fn verified_claims_text(token: &str, secret: &str) -> (r: Option<String>)
    ensures
        opt_view(r) == hs256_claims(token@, secret@),
        forall|c: TokenClaims| token@ == #[trigger] hs256_jwt(claims_text(c), secret@)
            ==> opt_view(r) == Some(claims_text(c)),
{
    decode_hs256(token, secret)
}

/// The claims read from a token, kept when the clock reading `now` is at most
/// 60 seconds past their expiry.
pub fn check_expiry(claims: Option<TokenClaims>, now: i64) -> (r: Option<TokenClaims>)
    ensures
        r == unexpired(claims, now),
{
    match claims {
        None => None,
        Some(c) => {
            let limit = c.exp as i128 + 60;
            if (now as i128) <= limit {
                Some(c)
            } else {
                None
            }
        },
    }
}

/// The claims read from a token, checked against the current time. A clock
/// reading before the epoch counts as the epoch, and one beyond the range of
/// `i64` as `i64::MAX`.
pub fn check_expiry_now(claims: Option<TokenClaims>) -> (r: Option<TokenClaims>)
    ensures
        r matches Some(c) ==> claims == Some(c)
            && exists|now: i64| now >= 0 && #[trigger] unexpired(claims, now) == Some(c),
        exists|now: i64| now >= 0 && #[trigger] unexpired(claims, now) == r,
{
    let now: i64 = match unix_seconds_now() {
        None => 0,
        Some(secs) => if secs > 9_223_372_036_854_775_807u64 {
            9_223_372_036_854_775_807i64
        } else {
            secs as i64
        },
    };
    let r = check_expiry(claims, now);
    assert(unexpired(claims, now) == r);
    r
}

/// The expiry check keeps claims exactly while the reading is at most the
/// leeway past their expiry, and never gives claims it was not handed.
pub proof fn lemma_expiry_window(c: TokenClaims, now: i64)
    ensures
        (unexpired(Some(c), now) == Some(c)) <==> (now as int) <= (c.exp as int) + 60,
        (unexpired(Some(c), now) is None) <==> (now as int) > (c.exp as int) + 60,
        unexpired(None, now) is None,
{
}

/// Once claims fail the expiry check, they fail it at every later reading.
pub proof fn lemma_expiry_is_final(claims: Option<TokenClaims>, earlier: i64, later: i64)
    requires
        earlier <= later,
        unexpired(claims, earlier) is None,
    ensures
        unexpired(claims, later) is None,
{
}

/// Claims whose expiry plus the leeway reaches `i64::MAX` pass the check at
/// every reading.
pub proof fn lemma_far_expiry_always_kept(c: TokenClaims, now: i64)
    requires
        (c.exp as int) + 60 >= i64::MAX,
    ensures
        unexpired(Some(c), now) == Some(c),
{
}

/// At a clock reading `secs` (whole seconds since the epoch), the token issued
/// carries the user, the issue time `secs` and the expiry one hour later.
pub proof fn lemma_token_carries_the_reading(user_id: u128, secret: Seq<char>, secs: u64)
    requires
        secs <= i64::MAX,
        secs + 3600 <= usize::MAX,
    ensures
        token_for_reading(user_id, secret, Some(secs)) == Ok::<Seq<char>, TokenError>(hs256_jwt(
            claims_text(TokenClaims { user_id, iat: secs as usize, exp: (secs + 3600) as usize }),
            secret,
        )),
{
    assert((secs as i64) as usize == secs as usize);
}

/// The claims of a token issued at one clock reading pass the expiry check at
/// every reading up to one lifetime and the leeway after the issue time.
pub proof fn lemma_issued_claims_unexpired_until_lifetime_ends(user_id: u128, issued_at: i64, now: i64)
    requires
        claims_at(user_id, issued_at) is Some,
        now <= claims_at(user_id, issued_at).unwrap().iat + TOKEN_LIFETIME_SECONDS + EXPIRY_LEEWAY_SECONDS,
    ensures
        unexpired(claims_at(user_id, issued_at), now) == claims_at(user_id, issued_at),
        claims_at(user_id, issued_at).unwrap().user_id == user_id,
{
}

} // verus!
