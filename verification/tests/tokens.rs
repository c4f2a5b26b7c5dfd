use patidar_auth::auth::jwt::{
    authorize, claims_json, extract_token, generate_token, generate_token_at, session_cookie,
    session_cookie_name, token_claims, JWTMiddleware, TokenClaims, TokenError,
    TOKEN_LIFETIME_SECONDS,
};
use patidar_auth::text::append_decimal;

const USER: u128 = 0x67e5_5044_10b1_426f_9247_bb68_0e5f_e0c8;

fn decode_claims(token: &str, secret: &str, check_exp: bool) -> Option<serde_json::Value> {
    let mut validation = jsonwebtoken::Validation::new(jsonwebtoken::Algorithm::HS256);
    validation.validate_exp = check_exp;
    jsonwebtoken::decode::<serde_json::Value>(
        token,
        &jsonwebtoken::DecodingKey::from_secret(secret.as_bytes()),
        &validation,
    )
    .ok()
    .map(|data| data.claims)
}

#[test]
fn decimal_numerals() {
    for n in [0usize, 7, 10, 99, 100, 1_700_000_000, usize::MAX] {
        let mut s = String::new();
        append_decimal(&mut s, n);
        assert_eq!(s, n.to_string());
    }
    let mut s = String::from("n=");
    append_decimal(&mut s, 405);
    assert_eq!(s, "n=405");
}

#[test]
fn claims_are_issued_for_one_hour() {
    let c = token_claims(USER, 1_700_000_000).unwrap();
    assert_eq!(c, TokenClaims { user_id: USER, exp: 1_700_003_600, iat: 1_700_000_000 });
    assert_eq!(c.exp - c.iat, TOKEN_LIFETIME_SECONDS);
}

#[test]
fn claims_follow_the_as_cast_of_the_clock() {
    // A reading just before the epoch wraps to the top of usize and overflows.
    assert_eq!(token_claims(USER, -1), None);
    assert_eq!(token_claims(USER, -3600), None);
    // A reading far before the epoch wraps without overflowing.
    let c = token_claims(USER, -7200).unwrap();
    assert_eq!(c.iat, (-7200i64) as usize);
    assert_eq!(c.exp, c.iat + 3600);
}

#[test]
fn claims_json_text() {
    let c = TokenClaims { user_id: USER, exp: 1_700_003_600, iat: 1_700_000_000 };
    assert_eq!(
        claims_json(&c),
        "{\"user_id\":\"67e55044-10b1-426f-9247-bb680e5fe0c8\",\"exp\":1700003600,\"iat\":1700000000}"
    );
    let zero = TokenClaims { user_id: 0, exp: 0, iat: 0 };
    assert_eq!(
        claims_json(&zero),
        "{\"user_id\":\"00000000-0000-0000-0000-000000000000\",\"exp\":0,\"iat\":0}"
    );
}

#[test]
fn token_at_a_given_time_carries_the_claims() {
    let token = generate_token_at(USER, "s3cr3t", 1_700_000_000).unwrap();
    assert!(token.starts_with("eyJ0eXAiOiJKV1QiLCJhbGciOiJIUzI1NiJ9."));
    let claims = decode_claims(&token, "s3cr3t", false).unwrap();
    let expected: serde_json::Value = serde_json::from_str(
        "{\"user_id\":\"67e55044-10b1-426f-9247-bb680e5fe0c8\",\"exp\":1700003600,\"iat\":1700000000}",
    )
    .unwrap();
    assert_eq!(claims, expected);
    assert!(decode_claims(&token, "another", false).is_none());
    // The same inputs give the same token.
    assert_eq!(generate_token_at(USER, "s3cr3t", 1_700_000_000).unwrap(), token);
}

#[test]
fn token_at_an_unrepresentable_time_is_refused() {
    assert_eq!(generate_token_at(USER, "s3cr3t", -1), Err(TokenError::ClockOutOfRange));
}

#[test]
fn fresh_token_is_valid_now() {
    let token = generate_token(USER, "s3cr3t").unwrap();
    let claims = decode_claims(&token, "s3cr3t", true).unwrap();
    assert_eq!(claims["user_id"], "67e55044-10b1-426f-9247-bb680e5fe0c8");
    let exp = claims["exp"].as_u64().unwrap();
    let iat = claims["iat"].as_u64().unwrap();
    assert_eq!(exp - iat, 3600);
}

#[test]
fn top_level_generate_token() {
    let token = patidar_auth::jwt::generate_token(USER, "k").unwrap();
    assert!(decode_claims(&token, "k", true).is_some());
}

#[test]
fn cookie_takes_precedence_over_header() {
    let t = extract_token(Some("from-cookie".to_string()), Some("Bearer from-header".to_string()));
    assert_eq!(t, Some("from-cookie".to_string()));
}

#[test]
fn bearer_header_is_stripped_of_its_scheme() {
    assert_eq!(extract_token(None, Some("Bearer abc.def.ghi".to_string())), Some("abc.def.ghi".to_string()));
    // Exactly seven characters are dropped, whatever they are.
    assert_eq!(extract_token(None, Some("Token  xyz".to_string())), Some("xyz".to_string()));
    assert_eq!(extract_token(None, Some("Bearer ".to_string())), Some(String::new()));
}

#[test]
fn no_credentials_no_token() {
    assert_eq!(extract_token(None, None), None);
    let refused = authorize(None, None).unwrap_err();
    assert_eq!(refused.message, "Please provide valid token");
    assert_eq!(authorize(Some("t".to_string()), None).unwrap(), "t");
}

#[test]
fn middleware_takes_the_user_of_the_claims() {
    let c = TokenClaims { user_id: 42, exp: 2, iat: 1 };
    assert_eq!(JWTMiddleware::from_claims(&c), JWTMiddleware { user_id: 42 });
}

#[test]
fn session_cookie_attributes() {
    let c = session_cookie("tok".to_string(), 3600);
    assert_eq!(c.name, "__tk_sess");
    assert_eq!(c.value, "tok");
    assert_eq!(c.path, "/");
    assert_eq!(c.max_age_seconds, 3600);
    assert!(c.http_only);
    assert_eq!(session_cookie_name(), "__tk_sess");
}

use patidar_auth::auth::jwt::{check_expiry, check_expiry_now, parse_claims, verified_claims_text};
use patidar_auth::text::{parse_decimal, parse_uuid_hyphenated};

#[test]
fn decimal_parsing() {
    assert_eq!(parse_decimal("0"), Some(0));
    assert_eq!(parse_decimal("1700003600"), Some(1_700_003_600));
    assert_eq!(parse_decimal(&usize::MAX.to_string()), Some(usize::MAX));
    assert_eq!(parse_decimal(""), None);
    assert_eq!(parse_decimal("007"), None);
    assert_eq!(parse_decimal("-1"), None);
    assert_eq!(parse_decimal("12a"), None);
    assert_eq!(parse_decimal("18446744073709551616"), None);
}

#[test]
fn uuid_parsing() {
    assert_eq!(parse_uuid_hyphenated("67e55044-10b1-426f-9247-bb680e5fe0c8"), Some(USER));
    assert_eq!(parse_uuid_hyphenated("67E55044-10B1-426F-9247-BB680E5FE0C8"), None);
    assert_eq!(parse_uuid_hyphenated("67e5504410b1426f9247bb680e5fe0c8"), None);
    assert_eq!(parse_uuid_hyphenated("not a uuid"), None);
}

#[test]
fn claims_parse_back() {
    let c = TokenClaims { user_id: USER, exp: 1_700_003_600, iat: 1_700_000_000 };
    assert_eq!(parse_claims(&claims_json(&c)), Some(c));
    let zero = TokenClaims { user_id: 0, exp: 0, iat: 0 };
    assert_eq!(parse_claims(&claims_json(&zero)), Some(zero));
    // Other JSON forms of the same claims are not the issued form.
    assert_eq!(
        parse_claims("{\"exp\":1700003600,\"user_id\":\"67e55044-10b1-426f-9247-bb680e5fe0c8\",\"iat\":1700000000}"),
        None
    );
    assert_eq!(
        parse_claims("{\"user_id\":\"67e55044-10b1-426f-9247-bb680e5fe0c8\", \"exp\":1700003600,\"iat\":1700000000}"),
        None
    );
    assert_eq!(parse_claims(""), None);
}

#[test]
fn issued_token_verifies_to_its_claims_text() {
    let token = generate_token_at(USER, "s3cr3t", 1_700_000_000).unwrap();
    let expected = TokenClaims { user_id: USER, exp: 1_700_003_600, iat: 1_700_000_000 };
    assert_eq!(verified_claims_text(&token, "s3cr3t"), Some(claims_json(&expected)));
    assert_eq!(verified_claims_text(&token, "wrong"), None);
    assert_eq!(verified_claims_text("garbage", "s3cr3t"), None);
}

#[test]
fn claims_text_of_another_form_is_returned_as_signed() {
    let text = "{\"exp\":3600,\"iat\":0,\"user_id\":\"00000000-0000-0000-0000-000000000000\",\"role\":\"admin\"}";
    let claims: serde_json::Value = serde_json::from_str(text).unwrap();
    let token = jsonwebtoken::encode(
        &jsonwebtoken::Header::default(),
        &claims,
        &jsonwebtoken::EncodingKey::from_secret(b"s3cr3t"),
    )
    .unwrap();
    let got = verified_claims_text(&token, "s3cr3t").unwrap();
    let back: serde_json::Value = serde_json::from_str(&got).unwrap();
    assert_eq!(back, claims);
}

#[test]
fn expiry_check_has_a_minute_of_leeway() {
    let c = TokenClaims { user_id: USER, exp: 1_700_003_600, iat: 1_700_000_000 };
    assert_eq!(check_expiry(Some(c), 1_700_000_000), Some(c));
    assert_eq!(check_expiry(Some(c), 1_700_003_660), Some(c));
    assert_eq!(check_expiry(Some(c), 1_700_003_661), None);
    assert_eq!(check_expiry(Some(c), i64::MIN), Some(c));
    assert_eq!(check_expiry(None, 0), None);
}

#[test]
fn fresh_claims_pass_the_expiry_check_now() {
    let token = generate_token(USER, "s3cr3t").unwrap();
    let text = verified_claims_text(&token, "s3cr3t").unwrap();
    let c = parse_claims(&text).unwrap();
    assert_eq!(c.user_id, USER);
    assert_eq!(check_expiry_now(Some(c)), Some(c));
    let old = TokenClaims { user_id: USER, exp: 1000, iat: 0 };
    assert_eq!(check_expiry_now(Some(old)), None);
}
