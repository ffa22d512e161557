use blog::security::{hash_password, verify_password, JwtService, TokenFields};

fn now_secs() -> i64 {
    std::time::SystemTime::now()
        .duration_since(std::time::UNIX_EPOCH)
        .unwrap()
        .as_secs() as i64
}

#[test]
fn issued_token_expires_a_day_after_its_time() {
    let jwt = JwtService::new("secret");
    let now = now_secs();
    let token = jwt.issue_token_at(now, 0x0123456789abcdef0123456789abcdef, "alice");
    let claims = jwt.verify_token(&token).unwrap();
    assert_eq!(claims.sub, "01234567-89ab-cdef-0123-456789abcdef");
    assert_eq!(claims.username, "alice");
    assert_eq!(claims.exp, (now + 86400) as u64);
}

#[test]
fn token_issued_long_ago_is_refused() {
    let jwt = JwtService::new("secret");
    let token = jwt.issue_token_at(now_secs() - 2 * 86400, 7, "bob");
    assert!(jwt.verify_token(&token).is_err());
}

#[test]
fn token_with_another_secret_is_refused() {
    let token = JwtService::new("one").issue_token_at(now_secs(), 7, "bob");
    assert!(JwtService::new("two").verify_token(&token).is_err());
}

#[test]
fn claims_need_all_three_fields() {
    let full = TokenFields { sub: Some("s".to_string()), username: Some("u".to_string()), exp: Some(5) };
    let c = JwtService::claims_from_fields(full).unwrap();
    assert_eq!((c.sub.as_str(), c.username.as_str(), c.exp), ("s", "u", 5));
    let missing = TokenFields { sub: Some("s".to_string()), username: None, exp: Some(5) };
    assert_eq!(
        JwtService::claims_from_fields(missing).unwrap_err(),
        "JSON error: the claims sub, username and exp are required"
    );
}

#[test]
fn expiry_is_checked_with_a_minute_of_leeway() {
    let fields = |exp| TokenFields { sub: Some("s".to_string()), username: Some("u".to_string()), exp: Some(exp) };
    assert!(JwtService::claims_at(fields(1000), 1060).is_ok());
    assert_eq!(JwtService::claims_at(fields(1000), 1061).unwrap_err(), "ExpiredSignature");
    assert!(JwtService::claims_at(fields(0), 60).is_ok());
    assert!(JwtService::claims_at(fields(0), -5).is_ok());
    let missing = TokenFields { sub: None, username: Some("u".to_string()), exp: Some(5) };
    assert_eq!(
        JwtService::claims_at(missing, 0).unwrap_err(),
        "JSON error: the claims sub, username and exp are required"
    );
}

#[test]
fn token_claims_are_written_in_declaration_order() {
    let token = JwtService::new("secret").issue_token_at(0, 1, "ann");
    let payload = token.split('.').nth(1).unwrap();
    // {"sub":"0000  base64url-encoded begins with eyJzdWIiOi
    assert!(payload.starts_with("eyJzdWIiOi"));
}

#[test]
fn hashing_an_ordinary_password_succeeds() {
    let h = hash_password("").unwrap();
    assert!(h.starts_with("$argon2id$"));
    assert_eq!(verify_password("", &h), Ok(true));
    assert_eq!(verify_password("x", &h), Ok(false));
}

#[test]
fn issued_token_verifies_until_a_minute_after_expiry() {
    let jwt = JwtService::new("secret");
    let token = jwt.issue_token_at(1_000, 5, "ann");
    let c = jwt.verify_token_at(&token, 1_000 + 86_400 + 60).unwrap();
    assert_eq!((c.sub.as_str(), c.username.as_str(), c.exp), ("00000000-0000-0000-0000-000000000005", "ann", 87_400));
    assert!(jwt.verify_token_at(&token, 0).is_ok());
    assert_eq!(jwt.verify_token_at(&token, 1_000 + 86_400 + 61).unwrap_err(), "ExpiredSignature");
    assert!(JwtService::new("other").verify_token_at(&token, 1_000).is_err());
}

#[test]
fn checked_issue_refuses_an_expiry_past_the_last_date() {
    let jwt = JwtService::new("secret");
    let t = jwt.issue_token_checked_at(1_000, 5, "ann").unwrap();
    assert_eq!(t, jwt.issue_token_at(1_000, 5, "ann"));
    assert!(jwt.issue_token_checked_at(8_210_266_876_799 - 86_400, 5, "ann").is_ok());
    assert_eq!(
        jwt.issue_token_checked_at(8_210_266_876_799 - 86_399, 5, "ann").unwrap_err(),
        "expiry out of the range of dates"
    );
}
