use noteauth::errors::AuthError;
use noteauth::token::{
    issue_access, issue_refresh, parse_and_verify_access, parse_and_verify_refresh,
};

const T: i64 = 1_700_000_000;
const ACCESS_SECRET: &str = "access-secret-for-tests";
const REFRESH_SECRET: &str = "refresh-secret-for-tests";

const BASE64URL: &str = "ABCDEFGHIJKLMNOPQRSTUVWXYZabcdefghijklmnopqrstuvwxyz0123456789-_";

/// Replaces the base64url character with the one whose 6-bit value differs in
/// the top bit, so the decoded signature bytes change whatever the position.
fn flip_base64url_char(c: char) -> char {
    let value = BASE64URL
        .find(c)
        .expect("signature segment holds only base64url characters");
    BASE64URL.as_bytes()[value ^ 32] as char
}

#[test]
fn access_round_trip_at_issue_time() {
    let token = issue_access(ACCESS_SECRET, "user-1", T).unwrap();
    let claims = parse_and_verify_access(&token, ACCESS_SECRET, T).unwrap();
    assert_eq!(claims.sub, "user-1");
    assert_eq!(claims.iat, T);
    assert_eq!(claims.exp, T + 3600);
}

#[test]
fn access_valid_one_second_before_expiry() {
    let token = issue_access(ACCESS_SECRET, "user-1", T).unwrap();
    let claims = parse_and_verify_access(&token, ACCESS_SECRET, T + 3599).unwrap();
    assert_eq!(claims.sub, "user-1");
}

#[test]
fn access_rejected_from_expiry_on() {
    let token = issue_access(ACCESS_SECRET, "user-1", T).unwrap();
    assert_eq!(
        parse_and_verify_access(&token, ACCESS_SECRET, T + 3600).unwrap_err(),
        AuthError::InvalidToken
    );
    assert_eq!(
        parse_and_verify_access(&token, ACCESS_SECRET, T + 7200).unwrap_err(),
        AuthError::InvalidToken
    );
}

#[test]
fn access_rejected_under_wrong_secret() {
    let token = issue_access(ACCESS_SECRET, "user-1", T).unwrap();
    assert_eq!(
        parse_and_verify_access(&token, REFRESH_SECRET, T).unwrap_err(),
        AuthError::InvalidToken
    );
}

#[test]
fn malformed_token_rejected() {
    for bad in ["", "not-a-token", "a.b", "a.b.c.d", "only.two"] {
        assert_eq!(
            parse_and_verify_access(bad, ACCESS_SECRET, T).unwrap_err(),
            AuthError::InvalidToken
        );
    }
}

#[test]
fn flipping_any_signature_byte_invalidates() {
    let token = issue_access(ACCESS_SECRET, "user-1", T).unwrap();
    let sig_start = token.rfind('.').unwrap() + 1;
    let sig_len = token.len() - sig_start;
    assert!(sig_len > 0);
    for i in 0..sig_len {
        let mut chars: Vec<char> = token.chars().collect();
        chars[sig_start + i] = flip_base64url_char(chars[sig_start + i]);
        let tampered: String = chars.into_iter().collect();
        assert_eq!(
            parse_and_verify_access(&tampered, ACCESS_SECRET, T).unwrap_err(),
            AuthError::InvalidToken,
            "byte {} of the signature segment survived tampering",
            i
        );
    }
}

#[test]
fn refresh_round_trip() {
    let (token, token_id) = issue_refresh(REFRESH_SECRET, "user-7", T).unwrap();
    let claims = parse_and_verify_refresh(&token, REFRESH_SECRET, T).unwrap();
    assert_eq!(claims.user_id, "user-7");
    assert_eq!(claims.token_id, token_id);
    assert_eq!(claims.expires_at, T + 30 * 86400);
}

#[test]
fn refresh_expiry_boundary() {
    let (token, _) = issue_refresh(REFRESH_SECRET, "user-7", T).unwrap();
    let expiry = T + 30 * 86400;
    assert!(parse_and_verify_refresh(&token, REFRESH_SECRET, expiry).is_ok());
    assert_eq!(
        parse_and_verify_refresh(&token, REFRESH_SECRET, expiry + 1).unwrap_err(),
        AuthError::RefreshTokenExpired
    );
}

#[test]
fn refresh_under_wrong_secret_is_invalid_not_expired() {
    let (token, _) = issue_refresh(ACCESS_SECRET, "user-7", T).unwrap();
    assert_eq!(
        parse_and_verify_refresh(&token, REFRESH_SECRET, T).unwrap_err(),
        AuthError::InvalidToken
    );
}

#[test]
fn token_ids_differ_between_issues() {
    let (_, id_a) = issue_refresh(REFRESH_SECRET, "user-7", T).unwrap();
    let (_, id_b) = issue_refresh(REFRESH_SECRET, "user-7", T).unwrap();
    assert_ne!(id_a, id_b);
    assert_eq!(id_a.len(), 36);
}
