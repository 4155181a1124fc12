use osu_favorites::auth::{parse_token_response, token_from_member, token_url, AuthError};

#[test]
fn token_endpoint_is_fixed() {
    assert_eq!(token_url(), "https://osu.ppy.sh/oauth/token");
}

#[test]
fn fetch_token_returns_access_token_member() {
    let body = b"{\"access_token\":\"abc123\"}";
    assert_eq!(parse_token_response(body), Ok(String::from("abc123")));
}

#[test]
fn fetch_token_ignores_other_members() {
    let body = b"{\"token_type\":\"Bearer\",\"expires_in\":86400,\"access_token\":\"xyz\"}";
    assert_eq!(parse_token_response(body), Ok(String::from("xyz")));
}

#[test]
fn fetch_token_rejects_non_json_body() {
    let body = b"this is not json";
    assert_eq!(parse_token_response(body), Err(AuthError::BadTokenResponse));
}

#[test]
fn fetch_token_rejects_missing_member() {
    let body = b"{\"token_type\":\"Bearer\"}";
    assert_eq!(parse_token_response(body), Err(AuthError::BadTokenResponse));
}

#[test]
fn fetch_token_rejects_non_string_member() {
    let body = b"{\"access_token\":42}";
    assert_eq!(parse_token_response(body), Err(AuthError::BadTokenResponse));
}

#[test]
fn fetch_token_rejects_empty_body() {
    let body = b"";
    assert_eq!(parse_token_response(body), Err(AuthError::BadTokenResponse));
}

#[test]
fn token_member_present_is_ok() {
    let r = token_from_member(Some(String::from("tok")));
    assert_eq!(r, Ok(String::from("tok")));
}

#[test]
fn token_member_absent_is_error() {
    let r = token_from_member(None);
    assert_eq!(r, Err(AuthError::BadTokenResponse));
}
