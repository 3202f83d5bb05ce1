use newsapi_rs::error::{
    classify_error_response, error_body_from_members, parse_error_response, read_error_body,
    NewsApiErrorResponse, MISSING_MESSAGE, RATE_LIMIT_MESSAGE, UNPARSED_BODY_MESSAGE,
};
use newsapi_rs::{ApiClientError, ApiClientErrorCode, ApiClientErrorResponse};

fn classified(text: &str, status: u16) -> ApiClientErrorResponse {
    match parse_error_response(text, status) {
        ApiClientError::InvalidResponse(e) => e,
        other => panic!("unexpected {:?}", other),
    }
}

#[test]
fn known_code_maps_to_its_kind() {
    let e = classified(r#"{"status":"error","code":"apiKeyInvalid","message":"m"}"#, 400);
    assert_eq!(e.code, ApiClientErrorCode::ApiKeyInvalid);
    assert_eq!(e.message, "m");
    assert_eq!(e.status, "error");
}

#[test]
fn unparseable_body_falls_back_on_status() {
    let e = classified("<html>oops</html>", 429);
    assert_eq!(e.code, ApiClientErrorCode::RateLimited);
    assert_eq!(e.status, "error");
    assert_eq!(e.message, UNPARSED_BODY_MESSAGE);

    let e = classified("<html>oops</html>", 500);
    assert_eq!(e.code, ApiClientErrorCode::UnexpectedError);
}

#[test]
fn unparseable_body_mentioning_rate_limit() {
    let e = classified("slow down: rate limit reached", 503);
    assert_eq!(e.code, ApiClientErrorCode::UnexpectedError);
    assert_eq!(e.message, RATE_LIMIT_MESSAGE);
    let e = classified("too many requests", 429);
    assert_eq!(e.code, ApiClientErrorCode::RateLimited);
    assert_eq!(e.message, RATE_LIMIT_MESSAGE);
}

#[test]
fn every_known_code_is_recognised() {
    let cases = [
        ("apiKeyDisabled", ApiClientErrorCode::ApiKeyDisabled),
        ("apiKeyExhausted", ApiClientErrorCode::ApiKeyExhausted),
        ("apiKeyInvalid", ApiClientErrorCode::ApiKeyInvalid),
        ("apiKeyMissing", ApiClientErrorCode::ApiKeyMissing),
        ("parameterInvalid", ApiClientErrorCode::ParameterInvalid),
        ("parametersMissing", ApiClientErrorCode::ParametersMissing),
        ("rateLimited", ApiClientErrorCode::RateLimited),
        ("sourcesTooMany", ApiClientErrorCode::SourcesTooMany),
        ("sourceDoesNotExist", ApiClientErrorCode::SourceDoesNotExist),
    ];
    for (wire, kind) in cases {
        let body = format!(r#"{{"status":"error","code":"{}","message":"x"}}"#, wire);
        assert_eq!(classified(&body, 400).code, kind);
        assert_eq!(kind.as_str(), wire);
    }
}

#[test]
fn unknown_or_missing_code_falls_back_on_status() {
    let e = classified(r#"{"status":"error","code":"somethingNew"}"#, 429);
    assert_eq!(e.code, ApiClientErrorCode::RateLimited);
    assert_eq!(e.message, MISSING_MESSAGE);
    let e = classified(r#"{"status":"error","code":null,"message":"m","extra":[1,2]}"#, 418);
    assert_eq!(e.code, ApiClientErrorCode::UnexpectedError);
    assert_eq!(e.message, "m");
}

#[test]
fn body_without_string_status_is_unreadable() {
    assert!(read_error_body(r#"{"code":"apiKeyInvalid"}"#).is_none());
    assert!(read_error_body(r#"{"status":1}"#).is_none());
    assert!(read_error_body(r#"{"status":"error","message":5}"#).is_none());
    assert!(read_error_body(r#"[1,2]"#).is_none());
    let body = read_error_body(r#"{"status":"error","message":null}"#).unwrap();
    assert_eq!(body.status, "error");
    assert_eq!(body.code, None);
    assert_eq!(body.message, None);
}

#[test]
fn classification_from_given_body() {
    let body = NewsApiErrorResponse {
        status: "error".to_string(),
        code: Some("sourcesTooMany".to_string()),
        message: None,
    };
    let e = classify_error_response(400, "ignored", Some(body));
    assert_eq!(e.code, ApiClientErrorCode::SourcesTooMany);
    assert_eq!(e.message, "Unknown error");

    let e = classify_error_response(500, "rate limit", None);
    assert_eq!(e.code, ApiClientErrorCode::UnexpectedError);
    assert_eq!(e.message, RATE_LIMIT_MESSAGE);
}

#[test]
fn members_make_an_error_body() {
    let members = vec![
        ("code".to_string(), Some("rateLimited".to_string()), false),
        ("message".to_string(), None, true),
        ("status".to_string(), Some("error".to_string()), false),
    ];
    let body = error_body_from_members(Some(members)).unwrap();
    assert_eq!(body.code.as_deref(), Some("rateLimited"));
    assert_eq!(body.message, None);
    assert!(error_body_from_members(None).is_none());
    let members = vec![("status".to_string(), None, false)];
    assert!(error_body_from_members(Some(members)).is_none());
}

#[test]
fn descriptions_read_like_display() {
    let e = ApiClientError::InvalidRequest("bad".to_string());
    assert_eq!(e.describe(), "Invalid request: bad");
    let e = parse_error_response(r#"{"status":"error","code":"apiKeyMissing","message":"m"}"#, 401);
    assert_eq!(e.describe(), "Invalid response: status=error, code=apiKeyMissing, message=m");
    let bad = reqwest::header::HeaderValue::from_str("a\nb").unwrap_err();
    let e = ApiClientError::from(bad);
    assert_eq!(e.describe(), "Invalid header value: failed to parse header value");
}
