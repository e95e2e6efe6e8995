use reqwest::StatusCode;
use tossinvest_sdk::error::{is_success, read_error_body, ErrorBody, SdkError};

#[test]
fn parses_business_error_envelope() {
    let body = r#"{"error":{"requestId":"01HXYZABCDEFG123456789","code":"order-not-found","message":"주문을 찾을 수 없습니다."}}"#;
    let err = SdkError::from_error_response(StatusCode::NOT_FOUND.as_u16(), body);
    match err {
        SdkError::ApiError {
            status,
            code,
            message,
            request_id,
        } => {
            assert_eq!(status, StatusCode::NOT_FOUND.as_u16());
            assert_eq!(code, "order-not-found");
            assert_eq!(message, "주문을 찾을 수 없습니다.");
            assert_eq!(request_id.as_deref(), Some("01HXYZABCDEFG123456789"));
        }
        other => panic!("expected ApiError, got {other:?}"),
    }
}

#[test]
fn parses_oauth2_error_format() {
    let body = r#"{"error":"invalid_client","error_description":"Client authentication failed."}"#;
    let err = SdkError::from_error_response(StatusCode::UNAUTHORIZED.as_u16(), body);
    match err {
        SdkError::ApiError {
            code,
            message,
            request_id,
            ..
        } => {
            assert_eq!(code, "invalid_client");
            assert_eq!(message, "Client authentication failed.");
            assert!(request_id.is_none());
        }
        other => panic!("expected ApiError, got {other:?}"),
    }
}

#[test]
fn falls_back_on_non_json() {
    let err = SdkError::from_error_response(StatusCode::INTERNAL_SERVER_ERROR.as_u16(), "not json");
    match err {
        SdkError::ApiError { code, message, .. } => {
            assert_eq!(code, "UNKNOWN");
            assert_eq!(message, "not json");
        }
        other => panic!("expected ApiError, got {other:?}"),
    }
}

fn api_fields(err: SdkError) -> (u16, String, String, Option<String>) {
    match err {
        SdkError::ApiError { status, code, message, request_id } => (status, code, message, request_id),
        other => panic!("expected ApiError, got {other:?}"),
    }
}

#[test]
fn envelope_without_code_or_message_uses_defaults() {
    let body = r#"{"error":{"requestId":"req-9"}}"#;
    let (status, code, message, request_id) = api_fields(SdkError::from_error_response(400, body));
    assert_eq!(status, 400);
    assert_eq!(code, "UNKNOWN");
    assert_eq!(message, body);
    assert_eq!(request_id.as_deref(), Some("req-9"));
}

#[test]
fn envelope_with_non_string_code_uses_default() {
    let body = r#"{"error":{"code":42,"message":"bad"}}"#;
    let (_, code, message, request_id) = api_fields(SdkError::from_error_response(400, body));
    assert_eq!(code, "UNKNOWN");
    assert_eq!(message, "bad");
    assert!(request_id.is_none());
}

#[test]
fn oauth2_error_without_description_repeats_code() {
    let body = r#"{"error":"invalid_grant"}"#;
    let (status, code, message, request_id) = api_fields(SdkError::from_error_response(401, body));
    assert_eq!(status, 401);
    assert_eq!(code, "invalid_grant");
    assert_eq!(message, "invalid_grant");
    assert!(request_id.is_none());
}

#[test]
fn json_of_another_form_is_kept_whole() {
    for body in [r#"{"message":"x"}"#, r#"[1,2]"#, r#"{"error":7}"#, r#""error""#] {
        let (_, code, message, request_id) = api_fields(SdkError::from_error_response(500, body));
        assert_eq!(code, "UNKNOWN");
        assert_eq!(message, body);
        assert!(request_id.is_none());
    }
}

#[test]
fn read_error_body_tells_the_forms_apart() {
    match read_error_body(r#"{"error":{"code":"c","message":"m"}}"#) {
        ErrorBody::Envelope { code, message, request_id } => {
            assert_eq!(code.as_deref(), Some("c"));
            assert_eq!(message.as_deref(), Some("m"));
            assert!(request_id.is_none());
        }
        other => panic!("expected envelope, got {other:?}"),
    }
    match read_error_body(r#"{"error":"e","error_description":"d"}"#) {
        ErrorBody::OAuth2 { error, description } => {
            assert_eq!(error, "e");
            assert_eq!(description.as_deref(), Some("d"));
        }
        other => panic!("expected OAuth2 error, got {other:?}"),
    }
    assert!(matches!(read_error_body("<html>"), ErrorBody::Unrecognized));
    assert!(matches!(read_error_body(r#"{"error":null}"#), ErrorBody::Unrecognized));
}

#[test]
fn api_error_from_body_fills_defaults() {
    let body = ErrorBody::Envelope { code: None, message: None, request_id: Some("r".to_string()) };
    let (status, code, message, request_id) =
        api_fields(tossinvest_sdk::error::api_error_from_body(503, "raw", body));
    assert_eq!(status, 503);
    assert_eq!(code, "UNKNOWN");
    assert_eq!(message, "raw");
    assert_eq!(request_id.as_deref(), Some("r"));

    let body = ErrorBody::OAuth2 { error: "invalid_scope".to_string(), description: None };
    let (_, code, message, request_id) =
        api_fields(tossinvest_sdk::error::api_error_from_body(400, "raw", body));
    assert_eq!(code, "invalid_scope");
    assert_eq!(message, "invalid_scope");
    assert!(request_id.is_none());

    let (_, code, message, _) =
        api_fields(tossinvest_sdk::error::api_error_from_body(418, "teapot", ErrorBody::Unrecognized));
    assert_eq!(code, "UNKNOWN");
    assert_eq!(message, "teapot");
}

#[test]
fn success_statuses_are_the_2xx() {
    assert!(is_success(200));
    assert!(is_success(204));
    assert!(is_success(299));
    assert!(!is_success(199));
    assert!(!is_success(300));
    assert!(!is_success(404));
    let (status, code, message, request_id) = api_fields(SdkError::from_error_response(
        404,
        r#"{"error":{"requestId":"req-1","code":"symbol-not-found","message":"종목을 찾을 수 없습니다."}}"#,
    ));
    assert_eq!(status, 404);
    assert_eq!(code, "symbol-not-found");
    assert_eq!(message, "종목을 찾을 수 없습니다.");
    assert_eq!(request_id.as_deref(), Some("req-1"));
}
