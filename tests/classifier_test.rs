use imgbb::classifier::{
    classify_delete, classify_upload, error_for_code, error_for_object, NO_SPECIFIC_ERROR,
    UNKNOWN_ERROR,
};
use imgbb::{Data, Error, ErrorResponse, Response};

fn data_with(id: &str, url: &str, delete_url: &str) -> Data {
    Data {
        id: Some(id.to_string()),
        title: None,
        url_viewer: None,
        url: Some(url.to_string()),
        display_url: None,
        width: None,
        height: None,
        size: None,
        time: None,
        expiration: None,
        image: None,
        thumb: None,
        medium: None,
        delete_url: Some(delete_url.to_string()),
    }
}

fn error_body(message: Option<&str>, code: Option<u16>, success: Option<bool>) -> Response {
    Response {
        data: None,
        success,
        status: Some(400),
        error: Some(ErrorResponse { message: message.map(|m| m.to_string()), code }),
    }
}

#[test]
fn error_object_wins_over_success_flag() {
    let parsed = error_body(Some("bad key"), Some(100), Some(true));
    let r = classify_upload(200, "{}", Some(parsed));
    assert!(matches!(r, Err(Error::InvalidApiKey)));
}

#[test]
fn error_object_with_other_code_wins_over_success_flag() {
    let parsed = error_body(Some("odd"), Some(310), Some(true));
    match classify_upload(200, "{}", Some(parsed)) {
        Err(Error::ApiError { message, status, code }) => {
            assert_eq!(message, "odd");
            assert_eq!(status, Some(200));
            assert_eq!(code, Some(310));
        }
        other => panic!("unexpected {:?}", other),
    }
}

#[test]
fn code_100_is_invalid_api_key() {
    assert!(matches!(error_for_code(100, "m".to_string(), 400), Error::InvalidApiKey));
}

#[test]
fn code_120_is_invalid_base64() {
    assert!(matches!(error_for_code(120, "m".to_string(), 400), Error::InvalidBase64Data));
}

#[test]
fn code_400_is_invalid_parameters_with_message() {
    match error_for_code(400, "Empty upload source.".to_string(), 400) {
        Error::InvalidParameters(m) => assert_eq!(m, "Empty upload source."),
        other => panic!("unexpected {:?}", other),
    }
}

#[test]
fn code_429_is_rate_limit() {
    assert!(matches!(error_for_code(429, "slow down".to_string(), 429), Error::RateLimitExceeded));
}

#[test]
fn other_code_keeps_code_message_and_status() {
    match error_for_code(310, "Invalid image source".to_string(), 403) {
        Error::ApiError { message, status, code } => {
            assert_eq!(message, "Invalid image source");
            assert_eq!(status, Some(403));
            assert_eq!(code, Some(310));
        }
        other => panic!("unexpected {:?}", other),
    }
}

#[test]
fn error_object_without_code_or_message() {
    let e = error_for_object(ErrorResponse { message: None, code: None }, 502);
    match e {
        Error::ApiError { message, status, code } => {
            assert_eq!(message, UNKNOWN_ERROR);
            assert_eq!(message, "Unknown error");
            assert_eq!(status, Some(502));
            assert_eq!(code, Some(0));
        }
        other => panic!("unexpected {:?}", other),
    }
}

#[test]
fn unparsable_body_with_200_is_empty_success() {
    let r = classify_upload(200, "<html>not json</html>", None).unwrap();
    assert!(r.data.is_none());
    assert!(r.success.is_none());
    assert!(r.status.is_none());
    assert!(r.error.is_none());
}

#[test]
fn unparsable_body_with_error_status_keeps_raw_text() {
    match classify_upload(503, "Service Unavailable", None) {
        Err(Error::ApiError { message, status, code }) => {
            assert_eq!(message, "Service Unavailable");
            assert_eq!(status, Some(503));
            assert_eq!(code, None);
        }
        other => panic!("unexpected {:?}", other),
    }
}

#[test]
fn unparsable_body_status_edges() {
    assert!(classify_upload(299, "x", None).is_ok());
    assert!(classify_upload(300, "x", None).is_err());
    assert!(classify_upload(199, "x", None).is_err());
}

#[test]
fn success_false_without_error_object() {
    let parsed = Response { data: None, success: Some(false), status: Some(200), error: None };
    match classify_upload(200, "{\"success\":false}", Some(parsed)) {
        Err(Error::ApiError { message, status, code }) => {
            assert_eq!(message, NO_SPECIFIC_ERROR);
            assert_eq!(status, Some(200));
            assert_eq!(code, None);
        }
        other => panic!("unexpected {:?}", other),
    }
}

#[test]
fn absent_success_flag_is_success() {
    let parsed = Response {
        data: Some(data_with("x1", "https://i.ibb.co/x1.png", "https://ibb.co/x1/d")),
        success: None,
        status: None,
        error: None,
    };
    let r = classify_upload(200, "{}", Some(parsed)).unwrap();
    assert_eq!(r.data.unwrap().id.as_deref(), Some("x1"));
}

#[test]
fn delete_success_and_failures() {
    let ok = Response { data: None, success: Some(true), status: Some(200), error: None };
    assert!(classify_delete(200, "{}", Some(ok)).is_ok());
    assert!(classify_delete(204, "", None).is_ok());
    match classify_delete(404, "Not Found", None) {
        Err(Error::ApiError { message, status, code }) => {
            assert_eq!(message, "Not Found");
            assert_eq!(status, Some(404));
            assert_eq!(code, None);
        }
        other => panic!("unexpected {:?}", other),
    }
    let parsed = error_body(Some("limit"), Some(429), None);
    assert!(matches!(classify_delete(429, "{}", Some(parsed)), Err(Error::RateLimitExceeded)));
}
