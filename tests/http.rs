use shuttle_datadog_logs::http::{
    error_response, ErrorExposure, GREETING, MESSAGE_ERROR_EXPOSURE, STATIC_FILE_ERROR_BODY,
    STATIC_FILE_ERROR_EXPOSURE,
};

#[test]
fn message_errors_expose_cause() {
    let (status, body) = error_response(MESSAGE_ERROR_EXPOSURE, "no rows".to_string(), "fixed");
    assert_eq!(status, 500);
    assert_eq!(body, "no rows");
}

#[test]
fn static_file_errors_withhold_cause() {
    let (status, body) =
        error_response(STATIC_FILE_ERROR_EXPOSURE, "permission denied".to_string(), STATIC_FILE_ERROR_BODY);
    assert_eq!(status, 500);
    assert_eq!(body, "Something went wrong...");
    assert_eq!(STATIC_FILE_ERROR_EXPOSURE, ErrorExposure::Withhold);
}

#[test]
fn greeting_text() {
    assert_eq!(GREETING, "Hello, world!");
}
