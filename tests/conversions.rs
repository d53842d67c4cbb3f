use stackerror::{ErrorCode, ErrorStacks, StackError};
use std::io::ErrorKind;

#[test]
fn test_from_std_io_for_stackerror() {
    let io_err = std::io::Error::from(std::io::ErrorKind::NotFound);
    let err: StackError = io_err.into();
    assert_eq!(err.err_code(), Some(&ErrorCode::IoNotFound));
}

#[test]
fn test_from_http_status_for_stackerror() {
    let status = http::StatusCode::NOT_FOUND;
    let err: StackError = status.into();
    assert_eq!(err.err_code(), Some(&ErrorCode::HttpNotFound));
}

#[test]
fn test_from_reqwest_error_for_stackerror() {
    // Build-time request error (invalid header) -> no HTTP status
    let client = reqwest::Client::builder().build().unwrap();
    let req_err = client
        .get("http://example.com")
        .header("\n", "value")
        .build()
        .unwrap_err();
    let err: StackError = req_err.into();
    assert_eq!(err.err_code(), None);
}

#[test]
fn io_error_keeps_its_text_as_message() {
    let io_err = std::io::Error::new(ErrorKind::PermissionDenied, "no entry");
    let err: StackError = io_err.into();
    assert_eq!(err.render(), "no entry");
    assert_eq!(err.err_code(), Some(&ErrorCode::IoPermissionDenied));
    assert_eq!(err.err_uri(), None);
}

#[test]
fn io_kind_without_code_gives_no_code() {
    let err = StackError::from_io_parts(ErrorKind::IsADirectory, "is a directory");
    assert_eq!(err.err_code(), None);
    assert_eq!(err.render(), "is a directory");
}

#[test]
fn http_status_text_is_the_message() {
    let err: StackError = http::StatusCode::IM_A_TEAPOT.into();
    assert_eq!(err.render(), "418 I'm a teapot");
    assert_eq!(err.err_code(), Some(&ErrorCode::HttpImATeapot));
}

#[test]
fn status_outside_the_table_gives_no_code() {
    let err: StackError = http::StatusCode::OK.into();
    assert_eq!(err.err_code(), None);
    assert_eq!(err.render(), "200 OK");
    let err = StackError::from_status_parts(299, "299 odd");
    assert_eq!(err.err_code(), None);
}

#[test]
fn client_error_with_status_stacks_on_the_status() {
    let err = StackError::from_client_parts(
        Some((503, "503 Service Unavailable".to_string())),
        "request failed",
    );
    assert_eq!(err.render(), "503 Service Unavailable\nrequest failed");
    assert_eq!(err.err_code(), Some(&ErrorCode::HttpServiceUnavailable));
    assert_eq!(err.source().unwrap().render(), "503 Service Unavailable");
}

#[test]
fn client_error_without_status_is_a_root() {
    let err = StackError::from_client_parts(None, "builder error");
    assert_eq!(err.render(), "builder error");
    assert_eq!(err.err_code(), None);
    assert!(err.source().is_none());
}
