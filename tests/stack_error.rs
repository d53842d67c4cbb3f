use stackerror::{ErrorCode, ErrorStacks, StackError};

#[test]
fn test_error_builds_empty() {
    let error = StackError::new();
    assert_eq!(error.render(), "");
}

#[test]
fn test_error_builds_from_msg() {
    let error = StackError::from_msg("Test error");
    assert_eq!(error.render(), "Test error");
}

#[test]
fn test_error_has_err() {
    let error = StackError::new().with_err_msg("Test error");
    assert_eq!(error.render(), "Test error");
}

#[test]
fn test_error_has_code() {
    let error = StackError::new().with_err_code(ErrorCode::RuntimeInvalidValue);
    assert_eq!(error.err_code(), Some(&ErrorCode::RuntimeInvalidValue));
}

#[test]
fn test_error_has_uri() {
    let error = StackError::new().with_err_uri("https://example.com/error".to_string());
    assert_eq!(error.err_uri(), Some("https://example.com/error"));
}

#[test]
fn test_error_stacks() {
    let base_error = StackError::from_msg("Base error")
        .with_err_code(ErrorCode::RuntimeInvalidValue)
        .with_err_uri("https://example.com/base".to_string());
    let stacked_error = base_error.stack_err_msg("Stacked error");
    assert_eq!(stacked_error.render(), "Base error\nStacked error");
    assert_eq!(
        stacked_error.err_code(),
        Some(&ErrorCode::RuntimeInvalidValue)
    );
    assert_eq!(stacked_error.err_uri(), Some("https://example.com/base"));
}

#[test]
fn example_scenario_base_and_stacked() {
    let error = StackError::from_msg("Base error")
        .with_err_code(ErrorCode::IoInvalidInput)
        .with_err_uri("https://x/base".to_string())
        .stack_err_msg("Stacked error");
    assert_eq!(error.render(), "Base error\nStacked error");
    assert_eq!(error.err_code(), Some(&ErrorCode::IoInvalidInput));
    assert_eq!(error.err_uri(), Some("https://x/base"));
}

#[test]
fn stacking_keeps_count_and_order() {
    let mut error = StackError::from_msg("root");
    for msg in ["one", "two", "three"] {
        error = error.stack_err_msg(msg);
    }
    let text = error.render();
    assert_eq!(text, "root\none\ntwo\nthree");
    assert_eq!(text.lines().count(), 4);
}

#[test]
fn stacking_propagates_code_and_uri() {
    let mut error = StackError::from_msg("root")
        .with_err_code(ErrorCode::HttpGone)
        .with_err_uri("https://example.com/gone".to_string());
    for _ in 0u32..5 {
        error = error.stack_err_msg("again").stack_err();
    }
    assert_eq!(error.err_code(), Some(&ErrorCode::HttpGone));
    assert_eq!(error.err_uri(), Some("https://example.com/gone"));
}

#[test]
fn cleared_code_stays_clear_until_set() {
    let error = StackError::from_msg("root")
        .with_err_code(ErrorCode::HttpConflict)
        .with_err_uri("u".to_string())
        .with_no_err_code()
        .stack_err_msg("a")
        .stack_err_msg("b");
    assert_eq!(error.err_code(), None);
    assert_eq!(error.err_uri(), Some("u"));
    let error = error.with_err_code(ErrorCode::HttpLocked).stack_err_msg("c");
    assert_eq!(error.err_code(), Some(&ErrorCode::HttpLocked));
    let error = error.with_no_err_uri();
    assert_eq!(error.err_uri(), None);
}

#[test]
fn stack_without_message_renders_an_empty_line() {
    let error = StackError::from_msg("a").stack_err().stack_err_msg("b");
    assert_eq!(error.render(), "a\n\nb");
    assert_eq!(error.to_string(), "b");
}

#[test]
fn message_can_be_replaced_or_removed() {
    let error = StackError::from_msg("a").stack_err_msg("b").with_err_msg("c");
    assert_eq!(error.render(), "a\nc");
    let error = error.with_no_err_msg();
    assert_eq!(error.render(), "a\n");
    assert_eq!(error.to_string(), "");
}

#[test]
fn source_is_the_previous_node() {
    let root = StackError::from_msg("root");
    assert!(root.source().is_none());
    let error = root.stack_err_msg("top");
    let cause = error.source().unwrap();
    assert_eq!(cause.render(), "root");
    assert!(cause.source().is_none());
}

#[test]
fn result_lifting_passes_success_through() {
    let ok: Result<u32, StackError> = Ok(7);
    let ok = ok
        .with_err_code(ErrorCode::HttpGone)
        .with_err_uri("u".to_string())
        .stack_err_msg("context");
    assert_eq!(ok.err_code(), None);
    assert_eq!(ok.err_uri(), None);
    match ok {
        Ok(v) => assert_eq!(v, 7),
        Err(_) => panic!("a success became a failure"),
    }
}

#[test]
fn result_lifting_acts_on_failure() {
    let failed: Result<u32, StackError> = Err(StackError::from_msg("low"));
    let failed = failed
        .with_err_code(ErrorCode::RuntimeInvalidIndex)
        .stack_err_msg("high");
    assert_eq!(failed.err_code(), Some(&ErrorCode::RuntimeInvalidIndex));
    match failed {
        Ok(_) => panic!("the failure was lost"),
        Err(e) => assert_eq!(e.render(), "low\nhigh"),
    }
}

#[test]
fn cause_keeps_its_own_code_and_uri() {
    let base = StackError::from_msg("base")
        .with_err_code(ErrorCode::HttpGone)
        .with_err_uri("https://e/base".to_string());
    let top = base
        .stack_err_msg("top")
        .with_no_err_code()
        .with_err_uri("https://e/top".to_string())
        .with_err_msg("top two");
    assert_eq!(top.err_code(), None);
    assert_eq!(top.err_uri(), Some("https://e/top"));
    let cause = top.source().unwrap();
    assert_eq!(cause.err_code(), Some(&ErrorCode::HttpGone));
    assert_eq!(cause.err_uri(), Some("https://e/base"));
    assert_eq!(cause.render(), "base");
    assert_eq!(top.render(), "base\ntop two");
}

#[test]
fn default_is_an_empty_error() {
    let error = StackError::default();
    assert_eq!(error.render(), "");
    assert_eq!(error.err_code(), None);
    assert_eq!(error.err_uri(), None);
    assert!(error.source().is_none());
}
