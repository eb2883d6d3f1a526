use app::error::AppError;
use app::init::{chosen_filter, default_directive};

#[test]
fn test_app_error_internal_display() {
    let err = AppError::Internal("something broke".to_owned());
    assert_eq!(
        err.render(),
        "internal error: something broke",
        "error message format must be stable"
    );
}

#[test]
fn render_keeps_an_empty_message() {
    let err = AppError::Internal(String::new());
    assert_eq!(err.render(), "internal error: ");
}

#[test]
fn render_keeps_formatting_sensitive_characters() {
    let err = AppError::Internal("{0} {} %s \"quoted\"\nnext line".to_owned());
    assert_eq!(err.render(), "internal error: {0} {} %s \"quoted\"\nnext line");
}

#[test]
fn code_is_stable() {
    let err = AppError::Internal("x".to_owned());
    assert_eq!(err.code(), "app::internal");
}

#[test]
fn help_is_stable() {
    let err = AppError::Internal("x".to_owned());
    assert_eq!(err.help(), "This is a bug; please file an issue");
}

#[test]
fn run_twice_is_tolerated() {
    assert!(app::run(None).is_ok());
    assert!(app::run(None).is_ok());
}

#[test]
fn default_directive_is_info() {
    assert_eq!(default_directive(), "info");
}

#[test]
fn missing_configuration_defaults_to_info() {
    let filter = chosen_filter(None);
    assert_eq!(filter.to_string(), "info");
}

#[test]
fn valid_configuration_is_used() {
    let filter = chosen_filter(Some("debug".to_owned()));
    assert_eq!(filter.to_string(), "debug");
}

#[test]
fn invalid_configuration_defaults_to_info() {
    let filter = chosen_filter(Some("foo=notalevel".to_owned()));
    assert_eq!(filter.to_string(), "info");
}

#[test]
fn non_ascii_configuration_defaults_to_info() {
    // a directive with leading whitespace and a multi-byte character makes
    // the vendored parser panic; the library must fall back instead
    let filter = chosen_filter(Some(" a\u{e9}=info".to_owned()));
    assert_eq!(filter.to_string(), "info");
}
