use request_tracing::config::{LogLevel, LogType};
use request_tracing::ids::resolve_request_id;
use request_tracing::logline::{completion_log_line, status_to_string};

#[test]
fn render_mode_json_is_recognized() {
    assert_eq!(LogType::from_config("json"), LogType::Json);
}

#[test]
fn render_mode_formatted_is_recognized() {
    assert_eq!(LogType::from_config("formatted"), LogType::Formatted);
}

#[test]
fn render_mode_defaults_to_formatted() {
    assert_eq!(LogType::from_config("xml"), LogType::Formatted);
    assert_eq!(LogType::from_config(""), LogType::Formatted);
    assert_eq!(LogType::from_config("JSON"), LogType::Formatted);
}

#[test]
fn severity_selectors_are_recognized() {
    assert_eq!(LogLevel::from_config("verbose"), LogLevel::Verbose);
    assert_eq!(LogLevel::from_config("critical"), LogLevel::Critical);
    assert_eq!(LogLevel::from_config("normal"), LogLevel::Normal);
}

#[test]
fn severity_defaults_to_normal() {
    assert_eq!(LogLevel::from_config("chatty"), LogLevel::Normal);
    assert_eq!(LogLevel::from_config(""), LogLevel::Normal);
}

#[test]
fn severity_levels_are_ordered_by_verbosity() {
    assert!(LogLevel::Verbose.verbosity() > LogLevel::Normal.verbosity());
    assert!(LogLevel::Normal.verbosity() > LogLevel::Critical.verbosity());
}

#[test]
fn status_renders_as_three_digits() {
    assert_eq!(status_to_string(200), "200");
    assert_eq!(status_to_string(404), "404");
    assert_eq!(status_to_string(500), "500");
    assert_eq!(status_to_string(999), "999");
}

#[test]
fn completion_line_names_id_and_status() {
    let line = completion_log_line("abc-123", 404);
    assert_eq!(line, "Returning request abc-123 with 404");
}

#[test]
fn resolver_keeps_supplied_value() {
    assert_eq!(resolve_request_id(Some("abc-123")), "abc-123");
}

#[test]
fn resolver_generates_for_missing_or_empty() {
    let generated = resolve_request_id(None);
    assert_eq!(generated.len(), 36);
    let replaced = resolve_request_id(Some(""));
    assert_eq!(replaced.len(), 36);
    assert_ne!(generated, replaced);
}

#[test]
fn header_name_is_well_known() {
    assert_eq!(request_tracing::spans::REQUEST_ID_HEADER, "X-Request-Id");
}
