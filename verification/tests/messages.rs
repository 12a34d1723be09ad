use plingding::message::{fallback_message, watch_message};

#[test]
fn successful_watch_derives_success_message() {
    let m = watch_message("ls -l", true, None);
    assert_eq!(m, "Successfully executed: ls -l");
    assert!(m.starts_with("Successfully executed: ls -l"));
}

#[test]
fn failed_watch_derives_failure_message() {
    let m = watch_message("false", false, None);
    assert_eq!(m, "Failed to execute: false");
    assert!(m.starts_with("Failed to execute: false"));
}

#[test]
fn literal_message_is_appended_after_a_line_break() {
    let m = watch_message("make build", true, Some("all green"));
    assert_eq!(m, "Successfully executed: make build\nall green");
    let m = watch_message("make build", false, Some("see logs"));
    assert_eq!(m, "Failed to execute: make build\nsee logs");
}

#[test]
fn literal_message_passes_through() {
    assert_eq!(fallback_message(Some("hello there".to_string())), "hello there");
}

#[test]
fn missing_message_falls_back_to_the_fixed_default() {
    assert_eq!(fallback_message(None), "Plingding!");
}
