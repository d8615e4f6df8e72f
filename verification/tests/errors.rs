use sidecar_supervisor::error::{ErrorCategory, SupervisorError};

#[test]
fn missing_binary_message_quotes_the_path() {
    let error = SupervisorError::BinaryNotFound("bin/main".to_string());
    assert_eq!(error.message(), "Sidecar binary not found at \"bin/main\"");
}

#[test]
fn missing_binary_message_escapes_the_path() {
    let error = SupervisorError::BinaryNotFound("a\tb".to_string());
    assert_eq!(error.message(), "Sidecar binary not found at \"a\\tb\"");
}

#[test]
fn spawn_message_carries_the_cause() {
    let error = SupervisorError::Spawn("No such file or directory (os error 2)".to_string());
    assert_eq!(
        error.message(),
        "Failed to start sidecar: No such file or directory (os error 2)"
    );
    assert_eq!(error.category(), ErrorCategory::Spawn);
}

#[test]
fn warning_wraps_the_message() {
    let error = SupervisorError::Spawn("Permission denied (os error 13)".to_string());
    assert_eq!(
        error.warning(),
        "Warning: Failed to start sidecar: Failed to start sidecar: Permission denied (os error 13)"
    );
}

#[test]
fn warning_contains_the_cause_of_a_failed_spawn() {
    let cause = "Resource temporarily unavailable (os error 11)";
    let warning = SupervisorError::Spawn(cause.to_string()).warning();
    assert!(warning.contains(cause));
    assert!(warning.ends_with(cause));
}

#[test]
fn warning_for_a_missing_parent() {
    assert_eq!(
        SupervisorError::NoParentDirectory.warning(),
        "Warning: Failed to start sidecar: Failed to get parent directory"
    );
}

#[test]
fn empty_cause_leaves_only_the_prefix() {
    let error = SupervisorError::ExecutableLookup(String::new());
    assert_eq!(error.message(), "Failed to get app dir: ");
}

#[test]
fn the_four_failures_have_distinct_messages() {
    let messages = vec![
        SupervisorError::ExecutableLookup("x".to_string()).message(),
        SupervisorError::NoParentDirectory.message(),
        SupervisorError::BinaryNotFound("x".to_string()).message(),
        SupervisorError::Spawn("x".to_string()).message(),
    ];
    for i in 0..messages.len() {
        for j in 0..messages.len() {
            if i != j {
                assert_ne!(messages[i], messages[j]);
            }
        }
    }
}
