use clings::error::ClingsError;

// ==================== from_stderr ====================

#[test]
fn test_from_stderr_permission_denied_error_code() {
    let err = ClingsError::from_stderr(
        "execution error: Error -1743: Not authorized to send Apple events to Things3.",
    );
    assert!(matches!(err, ClingsError::PermissionDenied));
}

#[test]
fn test_from_stderr_permission_denied_not_authorized() {
    let err =
        ClingsError::from_stderr("System Events got an error: not authorized to perform this action");
    assert!(matches!(err, ClingsError::PermissionDenied));
}

#[test]
fn test_from_stderr_things_not_installed_cant_get() {
    let err = ClingsError::from_stderr("Can't get application \"Things3\". (-1728)");
    assert!(matches!(err, ClingsError::ThingsNotInstalled));
}

#[test]
fn test_from_stderr_things_not_installed_cant_be_found() {
    let err = ClingsError::from_stderr("Application can't be found in the Finder");
    assert!(matches!(err, ClingsError::ThingsNotInstalled));
}

#[test]
fn test_from_stderr_things_not_installed_unable_to_find() {
    let err = ClingsError::from_stderr("osascript: unable to find application Things3");
    assert!(matches!(err, ClingsError::ThingsNotInstalled));
}

#[test]
fn test_from_stderr_things_not_running_isnt_running() {
    let err = ClingsError::from_stderr("Application isn't running. (-600)");
    assert!(matches!(err, ClingsError::ThingsNotRunning));
}

#[test]
fn test_from_stderr_things_not_running_connection_invalid() {
    let err = ClingsError::from_stderr("The connection is invalid.");
    assert!(matches!(err, ClingsError::ThingsNotRunning));
}

#[test]
fn test_from_stderr_things_not_running_is_not_running() {
    let err = ClingsError::from_stderr("Things3 is not running");
    assert!(matches!(err, ClingsError::ThingsNotRunning));
}

#[test]
fn test_from_stderr_cant_get_item_single_line() {
    let err = ClingsError::from_stderr("Can't get todo \"invalid-id\"");
    if let ClingsError::NotFound(msg) = err {
        assert_eq!(msg, "Can't get todo \"invalid-id\"");
    } else {
        panic!("Expected NotFound error");
    }
}

#[test]
fn test_from_stderr_cant_get_item_multiline() {
    let stderr = "execution error: Can't get project \"xyz\". (-1728)\n\
                  at line 5";
    let err = ClingsError::from_stderr(stderr);
    if let ClingsError::NotFound(msg) = err {
        assert!(msg.contains("Can't get project"));
    } else {
        panic!("Expected NotFound error");
    }
}

#[test]
fn from_stderr_takes_the_first_line_that_says_cant_get() {
    assert_eq!(
        ClingsError::from_stderr("warning\r\nfirst: Can't get a\r\nsecond: Can't get b\n"),
        ClingsError::NotFound("first: Can't get a".to_string())
    );
    assert_eq!(
        ClingsError::from_stderr("x\n\nCan't get it\r"),
        ClingsError::NotFound("Can't get it\r".to_string())
    );
    assert_eq!(
        ClingsError::from_stderr("a\rCan't get b\r\r\nc"),
        ClingsError::NotFound("a\rCan't get b\r".to_string())
    );
    assert_eq!(
        ClingsError::from_stderr("\nCan't get"),
        ClingsError::NotFound("Can't get".to_string())
    );
    assert_eq!(
        ClingsError::from_stderr("execution error: Can't get project \"xyz\". (-1728)\nat line 5"),
        ClingsError::NotFound("execution error: Can't get project \"xyz\". (-1728)".to_string())
    );
}

#[test]
fn test_from_stderr_fallback_to_script_error() {
    let err = ClingsError::from_stderr("Some unexpected error occurred");
    if let ClingsError::Script(msg) = err {
        assert_eq!(msg, "Some unexpected error occurred");
    } else {
        panic!("Expected Script error");
    }
}

#[test]
fn test_from_stderr_empty_string() {
    let err = ClingsError::from_stderr("");
    assert!(matches!(err, ClingsError::Script(_)));
}

#[test]
fn from_stderr_is_exact_about_case_and_spelling() {
    assert_eq!(
        ClingsError::from_stderr("NOT AUTHORIZED"),
        ClingsError::Script("NOT AUTHORIZED".to_string())
    );
    assert_eq!(ClingsError::from_stderr("-174"), ClingsError::Script("-174".to_string()));
    assert_eq!(ClingsError::from_stderr("x-17434"), ClingsError::PermissionDenied);
    assert_eq!(
        ClingsError::from_stderr("Can't  get"),
        ClingsError::Script("Can't  get".to_string())
    );
}

// ==================== messages ====================

#[test]
fn test_display_things_not_installed_contains_app_store_url() {
    let err = ClingsError::ThingsNotInstalled;
    let display = err.to_string();
    assert!(display.contains("https://apps.apple.com/app/things-3/id904280696"));
    assert!(display.contains("https://culturedcode.com/things/"));
    assert!(display.contains("Things 3 is not installed"));
}

#[test]
fn display_things_not_installed_is_exact() {
    assert_eq!(
        ClingsError::ThingsNotInstalled.to_string(),
        "Things 3 is not installed.\n\nclings requires Things 3 for Mac to function.\n\nGet Things 3 from:\n\u{2022} Mac App Store: https://apps.apple.com/app/things-3/id904280696\n\u{2022} Cultured Code: https://culturedcode.com/things/"
    );
}

#[test]
fn test_display_things_not_running() {
    let err = ClingsError::ThingsNotRunning;
    let display = err.to_string();
    assert_eq!(display, "Things 3 is not running. Please launch Things 3 and try again.");
}

#[test]
fn test_display_permission_denied_contains_instructions() {
    let err = ClingsError::PermissionDenied;
    let display = err.to_string();
    assert!(display.contains("Automation permission required"));
    assert!(display.contains("System Settings > Privacy & Security > Automation"));
    assert!(display.contains("Enable \"Things 3\""));
    assert!(display
        .contains("x-apple.systempreferences:com.apple.preference.security?Privacy_Automation"));
}

#[test]
fn test_display_not_found() {
    let err = ClingsError::NotFound("todo-123".to_string());
    let display = err.to_string();
    assert_eq!(display, "Item not found: todo-123");
}

#[test]
fn test_display_script() {
    let err = ClingsError::Script("syntax error".to_string());
    let display = err.to_string();
    assert_eq!(display, "Script execution failed: syntax error");
}

#[test]
fn test_display_config() {
    let err = ClingsError::Config("invalid config file".to_string());
    let display = err.to_string();
    assert_eq!(display, "Configuration error: invalid config file");
}

#[test]
fn test_display_database() {
    let err = ClingsError::Database("connection failed".to_string());
    let display = err.to_string();
    assert_eq!(display, "Database error: connection failed");
}

#[test]
fn test_display_filter() {
    let err = ClingsError::Filter("invalid tag filter".to_string());
    let display = err.to_string();
    assert_eq!(display, "Filter error: invalid tag filter");
}

#[test]
fn test_display_bulk_operation() {
    let err = ClingsError::BulkOperation("failed to update 3 items".to_string());
    let display = err.to_string();
    assert_eq!(display, "Bulk operation error: failed to update 3 items");
}

#[test]
fn test_display_not_supported() {
    let err = ClingsError::NotSupported("recurring todos".to_string());
    let display = err.to_string();
    assert_eq!(display, "Feature not supported: recurring todos");
}

#[test]
fn display_of_the_other_errors() {
    assert_eq!(
        ClingsError::Parse("expected value at line 1 column 1".to_string()).to_string(),
        "Failed to parse response: expected value at line 1 column 1"
    );
    assert_eq!(ClingsError::Io("broken pipe".to_string()).to_string(), "IO error: broken pipe");
    assert_eq!(
        ClingsError::InvalidArgument("bad".to_string()).to_string(),
        "Invalid argument: bad"
    );
}

// ==================== the order of the classification ====================

#[test]
fn test_from_stderr_priority_permission_over_others() {
    let err = ClingsError::from_stderr("Error -1743: Can't get application");
    assert!(matches!(err, ClingsError::PermissionDenied));
}

#[test]
fn test_from_stderr_priority_not_installed_over_not_running() {
    let err =
        ClingsError::from_stderr("Can't get application Things3 - Application isn't running");
    assert!(matches!(err, ClingsError::ThingsNotInstalled));
}

#[test]
fn test_from_stderr_priority_not_running_over_cant_get() {
    let err = ClingsError::from_stderr("Application isn't running - Can't get todo");
    assert!(matches!(err, ClingsError::ThingsNotRunning));
}
