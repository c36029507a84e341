use jira_tui::errors::{classify_status, AppError};
use jira_tui::text::{format_time_spent, u64_text};

#[test]
fn counters_render_in_decimal() {
    assert_eq!(u64_text(0), "0");
    assert_eq!(u64_text(7), "7");
    assert_eq!(u64_text(10), "10");
    assert_eq!(u64_text(12345), "12345");
    assert_eq!(u64_text(u64::MAX), "18446744073709551615");
}

#[test]
fn durations_under_a_minute_floor_to_one_minute() {
    assert_eq!(format_time_spent(0), "1m");
    assert_eq!(format_time_spent(59), "1m");
}

#[test]
fn durations_format_hours_and_minutes() {
    assert_eq!(format_time_spent(60), "1m");
    assert_eq!(format_time_spent(120), "2m");
    assert_eq!(format_time_spent(3600), "1h");
    assert_eq!(format_time_spent(5400), "1h 30m");
    assert_eq!(format_time_spent(7260), "2h 1m");
    assert_eq!(format_time_spent(360000), "100h");
}

#[test]
fn error_display_text_names_each_failure() {
    assert_eq!(
        AppError::ConfigError("JIRA_BASE_URL not set".to_string()).display_text(),
        "Configuration Error: JIRA_BASE_URL not set"
    );
    assert_eq!(
        AppError::ApiError("timeout".to_string()).display_text(),
        "Network/API Error: timeout"
    );
    assert_eq!(
        AppError::NotFound("Board 7 not found".to_string()).display_text(),
        "Resource not found: Board 7 not found"
    );
    assert_eq!(
        AppError::Unauthorized.display_text(),
        "Unauthorized operation. Check credentials."
    );
    assert_eq!(
        AppError::IOError("broken pipe".to_string()).display_text(),
        "Input/Output Error: broken pipe"
    );
    assert_eq!(
        AppError::Unknown("odd".to_string()).display_text(),
        "Unknown Internal Error: odd"
    );
}

#[test]
fn accepted_status_codes_classify_as_success() {
    assert!(classify_status(200, None, "Board 7".to_string(), "Error: ", "200 OK").is_ok());
    assert!(classify_status(201, Some(201), "Issue PRJ-1".to_string(), "x: ", "201 Created").is_ok());
    assert!(classify_status(204, Some(204), "Worklog w1".to_string(), "x: ", "204 No Content").is_ok());
    assert!(classify_status(201, None, "Board 7".to_string(), "Error: ", "201 Created").is_err());
}

#[test]
fn rejected_credentials_classify_as_unauthorized() {
    let r = classify_status(401, Some(204), "Worklog w1".to_string(), "x: ", "401 Unauthorized");
    assert!(matches!(r, Err(AppError::Unauthorized)));
}

#[test]
fn missing_resources_are_named() {
    let r = classify_status(404, None, "Board 7".to_string(), "Jira API Error: ", "404 Not Found");
    match r {
        Err(AppError::NotFound(m)) => assert_eq!(m, "Board 7 not found"),
        other => panic!("expected a missing resource, got {:?}", other),
    }
}

#[test]
fn other_statuses_name_the_operation_and_status() {
    let r = classify_status(
        500,
        Some(201),
        "Issue PRJ-1".to_string(),
        "Failed to add worklog: ",
        "500 Internal Server Error",
    );
    match r {
        Err(AppError::ApiError(m)) => {
            assert_eq!(m, "Failed to add worklog: 500 Internal Server Error")
        }
        other => panic!("expected a transport failure, got {:?}", other),
    }
}
