use jira_tui::app::{Action, App, CurrentScreen, WorklogField};
use jira_tui::effects::{
    build_worklog_submission, dismiss_delay_secs, failure_notification, reloads_worklogs,
    success_followup, success_notification, worklog_delete_request, worklog_list_request,
    WorklogOp, WorklogSubmission,
};
use jira_tui::errors::AppError;
use jira_tui::models::{Issue, IssueStatus, Paginated, WorklogEntry};

fn issue(key: &str) -> Issue {
    Issue {
        key: key.to_string(),
        summary: "a summary".to_string(),
        description: None,
        status: IssueStatus::InProgress,
        assignee: None,
        priority: None,
        created_at: 0,
        updated_at: 0,
    }
}

fn entry(id: &str, seconds: u64, comment: Option<&str>) -> WorklogEntry {
    WorklogEntry {
        id: id.to_string(),
        issue_key: "PRJ-1".to_string(),
        time_spent_seconds: seconds,
        comment: comment.map(|c| c.to_string()),
        started_at: 1_431_648_000,
        author: "ana".to_string(),
        created_at: 1_431_648_000,
        updated_at: 1_431_648_000,
    }
}

fn app_with_issue() -> App {
    let mut app = App::new();
    app.update(Action::IssuesLoaded(Paginated::new(vec![issue("PRJ-1")], 1, 0, 20)));
    app
}

#[test]
fn worklog_list_opens_and_loads() {
    let mut app = app_with_issue();
    app.current_screen = CurrentScreen::IssueDetail;
    assert_eq!(worklog_list_request(&app).as_deref(), Some("PRJ-1"));

    app.update(Action::OpenWorklogListModal);
    assert_eq!(app.current_screen, CurrentScreen::WorklogListModal);
    assert_eq!(app.previous_screen, Some(CurrentScreen::IssueDetail));

    app.update(Action::WorklogsLoaded(Paginated::new(
        vec![entry("w1", 3600, None), entry("w2", 5400, Some("pairing"))],
        2,
        0,
        50,
    )));
    assert_eq!(app.worklogs.len(), 2);
    assert_eq!(app.total_worklogs, 2);
    assert_eq!(app.selected_worklog_index, 0);

    app.update(Action::CloseWorklogListModal);
    assert_eq!(app.current_screen, CurrentScreen::IssueDetail);
}

#[test]
fn worklog_list_request_needs_a_selected_issue() {
    let app = App::new();
    assert!(worklog_list_request(&app).is_none());
}

#[test]
fn edit_selection_seeds_editor_from_entry() {
    let mut app = app_with_issue();
    app.current_screen = CurrentScreen::WorklogListModal;
    app.update(Action::WorklogsLoaded(Paginated::new(
        vec![entry("w1", 3600, None), entry("w2", 3720, Some("pairing"))],
        2,
        0,
        50,
    )));
    app.update(Action::SelectNext);
    assert_eq!(app.selected_worklog_index, 1);

    app.update(Action::SelectWorklogForEdit);
    assert_eq!(app.current_screen, CurrentScreen::WorklogModal);
    assert_eq!(app.previous_screen, Some(CurrentScreen::WorklogListModal));
    assert_eq!(app.worklog_being_edited.as_deref(), Some("w2"));
    assert_eq!(app.worklog_time_hours, 1);
    assert_eq!(app.worklog_time_minutes, 2);
    assert_eq!(app.worklog_comment, "pairing");
    assert_eq!(app.worklog_focused_field, WorklogField::Day);
}

#[test]
fn edit_selection_on_empty_list_is_a_no_op() {
    let mut app = app_with_issue();
    app.current_screen = CurrentScreen::WorklogListModal;
    app.update(Action::SelectWorklogForEdit);
    assert_eq!(app.current_screen, CurrentScreen::WorklogListModal);
    assert!(app.worklog_being_edited.is_none());
}

#[test]
fn zero_duration_submission_is_rejected_locally() {
    let mut app = app_with_issue();
    app.current_screen = CurrentScreen::WorklogModal;
    app.worklog_time_hours = 0;
    app.worklog_time_minutes = 0;
    assert!(build_worklog_submission(&app).is_none());
    app.update(Action::SubmitWorklog);
    assert_eq!(app.current_screen, CurrentScreen::WorklogModal);
}

#[test]
fn invalid_calendar_day_is_rejected_locally() {
    let mut app = app_with_issue();
    app.worklog_year = 2024;
    app.worklog_month = 2;
    app.worklog_day = 30;
    app.worklog_hour = 12;
    app.worklog_minute = 0;
    app.worklog_time_hours = 1;
    assert!(build_worklog_submission(&app).is_none());
}

#[test]
fn submission_without_selected_issue_is_rejected() {
    let mut app = App::new();
    app.worklog_time_hours = 1;
    assert!(build_worklog_submission(&app).is_none());
}

#[test]
fn valid_submission_creates_a_worklog() {
    let mut app = app_with_issue();
    app.worklog_year = 2015;
    app.worklog_month = 5;
    app.worklog_day = 15;
    app.worklog_hour = 12;
    app.worklog_minute = 30;
    app.worklog_time_hours = 1;
    app.worklog_time_minutes = 30;
    app.worklog_comment = String::new();
    match build_worklog_submission(&app) {
        Some(WorklogSubmission::Create(w)) => {
            assert_eq!(w.issue_key, "PRJ-1");
            assert_eq!(w.time_spent_seconds, 5400);
            assert!(w.comment.is_none());
        }
        other => panic!("expected a creation, got {:?}", other),
    }
}

#[test]
fn editing_submission_updates_the_entry() {
    let mut app = app_with_issue();
    app.worklog_being_edited = Some("w2".to_string());
    app.worklog_year = 2015;
    app.worklog_month = 5;
    app.worklog_day = 15;
    app.worklog_hour = 8;
    app.worklog_minute = 0;
    app.worklog_time_hours = 0;
    app.worklog_time_minutes = 45;
    app.worklog_comment = "ajuste".to_string();
    match build_worklog_submission(&app) {
        Some(WorklogSubmission::Update(key, id, w)) => {
            assert_eq!(key, "PRJ-1");
            assert_eq!(id, "w2");
            assert_eq!(w.time_spent_seconds, 2700);
            assert_eq!(w.comment.as_deref(), Some("ajuste"));
        }
        other => panic!("expected an update, got {:?}", other),
    }
}

#[test]
fn delete_request_names_issue_and_entry() {
    let mut app = app_with_issue();
    app.update(Action::WorklogsLoaded(Paginated::new(
        vec![entry("w1", 60, None)],
        1,
        0,
        50,
    )));
    let (key, id) = worklog_delete_request(&app).expect("a deletable selection");
    assert_eq!(key, "PRJ-1");
    assert_eq!(id, "w1");
}

#[test]
fn delete_request_needs_both_selections() {
    let app = app_with_issue();
    assert!(worklog_delete_request(&app).is_none());
}

#[test]
fn failed_deletion_notifies_and_dismisses() {
    let mut app = App::new();
    let err = AppError::ApiError("boom".to_string());
    let action = failure_notification(WorklogOp::Delete, &err);
    match &action {
        Action::ShowNotification(title, message, success) => {
            assert_eq!(title.as_str(), "Error");
            assert_eq!(message.as_str(), "Error al eliminar tiempo: Network/API Error: boom");
            assert!(!*success);
        }
        other => panic!("expected a notification, got {:?}", other),
    }
    app.update(action);
    assert_eq!(app.notification_title.as_deref(), Some("Error"));
    assert!(!app.notification_is_success);
    assert_eq!(dismiss_delay_secs(false), 5);

    app.update(Action::HideNotification);
    assert!(app.notification_title.is_none());
    assert!(app.notification_message.is_none());
}

#[test]
fn success_notifications_and_followups() {
    match success_notification(WorklogOp::Add) {
        Action::ShowNotification(title, message, success) => {
            assert_eq!(title.as_str(), "Exito");
            assert_eq!(message.as_str(), "Tiempo registrado correctamente");
            assert!(success);
        }
        other => panic!("expected a notification, got {:?}", other),
    }
    assert_eq!(dismiss_delay_secs(true), 3);
    assert!(matches!(success_followup(WorklogOp::Add), Action::WorklogSubmitted));
    assert!(matches!(success_followup(WorklogOp::Update), Action::WorklogUpdated));
    assert!(matches!(success_followup(WorklogOp::Delete), Action::WorklogDeleted));
    assert!(!reloads_worklogs(WorklogOp::Add));
    assert!(reloads_worklogs(WorklogOp::Update));
    assert!(reloads_worklogs(WorklogOp::Delete));
}

#[test]
fn worklog_updated_returns_to_list_and_clears_edit() {
    let mut app = app_with_issue();
    app.current_screen = CurrentScreen::WorklogModal;
    app.previous_screen = Some(CurrentScreen::WorklogListModal);
    app.worklog_being_edited = Some("w2".to_string());
    app.update(Action::WorklogUpdated);
    assert_eq!(app.current_screen, CurrentScreen::WorklogListModal);
    assert!(app.worklog_being_edited.is_none());
    assert_eq!(app.worklog_time_hours, 0);
}
