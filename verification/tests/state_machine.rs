use jira_tui::app::{Action, App, CurrentScreen, FilterField, WorklogField};
use jira_tui::models::{
    AssigneeFilter, Board, Issue, IssueStatus, OrderByFilter, Paginated, StatusFilter,
};

fn board(id: u64, name: &str) -> Board {
    Board {
        id,
        name: name.to_string(),
        project_key: "PRJ".to_string(),
        board_type: "scrum".to_string(),
    }
}

fn issue(key: &str) -> Issue {
    Issue {
        key: key.to_string(),
        summary: format!("summary of {}", key),
        description: None,
        status: IssueStatus::Todo,
        assignee: None,
        priority: None,
        created_at: 1_431_648_000,
        updated_at: 1_431_648_000,
    }
}

fn issues(n: usize, offset: usize) -> Vec<Issue> {
    (0..n).map(|i| issue(&format!("PRJ-{}", offset + i + 1))).collect()
}

#[test]
fn boards_loaded_resets_selection_and_loading() {
    let mut app = App::new();
    let first: Vec<Board> = (1..=6).map(|i| board(i, "stale")).collect();
    app.update(Action::BoardsLoaded(first));
    app.selected_board_index = 5;
    app.is_loading = true;
    app.update(Action::BoardsLoaded(vec![board(1, "one"), board(2, "two")]));
    assert_eq!(app.selected_board_index, 0);
    assert!(!app.is_loading);
    assert_eq!(app.current_screen, CurrentScreen::BoardsList);
    assert_eq!(app.boards.len(), 2);
}

#[test]
fn load_issues_then_first_page() {
    let mut app = App::new();
    app.update(Action::LoadIssues(7));
    assert!(app.issues.is_empty());
    assert!(app.is_loading);
    assert_eq!(app.current_screen, CurrentScreen::Backlog);
    assert_eq!(app.current_board_id, Some(7));
    assert_eq!(app.total_issues, 0);

    app.update(Action::IssuesLoaded(Paginated::new(issues(20, 0), 45, 0, 20)));
    assert_eq!(app.issues.len(), 20);
    assert_eq!(app.total_issues, 45);
    assert!(!app.is_loading);
    assert_eq!(app.selected_issue_index, 0);
}

#[test]
fn fresh_page_replaces_and_resets_selection() {
    let mut app = App::new();
    app.update(Action::IssuesLoaded(Paginated::new(issues(10, 0), 30, 0, 20)));
    app.selected_issue_index = 6;
    app.update(Action::IssuesLoaded(Paginated::new(issues(3, 50), 3, 0, 20)));
    assert_eq!(app.issues.len(), 3);
    assert_eq!(app.issues[0].key, "PRJ-51");
    assert_eq!(app.selected_issue_index, 0);
    assert_eq!(app.total_issues, 3);
}

#[test]
fn continuation_page_appends_and_keeps_selection() {
    let mut app = App::new();
    app.update(Action::IssuesLoaded(Paginated::new(issues(20, 0), 45, 0, 20)));
    app.selected_issue_index = 18;
    app.update(Action::IssuesLoaded(Paginated::new(issues(20, 20), 45, 20, 20)));
    assert_eq!(app.issues.len(), 40);
    assert_eq!(app.issues[20].key, "PRJ-21");
    assert_eq!(app.selected_issue_index, 18);
}

#[test]
fn hide_notification_twice_equals_once() {
    let mut app = App::new();
    app.update(Action::ShowNotification(
        "Exito".to_string(),
        "ok".to_string(),
        true,
    ));
    assert_eq!(app.notification_title.as_deref(), Some("Exito"));
    app.update(Action::HideNotification);
    let title_once = app.notification_title.clone();
    let message_once = app.notification_message.clone();
    let success_once = app.notification_is_success;
    app.update(Action::HideNotification);
    assert_eq!(app.notification_title, title_once);
    assert_eq!(app.notification_message, message_once);
    assert_eq!(app.notification_is_success, success_once);
    assert!(app.notification_title.is_none());
    assert!(app.notification_message.is_none());
}

#[test]
fn select_next_on_empty_backlog_stays_at_zero() {
    let mut app = App::new();
    app.current_screen = CurrentScreen::Backlog;
    app.update(Action::SelectNext);
    assert_eq!(app.selected_issue_index, 0);
    app.update(Action::SelectPrevious);
    assert_eq!(app.selected_issue_index, 0);
}

#[test]
fn select_next_clamps_at_end_of_list() {
    let mut app = App::new();
    app.update(Action::BoardsLoaded(vec![board(1, "one"), board(2, "two")]));
    app.update(Action::SelectNext);
    assert_eq!(app.selected_board_index, 1);
    app.update(Action::SelectNext);
    assert_eq!(app.selected_board_index, 1);
    app.update(Action::SelectPrevious);
    assert_eq!(app.selected_board_index, 0);
    app.update(Action::SelectPrevious);
    assert_eq!(app.selected_board_index, 0);
}

#[test]
fn detail_scroll_saturates_at_zero() {
    let mut app = App::new();
    app.update(Action::IssuesLoaded(Paginated::new(issues(1, 0), 1, 0, 20)));
    app.update(Action::ViewIssueDetail);
    assert_eq!(app.current_screen, CurrentScreen::IssueDetail);
    app.update(Action::SelectNext);
    app.update(Action::SelectNext);
    assert_eq!(app.vertical_scroll, 2);
    app.update(Action::SelectPrevious);
    app.update(Action::SelectPrevious);
    app.update(Action::SelectPrevious);
    assert_eq!(app.vertical_scroll, 0);
}

#[test]
fn view_detail_needs_an_issue() {
    let mut app = App::new();
    app.current_screen = CurrentScreen::Backlog;
    app.update(Action::ViewIssueDetail);
    assert_eq!(app.current_screen, CurrentScreen::Backlog);
}

#[test]
fn digit_rollover_on_day_field() {
    let mut app = App::new();
    app.current_screen = CurrentScreen::WorklogModal;
    app.worklog_focused_field = WorklogField::Day;
    app.worklog_day = 0;
    app.update(Action::InputWorklogDigit('3'));
    assert_eq!(app.worklog_day, 3);
    app.update(Action::InputWorklogDigit('9'));
    assert_eq!(app.worklog_day, 9);
}

#[test]
fn digit_accumulates_within_domain() {
    let mut app = App::new();
    app.worklog_focused_field = WorklogField::Year;
    app.worklog_year = 0;
    for c in ['2', '0', '2', '4'] {
        app.update(Action::InputWorklogDigit(c));
    }
    assert_eq!(app.worklog_year, 2024);
    app.update(Action::InputWorklogDigit('9'));
    assert_eq!(app.worklog_year, 9);
}

#[test]
fn backspace_drops_last_digit_and_comment_char() {
    let mut app = App::new();
    app.worklog_focused_field = WorklogField::Minute;
    app.worklog_minute = 37;
    app.update(Action::DeleteWorklogChar);
    assert_eq!(app.worklog_minute, 3);
    app.update(Action::DeleteWorklogChar);
    assert_eq!(app.worklog_minute, 0);

    app.worklog_focused_field = WorklogField::Comment;
    app.update(Action::InputWorklogChar('h'));
    app.update(Action::InputWorklogChar('i'));
    assert_eq!(app.worklog_comment, "hi");
    app.update(Action::DeleteWorklogChar);
    assert_eq!(app.worklog_comment, "h");
    app.update(Action::DeleteWorklogChar);
    app.update(Action::DeleteWorklogChar);
    assert_eq!(app.worklog_comment, "");
}

#[test]
fn comment_field_takes_digits_as_text() {
    let mut app = App::new();
    app.worklog_focused_field = WorklogField::Comment;
    app.update(Action::InputWorklogDigit('7'));
    assert_eq!(app.worklog_comment, "7");
}

#[test]
fn filter_modal_opens_and_pops_back() {
    let mut app = App::new();
    app.current_screen = CurrentScreen::Backlog;
    app.update(Action::OpenFilterModal);
    assert_eq!(app.current_screen, CurrentScreen::FilterModal);
    assert_eq!(app.previous_screen, Some(CurrentScreen::Backlog));
    assert_eq!(app.filter_focused_field, FilterField::Assignee);
    app.update(Action::CloseFilterModal);
    assert_eq!(app.current_screen, CurrentScreen::Backlog);
    assert_eq!(app.previous_screen, None);
}

#[test]
fn close_filter_modal_defaults_to_backlog() {
    let mut app = App::new();
    app.previous_screen = None;
    app.current_screen = CurrentScreen::FilterModal;
    app.update(Action::CloseFilterModal);
    assert_eq!(app.current_screen, CurrentScreen::Backlog);
}

#[test]
fn filter_fields_and_choices_rotate_with_wraparound() {
    let mut app = App::new();
    assert_eq!(app.filter_focused_field, FilterField::Assignee);
    app.update(Action::NextFilterField);
    assert_eq!(app.filter_focused_field, FilterField::Status);
    app.update(Action::NextFilterField);
    assert_eq!(app.filter_focused_field, FilterField::OrderBy);
    app.update(Action::NextFilterField);
    assert_eq!(app.filter_focused_field, FilterField::Assignee);

    assert_eq!(app.filter_assignee, AssigneeFilter::CurrentUser);
    app.update(Action::CycleAssigneeFilter);
    app.update(Action::CycleAssigneeFilter);
    app.update(Action::CycleAssigneeFilter);
    assert_eq!(app.filter_assignee, AssigneeFilter::CurrentUser);

    assert_eq!(app.filter_status, StatusFilter::All);
    for _ in 0..4 {
        app.update(Action::CycleStatusFilter);
    }
    assert_eq!(app.filter_status, StatusFilter::All);

    assert_eq!(app.filter_order_by, OrderByFilter::UpdatedDesc);
    app.update(Action::CycleOrderByFilter);
    assert_eq!(app.filter_order_by, OrderByFilter::CreatedDesc);
    app.update(Action::CycleOrderByFilter);
    assert_eq!(app.filter_order_by, OrderByFilter::UpdatedDesc);
}

#[test]
fn worklog_modal_rotation_covers_every_field() {
    let mut app = App::new();
    app.worklog_focused_field = WorklogField::Day;
    let expected = [
        WorklogField::Month,
        WorklogField::Year,
        WorklogField::Hour,
        WorklogField::Minute,
        WorklogField::TimeHours,
        WorklogField::TimeMinutes,
        WorklogField::Comment,
        WorklogField::Day,
    ];
    for field in expected {
        app.update(Action::NextWorklogField);
        assert_eq!(app.worklog_focused_field, field);
    }
}

#[test]
fn open_worklog_modal_seeds_and_clears() {
    let mut app = App::new();
    app.current_screen = CurrentScreen::IssueDetail;
    app.worklog_time_hours = 9;
    app.worklog_comment = "old".to_string();
    app.update(Action::OpenWorklogModal);
    assert_eq!(app.current_screen, CurrentScreen::WorklogModal);
    assert_eq!(app.previous_screen, Some(CurrentScreen::IssueDetail));
    assert_eq!(app.worklog_time_hours, 0);
    assert_eq!(app.worklog_time_minutes, 0);
    assert_eq!(app.worklog_comment, "");
    assert_eq!(app.worklog_focused_field, WorklogField::Day);
    assert!(app.worklog_being_edited.is_none());
    assert!(app.worklog_day >= 1 && app.worklog_day <= 31);
    assert!(app.worklog_month >= 1 && app.worklog_month <= 12);
    assert!(app.worklog_hour <= 23);
    assert!(app.worklog_minute <= 59);
}

#[test]
fn submit_worklog_is_a_pure_intent() {
    let mut app = App::new();
    app.current_screen = CurrentScreen::WorklogModal;
    app.update(Action::SubmitWorklog);
    assert_eq!(app.current_screen, CurrentScreen::WorklogModal);
}

#[test]
fn worklog_submitted_resets_editor_and_pops_back() {
    let mut app = App::new();
    app.current_screen = CurrentScreen::WorklogModal;
    app.previous_screen = Some(CurrentScreen::IssueDetail);
    app.worklog_time_hours = 2;
    app.worklog_comment = "done".to_string();
    app.update(Action::WorklogSubmitted);
    assert_eq!(app.current_screen, CurrentScreen::IssueDetail);
    assert_eq!(app.previous_screen, None);
    assert_eq!(app.worklog_time_hours, 0);
    assert_eq!(app.worklog_comment, "");
}

#[test]
fn startup_state_is_empty_on_the_dashboard() {
    let app = App::new();
    assert!(!app.should_quit);
    assert_eq!(app.current_screen, CurrentScreen::Dashboard);
    assert_eq!(app.previous_screen, None);
    assert!(app.boards.is_empty());
    assert!(app.issues.is_empty());
    assert!(app.worklogs.is_empty());
    assert!(!app.is_loading);
    assert_eq!(app.current_board_id, None);
    assert_eq!(app.filter_assignee, AssigneeFilter::CurrentUser);
    assert_eq!(app.filter_status, StatusFilter::All);
    assert_eq!(app.filter_order_by, OrderByFilter::UpdatedDesc);
    assert_eq!(app.worklog_time_hours, 0);
    assert_eq!(app.worklog_time_minutes, 0);
    assert_eq!(app.worklog_comment, "");
    assert!(app.notification_title.is_none());
    assert!(app.worklog_day >= 1 && app.worklog_day <= 31);
    assert!(app.worklog_month >= 1 && app.worklog_month <= 12);
    assert!(app.worklog_year <= 9999);
}

#[test]
fn failed_read_clears_loading_and_nothing_else() {
    let mut app = App::new();
    app.update(Action::LoadIssues(7));
    assert!(app.is_loading);
    app.update(Action::LoadFailed);
    assert!(!app.is_loading);
    assert_eq!(app.current_board_id, Some(7));
    assert_eq!(app.current_screen, CurrentScreen::Backlog);
    assert!(app.issues.is_empty());
}
