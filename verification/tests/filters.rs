use jira_tui::jql::build_jql;
use jira_tui::models::{AssigneeFilter, IssueFilter, OrderByFilter, StatusFilter};

#[test]
fn assignee_criteria() {
    assert_eq!(AssigneeFilter::CurrentUser.to_jql().as_deref(), Some("currentUser()"));
    assert_eq!(AssigneeFilter::Unassigned.to_jql().as_deref(), Some("EMPTY"));
    assert_eq!(AssigneeFilter::All.to_jql(), None);
}

#[test]
fn status_criteria() {
    assert_eq!(StatusFilter::All.to_jql(), None);
    assert_eq!(StatusFilter::Todo.to_jql().as_deref(), Some("To Do"));
    assert_eq!(StatusFilter::InProgress.to_jql().as_deref(), Some("In Progress"));
    assert_eq!(StatusFilter::Done.to_jql().as_deref(), Some("Done"));
}

#[test]
fn order_by_criteria() {
    assert_eq!(OrderByFilter::UpdatedDesc.to_jql(), "updated DESC");
    assert_eq!(OrderByFilter::CreatedDesc.to_jql(), "created DESC");
}

#[test]
fn labels() {
    assert_eq!(AssigneeFilter::CurrentUser.label(), "Mi asignacion");
    assert_eq!(AssigneeFilter::Unassigned.label(), "Sin asignar");
    assert_eq!(AssigneeFilter::All.label(), "Todos");
    assert_eq!(StatusFilter::All.label(), "Todos los estados");
    assert_eq!(StatusFilter::Todo.label(), "Por hacer");
    assert_eq!(StatusFilter::InProgress.label(), "En progreso");
    assert_eq!(StatusFilter::Done.label(), "Completado");
    assert_eq!(OrderByFilter::UpdatedDesc.label(), "Actualizado recientemente");
    assert_eq!(OrderByFilter::CreatedDesc.label(), "Creado recientemente");
}

#[test]
fn default_filter_targets_the_current_user() {
    let f = IssueFilter::default_active_user();
    assert_eq!(f.assignee.as_deref(), Some("currentUser()"));
    assert_eq!(f.status, None);
    assert_eq!(f.order_by.as_deref(), Some("updated DESC"));
}

#[test]
fn from_options_compiles_each_axis() {
    let f = IssueFilter::from_options(
        AssigneeFilter::Unassigned,
        StatusFilter::Done,
        OrderByFilter::CreatedDesc,
    );
    assert_eq!(f.assignee.as_deref(), Some("EMPTY"));
    assert_eq!(f.status.as_deref(), Some("Done"));
    assert_eq!(f.order_by.as_deref(), Some("created DESC"));
}

#[test]
fn jql_with_no_restrictions_is_just_the_ordering() {
    let f = IssueFilter::from_options(
        AssigneeFilter::All,
        StatusFilter::All,
        OrderByFilter::UpdatedDesc,
    );
    assert_eq!(build_jql(&f), "ORDER BY updated DESC");
}

#[test]
fn jql_with_one_restriction() {
    let f = IssueFilter::from_options(
        AssigneeFilter::CurrentUser,
        StatusFilter::All,
        OrderByFilter::UpdatedDesc,
    );
    assert_eq!(build_jql(&f), "assignee = currentUser() ORDER BY updated DESC");

    let f = IssueFilter::from_options(
        AssigneeFilter::All,
        StatusFilter::InProgress,
        OrderByFilter::UpdatedDesc,
    );
    assert_eq!(build_jql(&f), "status = \"In Progress\" ORDER BY updated DESC");
}

#[test]
fn jql_with_both_restrictions_joins_with_and() {
    let f = IssueFilter::from_options(
        AssigneeFilter::CurrentUser,
        StatusFilter::Done,
        OrderByFilter::CreatedDesc,
    );
    assert_eq!(
        build_jql(&f),
        "assignee = currentUser() AND status = \"Done\" ORDER BY created DESC"
    );
}

#[test]
fn jql_without_ordering_keeps_the_clauses() {
    let f = IssueFilter {
        assignee: Some("EMPTY".to_string()),
        status: None,
        order_by: None,
    };
    assert_eq!(build_jql(&f), "assignee = EMPTY");

    let empty = IssueFilter { assignee: None, status: None, order_by: None };
    assert_eq!(build_jql(&empty), "");
}
