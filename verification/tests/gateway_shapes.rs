use jira_tui::dtos::{
    BoardDto, CommentDto, ContentBlockDto, ContentTextDto, IssueDto, IssueFieldsDto,
    ProjectLocationDto, StatusDto, UserDto, WorklogDto, status_from_name,
};
use jira_tui::models::IssueStatus;

const FALLBACK: i64 = 42;

// 2015-05-15T00:00:00Z, the instant used throughout these tests.
const MAY_15_2015: i64 = 1_431_648_000;

fn fields(status: &str, created: &str, updated: &str) -> IssueFieldsDto {
    IssueFieldsDto {
        summary: "hacer algo".to_string(),
        description: Some("con detalle".to_string()),
        status: StatusDto { name: status.to_string() },
        priority: Some(jira_tui::dtos::PriorityDto { name: "High".to_string() }),
        assignee: Some(UserDto { display_name: "Ana".to_string() }),
        created: created.to_string(),
        updated: updated.to_string(),
    }
}

#[test]
fn status_names_classify_case_insensitively() {
    assert_eq!(status_from_name("To Do".to_string()), IssueStatus::Todo);
    assert_eq!(status_from_name("NEW".to_string()), IssueStatus::Todo);
    assert_eq!(status_from_name("open".to_string()), IssueStatus::Todo);
    assert_eq!(status_from_name("In Progress".to_string()), IssueStatus::InProgress);
    assert_eq!(status_from_name("IN REVIEW".to_string()), IssueStatus::InProgress);
    assert_eq!(status_from_name("Done".to_string()), IssueStatus::Done);
    assert_eq!(status_from_name("Closed".to_string()), IssueStatus::Done);
    assert_eq!(status_from_name("resolved".to_string()), IssueStatus::Done);
    assert_eq!(
        status_from_name("Blocked".to_string()),
        IssueStatus::Other("Blocked".to_string())
    );
}

#[test]
fn board_takes_its_project_key_when_reported() {
    let dto = BoardDto {
        id: 7,
        name: "Equipo".to_string(),
        location: Some(ProjectLocationDto { project_key: Some("PRJ".to_string()) }),
        board_type: "scrum".to_string(),
    };
    let board = dto.to_board();
    assert_eq!(board.id, 7);
    assert_eq!(board.name, "Equipo");
    assert_eq!(board.project_key, "PRJ");
    assert_eq!(board.board_type, "scrum");
}

#[test]
fn board_without_location_gets_the_placeholder_key() {
    let dto = BoardDto {
        id: 8,
        name: "Suelto".to_string(),
        location: None,
        board_type: "kanban".to_string(),
    };
    assert_eq!(dto.to_board().project_key, "UNKNOWN");

    let dto = BoardDto {
        id: 9,
        name: "Sin clave".to_string(),
        location: Some(ProjectLocationDto { project_key: None }),
        board_type: "kanban".to_string(),
    };
    assert_eq!(dto.to_board().project_key, "UNKNOWN");
}

#[test]
fn issue_parses_its_timestamps() {
    let dto = IssueDto {
        key: "PRJ-1".to_string(),
        fields: fields(
            "In Progress",
            "2015-05-15T00:00:00.000000+0000",
            "2015-05-15T00:00:00.000000+0000",
        ),
    };
    let issue = dto.to_issue(FALLBACK);
    assert_eq!(issue.key, "PRJ-1");
    assert_eq!(issue.summary, "hacer algo");
    assert_eq!(issue.status, IssueStatus::InProgress);
    assert_eq!(issue.assignee.as_deref(), Some("Ana"));
    assert_eq!(issue.priority.as_deref(), Some("High"));
    assert_eq!(issue.created_at, MAY_15_2015);
    assert_eq!(issue.updated_at, MAY_15_2015);
}

#[test]
fn unparseable_issue_timestamps_fall_back() {
    let dto = IssueDto {
        key: "PRJ-2".to_string(),
        fields: fields("Done", "yesterday", "not a time"),
    };
    let issue = dto.to_issue(FALLBACK);
    assert_eq!(issue.created_at, FALLBACK);
    assert_eq!(issue.updated_at, FALLBACK);
}

fn text_run(t: Option<&str>) -> ContentTextDto {
    ContentTextDto { text: t.map(|s| s.to_string()) }
}

fn worklog_dto(comment: Option<CommentDto>) -> WorklogDto {
    WorklogDto {
        id: "w1".to_string(),
        issue_id: "10001".to_string(),
        time_spent_seconds: 5400,
        comment,
        started: "2015-05-15T00:00:00.000+0000".to_string(),
        author: UserDto { display_name: "Ana".to_string() },
        created: "2015-05-15T00:00:00.000+0000".to_string(),
        updated: "bad".to_string(),
    }
}

#[test]
fn worklog_entry_carries_fields_and_instants() {
    let entry = worklog_dto(None).to_worklog_entry("PRJ-1".to_string(), FALLBACK);
    assert_eq!(entry.id, "w1");
    assert_eq!(entry.issue_key, "PRJ-1");
    assert_eq!(entry.time_spent_seconds, 5400);
    assert_eq!(entry.author, "Ana");
    assert_eq!(entry.started_at, MAY_15_2015);
    assert_eq!(entry.created_at, MAY_15_2015);
    assert_eq!(entry.updated_at, FALLBACK);
    assert_eq!(entry.comment, None);
}

#[test]
fn comment_blocks_flatten_to_plain_text() {
    let comment = CommentDto {
        content: Some(vec![
            ContentBlockDto {
                content: Some(vec![text_run(Some("Hello")), text_run(None), text_run(Some("world"))]),
            },
            ContentBlockDto { content: Some(vec![text_run(Some("second"))]) },
        ]),
    };
    let entry = worklog_dto(Some(comment)).to_worklog_entry("PRJ-1".to_string(), FALLBACK);
    assert_eq!(entry.comment.as_deref(), Some("Hello world\nsecond"));
}

#[test]
fn textless_comments_flatten_to_nothing() {
    let no_blocks = CommentDto { content: None };
    let entry = worklog_dto(Some(no_blocks)).to_worklog_entry("PRJ-1".to_string(), FALLBACK);
    assert_eq!(entry.comment, None);

    let empty_blocks = CommentDto {
        content: Some(vec![
            ContentBlockDto { content: None },
            ContentBlockDto { content: Some(vec![text_run(None)]) },
        ]),
    };
    let entry = worklog_dto(Some(empty_blocks)).to_worklog_entry("PRJ-1".to_string(), FALLBACK);
    assert_eq!(entry.comment, None);
}
