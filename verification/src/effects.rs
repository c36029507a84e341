//! Effect decisions: which background work an action or state change
//! calls for, and which follow-up actions an effect's outcome feeds
//! back into the state machine. Everything here is pure; the event
//! loop performs the requests these values describe.

use vstd::prelude::*;
use vstd::string::StringExecFns;

use crate::app::Action;
use crate::app::ActionView;
use crate::app::App;
use crate::app::AppView;
use crate::app::CurrentScreen;
use crate::app::spec_update;
use crate::errors::AppError;
use crate::errors::error_text;
use crate::models::IssueFilter;
use crate::models::Worklog;
use crate::models::assignee_jql;
use crate::models::opt_text;
use crate::models::order_by_jql;
use crate::models::status_jql;
use crate::time::LocalStamp;
use crate::time::local_to_utc_epoch;
use crate::time::valid_date;

verus! {

/// The number of issues fetched per page.
pub const PAGE_SIZE: u64 = 20;

/// The number of worklog entries fetched for the list modal.
pub const WORKLOG_PAGE_SIZE: u64 = 50;

/// A request for one page of a board's backlog under a filter.
#[derive(Debug, Clone)]
pub struct IssuesRequest {
    pub board_id: u64,
    pub start_at: u64,
    pub max_results: u64,
    pub filter: IssueFilter,
}

/// Whether a compiled filter is exactly the compilation of the three
/// filter choices held in the state.
pub open spec fn filter_of_selection(f: IssueFilter, v: AppView) -> bool {
    &&& opt_text(f.assignee) == assignee_jql(v.filter_assignee)
    &&& opt_text(f.status) == status_jql(v.filter_status)
    &&& opt_text(f.order_by) == Some(order_by_jql(v.filter_order_by))
}

/// The page request opening a board fires: the first page of that
/// board under the compilation of the filter choices currently held
/// in the state. At startup those choices compile to the
/// current-user filter.
pub fn fresh_issues_request(app: &App, board_id: u64) -> (r: IssuesRequest)
    ensures
        r.board_id == board_id,
        r.start_at == 0,
        r.max_results == PAGE_SIZE,
        filter_of_selection(r.filter, app@),
{
    IssuesRequest {
        board_id,
        start_at: 0,
        max_results: PAGE_SIZE,
        filter: IssueFilter::from_options(
            app.filter_assignee,
            app.filter_status,
            app.filter_order_by,
        ),
    }
}

/// The page request that applying the filter modal fires: the first
/// page of the current board under the freshly compiled criteria, and
/// nothing when no board is open.
pub fn filter_reload_request(app: &App) -> (r: Option<IssuesRequest>)
    ensures
        r is Some <==> app@.current_board_id is Some,
        r matches Some(req) ==> {
            &&& Some(req.board_id) == app@.current_board_id
            &&& req.start_at == 0
            &&& req.max_results == PAGE_SIZE
            &&& filter_of_selection(req.filter, app@)
        },
{
    match app.current_board_id {
        Some(board_id) => Some(
            IssuesRequest {
                board_id,
                start_at: 0,
                max_results: PAGE_SIZE,
                filter: IssueFilter::from_options(
                    app.filter_assignee,
                    app.filter_status,
                    app.filter_order_by,
                ),
            },
        ),
        None => None,
    }
}

/// The infinite-scroll guard: more issues exist than are loaded, no
/// fetch is in flight, the backlog is showing, a board is open, and
/// the selection is within two rows of the end of the loaded list.
pub open spec fn scroll_guard(v: AppView) -> bool {
    &&& v.current_screen == CurrentScreen::Backlog
    &&& !v.is_loading
    &&& v.issues.len() < v.total_issues
    &&& v.selected_issue_index + 2 >= v.issues.len()
    &&& v.current_board_id is Some
}

/// The continuation page the infinite scroll fires: issued exactly
/// when the guard holds, starting right after the loaded issues, under
/// the currently selected filter.
pub fn infinite_scroll_request(app: &App) -> (r: Option<IssuesRequest>)
    ensures
        r is Some <==> scroll_guard(app@),
        r matches Some(req) ==> {
            &&& Some(req.board_id) == app@.current_board_id
            &&& req.start_at == app@.issues.len()
            &&& req.max_results == PAGE_SIZE
            &&& filter_of_selection(req.filter, app@)
        },
{
    let near_end: bool = if app.issues.len() >= 2 {
        app.selected_issue_index >= app.issues.len() - 2
    } else {
        true
    };
    if app.current_screen == CurrentScreen::Backlog && !app.is_loading && (app.issues.len()
        as u64) < app.total_issues && near_end {
        match app.current_board_id {
            Some(board_id) => Some(
                IssuesRequest {
                    board_id,
                    start_at: app.issues.len() as u64,
                    max_results: PAGE_SIZE,
                    filter: IssueFilter::from_options(
                        app.filter_assignee,
                        app.filter_status,
                        app.filter_order_by,
                    ),
                },
            ),
            None => None,
        }
    } else {
        None
    }
}

/// Law: the guard cannot double-fire. Announcing the continuation
/// fetch (which raises the loading flag before the fetch is spawned)
/// makes the guard false until the page arrives.
pub proof fn lemma_scroll_guard_fires_once(pre: AppView, stamp: LocalStamp)
    requires
        scroll_guard(pre),
    ensures
        !scroll_guard(spec_update(pre, ActionView::LoadMoreIssues, stamp)),
{
    reveal(spec_update);
}

/// The worklog mutation a submission resolves to: a creation, or an
/// update of the entry being edited.
#[derive(Debug, Clone)]
pub enum WorklogSubmission {
    /// Record a new entry.
    Create(Worklog),
    /// Replace the entry with the given id on the given issue.
    Update(String, String, Worklog),
}

/// The duration the editor's two duration fields denote, in seconds.
pub open spec fn editor_duration_secs(v: AppView) -> int {
    v.worklog_time_hours * 3600 + v.worklog_time_minutes * 60
}

/// Assembles the worklog a submission sends, given the instant the
/// composed local date and time turned out to denote: exactly when the
/// conversion produced one.
pub fn worklog_from_parts(issue_key: String, duration_secs: u64, comment: String, started: Option<
    i64,
>) -> (r: Option<Worklog>)
    requires
        duration_secs > 0,
    ensures
        r is Some <==> started is Some,
        r matches Some(w) ==> {
            &&& w.issue_key@ == issue_key@
            &&& w.time_spent_seconds == duration_secs
            &&& opt_text(w.comment) == (if comment@.len() == 0 {
                None::<Seq<char>>
            } else {
                Some(comment@)
            })
            &&& Some(w.started_at) == started
        },
{
    match started {
        Some(epoch) => {
            let comment_field = if comment.as_str().unicode_len() == 0 {
                None
            } else {
                Some(comment)
            };
            Some(
                Worklog {
                    issue_key,
                    time_spent_seconds: duration_secs,
                    comment: comment_field,
                    started_at: epoch,
                },
            )
        },
        None => None,
    }
}

/// Decides a worklog submission. Nothing is sent, and the screen is
/// left for the state machine to keep, when no issue is selected,
/// when the composed duration is zero, or when the composed date and
/// time do not denote an instant; in particular an invalid calendar
/// day never reaches the gateway. Otherwise the mutation carries the
/// selected issue's key, the composed duration and comment, and it is
/// an update exactly when an entry is being edited.
pub fn build_worklog_submission(app: &App) -> (r: Option<WorklogSubmission>)
    ensures
        app@.selected_issue_index >= app@.issues.len() ==> r is None,
        editor_duration_secs(app@) == 0 ==> r is None,
        !valid_date(app@.worklog_year, app@.worklog_month, app@.worklog_day) ==> r is None,
        r is Some ==> app@.selected_issue_index < app@.issues.len() && editor_duration_secs(app@)
            > 0,
        r matches Some(sub) ==> match sub {
            WorklogSubmission::Create(w) => {
                &&& app@.worklog_being_edited is None
                &&& worklog_payload_ok(w, app@)
            },
            WorklogSubmission::Update(key, id, w) => {
                &&& app@.worklog_being_edited == Some(id@)
                &&& key@ == app@.issues[app@.selected_issue_index].key@
                &&& worklog_payload_ok(w, app@)
            },
        },
{
    let (issue_key, update_key) = match app.get_selected_issue() {
        Some(issue) => (issue.key.clone(), issue.key.clone()),
        None => {
            return None;
        },
    };
    let hours: u64 = app.worklog_time_hours as u64;
    let minutes: u64 = app.worklog_time_minutes as u64;
    let total_seconds: u64 = hours * 3600 + minutes * 60;
    if total_seconds == 0 {
        return None;
    }
    let started = local_to_utc_epoch(
        app.worklog_year,
        app.worklog_month,
        app.worklog_day,
        app.worklog_hour,
        app.worklog_minute,
    );
    let worklog = match worklog_from_parts(
        issue_key,
        total_seconds,
        app.worklog_comment.clone(),
        started,
    ) {
        Some(w) => w,
        None => {
            return None;
        },
    };
    match &app.worklog_being_edited {
        Some(entry_id) => Some(WorklogSubmission::Update(update_key, entry_id.clone(), worklog)),
        None => Some(WorklogSubmission::Create(worklog)),
    }
}

/// What a submitted worklog must carry: the selected issue's key, the
/// editor's composed duration, and the editor's comment (absent when
/// the buffer is empty).
pub open spec fn worklog_payload_ok(w: Worklog, v: AppView) -> bool {
    &&& w.issue_key@ == v.issues[v.selected_issue_index].key@
    &&& w.time_spent_seconds == editor_duration_secs(v)
    &&& opt_text(w.comment) == (if v.worklog_comment.len() == 0 {
        None::<Seq<char>>
    } else {
        Some(v.worklog_comment)
    })
}

/// Decides a worklog deletion: the selected entry of the selected
/// issue, and nothing when either selection is empty.
pub fn worklog_delete_request(app: &App) -> (r: Option<(String, String)>)
    ensures
        r is Some <==> (app@.selected_issue_index < app@.issues.len()
            && app@.selected_worklog_index < app@.worklogs.len()),
        r matches Some(req) ==> {
            &&& req.0@ == app@.issues[app@.selected_issue_index].key@
            &&& req.1@ == app@.worklogs[app@.selected_worklog_index].id@
        },
{
    match app.get_selected_issue() {
        Some(issue) => {
            let key = issue.key.clone();
            match app.get_selected_worklog() {
                Some(entry) => Some((key, entry.id.clone())),
                None => None,
            }
        },
        None => None,
    }
}

/// Decides the worklog list fetch: the first page (of fixed size) for
/// the selected issue, and nothing when no issue is selected.
pub fn worklog_list_request(app: &App) -> (r: Option<String>)
    ensures
        r is Some <==> app@.selected_issue_index < app@.issues.len(),
        r matches Some(key) ==> key@ == app@.issues[app@.selected_issue_index].key@,
{
    match app.get_selected_issue() {
        Some(issue) => Some(issue.key.clone()),
        None => None,
    }
}

/// A worklog operation whose outcome is surfaced to the user.
#[derive(Debug, Clone, Copy, PartialEq, Eq, Structural)]
pub enum WorklogOp {
    Add,
    Update,
    Delete,
    Load,
}

/// The message a successful worklog mutation announces.
pub open spec fn op_success_message(op: WorklogOp) -> Seq<char> {
    match op {
        WorklogOp::Add => "Tiempo registrado correctamente"@,
        WorklogOp::Update => "Tiempo actualizado correctamente"@,
        WorklogOp::Delete => "Tiempo eliminado correctamente"@,
        WorklogOp::Load => ""@,
    }
}

/// The prefix of the message a failed worklog operation announces.
pub open spec fn op_failure_prefix(op: WorklogOp) -> Seq<char> {
    match op {
        WorklogOp::Add => "Error al registrar tiempo: "@,
        WorklogOp::Update => "Error al actualizar tiempo: "@,
        WorklogOp::Delete => "Error al eliminar tiempo: "@,
        WorklogOp::Load => "Error al cargar tiempos: "@,
    }
}

/// The success notification a completed worklog mutation feeds back.
pub fn success_notification(op: WorklogOp) -> (r: Action)
    requires
        !(op is Load),
    ensures
        r matches Action::ShowNotification(title, message, success) && title@ == "Exito"@
            && message@ == op_success_message(op) && success == true,
{
    let message = match op {
        WorklogOp::Add => String::from_str("Tiempo registrado correctamente"),
        WorklogOp::Update => String::from_str("Tiempo actualizado correctamente"),
        WorklogOp::Delete => String::from_str("Tiempo eliminado correctamente"),
        WorklogOp::Load => String::new(),
    };
    Action::ShowNotification(String::from_str("Exito"), message, true)
}

/// The failure notification a failed worklog operation feeds back,
/// naming the error's display text.
pub fn failure_notification(op: WorklogOp, error: &AppError) -> (r: Action)
    ensures
        r matches Action::ShowNotification(title, message, success) && title@ == "Error"@
            && message@ == op_failure_prefix(op) + error_text(*error) && success == false,
{
    let mut message = match op {
        WorklogOp::Add => String::from_str("Error al registrar tiempo: "),
        WorklogOp::Update => String::from_str("Error al actualizar tiempo: "),
        WorklogOp::Delete => String::from_str("Error al eliminar tiempo: "),
        WorklogOp::Load => String::from_str("Error al cargar tiempos: "),
    };
    let detail = error.display_text();
    message.append(detail.as_str());
    Action::ShowNotification(String::from_str("Error"), message, false)
}

/// The completion action a successful worklog mutation feeds back.
pub fn success_followup(op: WorklogOp) -> (r: Action)
    requires
        !(op is Load),
    ensures
        op is Add ==> r is WorklogSubmitted,
        op is Update ==> r is WorklogUpdated,
        op is Delete ==> r is WorklogDeleted,
{
    match op {
        WorklogOp::Add => Action::WorklogSubmitted,
        WorklogOp::Update => Action::WorklogUpdated,
        WorklogOp::Delete => Action::WorklogDeleted,
        WorklogOp::Load => Action::WorklogDeleted,
    }
}

/// Whether a successful worklog mutation triggers a reload of the
/// entry list.
pub fn reloads_worklogs(op: WorklogOp) -> (r: bool)
    ensures
        r == (op is Update || op is Delete),
{
    match op {
        WorklogOp::Update => true,
        WorklogOp::Delete => true,
        _ => false,
    }
}

/// The auto-dismiss delay of a notification, in seconds: failures stay
/// longer than successes.
pub fn dismiss_delay_secs(success: bool) -> (r: u64)
    ensures
        r == if success {
            3int
        } else {
            5int
        },
{
    if success {
        3
    } else {
        5
    }
}

/// Law: a failed operation's notification is visible and marked as a
/// failure, and the deferred dismissal returns the notification to
/// hidden, whatever else the state holds.
pub proof fn lemma_notification_lifecycle(
    pre: AppView,
    title: Seq<char>,
    message: Seq<char>,
    success: bool,
    s1: LocalStamp,
    s2: LocalStamp,
)
    ensures
        spec_update(
            pre,
            ActionView::ShowNotification(title, message, success),
            s1,
        ).notification_title == Some(title),
        spec_update(
            pre,
            ActionView::ShowNotification(title, message, success),
            s1,
        ).notification_message == Some(message),
        spec_update(
            pre,
            ActionView::ShowNotification(title, message, success),
            s1,
        ).notification_is_success == success,
        spec_update(
            spec_update(pre, ActionView::ShowNotification(title, message, success), s1),
            ActionView::HideNotification,
            s2,
        ).notification_title is None,
        spec_update(
            spec_update(pre, ActionView::ShowNotification(title, message, success), s1),
            ActionView::HideNotification,
            s2,
        ).notification_message is None,
{
    reveal(spec_update);
}

} // verus!
