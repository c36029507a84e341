//! Domain data: boards, issues, worklogs, pages, and the filter compiler
//! that turns UI-level filter choices into gateway query criteria.

use vstd::prelude::*;
use vstd::string::StringExecFns;

verus! {

/// A board as reported by the remote service. Immutable once fetched;
/// the whole collection is replaced on reload.
#[derive(Debug, Clone)]
pub struct Board {
    pub id: u64,
    pub name: String,
    pub project_key: String,
    pub board_type: String,
}

/// Classified status of an issue. Statuses the classifier does not
/// recognise keep their original label.
#[derive(Debug, Clone, PartialEq, Eq)]
pub enum IssueStatus {
    Todo,
    InProgress,
    Done,
    Other(String),
}

/// A snapshot of an issue. Timestamps are UTC instants counted in
/// non-leap seconds since the Unix epoch.
#[derive(Debug, Clone)]
pub struct Issue {
    pub key: String,
    pub summary: String,
    pub description: Option<String>,
    pub status: IssueStatus,
    pub assignee: Option<String>,
    pub priority: Option<String>,
    pub created_at: i64,
    pub updated_at: i64,
}

/// A time-tracking entry to be recorded against an issue.
/// `started_at` is a UTC instant in seconds since the Unix epoch.
#[derive(Debug, Clone)]
pub struct Worklog {
    pub issue_key: String,
    pub time_spent_seconds: u64,
    pub comment: Option<String>,
    pub started_at: i64,
}

/// A time-tracking entry as stored by the remote service.
/// Instants are UTC, in seconds since the Unix epoch.
#[derive(Debug, Clone)]
pub struct WorklogEntry {
    pub id: String,
    pub issue_key: String,
    pub time_spent_seconds: u64,
    pub comment: Option<String>,
    pub started_at: i64,
    pub author: String,
    pub created_at: i64,
    pub updated_at: i64,
}

/// The view of an `Option<String>` as an optional character sequence.
pub open spec fn opt_text(o: Option<String>) -> Option<Seq<char>> {
    match o {
        Some(s) => Some(s@),
        None => None,
    }
}

/// Assignee scope offered by the filter modal.
#[derive(Debug, Clone, Copy, PartialEq, Eq, Structural)]
pub enum AssigneeFilter {
    CurrentUser,
    Unassigned,
    All,
}

/// The query criterion an assignee scope compiles to; `None` places no
/// restriction on the assignee axis.
pub open spec fn assignee_jql(f: AssigneeFilter) -> Option<Seq<char>> {
    match f {
        AssigneeFilter::CurrentUser => Some("currentUser()"@),
        AssigneeFilter::Unassigned => Some("EMPTY"@),
        AssigneeFilter::All => None,
    }
}

/// The label the filter modal shows for an assignee scope.
pub open spec fn assignee_label(f: AssigneeFilter) -> Seq<char> {
    match f {
        AssigneeFilter::CurrentUser => "Mi asignacion"@,
        AssigneeFilter::Unassigned => "Sin asignar"@,
        AssigneeFilter::All => "Todos"@,
    }
}

impl AssigneeFilter {
    /// Compiles this scope to its query criterion.
    pub fn to_jql(&self) -> (r: Option<String>)
        ensures
            opt_text(r) == assignee_jql(*self),
    {
        match self {
            AssigneeFilter::CurrentUser => Some(String::from_str("currentUser()")),
            AssigneeFilter::Unassigned => Some(String::from_str("EMPTY")),
            AssigneeFilter::All => None,
        }
    }

    /// The display label for the filter modal.
    pub fn label(&self) -> (r: &'static str)
        ensures
            r@ == assignee_label(*self),
    {
        match self {
            AssigneeFilter::CurrentUser => "Mi asignacion",
            AssigneeFilter::Unassigned => "Sin asignar",
            AssigneeFilter::All => "Todos",
        }
    }
}

/// Sort order offered by the filter modal.
#[derive(Debug, Clone, Copy, PartialEq, Eq, Structural)]
pub enum OrderByFilter {
    UpdatedDesc,
    CreatedDesc,
}

/// The ordering clause a sort order compiles to; always present.
pub open spec fn order_by_jql(f: OrderByFilter) -> Seq<char> {
    match f {
        OrderByFilter::UpdatedDesc => "updated DESC"@,
        OrderByFilter::CreatedDesc => "created DESC"@,
    }
}

/// The label the filter modal shows for a sort order.
pub open spec fn order_by_label(f: OrderByFilter) -> Seq<char> {
    match f {
        OrderByFilter::UpdatedDesc => "Actualizado recientemente"@,
        OrderByFilter::CreatedDesc => "Creado recientemente"@,
    }
}

impl OrderByFilter {
    /// Compiles this sort order to its ordering clause.
    pub fn to_jql(&self) -> (r: String)
        ensures
            r@ == order_by_jql(*self),
    {
        match self {
            OrderByFilter::UpdatedDesc => String::from_str("updated DESC"),
            OrderByFilter::CreatedDesc => String::from_str("created DESC"),
        }
    }

    /// The display label for the filter modal.
    pub fn label(&self) -> (r: &'static str)
        ensures
            r@ == order_by_label(*self),
    {
        match self {
            OrderByFilter::UpdatedDesc => "Actualizado recientemente",
            OrderByFilter::CreatedDesc => "Creado recientemente",
        }
    }
}

/// Status scope offered by the filter modal.
#[derive(Debug, Clone, Copy, PartialEq, Eq, Structural)]
pub enum StatusFilter {
    All,
    Todo,
    InProgress,
    Done,
}

/// The query criterion a status scope compiles to; `None` places no
/// restriction on the status axis.
pub open spec fn status_jql(f: StatusFilter) -> Option<Seq<char>> {
    match f {
        StatusFilter::All => None,
        StatusFilter::Todo => Some("To Do"@),
        StatusFilter::InProgress => Some("In Progress"@),
        StatusFilter::Done => Some("Done"@),
    }
}

/// The label the filter modal shows for a status scope.
pub open spec fn status_label(f: StatusFilter) -> Seq<char> {
    match f {
        StatusFilter::All => "Todos los estados"@,
        StatusFilter::Todo => "Por hacer"@,
        StatusFilter::InProgress => "En progreso"@,
        StatusFilter::Done => "Completado"@,
    }
}

impl StatusFilter {
    /// Compiles this scope to its query criterion.
    pub fn to_jql(&self) -> (r: Option<String>)
        ensures
            opt_text(r) == status_jql(*self),
    {
        match self {
            StatusFilter::All => None,
            StatusFilter::Todo => Some(String::from_str("To Do")),
            StatusFilter::InProgress => Some(String::from_str("In Progress")),
            StatusFilter::Done => Some(String::from_str("Done")),
        }
    }

    /// The display label for the filter modal.
    pub fn label(&self) -> (r: &'static str)
        ensures
            r@ == status_label(*self),
    {
        match self {
            StatusFilter::All => "Todos los estados",
            StatusFilter::Todo => "Por hacer",
            StatusFilter::InProgress => "En progreso",
            StatusFilter::Done => "Completado",
        }
    }
}

/// Search criteria for issues, as the gateway consumes them. Each
/// criterion is an opaque query fragment; `None` means no restriction
/// on that axis.
#[derive(Debug, Clone)]
pub struct IssueFilter {
    pub assignee: Option<String>,
    pub status: Option<String>,
    pub order_by: Option<String>,
}

impl IssueFilter {
    /// The startup filter: the current user's issues, all statuses,
    /// most recently updated first.
    pub fn default_active_user() -> (r: Self)
        ensures
            opt_text(r.assignee) == assignee_jql(AssigneeFilter::CurrentUser),
            opt_text(r.status) == status_jql(StatusFilter::All),
            opt_text(r.order_by) == Some(order_by_jql(OrderByFilter::UpdatedDesc)),
    {
        IssueFilter {
            assignee: Some(String::from_str("currentUser()")),
            status: None,
            order_by: Some(String::from_str("updated DESC")),
        }
    }

    /// Compiles the three independent filter choices into criteria.
    /// Total and deterministic; criteria combine conjunctively.
    pub fn from_options(
        assignee: AssigneeFilter,
        status: StatusFilter,
        order_by: OrderByFilter,
    ) -> (r: Self)
        ensures
            opt_text(r.assignee) == assignee_jql(assignee),
            opt_text(r.status) == status_jql(status),
            opt_text(r.order_by) == Some(order_by_jql(order_by)),
    {
        IssueFilter {
            assignee: assignee.to_jql(),
            status: status.to_jql(),
            order_by: Some(order_by.to_jql()),
        }
    }
}

/// One page of a larger server-side collection, plus the grand total
/// the server reports.
#[derive(Debug, Clone)]
pub struct Paginated<T> {
    pub items: Vec<T>,
    pub total: u64,
    pub start_at: u64,
    pub max_results: u64,
}

impl<T> Paginated<T> {
    /// Packs a fetched page together with its pagination bookkeeping.
    pub fn new(items: Vec<T>, total: u64, start_at: u64, max_results: u64) -> (r: Self)
        ensures
            r.items == items,
            r.total == total,
            r.start_at == start_at,
            r.max_results == max_results,
    {
        Paginated { items, total, start_at, max_results }
    }
}

} // verus!
