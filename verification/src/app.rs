//! The screen state machine: the whole interactive state of the
//! client, advanced only by applying actions.
//!
//! The mathematical transition is `spec_update`; the executable
//! `App::update` is proved to realise it. Transitions that seed the
//! worklog editor read the wall clock, so `update` promises a
//! transition for some in-range clock reading rather than a fixed one.

use vstd::prelude::*;

use crate::models::Board;
use crate::models::Issue;
use crate::models::Paginated;
use crate::models::WorklogEntry;
use crate::models::AssigneeFilter;
use crate::models::OrderByFilter;
use crate::models::StatusFilter;
use crate::time::LocalStamp;
use crate::time::epoch_to_local;
use crate::time::now_local;
use crate::text::push_char;
use crate::text::pop_char;

verus! {

/// The active screen. Modal screens record the screen to return to in
/// the single previous-screen slot.
#[derive(Debug, Clone, Copy, PartialEq, Eq, Structural)]
pub enum CurrentScreen {
    Dashboard,
    BoardsList,
    Backlog,
    IssueDetail,
    FilterModal,
    WorklogModal,
    WorklogListModal,
}

/// The field the filter modal has focused.
#[derive(Debug, Clone, Copy, PartialEq, Eq, Structural)]
pub enum FilterField {
    Assignee,
    Status,
    OrderBy,
}

/// The field the worklog modal has focused.
#[derive(Debug, Clone, Copy, PartialEq, Eq, Structural)]
pub enum WorklogField {
    Day,
    Month,
    Year,
    Hour,
    Minute,
    TimeHours,
    TimeMinutes,
    Comment,
}

/// A discrete intent or completion event applied to the state.
#[derive(Debug, Clone)]
pub enum Action {
    Tick,
    Quit,
    Resize(u16, u16),
    GoToBoards,
    GoToBacklog,
    SelectNext,
    SelectPrevious,
    Enter,
    ViewIssueDetail,
    LoadBoards,
    BoardsLoaded(Vec<Board>),
    LoadIssues(u64),
    IssuesLoaded(Paginated<Issue>),
    LoadMoreIssues,
    LoadFailed,
    OpenFilterModal,
    CloseFilterModal,
    NextFilterField,
    CycleAssigneeFilter,
    CycleStatusFilter,
    CycleOrderByFilter,
    ApplyFilter,
    OpenWorklogModal,
    CloseWorklogModal,
    NextWorklogField,
    InputWorklogDigit(char),
    InputWorklogChar(char),
    DeleteWorklogChar,
    SubmitWorklog,
    WorklogSubmitted,
    OpenWorklogListModal,
    CloseWorklogListModal,
    SelectWorklogForEdit,
    SelectWorklogForDelete,
    WorklogsLoaded(Paginated<WorklogEntry>),
    WorklogUpdated,
    WorklogDeleted,
    ShowNotification(String, String, bool),
    HideNotification,
}

/// The mathematical image of a page.
pub struct PageView<T> {
    pub items: Seq<T>,
    pub total: int,
    pub start_at: int,
    pub max_results: int,
}

impl<T> View for Paginated<T> {
    type V = PageView<T>;

    open spec fn view(&self) -> PageView<T> {
        PageView {
            items: self.items@,
            total: self.total as int,
            start_at: self.start_at as int,
            max_results: self.max_results as int,
        }
    }
}

/// The mathematical image of an action.
pub enum ActionView {
    Tick,
    Quit,
    Resize(u16, u16),
    GoToBoards,
    GoToBacklog,
    SelectNext,
    SelectPrevious,
    Enter,
    ViewIssueDetail,
    LoadBoards,
    BoardsLoaded(Seq<Board>),
    LoadIssues(u64),
    IssuesLoaded(PageView<Issue>),
    LoadMoreIssues,
    LoadFailed,
    OpenFilterModal,
    CloseFilterModal,
    NextFilterField,
    CycleAssigneeFilter,
    CycleStatusFilter,
    CycleOrderByFilter,
    ApplyFilter,
    OpenWorklogModal,
    CloseWorklogModal,
    NextWorklogField,
    InputWorklogDigit(char),
    InputWorklogChar(char),
    DeleteWorklogChar,
    SubmitWorklog,
    WorklogSubmitted,
    OpenWorklogListModal,
    CloseWorklogListModal,
    SelectWorklogForEdit,
    SelectWorklogForDelete,
    WorklogsLoaded(PageView<WorklogEntry>),
    WorklogUpdated,
    WorklogDeleted,
    ShowNotification(Seq<char>, Seq<char>, bool),
    HideNotification,
}

impl View for Action {
    type V = ActionView;

    open spec fn view(&self) -> ActionView {
        match self {
            Action::Tick => ActionView::Tick,
            Action::Quit => ActionView::Quit,
            Action::Resize(w, h) => ActionView::Resize(*w, *h),
            Action::GoToBoards => ActionView::GoToBoards,
            Action::GoToBacklog => ActionView::GoToBacklog,
            Action::SelectNext => ActionView::SelectNext,
            Action::SelectPrevious => ActionView::SelectPrevious,
            Action::Enter => ActionView::Enter,
            Action::ViewIssueDetail => ActionView::ViewIssueDetail,
            Action::LoadBoards => ActionView::LoadBoards,
            Action::BoardsLoaded(boards) => ActionView::BoardsLoaded(boards@),
            Action::LoadIssues(id) => ActionView::LoadIssues(*id),
            Action::IssuesLoaded(page) => ActionView::IssuesLoaded(page@),
            Action::LoadMoreIssues => ActionView::LoadMoreIssues,
            Action::LoadFailed => ActionView::LoadFailed,
            Action::OpenFilterModal => ActionView::OpenFilterModal,
            Action::CloseFilterModal => ActionView::CloseFilterModal,
            Action::NextFilterField => ActionView::NextFilterField,
            Action::CycleAssigneeFilter => ActionView::CycleAssigneeFilter,
            Action::CycleStatusFilter => ActionView::CycleStatusFilter,
            Action::CycleOrderByFilter => ActionView::CycleOrderByFilter,
            Action::ApplyFilter => ActionView::ApplyFilter,
            Action::OpenWorklogModal => ActionView::OpenWorklogModal,
            Action::CloseWorklogModal => ActionView::CloseWorklogModal,
            Action::NextWorklogField => ActionView::NextWorklogField,
            Action::InputWorklogDigit(c) => ActionView::InputWorklogDigit(*c),
            Action::InputWorklogChar(c) => ActionView::InputWorklogChar(*c),
            Action::DeleteWorklogChar => ActionView::DeleteWorklogChar,
            Action::SubmitWorklog => ActionView::SubmitWorklog,
            Action::WorklogSubmitted => ActionView::WorklogSubmitted,
            Action::OpenWorklogListModal => ActionView::OpenWorklogListModal,
            Action::CloseWorklogListModal => ActionView::CloseWorklogListModal,
            Action::SelectWorklogForEdit => ActionView::SelectWorklogForEdit,
            Action::SelectWorklogForDelete => ActionView::SelectWorklogForDelete,
            Action::WorklogsLoaded(page) => ActionView::WorklogsLoaded(page@),
            Action::WorklogUpdated => ActionView::WorklogUpdated,
            Action::WorklogDeleted => ActionView::WorklogDeleted,
            Action::ShowNotification(t, m, s) => ActionView::ShowNotification(t@, m@, *s),
            Action::HideNotification => ActionView::HideNotification,
        }
    }
}

/// The whole interactive state of the client.
pub struct App {
    pub should_quit: bool,
    pub current_screen: CurrentScreen,
    pub previous_screen: Option<CurrentScreen>,
    pub boards: Vec<Board>,
    pub selected_board_index: usize,
    pub issues: Vec<Issue>,
    pub selected_issue_index: usize,
    pub is_loading: bool,
    pub vertical_scroll: u16,
    pub total_issues: u64,
    pub current_board_id: Option<u64>,
    pub filter_assignee: AssigneeFilter,
    pub filter_status: StatusFilter,
    pub filter_order_by: OrderByFilter,
    pub filter_focused_field: FilterField,
    pub worklog_day: u8,
    pub worklog_month: u8,
    pub worklog_year: u16,
    pub worklog_hour: u8,
    pub worklog_minute: u8,
    pub worklog_time_hours: u8,
    pub worklog_time_minutes: u8,
    pub worklog_comment: String,
    pub worklog_focused_field: WorklogField,
    pub worklog_being_edited: Option<String>,
    pub worklogs: Vec<WorklogEntry>,
    pub selected_worklog_index: usize,
    pub total_worklogs: u64,
    pub notification_title: Option<String>,
    pub notification_message: Option<String>,
    pub notification_is_success: bool,
}

/// The mathematical image of the state.
#[verifier::ext_equal]
pub struct AppView {
    pub should_quit: bool,
    pub current_screen: CurrentScreen,
    pub previous_screen: Option<CurrentScreen>,
    pub boards: Seq<Board>,
    pub selected_board_index: int,
    pub issues: Seq<Issue>,
    pub selected_issue_index: int,
    pub is_loading: bool,
    pub vertical_scroll: int,
    pub total_issues: int,
    pub current_board_id: Option<u64>,
    pub filter_assignee: AssigneeFilter,
    pub filter_status: StatusFilter,
    pub filter_order_by: OrderByFilter,
    pub filter_focused_field: FilterField,
    pub worklog_day: int,
    pub worklog_month: int,
    pub worklog_year: int,
    pub worklog_hour: int,
    pub worklog_minute: int,
    pub worklog_time_hours: int,
    pub worklog_time_minutes: int,
    pub worklog_comment: Seq<char>,
    pub worklog_focused_field: WorklogField,
    pub worklog_being_edited: Option<Seq<char>>,
    pub worklogs: Seq<WorklogEntry>,
    pub selected_worklog_index: int,
    pub total_worklogs: int,
    pub notification_title: Option<Seq<char>>,
    pub notification_message: Option<Seq<char>>,
    pub notification_is_success: bool,
}

/// The view of an optional owned text.
pub open spec fn opt_string_view(o: Option<String>) -> Option<Seq<char>> {
    match o {
        Some(s) => Some(s@),
        None => None,
    }
}

impl View for App {
    type V = AppView;

    open spec fn view(&self) -> AppView {
        AppView {
            should_quit: self.should_quit,
            current_screen: self.current_screen,
            previous_screen: self.previous_screen,
            boards: self.boards@,
            selected_board_index: self.selected_board_index as int,
            issues: self.issues@,
            selected_issue_index: self.selected_issue_index as int,
            is_loading: self.is_loading,
            vertical_scroll: self.vertical_scroll as int,
            total_issues: self.total_issues as int,
            current_board_id: self.current_board_id,
            filter_assignee: self.filter_assignee,
            filter_status: self.filter_status,
            filter_order_by: self.filter_order_by,
            filter_focused_field: self.filter_focused_field,
            worklog_day: self.worklog_day as int,
            worklog_month: self.worklog_month as int,
            worklog_year: self.worklog_year as int,
            worklog_hour: self.worklog_hour as int,
            worklog_minute: self.worklog_minute as int,
            worklog_time_hours: self.worklog_time_hours as int,
            worklog_time_minutes: self.worklog_time_minutes as int,
            worklog_comment: self.worklog_comment@,
            worklog_focused_field: self.worklog_focused_field,
            worklog_being_edited: opt_string_view(self.worklog_being_edited),
            worklogs: self.worklogs@,
            selected_worklog_index: self.selected_worklog_index as int,
            total_worklogs: self.total_worklogs as int,
            notification_title: opt_string_view(self.notification_title),
            notification_message: opt_string_view(self.notification_message),
            notification_is_success: self.notification_is_success,
        }
    }
}

/// A bounded selection: index zero on an empty list, in range
/// otherwise.
pub open spec fn index_ok(len: nat, index: int) -> bool {
    if len == 0 {
        index == 0
    } else {
        0 <= index < len
    }
}

/// Well-formedness: selections in range and editor fields within their
/// domains. Every reachable state satisfies it.
pub open spec fn view_wf(v: AppView) -> bool {
    &&& index_ok(v.boards.len(), v.selected_board_index)
    &&& index_ok(v.issues.len(), v.selected_issue_index)
    &&& index_ok(v.worklogs.len(), v.selected_worklog_index)
    &&& 0 <= v.vertical_scroll <= 0xffff
    &&& 0 <= v.worklog_day <= 31
    &&& 0 <= v.worklog_month <= 12
    &&& 0 <= v.worklog_year <= 9999
    &&& 0 <= v.worklog_hour <= 23
    &&& 0 <= v.worklog_minute <= 59
    &&& 0 <= v.worklog_time_hours <= 99
    &&& 0 <= v.worklog_time_minutes <= 59
}

/// A fixed in-range clock reading, the witness for transitions that do
/// not read the clock.
pub open spec fn default_stamp() -> LocalStamp {
    LocalStamp { year: 2000, month: 1, day: 1, hour: 0, minute: 0 }
}

/// The year field the editor is seeded with: the clock's year held to
/// the field's domain.
pub open spec fn clamp_year(y: int) -> int {
    if y < 0 {
        0
    } else if y > 9999 {
        9999
    } else {
        y
    }
}

/// Digit accumulation with rollover: appending a digit that would push
/// the field past its domain maximum restarts the field at that digit.
pub open spec fn roll_digit(cur: int, d: int, max: int) -> int {
    if cur * 10 + d > max {
        d
    } else {
        cur * 10 + d
    }
}

/// The numeric value of a digit character; other characters count as
/// zero.
pub open spec fn spec_digit_value(c: char) -> int {
    if c == '0' {
        0
    } else if c == '1' {
        1
    } else if c == '2' {
        2
    } else if c == '3' {
        3
    } else if c == '4' {
        4
    } else if c == '5' {
        5
    } else if c == '6' {
        6
    } else if c == '7' {
        7
    } else if c == '8' {
        8
    } else if c == '9' {
        9
    } else {
        0
    }
}

/// Whether a character is a decimal digit.
pub open spec fn spec_is_digit(c: char) -> bool {
    c == '0' || c == '1' || c == '2' || c == '3' || c == '4' || c == '5' || c == '6' || c == '7'
        || c == '8' || c == '9'
}

/// The filter modal's focus rotation.
pub open spec fn next_filter_field(f: FilterField) -> FilterField {
    match f {
        FilterField::Assignee => FilterField::Status,
        FilterField::Status => FilterField::OrderBy,
        FilterField::OrderBy => FilterField::Assignee,
    }
}

/// The worklog modal's focus rotation.
pub open spec fn next_worklog_field(f: WorklogField) -> WorklogField {
    match f {
        WorklogField::Day => WorklogField::Month,
        WorklogField::Month => WorklogField::Year,
        WorklogField::Year => WorklogField::Hour,
        WorklogField::Hour => WorklogField::Minute,
        WorklogField::Minute => WorklogField::TimeHours,
        WorklogField::TimeHours => WorklogField::TimeMinutes,
        WorklogField::TimeMinutes => WorklogField::Comment,
        WorklogField::Comment => WorklogField::Day,
    }
}

/// The assignee scope rotation (wrap-around).
pub open spec fn next_assignee_filter(f: AssigneeFilter) -> AssigneeFilter {
    match f {
        AssigneeFilter::CurrentUser => AssigneeFilter::Unassigned,
        AssigneeFilter::Unassigned => AssigneeFilter::All,
        AssigneeFilter::All => AssigneeFilter::CurrentUser,
    }
}

/// The status scope rotation (wrap-around).
pub open spec fn next_status_filter(f: StatusFilter) -> StatusFilter {
    match f {
        StatusFilter::All => StatusFilter::Todo,
        StatusFilter::Todo => StatusFilter::InProgress,
        StatusFilter::InProgress => StatusFilter::Done,
        StatusFilter::Done => StatusFilter::All,
    }
}

/// The sort order rotation (wrap-around).
pub open spec fn next_order_by_filter(f: OrderByFilter) -> OrderByFilter {
    match f {
        OrderByFilter::UpdatedDesc => OrderByFilter::CreatedDesc,
        OrderByFilter::CreatedDesc => OrderByFilter::UpdatedDesc,
    }
}

/// The state with the worklog editor's date and time seeded from a
/// clock reading and its duration and comment cleared.
pub open spec fn seed_editor(pre: AppView, stamp: LocalStamp) -> AppView {
    AppView {
        worklog_day: stamp.day as int,
        worklog_month: stamp.month as int,
        worklog_year: clamp_year(stamp.year as int),
        worklog_hour: stamp.hour as int,
        worklog_minute: stamp.minute as int,
        worklog_time_hours: 0,
        worklog_time_minutes: 0,
        worklog_comment: Seq::empty(),
        ..pre
    }
}

/// Moving the selection forward: bounded on list screens, a saturating
/// scroll on the detail screen.
pub open spec fn spec_select_next(pre: AppView) -> AppView {
    match pre.current_screen {
        CurrentScreen::Dashboard | CurrentScreen::BoardsList => {
            if pre.boards.len() > 0 && pre.selected_board_index + 1 < pre.boards.len() {
                AppView { selected_board_index: pre.selected_board_index + 1, ..pre }
            } else {
                pre
            }
        },
        CurrentScreen::Backlog => {
            if pre.issues.len() > 0 && pre.selected_issue_index + 1 < pre.issues.len() {
                AppView { selected_issue_index: pre.selected_issue_index + 1, ..pre }
            } else {
                pre
            }
        },
        CurrentScreen::IssueDetail => {
            if pre.vertical_scroll < 0xffff {
                AppView { vertical_scroll: pre.vertical_scroll + 1, ..pre }
            } else {
                pre
            }
        },
        CurrentScreen::WorklogListModal => {
            if pre.worklogs.len() > 0 && pre.selected_worklog_index + 1 < pre.worklogs.len() {
                AppView { selected_worklog_index: pre.selected_worklog_index + 1, ..pre }
            } else {
                pre
            }
        },
        _ => pre,
    }
}

/// Moving the selection back: bounded below by zero everywhere, with
/// no wrap-around.
pub open spec fn spec_select_previous(pre: AppView) -> AppView {
    match pre.current_screen {
        CurrentScreen::Dashboard | CurrentScreen::BoardsList => {
            if pre.selected_board_index > 0 {
                AppView { selected_board_index: pre.selected_board_index - 1, ..pre }
            } else {
                pre
            }
        },
        CurrentScreen::Backlog => {
            if pre.selected_issue_index > 0 {
                AppView { selected_issue_index: pre.selected_issue_index - 1, ..pre }
            } else {
                pre
            }
        },
        CurrentScreen::IssueDetail => {
            if pre.vertical_scroll > 0 {
                AppView { vertical_scroll: pre.vertical_scroll - 1, ..pre }
            } else {
                pre
            }
        },
        CurrentScreen::WorklogListModal => {
            if pre.selected_worklog_index > 0 {
                AppView { selected_worklog_index: pre.selected_worklog_index - 1, ..pre }
            } else {
                pre
            }
        },
        _ => pre,
    }
}

/// Digit input: accumulation with rollover on the focused numeric
/// field, ordinary input on the comment field.
pub open spec fn spec_input_digit(pre: AppView, c: char) -> AppView {
    let d = spec_digit_value(c);
    match pre.worklog_focused_field {
        WorklogField::Day => AppView { worklog_day: roll_digit(pre.worklog_day, d, 31), ..pre },
        WorklogField::Month => AppView {
            worklog_month: roll_digit(pre.worklog_month, d, 12),
            ..pre
        },
        WorklogField::Year => AppView { worklog_year: roll_digit(pre.worklog_year, d, 9999), ..pre },
        WorklogField::Hour => AppView { worklog_hour: roll_digit(pre.worklog_hour, d, 23), ..pre },
        WorklogField::Minute => AppView {
            worklog_minute: roll_digit(pre.worklog_minute, d, 59),
            ..pre
        },
        WorklogField::TimeHours => AppView {
            worklog_time_hours: roll_digit(pre.worklog_time_hours, d, 99),
            ..pre
        },
        WorklogField::TimeMinutes => AppView {
            worklog_time_minutes: roll_digit(pre.worklog_time_minutes, d, 59),
            ..pre
        },
        WorklogField::Comment => AppView { worklog_comment: pre.worklog_comment.push(c), ..pre },
    }
}

/// Backspace: dropping the last digit of the focused numeric field, or
/// the last character of the comment.
pub open spec fn spec_delete_char(pre: AppView) -> AppView {
    match pre.worklog_focused_field {
        WorklogField::Day => AppView { worklog_day: pre.worklog_day / 10, ..pre },
        WorklogField::Month => AppView { worklog_month: pre.worklog_month / 10, ..pre },
        WorklogField::Year => AppView { worklog_year: pre.worklog_year / 10, ..pre },
        WorklogField::Hour => AppView { worklog_hour: pre.worklog_hour / 10, ..pre },
        WorklogField::Minute => AppView { worklog_minute: pre.worklog_minute / 10, ..pre },
        WorklogField::TimeHours => AppView { worklog_time_hours: pre.worklog_time_hours / 10, ..pre },
        WorklogField::TimeMinutes => AppView {
            worklog_time_minutes: pre.worklog_time_minutes / 10,
            ..pre
        },
        WorklogField::Comment => {
            if pre.worklog_comment.len() > 0 {
                AppView { worklog_comment: pre.worklog_comment.drop_last(), ..pre }
            } else {
                pre
            }
        },
    }
}

/// Opening the worklog editor on the selected entry: the modal opens
/// seeded from the entry's start instant (as the given clock reading
/// breaks it down locally), duration and comment from the entry.
pub open spec fn spec_edit_selected(pre: AppView, stamp: LocalStamp) -> AppView {
    if pre.worklogs.len() > 0 && 0 <= pre.selected_worklog_index < pre.worklogs.len() {
        let entry = pre.worklogs[pre.selected_worklog_index];
        AppView {
            previous_screen: Some(pre.current_screen),
            current_screen: CurrentScreen::WorklogModal,
            worklog_being_edited: Some(entry.id@),
            worklog_day: stamp.day as int,
            worklog_month: stamp.month as int,
            worklog_year: clamp_year(stamp.year as int),
            worklog_hour: stamp.hour as int,
            worklog_minute: stamp.minute as int,
            worklog_time_hours: if entry.time_spent_seconds / 3600 > 99 {
                99
            } else {
                entry.time_spent_seconds as int / 3600
            },
            worklog_time_minutes: (entry.time_spent_seconds as int % 3600) / 60,
            worklog_comment: match entry.comment {
                Some(c) => c@,
                None => Seq::empty(),
            },
            worklog_focused_field: WorklogField::Day,
            ..pre
        }
    } else {
        pre
    }
}

/// Closing the worklog editor after a submission or update was
/// accepted: the editor reseeds from the clock and the modal pops back
/// to the recorded screen.
pub open spec fn spec_worklog_done(pre: AppView, stamp: LocalStamp) -> AppView {
    let seeded = seed_editor(pre, stamp);
    AppView {
        current_screen: match pre.previous_screen {
            Some(prev) => prev,
            None => pre.current_screen,
        },
        previous_screen: None,
        worklog_being_edited: None,
        ..seeded
    }
}

/// A page of issues arriving: a page starting at zero is a fresh load
/// that replaces the collection and resets the selection; a later page
/// is appended with the selection kept. The reported grand total is
/// always taken over, and loading ends.
pub open spec fn spec_issues_loaded(pre: AppView, page: PageView<Issue>) -> AppView {
    if page.start_at == 0 {
        AppView {
            is_loading: false,
            current_screen: CurrentScreen::Backlog,
            issues: page.items,
            selected_issue_index: 0,
            total_issues: page.total,
            ..pre
        }
    } else {
        AppView {
            is_loading: false,
            current_screen: CurrentScreen::Backlog,
            issues: pre.issues + page.items,
            total_issues: page.total,
            ..pre
        }
    }
}

/// Opening the worklog editor afresh: the modal opens over the current
/// screen with every field seeded from the clock reading.
pub open spec fn spec_open_editor(pre: AppView, stamp: LocalStamp) -> AppView {
    let seeded = seed_editor(pre, stamp);
    AppView {
        previous_screen: Some(pre.current_screen),
        current_screen: CurrentScreen::WorklogModal,
        worklog_focused_field: WorklogField::Day,
        worklog_being_edited: None,
        ..seeded
    }
}

/// The transition relation of the state machine: the state after
/// applying one action, given the clock reading `stamp` for the
/// transitions that seed the worklog editor. Actions not relevant to
/// the current screen leave the state unchanged.
///
/// Marked opaque so that reasoning about one transition does not drag
/// in every arm; proofs reveal it where they case-split on the action.
#[verifier::opaque]
pub open spec fn spec_update(pre: AppView, a: ActionView, stamp: LocalStamp) -> AppView {
    match a {
        ActionView::Quit => AppView { should_quit: true, ..pre },
        ActionView::Tick => pre,
        ActionView::Resize(_, _) => pre,
        ActionView::Enter => pre,
        ActionView::GoToBoards => AppView {
            current_screen: CurrentScreen::BoardsList,
            vertical_scroll: 0,
            ..pre
        },
        ActionView::GoToBacklog => AppView {
            current_screen: CurrentScreen::Backlog,
            vertical_scroll: 0,
            ..pre
        },
        ActionView::LoadBoards => AppView { is_loading: true, ..pre },
        ActionView::BoardsLoaded(boards) => AppView {
            boards: boards,
            selected_board_index: 0,
            is_loading: false,
            current_screen: CurrentScreen::BoardsList,
            vertical_scroll: 0,
            ..pre
        },
        ActionView::ViewIssueDetail => {
            if pre.issues.len() > 0 {
                AppView { current_screen: CurrentScreen::IssueDetail, vertical_scroll: 0, ..pre }
            } else {
                pre
            }
        },
        ActionView::LoadIssues(board_id) => AppView {
            is_loading: true,
            current_screen: CurrentScreen::Backlog,
            issues: Seq::empty(),
            selected_issue_index: 0,
            vertical_scroll: 0,
            current_board_id: Some(board_id),
            total_issues: 0,
            ..pre
        },
        ActionView::IssuesLoaded(page) => spec_issues_loaded(pre, page),
        ActionView::LoadMoreIssues => AppView { is_loading: true, ..pre },
        ActionView::LoadFailed => AppView { is_loading: false, ..pre },
        ActionView::SelectNext => spec_select_next(pre),
        ActionView::SelectPrevious => spec_select_previous(pre),
        ActionView::OpenFilterModal => AppView {
            previous_screen: Some(pre.current_screen),
            current_screen: CurrentScreen::FilterModal,
            filter_focused_field: FilterField::Assignee,
            ..pre
        },
        ActionView::CloseFilterModal => AppView {
            current_screen: match pre.previous_screen {
                Some(prev) => prev,
                None => CurrentScreen::Backlog,
            },
            previous_screen: None,
            ..pre
        },
        ActionView::NextFilterField => AppView {
            filter_focused_field: next_filter_field(pre.filter_focused_field),
            ..pre
        },
        ActionView::CycleAssigneeFilter => AppView {
            filter_assignee: next_assignee_filter(pre.filter_assignee),
            ..pre
        },
        ActionView::CycleStatusFilter => AppView {
            filter_status: next_status_filter(pre.filter_status),
            ..pre
        },
        ActionView::CycleOrderByFilter => AppView {
            filter_order_by: next_order_by_filter(pre.filter_order_by),
            ..pre
        },
        ActionView::ApplyFilter => pre,
        ActionView::OpenWorklogModal => spec_open_editor(pre, stamp),
        ActionView::CloseWorklogModal => AppView {
            current_screen: match pre.previous_screen {
                Some(prev) => prev,
                None => CurrentScreen::IssueDetail,
            },
            previous_screen: None,
            worklog_being_edited: None,
            ..pre
        },
        ActionView::NextWorklogField => AppView {
            worklog_focused_field: next_worklog_field(pre.worklog_focused_field),
            ..pre
        },
        ActionView::InputWorklogDigit(c) => spec_input_digit(pre, c),
        ActionView::InputWorklogChar(c) => {
            if pre.worklog_focused_field == WorklogField::Comment {
                AppView { worklog_comment: pre.worklog_comment.push(c), ..pre }
            } else {
                pre
            }
        },
        ActionView::DeleteWorklogChar => spec_delete_char(pre),
        ActionView::SubmitWorklog => pre,
        ActionView::WorklogSubmitted => spec_worklog_done(pre, stamp),
        ActionView::OpenWorklogListModal => AppView {
            previous_screen: Some(pre.current_screen),
            current_screen: CurrentScreen::WorklogListModal,
            selected_worklog_index: 0,
            ..pre
        },
        ActionView::CloseWorklogListModal => AppView {
            current_screen: match pre.previous_screen {
                Some(prev) => prev,
                None => CurrentScreen::IssueDetail,
            },
            previous_screen: None,
            ..pre
        },
        ActionView::SelectWorklogForEdit => spec_edit_selected(pre, stamp),
        ActionView::SelectWorklogForDelete => pre,
        ActionView::WorklogsLoaded(page) => AppView {
            worklogs: page.items,
            selected_worklog_index: 0,
            total_worklogs: page.total,
            ..pre
        },
        ActionView::WorklogUpdated => spec_worklog_done(pre, stamp),
        ActionView::WorklogDeleted => pre,
        ActionView::ShowNotification(title, message, success) => AppView {
            notification_title: Some(title),
            notification_message: Some(message),
            notification_is_success: success,
            ..pre
        },
        ActionView::HideNotification => AppView {
            notification_title: None,
            notification_message: None,
            ..pre
        },
    }
}

/// The startup state for a given clock reading: empty collections,
/// dashboard screen, default filter, editor seeded from the clock.
pub open spec fn spec_init(stamp: LocalStamp) -> AppView {
    AppView {
        should_quit: false,
        current_screen: CurrentScreen::Dashboard,
        previous_screen: None,
        boards: Seq::empty(),
        selected_board_index: 0,
        issues: Seq::empty(),
        selected_issue_index: 0,
        is_loading: false,
        vertical_scroll: 0,
        total_issues: 0,
        current_board_id: None,
        filter_assignee: AssigneeFilter::CurrentUser,
        filter_status: StatusFilter::All,
        filter_order_by: OrderByFilter::UpdatedDesc,
        filter_focused_field: FilterField::Assignee,
        worklog_day: stamp.day as int,
        worklog_month: stamp.month as int,
        worklog_year: clamp_year(stamp.year as int),
        worklog_hour: stamp.hour as int,
        worklog_minute: stamp.minute as int,
        worklog_time_hours: 0,
        worklog_time_minutes: 0,
        worklog_comment: Seq::empty(),
        worklog_focused_field: WorklogField::Day,
        worklog_being_edited: None,
        worklogs: Seq::empty(),
        selected_worklog_index: 0,
        total_worklogs: 0,
        notification_title: None,
        notification_message: None,
        notification_is_success: false,
    }
}

/// The numeric value of a digit character; other characters count as
/// zero, as the editor treats them.
fn digit_value(c: char) -> (r: u8)
    ensures
        r == spec_digit_value(c),
        r <= 9,
{
    match c {
        '0' => 0,
        '1' => 1,
        '2' => 2,
        '3' => 3,
        '4' => 4,
        '5' => 5,
        '6' => 6,
        '7' => 7,
        '8' => 8,
        '9' => 9,
        _ => 0,
    }
}

/// The year field the editor is seeded with.
fn year_field(y: i32) -> (r: u16)
    ensures
        r as int == clamp_year(y as int),
{
    if y < 0 {
        0
    } else if y > 9999 {
        9999
    } else {
        y as u16
    }
}

impl App {
    /// Well-formedness of the state; established at startup and
    /// preserved by every transition.
    pub open spec fn wf(&self) -> bool {
        view_wf(self@)
    }

    /// The startup state: empty collections, dashboard screen, the
    /// worklog editor seeded from the current local time.
    pub fn new() -> (r: Self)
        ensures
            r.wf(),
            exists|stamp: LocalStamp|
                stamp.in_range() && #[trigger] spec_init(stamp) == r@,
    {
        let now = now_local();
        let r = App {
            should_quit: false,
            current_screen: CurrentScreen::Dashboard,
            previous_screen: None,
            boards: Vec::new(),
            selected_board_index: 0,
            issues: Vec::new(),
            selected_issue_index: 0,
            is_loading: false,
            vertical_scroll: 0,
            total_issues: 0,
            current_board_id: None,
            filter_assignee: AssigneeFilter::CurrentUser,
            filter_status: StatusFilter::All,
            filter_order_by: OrderByFilter::UpdatedDesc,
            filter_focused_field: FilterField::Assignee,
            worklog_day: now.day,
            worklog_month: now.month,
            worklog_year: year_field(now.year),
            worklog_hour: now.hour,
            worklog_minute: now.minute,
            worklog_time_hours: 0,
            worklog_time_minutes: 0,
            worklog_comment: String::new(),
            worklog_focused_field: WorklogField::Day,
            worklog_being_edited: None,
            worklogs: Vec::new(),
            selected_worklog_index: 0,
            total_worklogs: 0,
            notification_title: None,
            notification_message: None,
            notification_is_success: false,
        };
        proof {
            assert(spec_init(now) =~= r@);
        }
        r
    }

    /// The board the selection cursor rests on, when there is one.
    pub fn get_selected_board(&self) -> (r: Option<&Board>)
        ensures
            match r {
                Some(b) => self@.selected_board_index < self@.boards.len() && *b
                    == self@.boards[self@.selected_board_index],
                None => self@.selected_board_index >= self@.boards.len(),
            },
    {
        if self.selected_board_index < self.boards.len() {
            Some(&self.boards[self.selected_board_index])
        } else {
            None
        }
    }

    /// The issue the selection cursor rests on, when there is one.
    pub fn get_selected_issue(&self) -> (r: Option<&Issue>)
        ensures
            match r {
                Some(i) => self@.selected_issue_index < self@.issues.len() && *i
                    == self@.issues[self@.selected_issue_index],
                None => self@.selected_issue_index >= self@.issues.len(),
            },
    {
        if self.selected_issue_index < self.issues.len() {
            Some(&self.issues[self.selected_issue_index])
        } else {
            None
        }
    }

    /// The worklog entry the selection cursor rests on, when there is
    /// one.
    pub fn get_selected_worklog(&self) -> (r: Option<&WorklogEntry>)
        ensures
            match r {
                Some(w) => self@.selected_worklog_index < self@.worklogs.len() && *w
                    == self@.worklogs[self@.selected_worklog_index],
                None => self@.selected_worklog_index >= self@.worklogs.len(),
            },
    {
        if self.selected_worklog_index < self.worklogs.len() {
            Some(&self.worklogs[self.selected_worklog_index])
        } else {
            None
        }
    }
}

/// Well-formedness is an invariant of the state machine: every
/// transition from a well-formed state, under any in-range clock
/// reading, reaches a well-formed state.
#[verifier::rlimit(100)]
pub proof fn lemma_wf_preserved(pre: AppView, a: ActionView, stamp: LocalStamp)
    requires
        view_wf(pre),
        stamp.in_range(),
    ensures
        view_wf(spec_update(pre, a, stamp)),
{
    reveal(spec_update);
    match a {
        ActionView::SelectNext => {
            assert(view_wf(spec_select_next(pre)));
        },
        ActionView::SelectPrevious => {
            assert(view_wf(spec_select_previous(pre)));
        },
        ActionView::InputWorklogDigit(c) => {
            assert(view_wf(spec_input_digit(pre, c)));
        },
        ActionView::DeleteWorklogChar => {
            assert(view_wf(spec_delete_char(pre)));
        },
        ActionView::SelectWorklogForEdit => {
            assert(view_wf(spec_edit_selected(pre, stamp)));
        },
        _ => {},
    }
}

/// What each transition arm must show: the reached state is the
/// transition's image and stays well formed.
proof fn step_conclude(pre: AppView, act: ActionView, stamp: LocalStamp, post: AppView)
    requires
        view_wf(pre),
        stamp.in_range(),
        post == spec_update(pre, act, stamp),
    ensures
        view_wf(post),
        exists|s: LocalStamp| s.in_range() && #[trigger] spec_update(pre, act, s) == post,
{
    lemma_wf_preserved(pre, act, stamp);
}

/// Arms that leave the state unchanged.
proof fn step_noop(pre: AppView, act: ActionView, stamp: LocalStamp, post: AppView)
    requires
        view_wf(pre),
        stamp.in_range(),
        act is Tick || act is Resize || act is Enter || act is ApplyFilter || act is SubmitWorklog
            || act is SelectWorklogForDelete || act is WorklogDeleted,
        post =~= pre,
    ensures
        view_wf(post),
        exists|s: LocalStamp| s.in_range() && #[trigger] spec_update(pre, act, s) == post,
{
    reveal(spec_update);
    step_conclude(pre, act, stamp, post);
}

/// The quit flag.
proof fn step_quit(pre: AppView, act: ActionView, stamp: LocalStamp, post: AppView)
    requires
        view_wf(pre),
        stamp.in_range(),
        act is Quit,
        post =~= (AppView { should_quit: true, ..pre }),
    ensures
        view_wf(post),
        exists|s: LocalStamp| s.in_range() && #[trigger] spec_update(pre, act, s) == post,
{
    reveal(spec_update);
    step_conclude(pre, act, stamp, post);
}

/// Plain screen switches.
proof fn step_go_to(pre: AppView, act: ActionView, stamp: LocalStamp, post: AppView)
    requires
        view_wf(pre),
        stamp.in_range(),
        act is GoToBoards ==> post =~= (AppView {
            current_screen: CurrentScreen::BoardsList,
            vertical_scroll: 0,
            ..pre
        }),
        act is GoToBacklog ==> post =~= (AppView {
            current_screen: CurrentScreen::Backlog,
            vertical_scroll: 0,
            ..pre
        }),
        act is GoToBoards || act is GoToBacklog,
    ensures
        view_wf(post),
        exists|s: LocalStamp| s.in_range() && #[trigger] spec_update(pre, act, s) == post,
{
    reveal(spec_update);
    step_conclude(pre, act, stamp, post);
}

/// Arms that only raise the loading flag.
proof fn step_loading(pre: AppView, act: ActionView, stamp: LocalStamp, post: AppView)
    requires
        view_wf(pre),
        stamp.in_range(),
        act is LoadBoards || act is LoadMoreIssues,
        post =~= (AppView { is_loading: true, ..pre }),
    ensures
        view_wf(post),
        exists|s: LocalStamp| s.in_range() && #[trigger] spec_update(pre, act, s) == post,
{
    reveal(spec_update);
    step_conclude(pre, act, stamp, post);
}

/// A read that failed and degrades silently: only the loading flag
/// falls back.
proof fn step_load_failed(pre: AppView, act: ActionView, stamp: LocalStamp, post: AppView)
    requires
        view_wf(pre),
        stamp.in_range(),
        act is LoadFailed,
        post =~= (AppView { is_loading: false, ..pre }),
    ensures
        view_wf(post),
        exists|s: LocalStamp| s.in_range() && #[trigger] spec_update(pre, act, s) == post,
{
    reveal(spec_update);
    step_conclude(pre, act, stamp, post);
}

/// A boards list arriving.
proof fn step_boards_loaded(pre: AppView, act: ActionView, stamp: LocalStamp, post: AppView)
    requires
        view_wf(pre),
        stamp.in_range(),
        act matches ActionView::BoardsLoaded(bs) && post =~= (AppView {
            boards: bs,
            selected_board_index: 0,
            is_loading: false,
            current_screen: CurrentScreen::BoardsList,
            vertical_scroll: 0,
            ..pre
        }),
    ensures
        view_wf(post),
        exists|s: LocalStamp| s.in_range() && #[trigger] spec_update(pre, act, s) == post,
{
    reveal(spec_update);
    step_conclude(pre, act, stamp, post);
}

/// Opening the detail screen on a non-empty backlog.
proof fn step_view_detail(pre: AppView, act: ActionView, stamp: LocalStamp, post: AppView)
    requires
        view_wf(pre),
        stamp.in_range(),
        act is ViewIssueDetail,
        post =~= if pre.issues.len() > 0 {
            AppView { current_screen: CurrentScreen::IssueDetail, vertical_scroll: 0, ..pre }
        } else {
            pre
        },
    ensures
        view_wf(post),
        exists|s: LocalStamp| s.in_range() && #[trigger] spec_update(pre, act, s) == post,
{
    reveal(spec_update);
    step_conclude(pre, act, stamp, post);
}

/// Starting a fresh backlog load.
proof fn step_load_issues(pre: AppView, act: ActionView, stamp: LocalStamp, post: AppView)
    requires
        view_wf(pre),
        stamp.in_range(),
        act matches ActionView::LoadIssues(board_id) && post =~= (AppView {
            is_loading: true,
            current_screen: CurrentScreen::Backlog,
            issues: Seq::empty(),
            selected_issue_index: 0,
            vertical_scroll: 0,
            current_board_id: Some(board_id),
            total_issues: 0,
            ..pre
        }),
    ensures
        view_wf(post),
        exists|s: LocalStamp| s.in_range() && #[trigger] spec_update(pre, act, s) == post,
{
    reveal(spec_update);
    step_conclude(pre, act, stamp, post);
}

/// A page of issues arriving.
proof fn step_issues_loaded(pre: AppView, act: ActionView, stamp: LocalStamp, post: AppView)
    requires
        view_wf(pre),
        stamp.in_range(),
        act matches ActionView::IssuesLoaded(page) && post == spec_issues_loaded(pre, page),
    ensures
        view_wf(post),
        exists|s: LocalStamp| s.in_range() && #[trigger] spec_update(pre, act, s) == post,
{
    reveal(spec_update);
    step_conclude(pre, act, stamp, post);
}

/// Selection movement.
proof fn step_select(pre: AppView, act: ActionView, stamp: LocalStamp, post: AppView)
    requires
        view_wf(pre),
        stamp.in_range(),
        act is SelectNext ==> post == spec_select_next(pre),
        act is SelectPrevious ==> post == spec_select_previous(pre),
        act is SelectNext || act is SelectPrevious,
    ensures
        view_wf(post),
        exists|s: LocalStamp| s.in_range() && #[trigger] spec_update(pre, act, s) == post,
{
    reveal(spec_update);
    step_conclude(pre, act, stamp, post);
}

/// Opening the filter modal.
proof fn step_open_filter(pre: AppView, act: ActionView, stamp: LocalStamp, post: AppView)
    requires
        view_wf(pre),
        stamp.in_range(),
        act is OpenFilterModal,
        post =~= (AppView {
            previous_screen: Some(pre.current_screen),
            current_screen: CurrentScreen::FilterModal,
            filter_focused_field: FilterField::Assignee,
            ..pre
        }),
    ensures
        view_wf(post),
        exists|s: LocalStamp| s.in_range() && #[trigger] spec_update(pre, act, s) == post,
{
    reveal(spec_update);
    step_conclude(pre, act, stamp, post);
}

/// Closing the filter modal back to the recorded screen.
proof fn step_close_filter(pre: AppView, act: ActionView, stamp: LocalStamp, post: AppView)
    requires
        view_wf(pre),
        stamp.in_range(),
        act is CloseFilterModal,
        post =~= (AppView {
            current_screen: match pre.previous_screen {
                Some(prev) => prev,
                None => CurrentScreen::Backlog,
            },
            previous_screen: None,
            ..pre
        }),
    ensures
        view_wf(post),
        exists|s: LocalStamp| s.in_range() && #[trigger] spec_update(pre, act, s) == post,
{
    reveal(spec_update);
    step_conclude(pre, act, stamp, post);
}

/// Rotating a filter-modal field or choice.
proof fn step_filter_rotation(pre: AppView, act: ActionView, stamp: LocalStamp, post: AppView)
    requires
        view_wf(pre),
        stamp.in_range(),
        act is NextFilterField ==> post =~= (AppView {
            filter_focused_field: next_filter_field(pre.filter_focused_field),
            ..pre
        }),
        act is CycleAssigneeFilter ==> post =~= (AppView {
            filter_assignee: next_assignee_filter(pre.filter_assignee),
            ..pre
        }),
        act is CycleStatusFilter ==> post =~= (AppView {
            filter_status: next_status_filter(pre.filter_status),
            ..pre
        }),
        act is CycleOrderByFilter ==> post =~= (AppView {
            filter_order_by: next_order_by_filter(pre.filter_order_by),
            ..pre
        }),
        act is NextFilterField || act is CycleAssigneeFilter || act is CycleStatusFilter
            || act is CycleOrderByFilter,
    ensures
        view_wf(post),
        exists|s: LocalStamp| s.in_range() && #[trigger] spec_update(pre, act, s) == post,
{
    reveal(spec_update);
    step_conclude(pre, act, stamp, post);
}

/// Opening the worklog editor afresh.
proof fn step_open_editor(pre: AppView, act: ActionView, stamp: LocalStamp, post: AppView)
    requires
        view_wf(pre),
        stamp.in_range(),
        act is OpenWorklogModal,
        post == spec_open_editor(pre, stamp),
    ensures
        view_wf(post),
        exists|s: LocalStamp| s.in_range() && #[trigger] spec_update(pre, act, s) == post,
{
    reveal(spec_update);
    step_conclude(pre, act, stamp, post);
}

/// Closing the worklog editor back to the recorded screen.
proof fn step_close_editor(pre: AppView, act: ActionView, stamp: LocalStamp, post: AppView)
    requires
        view_wf(pre),
        stamp.in_range(),
        act is CloseWorklogModal,
        post =~= (AppView {
            current_screen: match pre.previous_screen {
                Some(prev) => prev,
                None => CurrentScreen::IssueDetail,
            },
            previous_screen: None,
            worklog_being_edited: None,
            ..pre
        }),
    ensures
        view_wf(post),
        exists|s: LocalStamp| s.in_range() && #[trigger] spec_update(pre, act, s) == post,
{
    reveal(spec_update);
    step_conclude(pre, act, stamp, post);
}

/// Rotating the worklog editor's focus.
proof fn step_next_worklog_field(pre: AppView, act: ActionView, stamp: LocalStamp, post: AppView)
    requires
        view_wf(pre),
        stamp.in_range(),
        act is NextWorklogField,
        post =~= (AppView {
            worklog_focused_field: next_worklog_field(pre.worklog_focused_field),
            ..pre
        }),
    ensures
        view_wf(post),
        exists|s: LocalStamp| s.in_range() && #[trigger] spec_update(pre, act, s) == post,
{
    reveal(spec_update);
    step_conclude(pre, act, stamp, post);
}

/// Typed input into the editor.
proof fn step_editor_input(pre: AppView, act: ActionView, stamp: LocalStamp, post: AppView)
    requires
        view_wf(pre),
        stamp.in_range(),
        act matches ActionView::InputWorklogDigit(c) ==> post == spec_input_digit(pre, c),
        act matches ActionView::InputWorklogChar(c) ==> post =~= if pre.worklog_focused_field
            == WorklogField::Comment {
            AppView { worklog_comment: pre.worklog_comment.push(c), ..pre }
        } else {
            pre
        },
        act is DeleteWorklogChar ==> post == spec_delete_char(pre),
        act is InputWorklogDigit || act is InputWorklogChar || act is DeleteWorklogChar,
    ensures
        view_wf(post),
        exists|s: LocalStamp| s.in_range() && #[trigger] spec_update(pre, act, s) == post,
{
    reveal(spec_update);
    step_conclude(pre, act, stamp, post);
}

/// An accepted worklog mutation resetting the editor.
proof fn step_worklog_done(pre: AppView, act: ActionView, stamp: LocalStamp, post: AppView)
    requires
        view_wf(pre),
        stamp.in_range(),
        act is WorklogSubmitted || act is WorklogUpdated,
        post == spec_worklog_done(pre, stamp),
    ensures
        view_wf(post),
        exists|s: LocalStamp| s.in_range() && #[trigger] spec_update(pre, act, s) == post,
{
    reveal(spec_update);
    step_conclude(pre, act, stamp, post);
}

/// Opening the worklog list modal.
proof fn step_open_list(pre: AppView, act: ActionView, stamp: LocalStamp, post: AppView)
    requires
        view_wf(pre),
        stamp.in_range(),
        act is OpenWorklogListModal,
        post =~= (AppView {
            previous_screen: Some(pre.current_screen),
            current_screen: CurrentScreen::WorklogListModal,
            selected_worklog_index: 0,
            ..pre
        }),
    ensures
        view_wf(post),
        exists|s: LocalStamp| s.in_range() && #[trigger] spec_update(pre, act, s) == post,
{
    reveal(spec_update);
    step_conclude(pre, act, stamp, post);
}

/// Closing the worklog list modal.
proof fn step_close_list(pre: AppView, act: ActionView, stamp: LocalStamp, post: AppView)
    requires
        view_wf(pre),
        stamp.in_range(),
        act is CloseWorklogListModal,
        post =~= (AppView {
            current_screen: match pre.previous_screen {
                Some(prev) => prev,
                None => CurrentScreen::IssueDetail,
            },
            previous_screen: None,
            ..pre
        }),
    ensures
        view_wf(post),
        exists|s: LocalStamp| s.in_range() && #[trigger] spec_update(pre, act, s) == post,
{
    reveal(spec_update);
    step_conclude(pre, act, stamp, post);
}

/// Opening the editor on the selected entry.
proof fn step_edit_selected(pre: AppView, act: ActionView, stamp: LocalStamp, post: AppView)
    requires
        view_wf(pre),
        stamp.in_range(),
        act is SelectWorklogForEdit,
        post == spec_edit_selected(pre, stamp),
    ensures
        view_wf(post),
        exists|s: LocalStamp| s.in_range() && #[trigger] spec_update(pre, act, s) == post,
{
    reveal(spec_update);
    step_conclude(pre, act, stamp, post);
}

/// The worklog collection being replaced by a fetched page.
proof fn step_worklogs_loaded(pre: AppView, act: ActionView, stamp: LocalStamp, post: AppView)
    requires
        view_wf(pre),
        stamp.in_range(),
        act matches ActionView::WorklogsLoaded(page) && post =~= (AppView {
            worklogs: page.items,
            selected_worklog_index: 0,
            total_worklogs: page.total,
            ..pre
        }),
    ensures
        view_wf(post),
        exists|s: LocalStamp| s.in_range() && #[trigger] spec_update(pre, act, s) == post,
{
    reveal(spec_update);
    step_conclude(pre, act, stamp, post);
}

/// Showing or hiding the transient notification.
proof fn step_notification(pre: AppView, act: ActionView, stamp: LocalStamp, post: AppView)
    requires
        view_wf(pre),
        stamp.in_range(),
        act matches ActionView::ShowNotification(title, message, success) ==> post =~= (AppView {
            notification_title: Some(title),
            notification_message: Some(message),
            notification_is_success: success,
            ..pre
        }),
        act is HideNotification ==> post =~= (AppView {
            notification_title: None,
            notification_message: None,
            ..pre
        }),
        act is ShowNotification || act is HideNotification,
    ensures
        view_wf(post),
        exists|s: LocalStamp| s.in_range() && #[trigger] spec_update(pre, act, s) == post,
{
    reveal(spec_update);
    step_conclude(pre, act, stamp, post);
}

impl App {
    /// Applies an arriving page of issues.
    fn apply_issues_loaded(&mut self, paginated: Paginated<Issue>)
        ensures
            final(self)@ == spec_issues_loaded(old(self)@, paginated@),
    {
        let ghost pre = self@;
        let ghost page = paginated@;
        self.is_loading = false;
        self.current_screen = CurrentScreen::Backlog;
        if paginated.start_at == 0 {
            self.issues = paginated.items;
            self.selected_issue_index = 0;
        } else {
            let mut items = paginated.items;
            self.issues.append(&mut items);
        }
        self.total_issues = paginated.total;
        proof {
            assert(self@ =~= spec_issues_loaded(pre, page));
        }
    }

    /// Moves the selection forward on the current screen.
    fn apply_select_next(&mut self)
        requires
            old(self).wf(),
        ensures
            final(self)@ == spec_select_next(old(self)@),
    {
        let ghost pre = self@;
        match self.current_screen {
            CurrentScreen::Dashboard | CurrentScreen::BoardsList => {
                if self.boards.len() > 0 {
                    let next = self.selected_board_index + 1;
                    if next < self.boards.len() {
                        self.selected_board_index = next;
                    }
                }
            },
            CurrentScreen::Backlog => {
                if self.issues.len() > 0 {
                    let next = self.selected_issue_index + 1;
                    if next < self.issues.len() {
                        self.selected_issue_index = next;
                    }
                }
            },
            CurrentScreen::IssueDetail => {
                if self.vertical_scroll < u16::MAX {
                    self.vertical_scroll = self.vertical_scroll + 1;
                }
            },
            CurrentScreen::WorklogListModal => {
                if self.worklogs.len() > 0 {
                    let next = self.selected_worklog_index + 1;
                    if next < self.worklogs.len() {
                        self.selected_worklog_index = next;
                    }
                }
            },
            _ => {},
        }
        proof {
            assert(self@ =~= spec_select_next(pre));
        }
    }

    /// Moves the selection back on the current screen.
    fn apply_select_previous(&mut self)
        ensures
            final(self)@ == spec_select_previous(old(self)@),
    {
        let ghost pre = self@;
        match self.current_screen {
            CurrentScreen::Dashboard | CurrentScreen::BoardsList => {
                if self.selected_board_index > 0 {
                    self.selected_board_index = self.selected_board_index - 1;
                }
            },
            CurrentScreen::Backlog => {
                if self.selected_issue_index > 0 {
                    self.selected_issue_index = self.selected_issue_index - 1;
                }
            },
            CurrentScreen::IssueDetail => {
                if self.vertical_scroll > 0 {
                    self.vertical_scroll = self.vertical_scroll - 1;
                }
            },
            CurrentScreen::WorklogListModal => {
                if self.selected_worklog_index > 0 {
                    self.selected_worklog_index = self.selected_worklog_index - 1;
                }
            },
            _ => {},
        }
        proof {
            assert(self@ =~= spec_select_previous(pre));
        }
    }

    /// Opens the worklog editor seeded from the current local time.
    fn apply_open_editor(&mut self)
        ensures
            exists|s: LocalStamp|
                s.in_range() && final(self)@ == #[trigger] spec_open_editor(old(self)@, s),
    {
        let ghost pre = self@;
        let now = now_local();
        self.previous_screen = Some(self.current_screen);
        self.current_screen = CurrentScreen::WorklogModal;
        self.worklog_day = now.day;
        self.worklog_month = now.month;
        self.worklog_year = year_field(now.year);
        self.worklog_hour = now.hour;
        self.worklog_minute = now.minute;
        self.worklog_time_hours = 0;
        self.worklog_time_minutes = 0;
        self.worklog_comment = String::new();
        self.worklog_focused_field = WorklogField::Day;
        self.worklog_being_edited = None;
        proof {
            assert(self@ =~= spec_open_editor(pre, now));
        }
    }

    /// Feeds one typed digit to the focused editor field.
    fn apply_input_digit(&mut self, c: char)
        ensures
            final(self)@ == spec_input_digit(old(self)@, c),
    {
        let ghost pre = self@;
        let d = digit_value(c);
        match self.worklog_focused_field {
            WorklogField::Day => {
                let new_value: u16 = (self.worklog_day as u16) * 10 + (d as u16);
                self.worklog_day = if new_value > 31 {
                    d
                } else {
                    new_value as u8
                };
            },
            WorklogField::Month => {
                let new_value: u16 = (self.worklog_month as u16) * 10 + (d as u16);
                self.worklog_month = if new_value > 12 {
                    d
                } else {
                    new_value as u8
                };
            },
            WorklogField::Year => {
                let new_value: u32 = (self.worklog_year as u32) * 10 + (d as u32);
                self.worklog_year = if new_value > 9999 {
                    d as u16
                } else {
                    new_value as u16
                };
            },
            WorklogField::Hour => {
                let new_value: u16 = (self.worklog_hour as u16) * 10 + (d as u16);
                self.worklog_hour = if new_value > 23 {
                    d
                } else {
                    new_value as u8
                };
            },
            WorklogField::Minute => {
                let new_value: u16 = (self.worklog_minute as u16) * 10 + (d as u16);
                self.worklog_minute = if new_value > 59 {
                    d
                } else {
                    new_value as u8
                };
            },
            WorklogField::TimeHours => {
                let new_value: u16 = (self.worklog_time_hours as u16) * 10 + (d as u16);
                self.worklog_time_hours = if new_value > 99 {
                    d
                } else {
                    new_value as u8
                };
            },
            WorklogField::TimeMinutes => {
                let new_value: u16 = (self.worklog_time_minutes as u16) * 10 + (d as u16);
                self.worklog_time_minutes = if new_value > 59 {
                    d
                } else {
                    new_value as u8
                };
            },
            WorklogField::Comment => {
                push_char(&mut self.worklog_comment, c);
            },
        }
        proof {
            assert(self@ =~= spec_input_digit(pre, c));
        }
    }

    /// Applies backspace to the focused editor field.
    fn apply_delete_char(&mut self)
        ensures
            final(self)@ == spec_delete_char(old(self)@),
    {
        let ghost pre = self@;
        match self.worklog_focused_field {
            WorklogField::Day => {
                self.worklog_day = self.worklog_day / 10;
            },
            WorklogField::Month => {
                self.worklog_month = self.worklog_month / 10;
            },
            WorklogField::Year => {
                self.worklog_year = self.worklog_year / 10;
            },
            WorklogField::Hour => {
                self.worklog_hour = self.worklog_hour / 10;
            },
            WorklogField::Minute => {
                self.worklog_minute = self.worklog_minute / 10;
            },
            WorklogField::TimeHours => {
                self.worklog_time_hours = self.worklog_time_hours / 10;
            },
            WorklogField::TimeMinutes => {
                self.worklog_time_minutes = self.worklog_time_minutes / 10;
            },
            WorklogField::Comment => {
                let _ = pop_char(&mut self.worklog_comment);
            },
        }
        proof {
            assert(self@ =~= spec_delete_char(pre));
        }
    }

    /// Resets the editor and pops back after an accepted mutation.
    fn apply_worklog_done(&mut self)
        ensures
            exists|s: LocalStamp|
                s.in_range() && final(self)@ == #[trigger] spec_worklog_done(old(self)@, s),
    {
        let ghost pre = self@;
        let now = now_local();
        self.worklog_day = now.day;
        self.worklog_month = now.month;
        self.worklog_year = year_field(now.year);
        self.worklog_hour = now.hour;
        self.worklog_minute = now.minute;
        self.worklog_time_hours = 0;
        self.worklog_time_minutes = 0;
        self.worklog_comment = String::new();
        match self.previous_screen {
            Some(prev) => {
                self.current_screen = prev;
                self.previous_screen = None;
            },
            None => {},
        }
        self.worklog_being_edited = None;
        proof {
            assert(self@ =~= spec_worklog_done(pre, now));
        }
    }

    /// Opens the worklog editor on the selected entry.
    fn apply_edit_selected(&mut self)
        ensures
            exists|s: LocalStamp|
                s.in_range() && final(self)@ == #[trigger] spec_edit_selected(old(self)@, s),
    {
        let ghost pre = self@;
        if self.selected_worklog_index < self.worklogs.len() {
            let started: i64 = self.worklogs[self.selected_worklog_index].started_at;
            let secs: u64 = self.worklogs[self.selected_worklog_index].time_spent_seconds;
            let entry_id = self.worklogs[self.selected_worklog_index].id.clone();
            let comment = match &self.worklogs[self.selected_worklog_index].comment {
                Some(c) => c.clone(),
                None => String::new(),
            };
            let seeded = match epoch_to_local(started) {
                Some(s) => s,
                None => LocalStamp { year: 2000, month: 1, day: 1, hour: 0, minute: 0 },
            };
            self.previous_screen = Some(self.current_screen);
            self.current_screen = CurrentScreen::WorklogModal;
            self.worklog_being_edited = Some(entry_id);
            self.worklog_day = seeded.day;
            self.worklog_month = seeded.month;
            self.worklog_year = year_field(seeded.year);
            self.worklog_hour = seeded.hour;
            self.worklog_minute = seeded.minute;
            let hours: u64 = secs / 3600;
            self.worklog_time_hours = if hours > 99 {
                99
            } else {
                hours as u8
            };
            self.worklog_time_minutes = ((secs % 3600) / 60) as u8;
            self.worklog_comment = comment;
            self.worklog_focused_field = WorklogField::Day;
            proof {
                assert(self@ =~= spec_edit_selected(pre, seeded));
            }
        } else {
            proof {
                assert(self@ =~= spec_edit_selected(pre, default_stamp()));
            }
        }
    }

    /// Transitions of the board and backlog list screens.
    fn update_lists(&mut self, action: Action)
        requires
            old(self).wf(),
            action@ is Quit || action@ is Tick || action@ is Resize || action@ is GoToBoards
                || action@ is GoToBacklog || action@ is SelectNext || action@ is SelectPrevious
                || action@ is Enter || action@ is ViewIssueDetail || action@ is LoadBoards
                || action@ is BoardsLoaded || action@ is LoadIssues || action@ is IssuesLoaded
                || action@ is LoadMoreIssues || action@ is LoadFailed,
        ensures
            final(self).wf(),
            exists|stamp: LocalStamp|
                stamp.in_range() && #[trigger] spec_update(old(self)@, action@, stamp)
                    == final(self)@,
    {
        let ghost pre = self@;
        let ghost act = action@;
        let ghost mut stamp = default_stamp();
        match action {
            Action::Quit => {
                self.should_quit = true;
                proof {
                    step_quit(pre, act, stamp, self@);
                }
            },
            Action::Tick => {
                proof {
                    step_noop(pre, act, stamp, self@);
                }
            },
            Action::Resize(_, _) => {
                proof {
                    step_noop(pre, act, stamp, self@);
                }
            },
            Action::GoToBoards => {
                self.current_screen = CurrentScreen::BoardsList;
                self.vertical_scroll = 0;
                proof {
                    step_go_to(pre, act, stamp, self@);
                }
            },
            Action::GoToBacklog => {
                self.current_screen = CurrentScreen::Backlog;
                self.vertical_scroll = 0;
                proof {
                    step_go_to(pre, act, stamp, self@);
                }
            },
            Action::SelectNext => {
                self.apply_select_next();
                proof {
                    step_select(pre, act, stamp, self@);
                }
            },
            Action::SelectPrevious => {
                self.apply_select_previous();
                proof {
                    step_select(pre, act, stamp, self@);
                }
            },
            Action::Enter => {
                proof {
                    step_noop(pre, act, stamp, self@);
                }
            },
            Action::ViewIssueDetail => {
                if self.issues.len() > 0 {
                    self.current_screen = CurrentScreen::IssueDetail;
                    self.vertical_scroll = 0;
                }
                proof {
                    step_view_detail(pre, act, stamp, self@);
                }
            },
            Action::LoadBoards => {
                self.is_loading = true;
                proof {
                    step_loading(pre, act, stamp, self@);
                }
            },
            Action::BoardsLoaded(boards) => {
                self.boards = boards;
                self.selected_board_index = 0;
                self.is_loading = false;
                self.current_screen = CurrentScreen::BoardsList;
                self.vertical_scroll = 0;
                proof {
                    step_boards_loaded(pre, act, stamp, self@);
                }
            },
            Action::LoadIssues(board_id) => {
                self.is_loading = true;
                self.current_screen = CurrentScreen::Backlog;
                self.issues.clear();
                self.selected_issue_index = 0;
                self.vertical_scroll = 0;
                self.current_board_id = Some(board_id);
                self.total_issues = 0;
                proof {
                    step_load_issues(pre, act, stamp, self@);
                }
            },
            Action::IssuesLoaded(paginated) => {
                self.apply_issues_loaded(paginated);
                proof {
                    step_issues_loaded(pre, act, stamp, self@);
                }
            },
            Action::LoadMoreIssues => {
                self.is_loading = true;
                proof {
                    step_loading(pre, act, stamp, self@);
                }
            },
            Action::LoadFailed => {
                self.is_loading = false;
                proof {
                    step_load_failed(pre, act, stamp, self@);
                }
            },
            _ => {
                proof {
                    assert(false);
                }
            },
        }
    }

    /// Transitions of the filter modal and the notification.
    fn update_filters(&mut self, action: Action)
        requires
            old(self).wf(),
            action@ is OpenFilterModal || action@ is CloseFilterModal
                || action@ is NextFilterField || action@ is CycleAssigneeFilter
                || action@ is CycleStatusFilter || action@ is CycleOrderByFilter
                || action@ is ApplyFilter || action@ is ShowNotification
                || action@ is HideNotification,
        ensures
            final(self).wf(),
            exists|stamp: LocalStamp|
                stamp.in_range() && #[trigger] spec_update(old(self)@, action@, stamp)
                    == final(self)@,
    {
        let ghost pre = self@;
        let ghost act = action@;
        let ghost mut stamp = default_stamp();
        match action {
            Action::OpenFilterModal => {
                self.previous_screen = Some(self.current_screen);
                self.current_screen = CurrentScreen::FilterModal;
                self.filter_focused_field = FilterField::Assignee;
                proof {
                    step_open_filter(pre, act, stamp, self@);
                }
            },
            Action::CloseFilterModal => {
                match self.previous_screen {
                    Some(prev) => {
                        self.current_screen = prev;
                        self.previous_screen = None;
                    },
                    None => {
                        self.current_screen = CurrentScreen::Backlog;
                    },
                }
                proof {
                    step_close_filter(pre, act, stamp, self@);
                }
            },
            Action::NextFilterField => {
                self.filter_focused_field = match self.filter_focused_field {
                    FilterField::Assignee => FilterField::Status,
                    FilterField::Status => FilterField::OrderBy,
                    FilterField::OrderBy => FilterField::Assignee,
                };
                proof {
                    step_filter_rotation(pre, act, stamp, self@);
                }
            },
            Action::CycleAssigneeFilter => {
                self.filter_assignee = match self.filter_assignee {
                    AssigneeFilter::CurrentUser => AssigneeFilter::Unassigned,
                    AssigneeFilter::Unassigned => AssigneeFilter::All,
                    AssigneeFilter::All => AssigneeFilter::CurrentUser,
                };
                proof {
                    step_filter_rotation(pre, act, stamp, self@);
                }
            },
            Action::CycleStatusFilter => {
                self.filter_status = match self.filter_status {
                    StatusFilter::All => StatusFilter::Todo,
                    StatusFilter::Todo => StatusFilter::InProgress,
                    StatusFilter::InProgress => StatusFilter::Done,
                    StatusFilter::Done => StatusFilter::All,
                };
                proof {
                    step_filter_rotation(pre, act, stamp, self@);
                }
            },
            Action::CycleOrderByFilter => {
                self.filter_order_by = match self.filter_order_by {
                    OrderByFilter::UpdatedDesc => OrderByFilter::CreatedDesc,
                    OrderByFilter::CreatedDesc => OrderByFilter::UpdatedDesc,
                };
                proof {
                    step_filter_rotation(pre, act, stamp, self@);
                }
            },
            Action::ApplyFilter => {
                proof {
                    step_noop(pre, act, stamp, self@);
                }
            },
            Action::ShowNotification(title, message, success) => {
                self.notification_title = Some(title);
                self.notification_message = Some(message);
                self.notification_is_success = success;
                proof {
                    step_notification(pre, act, stamp, self@);
                }
            },
            Action::HideNotification => {
                self.notification_title = None;
                self.notification_message = None;
                proof {
                    step_notification(pre, act, stamp, self@);
                }
            },
            _ => {
                proof {
                    assert(false);
                }
            },
        }
    }

    /// Transitions of the worklog editor and worklog list modal.
    fn update_editor(&mut self, action: Action)
        requires
            old(self).wf(),
            action@ is OpenWorklogModal || action@ is CloseWorklogModal
                || action@ is NextWorklogField || action@ is InputWorklogDigit
                || action@ is InputWorklogChar || action@ is DeleteWorklogChar
                || action@ is SubmitWorklog || action@ is WorklogSubmitted
                || action@ is WorklogUpdated || action@ is OpenWorklogListModal
                || action@ is CloseWorklogListModal || action@ is SelectWorklogForEdit
                || action@ is SelectWorklogForDelete || action@ is WorklogsLoaded
                || action@ is WorklogDeleted,
        ensures
            final(self).wf(),
            exists|stamp: LocalStamp|
                stamp.in_range() && #[trigger] spec_update(old(self)@, action@, stamp)
                    == final(self)@,
    {
        let ghost pre = self@;
        let ghost act = action@;
        let ghost mut stamp = default_stamp();
        match action {
            Action::OpenWorklogModal => {
                self.apply_open_editor();
                proof {
                    stamp = choose|s: LocalStamp|
                        s.in_range() && self@ == #[trigger] spec_open_editor(pre, s);
                    step_open_editor(pre, act, stamp, self@);
                }
            },
            Action::CloseWorklogModal => {
                match self.previous_screen {
                    Some(prev) => {
                        self.current_screen = prev;
                        self.previous_screen = None;
                    },
                    None => {
                        self.current_screen = CurrentScreen::IssueDetail;
                    },
                }
                self.worklog_being_edited = None;
                proof {
                    step_close_editor(pre, act, stamp, self@);
                }
            },
            Action::NextWorklogField => {
                self.worklog_focused_field = match self.worklog_focused_field {
                    WorklogField::Day => WorklogField::Month,
                    WorklogField::Month => WorklogField::Year,
                    WorklogField::Year => WorklogField::Hour,
                    WorklogField::Hour => WorklogField::Minute,
                    WorklogField::Minute => WorklogField::TimeHours,
                    WorklogField::TimeHours => WorklogField::TimeMinutes,
                    WorklogField::TimeMinutes => WorklogField::Comment,
                    WorklogField::Comment => WorklogField::Day,
                };
                proof {
                    step_next_worklog_field(pre, act, stamp, self@);
                }
            },
            Action::InputWorklogDigit(c) => {
                self.apply_input_digit(c);
                proof {
                    step_editor_input(pre, act, stamp, self@);
                }
            },
            Action::InputWorklogChar(c) => {
                if self.worklog_focused_field == WorklogField::Comment {
                    push_char(&mut self.worklog_comment, c);
                }
                proof {
                    step_editor_input(pre, act, stamp, self@);
                }
            },
            Action::DeleteWorklogChar => {
                self.apply_delete_char();
                proof {
                    step_editor_input(pre, act, stamp, self@);
                }
            },
            Action::SubmitWorklog => {
                proof {
                    step_noop(pre, act, stamp, self@);
                }
            },
            Action::WorklogSubmitted | Action::WorklogUpdated => {
                self.apply_worklog_done();
                proof {
                    stamp = choose|s: LocalStamp|
                        s.in_range() && self@ == #[trigger] spec_worklog_done(pre, s);
                    step_worklog_done(pre, act, stamp, self@);
                }
            },
            Action::OpenWorklogListModal => {
                self.previous_screen = Some(self.current_screen);
                self.current_screen = CurrentScreen::WorklogListModal;
                self.selected_worklog_index = 0;
                proof {
                    step_open_list(pre, act, stamp, self@);
                }
            },
            Action::CloseWorklogListModal => {
                match self.previous_screen {
                    Some(prev) => {
                        self.current_screen = prev;
                        self.previous_screen = None;
                    },
                    None => {
                        self.current_screen = CurrentScreen::IssueDetail;
                    },
                }
                proof {
                    step_close_list(pre, act, stamp, self@);
                }
            },
            Action::SelectWorklogForEdit => {
                self.apply_edit_selected();
                proof {
                    stamp = choose|s: LocalStamp|
                        s.in_range() && self@ == #[trigger] spec_edit_selected(pre, s);
                    step_edit_selected(pre, act, stamp, self@);
                }
            },
            Action::SelectWorklogForDelete => {
                proof {
                    step_noop(pre, act, stamp, self@);
                }
            },
            Action::WorklogsLoaded(paginated) => {
                self.worklogs = paginated.items;
                self.selected_worklog_index = 0;
                self.total_worklogs = paginated.total;
                proof {
                    step_worklogs_loaded(pre, act, stamp, self@);
                }
            },
            Action::WorklogDeleted => {
                proof {
                    step_noop(pre, act, stamp, self@);
                }
            },
            _ => {
                proof {
                    assert(false);
                }
            },
        }
    }

    /// Applies one action to the state: the pure transition
    /// `spec_update`, under some in-range clock reading. Only the
    /// transitions that seed the worklog editor read the clock; all
    /// others are independent of the reading.
    pub fn update(&mut self, action: Action)
        requires
            old(self).wf(),
        ensures
            final(self).wf(),
            exists|stamp: LocalStamp|
                stamp.in_range() && #[trigger] spec_update(old(self)@, action@, stamp)
                    == final(self)@,
    {
        let group: u8 = match &action {
            Action::Quit | Action::Tick | Action::Resize(_, _) | Action::GoToBoards
            | Action::GoToBacklog | Action::SelectNext | Action::SelectPrevious | Action::Enter
            | Action::ViewIssueDetail | Action::LoadBoards | Action::BoardsLoaded(_)
            | Action::LoadIssues(_) | Action::IssuesLoaded(_) | Action::LoadMoreIssues
            | Action::LoadFailed => 0,
            Action::OpenFilterModal | Action::CloseFilterModal | Action::NextFilterField
            | Action::CycleAssigneeFilter | Action::CycleStatusFilter
            | Action::CycleOrderByFilter | Action::ApplyFilter
            | Action::ShowNotification(_, _, _) | Action::HideNotification => 1,
            Action::OpenWorklogModal | Action::CloseWorklogModal | Action::NextWorklogField
            | Action::InputWorklogDigit(_) | Action::InputWorklogChar(_)
            | Action::DeleteWorklogChar | Action::SubmitWorklog | Action::WorklogSubmitted
            | Action::WorklogUpdated | Action::OpenWorklogListModal
            | Action::CloseWorklogListModal | Action::SelectWorklogForEdit
            | Action::SelectWorklogForDelete | Action::WorklogsLoaded(_)
            | Action::WorklogDeleted => 2,
        };
        if group == 0 {
            self.update_lists(action);
        } else if group == 1 {
            self.update_filters(action);
        } else {
            self.update_editor(action);
        }
    }
}


/// Law: a boards list arriving resets the board selection to the top
/// and ends loading, whatever state it arrives in.
pub proof fn lemma_boards_loaded_resets(pre: AppView, boards: Seq<Board>, stamp: LocalStamp)
    ensures
        spec_update(pre, ActionView::BoardsLoaded(boards), stamp).boards == boards,
        spec_update(pre, ActionView::BoardsLoaded(boards), stamp).selected_board_index == 0,
        !spec_update(pre, ActionView::BoardsLoaded(boards), stamp).is_loading,
{
    reveal(spec_update);
}

/// Law: a page of issues starting at zero replaces the collection
/// exactly with the page's items and resets the selection; a later
/// page appends its items and keeps the selection. Either way the
/// reported total is taken over and loading ends.
pub proof fn lemma_issues_loaded_pages(pre: AppView, page: PageView<Issue>, stamp: LocalStamp)
    ensures
        page.start_at == 0 ==> spec_update(pre, ActionView::IssuesLoaded(page), stamp).issues
            == page.items,
        page.start_at == 0 ==> spec_update(
            pre,
            ActionView::IssuesLoaded(page),
            stamp,
        ).selected_issue_index == 0,
        page.start_at != 0 ==> spec_update(pre, ActionView::IssuesLoaded(page), stamp).issues
            == pre.issues + page.items,
        page.start_at != 0 ==> spec_update(
            pre,
            ActionView::IssuesLoaded(page),
            stamp,
        ).selected_issue_index == pre.selected_issue_index,
        spec_update(pre, ActionView::IssuesLoaded(page), stamp).total_issues == page.total,
        !spec_update(pre, ActionView::IssuesLoaded(page), stamp).is_loading,
{
    reveal(spec_update);
}

/// Law: hiding the notification twice in succession is the same as
/// hiding it once, under any clock readings.
pub proof fn lemma_hide_notification_idempotent(pre: AppView, s1: LocalStamp, s2: LocalStamp)
    ensures
        spec_update(
            spec_update(pre, ActionView::HideNotification, s1),
            ActionView::HideNotification,
            s2,
        ) == spec_update(pre, ActionView::HideNotification, s1),
{
    reveal(spec_update);
    assert(spec_update(
        spec_update(pre, ActionView::HideNotification, s1),
        ActionView::HideNotification,
        s2,
    ) =~= spec_update(pre, ActionView::HideNotification, s1));
}

/// Law: on the backlog, moving the selection forward on an empty list
/// leaves it at the top, and moving back from the top does not wrap.
pub proof fn lemma_selection_bounded(pre: AppView, stamp: LocalStamp)
    requires
        view_wf(pre),
        pre.current_screen == CurrentScreen::Backlog,
    ensures
        pre.issues.len() == 0 ==> spec_update(
            pre,
            ActionView::SelectNext,
            stamp,
        ).selected_issue_index == 0,
        pre.selected_issue_index == 0 ==> spec_update(
            pre,
            ActionView::SelectPrevious,
            stamp,
        ).selected_issue_index == 0,
{
    reveal(spec_update);
}

} // verus!
