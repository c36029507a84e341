//! Screen-polymorphic key bindings: which action, if any, a key press
//! maps to, keyed by the current screen and its focus sub-state.

use vstd::prelude::*;

use crate::app::Action;
use crate::app::App;
use crate::app::AppView;
use crate::app::CurrentScreen;
use crate::app::FilterField;
use crate::app::WorklogField;
use crate::app::spec_is_digit;

verus! {

/// A key press, reduced to what the bindings distinguish.
#[derive(Debug, Clone, Copy, PartialEq, Eq, Structural)]
pub enum Key {
    Char(char),
    Enter,
    Esc,
    Up,
    Down,
    Left,
    Right,
    Tab,
    BackTab,
    Backspace,
    Other,
}

/// Whether a character counts as alphanumeric, by Unicode's
/// classification; a function of the character alone.
pub uninterp spec fn alphanumeric_char(c: char) -> bool;

/// Relies on char::is_alphanumeric: the Unicode classification of one
/// character.
#[verifier::external_body]
fn char_is_alphanumeric(c: char) -> (r: bool)
    ensures
        r == alphanumeric_char(c),
{
    c.is_alphanumeric()
}

/// The bindings of the board list (and the dashboard it opens over).
pub open spec fn spec_boards_keys(key: Key, v: AppView) -> Option<Action> {
    match key {
        Key::Char(c) => if c == 'q' {
            Some(Action::Quit)
        } else if c == 'b' {
            Some(Action::LoadBoards)
        } else if c == 'j' {
            Some(Action::SelectNext)
        } else if c == 'k' {
            Some(Action::SelectPrevious)
        } else {
            None
        },
        Key::Enter => if v.selected_board_index < v.boards.len() {
            Some(Action::LoadIssues(v.boards[v.selected_board_index].id))
        } else {
            None
        },
        Key::Down => Some(Action::SelectNext),
        Key::Up => Some(Action::SelectPrevious),
        _ => None,
    }
}

/// The bindings of the backlog list.
pub open spec fn spec_backlog_keys(key: Key) -> Option<Action> {
    match key {
        Key::Esc => Some(Action::GoToBoards),
        Key::Char(c) => if c == 'b' {
            Some(Action::GoToBoards)
        } else if c == 'q' {
            Some(Action::Quit)
        } else if c == 'f' {
            Some(Action::OpenFilterModal)
        } else if c == 'j' {
            Some(Action::SelectNext)
        } else if c == 'k' {
            Some(Action::SelectPrevious)
        } else {
            None
        },
        Key::Enter => Some(Action::ViewIssueDetail),
        Key::Down => Some(Action::SelectNext),
        Key::Up => Some(Action::SelectPrevious),
        _ => None,
    }
}

/// The bindings of the issue detail screen.
pub open spec fn spec_detail_keys(key: Key) -> Option<Action> {
    match key {
        Key::Esc => Some(Action::GoToBacklog),
        Key::Char(c) => if c == 'q' {
            Some(Action::Quit)
        } else if c == 'w' {
            Some(Action::OpenWorklogModal)
        } else if c == 'l' {
            Some(Action::OpenWorklogListModal)
        } else if c == 'j' {
            Some(Action::SelectNext)
        } else if c == 'k' {
            Some(Action::SelectPrevious)
        } else {
            None
        },
        Key::Down => Some(Action::SelectNext),
        Key::Up => Some(Action::SelectPrevious),
        _ => None,
    }
}

/// The bindings of the filter modal; the horizontal keys cycle the
/// focused field's choice.
pub open spec fn spec_filter_modal_keys(key: Key, v: AppView) -> Option<Action> {
    let cycle = match v.filter_focused_field {
        FilterField::Assignee => Action::CycleAssigneeFilter,
        FilterField::Status => Action::CycleStatusFilter,
        FilterField::OrderBy => Action::CycleOrderByFilter,
    };
    match key {
        Key::Esc => Some(Action::CloseFilterModal),
        Key::Enter => Some(Action::ApplyFilter),
        Key::Tab => Some(Action::NextFilterField),
        Key::BackTab => Some(Action::NextFilterField),
        Key::Down => Some(Action::NextFilterField),
        Key::Up => Some(Action::NextFilterField),
        Key::Left => Some(cycle),
        Key::Right => Some(cycle),
        Key::Char(c) => if c == 'q' {
            Some(Action::Quit)
        } else if c == 'j' || c == 'k' {
            Some(Action::NextFilterField)
        } else if c == 'h' || c == 'l' {
            Some(cycle)
        } else {
            None
        },
        _ => None,
    }
}

/// The bindings of the worklog editor: digits accumulate into the
/// focused numeric field, other accepted characters type into the
/// comment.
pub open spec fn spec_worklog_modal_keys(key: Key, v: AppView) -> Option<Action> {
    match key {
        Key::Esc => Some(Action::CloseWorklogModal),
        Key::Enter => Some(Action::SubmitWorklog),
        Key::Tab => Some(Action::NextWorklogField),
        Key::BackTab => Some(Action::NextWorklogField),
        Key::Down => Some(Action::NextWorklogField),
        Key::Up => Some(Action::NextWorklogField),
        Key::Backspace => Some(Action::DeleteWorklogChar),
        Key::Char(c) => if spec_is_digit(c) {
            if v.worklog_focused_field == WorklogField::Comment {
                Some(Action::InputWorklogChar(c))
            } else {
                Some(Action::InputWorklogDigit(c))
            }
        } else if alphanumeric_char(c) || c == ' ' {
            Some(Action::InputWorklogChar(c))
        } else {
            None
        },
        _ => None,
    }
}

/// The bindings of the worklog list modal.
pub open spec fn spec_worklog_list_modal_keys(key: Key) -> Option<Action> {
    match key {
        Key::Esc => Some(Action::CloseWorklogListModal),
        Key::Enter => Some(Action::SelectWorklogForEdit),
        Key::Char(c) => if c == 'q' {
            Some(Action::Quit)
        } else if c == 'e' {
            Some(Action::SelectWorklogForEdit)
        } else if c == 'd' {
            Some(Action::SelectWorklogForDelete)
        } else if c == 'j' {
            Some(Action::SelectNext)
        } else if c == 'k' {
            Some(Action::SelectPrevious)
        } else {
            None
        },
        Key::Down => Some(Action::SelectNext),
        Key::Up => Some(Action::SelectPrevious),
        _ => None,
    }
}

/// The action a key press maps to, keyed by the current screen.
pub open spec fn spec_from_event(key: Key, v: AppView) -> Option<Action> {
    match v.current_screen {
        CurrentScreen::Dashboard | CurrentScreen::BoardsList => spec_boards_keys(key, v),
        CurrentScreen::Backlog => spec_backlog_keys(key),
        CurrentScreen::IssueDetail => spec_detail_keys(key),
        CurrentScreen::FilterModal => spec_filter_modal_keys(key, v),
        CurrentScreen::WorklogModal => spec_worklog_modal_keys(key, v),
        CurrentScreen::WorklogListModal => spec_worklog_list_modal_keys(key),
    }
}

/// Maps a key press to an action under the current screen's bindings.
pub fn from_event(key: Key, app: &App) -> (r: Option<Action>)
    ensures
        r == spec_from_event(key, app@),
{
    match app.current_screen {
        CurrentScreen::Dashboard | CurrentScreen::BoardsList => match key {
            Key::Char(c) => {
                if c == 'q' {
                    Some(Action::Quit)
                } else if c == 'b' {
                    Some(Action::LoadBoards)
                } else if c == 'j' {
                    Some(Action::SelectNext)
                } else if c == 'k' {
                    Some(Action::SelectPrevious)
                } else {
                    None
                }
            },
            Key::Enter => match app.get_selected_board() {
                Some(board) => Some(Action::LoadIssues(board.id)),
                None => None,
            },
            Key::Down => Some(Action::SelectNext),
            Key::Up => Some(Action::SelectPrevious),
            _ => None,
        },
        CurrentScreen::Backlog => match key {
            Key::Esc => Some(Action::GoToBoards),
            Key::Char(c) => {
                if c == 'b' {
                    Some(Action::GoToBoards)
                } else if c == 'q' {
                    Some(Action::Quit)
                } else if c == 'f' {
                    Some(Action::OpenFilterModal)
                } else if c == 'j' {
                    Some(Action::SelectNext)
                } else if c == 'k' {
                    Some(Action::SelectPrevious)
                } else {
                    None
                }
            },
            Key::Enter => Some(Action::ViewIssueDetail),
            Key::Down => Some(Action::SelectNext),
            Key::Up => Some(Action::SelectPrevious),
            _ => None,
        },
        CurrentScreen::IssueDetail => match key {
            Key::Esc => Some(Action::GoToBacklog),
            Key::Char(c) => {
                if c == 'q' {
                    Some(Action::Quit)
                } else if c == 'w' {
                    Some(Action::OpenWorklogModal)
                } else if c == 'l' {
                    Some(Action::OpenWorklogListModal)
                } else if c == 'j' {
                    Some(Action::SelectNext)
                } else if c == 'k' {
                    Some(Action::SelectPrevious)
                } else {
                    None
                }
            },
            Key::Down => Some(Action::SelectNext),
            Key::Up => Some(Action::SelectPrevious),
            _ => None,
        },
        CurrentScreen::FilterModal => {
            let cycle = match app.filter_focused_field {
                FilterField::Assignee => Action::CycleAssigneeFilter,
                FilterField::Status => Action::CycleStatusFilter,
                FilterField::OrderBy => Action::CycleOrderByFilter,
            };
            match key {
                Key::Esc => Some(Action::CloseFilterModal),
                Key::Enter => Some(Action::ApplyFilter),
                Key::Tab => Some(Action::NextFilterField),
                Key::BackTab => Some(Action::NextFilterField),
                Key::Down => Some(Action::NextFilterField),
                Key::Up => Some(Action::NextFilterField),
                Key::Left => Some(cycle),
                Key::Right => Some(cycle),
                Key::Char(c) => {
                    if c == 'q' {
                        Some(Action::Quit)
                    } else if c == 'j' || c == 'k' {
                        Some(Action::NextFilterField)
                    } else if c == 'h' || c == 'l' {
                        Some(cycle)
                    } else {
                        None
                    }
                },
                _ => None,
            }
        },
        CurrentScreen::WorklogModal => match key {
            Key::Esc => Some(Action::CloseWorklogModal),
            Key::Enter => Some(Action::SubmitWorklog),
            Key::Tab => Some(Action::NextWorklogField),
            Key::BackTab => Some(Action::NextWorklogField),
            Key::Down => Some(Action::NextWorklogField),
            Key::Up => Some(Action::NextWorklogField),
            Key::Backspace => Some(Action::DeleteWorklogChar),
            Key::Char(c) => {
                if c == '0' || c == '1' || c == '2' || c == '3' || c == '4' || c == '5' || c == '6'
                    || c == '7' || c == '8' || c == '9' {
                    if app.worklog_focused_field == WorklogField::Comment {
                        Some(Action::InputWorklogChar(c))
                    } else {
                        Some(Action::InputWorklogDigit(c))
                    }
                } else if char_is_alphanumeric(c) || c == ' ' {
                    Some(Action::InputWorklogChar(c))
                } else {
                    None
                }
            },
            _ => None,
        },
        CurrentScreen::WorklogListModal => match key {
            Key::Esc => Some(Action::CloseWorklogListModal),
            Key::Enter => Some(Action::SelectWorklogForEdit),
            Key::Char(c) => {
                if c == 'q' {
                    Some(Action::Quit)
                } else if c == 'e' {
                    Some(Action::SelectWorklogForEdit)
                } else if c == 'd' {
                    Some(Action::SelectWorklogForDelete)
                } else if c == 'j' {
                    Some(Action::SelectNext)
                } else if c == 'k' {
                    Some(Action::SelectPrevious)
                } else {
                    None
                }
            },
            Key::Down => Some(Action::SelectNext),
            Key::Up => Some(Action::SelectPrevious),
            _ => None,
        },
    }
}

} // verus!
