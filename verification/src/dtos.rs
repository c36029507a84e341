//! The gateway's wire shapes and their verified mapping onto the
//! domain models. Decoding bytes into these shapes happens outside the
//! library; everything from the decoded shape onward is verified.

use vstd::prelude::*;
use vstd::string::StringExecFns;

use crate::models::Board;
use crate::models::Issue;
use crate::models::IssueStatus;
use crate::models::WorklogEntry;
use crate::models::opt_text;
use crate::text::lower_of;
use crate::text::lowercase;
use crate::time::parse_utc_epoch;
use crate::time::parsed_epoch;

verus! {

/// The timestamp format the issue search endpoint reports.
pub const ISSUE_TIME_FORMAT: &'static str = "%Y-%m-%dT%H:%M:%S.%f%z";

/// The timestamp format the worklog endpoints report.
pub const WORKLOG_TIME_FORMAT: &'static str = "%Y-%m-%dT%H:%M:%S%.3f%z";

/// The board listing response.
#[derive(Debug, Clone)]
pub struct BoardResponseDto {
    pub max_results: u64,
    pub start_at: u64,
    pub is_last: Option<bool>,
    pub values: Vec<BoardDto>,
}

/// One board of the board listing response.
#[derive(Debug, Clone)]
pub struct BoardDto {
    pub id: u64,
    pub name: String,
    pub location: Option<ProjectLocationDto>,
    pub board_type: String,
}

/// The project a board belongs to, when the service reports one.
#[derive(Debug, Clone)]
pub struct ProjectLocationDto {
    pub project_key: Option<String>,
}

/// The project key a board reports, with the placeholder used when
/// none is reported.
pub open spec fn project_key_text(location: Option<ProjectLocationDto>) -> Seq<char> {
    match location {
        Some(loc) => match loc.project_key {
            Some(key) => key@,
            None => "UNKNOWN"@,
        },
        None => "UNKNOWN"@,
    }
}

impl BoardDto {
    /// Maps the wire shape onto the domain model.
    pub fn to_board(self) -> (b: Board)
        ensures
            b.id == self.id,
            b.name == self.name,
            b.board_type == self.board_type,
            b.project_key@ == project_key_text(self.location),
    {
        let project_key = match self.location {
            Some(loc) => match loc.project_key {
                Some(key) => key,
                None => String::from_str("UNKNOWN"),
            },
            None => String::from_str("UNKNOWN"),
        };
        Board { id: self.id, name: self.name, project_key, board_type: self.board_type }
    }
}

/// The issue search response.
#[derive(Debug, Clone)]
pub struct IssueSearchResponseDto {
    pub start_at: u64,
    pub max_results: u64,
    pub total: u64,
    pub issues: Vec<IssueDto>,
}

/// One issue of the issue search response.
#[derive(Debug, Clone)]
pub struct IssueDto {
    pub key: String,
    pub fields: IssueFieldsDto,
}

/// The fields of an issue the client reads.
#[derive(Debug, Clone)]
pub struct IssueFieldsDto {
    pub summary: String,
    pub description: Option<String>,
    pub status: StatusDto,
    pub priority: Option<PriorityDto>,
    pub assignee: Option<UserDto>,
    pub created: String,
    pub updated: String,
}

/// A status by name.
#[derive(Debug, Clone)]
pub struct StatusDto {
    pub name: String,
}

/// A priority by name.
#[derive(Debug, Clone)]
pub struct PriorityDto {
    pub name: String,
}

/// A user by display name.
#[derive(Debug, Clone)]
pub struct UserDto {
    pub display_name: String,
}

/// How a status name classifies, by its lowercase folding; names the
/// classifier does not recognise keep their label.
pub open spec fn status_of_name(name: String) -> IssueStatus {
    let l = lower_of(name@);
    if l == "to do"@ || l == "new"@ || l == "open"@ {
        IssueStatus::Todo
    } else if l == "in progress"@ || l == "in review"@ {
        IssueStatus::InProgress
    } else if l == "done"@ || l == "closed"@ || l == "resolved"@ {
        IssueStatus::Done
    } else {
        IssueStatus::Other(name)
    }
}

/// Classifies a status by its reported name.
pub fn status_from_name(name: String) -> (r: IssueStatus)
    ensures
        r == status_of_name(name),
{
    let lowered = lowercase(name.as_str());
    if lowered == String::from_str("to do") || lowered == String::from_str("new") || lowered
        == String::from_str("open") {
        IssueStatus::Todo
    } else if lowered == String::from_str("in progress") || lowered == String::from_str(
        "in review",
    ) {
        IssueStatus::InProgress
    } else if lowered == String::from_str("done") || lowered == String::from_str("closed")
        || lowered == String::from_str("resolved") {
        IssueStatus::Done
    } else {
        IssueStatus::Other(name)
    }
}

/// The instant an issue timestamp text denotes, with the fallback used
/// where the text does not parse.
pub open spec fn issue_instant(text: Seq<char>, fallback: i64) -> i64 {
    match parsed_epoch(text, ISSUE_TIME_FORMAT@) {
        Some(epoch) => epoch,
        None => fallback,
    }
}

impl IssueDto {
    /// Maps the wire shape onto the domain model. Timestamps that do
    /// not parse fall back to the given instant.
    pub fn to_issue(self, fallback_epoch: i64) -> (r: Issue)
        ensures
            r.key == self.key,
            r.summary == self.fields.summary,
            r.description == self.fields.description,
            r.status == status_of_name(self.fields.status.name),
            opt_text(r.assignee) == match self.fields.assignee {
                Some(u) => Some(u.display_name@),
                None => None::<Seq<char>>,
            },
            opt_text(r.priority) == match self.fields.priority {
                Some(p) => Some(p.name@),
                None => None::<Seq<char>>,
            },
            r.created_at == issue_instant(self.fields.created@, fallback_epoch),
            r.updated_at == issue_instant(self.fields.updated@, fallback_epoch),
    {
        let status = status_from_name(self.fields.status.name);
        let created_at = match parse_utc_epoch(self.fields.created.as_str(), ISSUE_TIME_FORMAT) {
            Some(epoch) => epoch,
            None => fallback_epoch,
        };
        let updated_at = match parse_utc_epoch(self.fields.updated.as_str(), ISSUE_TIME_FORMAT) {
            Some(epoch) => epoch,
            None => fallback_epoch,
        };
        let assignee = match self.fields.assignee {
            Some(u) => Some(u.display_name),
            None => None,
        };
        let priority = match self.fields.priority {
            Some(p) => Some(p.name),
            None => None,
        };
        Issue {
            key: self.key,
            summary: self.fields.summary,
            description: self.fields.description,
            status,
            assignee,
            priority,
            created_at,
            updated_at,
        }
    }
}

/// The worklog listing response.
#[derive(Debug, Clone)]
pub struct WorklogResponseDto {
    pub start_at: u64,
    pub max_results: u64,
    pub total: u64,
    pub worklogs: Vec<WorklogDto>,
}

/// One worklog of the worklog listing response.
#[derive(Debug, Clone)]
pub struct WorklogDto {
    pub id: String,
    pub issue_id: String,
    pub time_spent_seconds: u64,
    pub comment: Option<CommentDto>,
    pub started: String,
    pub author: UserDto,
    pub created: String,
    pub updated: String,
}

/// A rich-text comment: a list of blocks.
#[derive(Debug, Clone)]
pub struct CommentDto {
    pub content: Option<Vec<ContentBlockDto>>,
}

/// One block of a rich-text comment: a list of text runs.
#[derive(Debug, Clone)]
pub struct ContentBlockDto {
    pub content: Option<Vec<ContentTextDto>>,
}

/// One text run of a rich-text block.
#[derive(Debug, Clone)]
pub struct ContentTextDto {
    pub text: Option<String>,
}

/// The texts of a block's runs, in order, skipping runs without text.
pub open spec fn run_texts(runs: Seq<ContentTextDto>) -> Seq<Seq<char>>
    decreases runs.len(),
{
    if runs.len() == 0 {
        Seq::empty()
    } else {
        run_texts(runs.drop_last()) + match runs.last().text {
            Some(t) => seq![t@],
            None => Seq::<Seq<char>>::empty(),
        }
    }
}

/// The given parts joined with the separator.
pub open spec fn join_texts(parts: Seq<Seq<char>>, sep: Seq<char>) -> Seq<char>
    decreases parts.len(),
{
    if parts.len() == 0 {
        Seq::empty()
    } else if parts.len() == 1 {
        parts[0]
    } else {
        join_texts(parts.drop_last(), sep) + sep + parts.last()
    }
}

/// The text of one block: its runs' texts joined with spaces, or
/// nothing when the block has no text.
pub open spec fn block_text(block: ContentBlockDto) -> Option<Seq<char>> {
    match block.content {
        None => None,
        Some(runs) => {
            let parts = run_texts(runs@);
            if parts.len() == 0 {
                None
            } else {
                Some(join_texts(parts, " "@))
            }
        },
    }
}

/// The texts of a comment's blocks, in order, skipping blocks without
/// text.
pub open spec fn block_texts(blocks: Seq<ContentBlockDto>) -> Seq<Seq<char>>
    decreases blocks.len(),
{
    if blocks.len() == 0 {
        Seq::empty()
    } else {
        block_texts(blocks.drop_last()) + match block_text(blocks.last()) {
            Some(t) => seq![t],
            None => Seq::<Seq<char>>::empty(),
        }
    }
}

/// The plain text of a rich-text comment: each block's runs joined
/// with spaces, blocks joined with line breaks, and nothing when no
/// block has text.
pub open spec fn comment_text(comment: Option<CommentDto>) -> Option<Seq<char>> {
    match comment {
        None => None,
        Some(c) => match c.content {
            None => None,
            Some(blocks) => {
                let parts = block_texts(blocks@);
                if parts.len() == 0 {
                    None
                } else {
                    Some(join_texts(parts, "\n"@))
                }
            },
        },
    }
}

/// Flattens one block to plain text.
fn block_text_exec(block: &ContentBlockDto) -> (r: Option<String>)
    ensures
        opt_text(r) == block_text(*block),
{
    match &block.content {
        None => None,
        Some(runs) => {
            let mut joined = String::new();
            let mut count: usize = 0;
            let mut i: usize = 0;
            while i < runs.len()
                invariant
                    i <= runs.len(),
                    count <= i,
                    count == run_texts(runs@.take(i as int)).len(),
                    count == 0 ==> joined@ == Seq::<char>::empty(),
                    count > 0 ==> joined@ == join_texts(run_texts(runs@.take(i as int)), " "@),
                decreases runs.len() - i,
            {
                proof {
                    assert(runs@.take(i + 1).drop_last() =~= runs@.take(i as int));
                    assert(runs@.take(i + 1).last() == runs@[i as int]);
                }
                let ghost old_parts = run_texts(runs@.take(i as int));
                match &runs[i].text {
                    Some(t) => {
                        if count > 0 {
                            joined.append(" ");
                        }
                        joined.append(t.as_str());
                        count = count + 1;
                        proof {
                            let parts = run_texts(runs@.take(i + 1));
                            assert(parts =~= old_parts + seq![t@]);
                            if old_parts.len() == 0 {
                                assert(joined@ =~= t@);
                            } else {
                                assert(parts.drop_last() =~= old_parts);
                                assert(join_texts(parts, " "@) == join_texts(old_parts, " "@)
                                    + " "@ + t@);
                            }
                        }
                    },
                    None => {
                        proof {
                            assert(run_texts(runs@.take(i + 1)) =~= old_parts);
                        }
                    },
                }
                i = i + 1;
            }
            proof {
                assert(runs@.take(runs@.len() as int) =~= runs@);
            }
            if count == 0 {
                None
            } else {
                Some(joined)
            }
        },
    }
}

/// Flattens a rich-text comment to plain text.
fn comment_text_exec(comment: Option<CommentDto>) -> (r: Option<String>)
    ensures
        opt_text(r) == comment_text(comment),
{
    match comment {
        None => None,
        Some(c) => match c.content {
            None => None,
            Some(blocks) => {
                let mut joined = String::new();
                let mut count: usize = 0;
                let mut i: usize = 0;
                while i < blocks.len()
                    invariant
                        i <= blocks.len(),
                        count <= i,
                        count == block_texts(blocks@.take(i as int)).len(),
                        count == 0 ==> joined@ == Seq::<char>::empty(),
                        count > 0 ==> joined@ == join_texts(
                            block_texts(blocks@.take(i as int)),
                            "\n"@,
                        ),
                    decreases blocks.len() - i,
                {
                    proof {
                        assert(blocks@.take(i + 1).drop_last() =~= blocks@.take(i as int));
                        assert(blocks@.take(i + 1).last() == blocks@[i as int]);
                    }
                    let ghost old_parts = block_texts(blocks@.take(i as int));
                    match block_text_exec(&blocks[i]) {
                        Some(t) => {
                            if count > 0 {
                                joined.append("\n");
                            }
                            joined.append(t.as_str());
                            count = count + 1;
                            proof {
                                let parts = block_texts(blocks@.take(i + 1));
                                assert(parts =~= old_parts + seq![t@]);
                                if old_parts.len() == 0 {
                                    assert(joined@ =~= t@);
                                } else {
                                    assert(parts.drop_last() =~= old_parts);
                                    assert(join_texts(parts, "\n"@) == join_texts(
                                        old_parts,
                                        "\n"@,
                                    ) + "\n"@ + t@);
                                }
                            }
                        },
                        None => {
                            proof {
                                assert(block_texts(blocks@.take(i + 1)) =~= old_parts);
                            }
                        },
                    }
                    i = i + 1;
                }
                proof {
                    assert(blocks@.take(blocks@.len() as int) =~= blocks@);
                }
                if count == 0 {
                    None
                } else {
                    Some(joined)
                }
            },
        },
    }
}

/// The instant a worklog timestamp text denotes, with the fallback
/// used where the text does not parse.
pub open spec fn worklog_instant(text: Seq<char>, fallback: i64) -> i64 {
    match parsed_epoch(text, WORKLOG_TIME_FORMAT@) {
        Some(epoch) => epoch,
        None => fallback,
    }
}

impl WorklogDto {
    /// Maps the wire shape onto the domain model, flattening the
    /// rich-text comment. Timestamps that do not parse fall back to
    /// the given instant.
    pub fn to_worklog_entry(self, issue_key: String, fallback_epoch: i64) -> (r: WorklogEntry)
        ensures
            r.id == self.id,
            r.issue_key == issue_key,
            r.time_spent_seconds == self.time_spent_seconds,
            opt_text(r.comment) == comment_text(self.comment),
            r.author == self.author.display_name,
            r.started_at == worklog_instant(self.started@, fallback_epoch),
            r.created_at == worklog_instant(self.created@, fallback_epoch),
            r.updated_at == worklog_instant(self.updated@, fallback_epoch),
    {
        let comment = comment_text_exec(self.comment);
        let started_at = match parse_utc_epoch(self.started.as_str(), WORKLOG_TIME_FORMAT) {
            Some(epoch) => epoch,
            None => fallback_epoch,
        };
        let created_at = match parse_utc_epoch(self.created.as_str(), WORKLOG_TIME_FORMAT) {
            Some(epoch) => epoch,
            None => fallback_epoch,
        };
        let updated_at = match parse_utc_epoch(self.updated.as_str(), WORKLOG_TIME_FORMAT) {
            Some(epoch) => epoch,
            None => fallback_epoch,
        };
        WorklogEntry {
            id: self.id,
            issue_key,
            time_spent_seconds: self.time_spent_seconds,
            comment,
            started_at,
            author: self.author.display_name,
            created_at,
            updated_at,
        }
    }
}

} // verus!
