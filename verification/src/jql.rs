//! Verified assembly of the gateway's query text from compiled filter
//! criteria.

use vstd::prelude::*;
use vstd::string::StringExecFns;

use crate::models::IssueFilter;
use crate::models::opt_text;

verus! {

/// The restriction clauses of a query: each present criterion
/// contributes one clause, and clauses are joined with " AND ".
pub open spec fn jql_clauses(assignee: Option<Seq<char>>, status: Option<Seq<char>>) -> Seq<char> {
    match (assignee, status) {
        (None, None) => ""@,
        (Some(a), None) => "assignee = "@ + a,
        (None, Some(s)) => "status = \""@ + s + "\""@,
        (Some(a), Some(s)) => "assignee = "@ + a + " AND "@ + "status = \""@ + s + "\""@,
    }
}

/// The full query text: the restriction clauses followed by the
/// ordering clause, when one is present.
pub open spec fn jql_text(
    assignee: Option<Seq<char>>,
    status: Option<Seq<char>>,
    order_by: Option<Seq<char>>,
) -> Seq<char> {
    let clauses = jql_clauses(assignee, status);
    match order_by {
        None => clauses,
        Some(o) => if clauses.len() == 0 {
            "ORDER BY "@ + o
        } else {
            clauses + " ORDER BY "@ + o
        },
    }
}

/// Builds the query text the gateway is asked to evaluate for a page
/// of issues under the given criteria.
pub fn build_jql(filter: &IssueFilter) -> (r: String)
    ensures
        r@ == jql_text(opt_text(filter.assignee), opt_text(filter.status), opt_text(filter.order_by)),
{
    let mut clauses = String::new();
    let mut has_clause: bool = false;
    match &filter.assignee {
        Some(a) => {
            clauses.append("assignee = ");
            clauses.append(a.as_str());
            has_clause = true;
        },
        None => {},
    }
    match &filter.status {
        Some(s) => {
            if has_clause {
                clauses.append(" AND ");
            }
            clauses.append("status = \"");
            clauses.append(s.as_str());
            clauses.append("\"");
            has_clause = true;
        },
        None => {},
    }
    proof {
        reveal_strlit("");
        assert(clauses@ =~= jql_clauses(opt_text(filter.assignee), opt_text(filter.status)));
        assert(has_clause <==> clauses@.len() != 0) by {
            reveal_strlit("assignee = ");
            reveal_strlit("status = \"");
        }
    }
    match &filter.order_by {
        Some(o) => {
            if has_clause {
                clauses.append(" ORDER BY ");
                clauses.append(o.as_str());
            } else {
                clauses.append("ORDER BY ");
                clauses.append(o.as_str());
            }
            proof {
                assert(clauses@ =~= jql_text(
                    opt_text(filter.assignee),
                    opt_text(filter.status),
                    opt_text(filter.order_by),
                ));
            }
            clauses
        },
        None => clauses,
    }
}

} // verus!
