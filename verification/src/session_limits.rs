//! What scratchpad sessions may hold, and how long they live.

use vstd::prelude::*;

use crate::error;
use crate::error::{AnalyticsError, Problem};
use crate::scratchpad_tools::SessionUsage;
use crate::text;

verus! {

/// What a session holds.
#[derive(Debug, Clone, Copy, PartialEq, Eq, Structural)]
pub struct Held {
    pub tables: usize,
    pub rows: usize,
}

impl Held {
    /// Whether a session holds no more than it may.
    pub open spec fn within(self, max_tables: usize, max_rows: usize) -> bool {
        self.tables <= max_tables && self.rows <= max_rows
    }
}

/// What is left of `limit` after `used`.
pub open spec fn left_of(limit: usize, used: usize) -> usize {
    if used < limit {
        (limit - used) as usize
    } else {
        0
    }
}

/// What a session holds and what is left of it. Limits that were lowered leave nothing.
pub fn session_usage(held: Held, max_tables: usize, max_rows: usize) -> (r: SessionUsage)
    ensures
        r.tables_used == held.tables,
        r.tables_remaining == left_of(max_tables, held.tables),
        r.rows_used == held.rows,
        r.rows_remaining == left_of(max_rows, held.rows),
{
    SessionUsage {
        tables_used: held.tables,
        tables_remaining: max_tables.saturating_sub(held.tables),
        rows_used: held.rows,
        rows_remaining: max_rows.saturating_sub(held.rows),
    }
}

/// What is wrong with one more session.
pub open spec fn session_problem(active_sessions: usize, max_sessions: usize) -> Option<Problem> {
    if active_sessions >= max_sessions {
        Some(
            Problem::ScratchpadLimitExceeded(
                "max_sessions"@,
                "at most "@ + text::decimal(max_sessions as nat) + " sessions may be active"@,
            ),
        )
    } else {
        None
    }
}

/// Whether one more session may be opened.
pub fn check_new_session(active_sessions: usize, max_sessions: usize) -> (r: Result<
    (),
    AnalyticsError,
>)
    ensures
        error::outcome(r) == session_problem(active_sessions, max_sessions),
{
    if active_sessions >= max_sessions {
        return Err(
            AnalyticsError::scratchpad_limit(
                "max_sessions",
                error::numbered("at most ", max_sessions as u64, " sessions may be active").as_str(),
            ),
        );
    }
    Ok(())
}

/// What is wrong with `rows` more rows in a session, in a table of their own or in one that
/// is there.
pub open spec fn rows_problem(
    held: Held,
    new_table: bool,
    rows: usize,
    max_tables: usize,
    max_rows: usize,
) -> Option<Problem> {
    if new_table && held.tables >= max_tables {
        Some(
            Problem::ScratchpadLimitExceeded(
                "max_tables_per_session"@,
                "a session may hold at most "@ + text::decimal(max_tables as nat) + " tables"@,
            ),
        )
    } else if held.rows + rows > max_rows {
        Some(
            Problem::ScratchpadLimitExceeded(
                "max_rows_per_session"@,
                "a session may hold at most "@ + text::decimal(max_rows as nat) + " rows"@,
            ),
        )
    } else {
        None
    }
}

/// What a session holds after it took `rows` more rows.
pub open spec fn with_rows(held: Held, new_table: bool, rows: usize) -> Held {
    Held {
        tables: if new_table {
            (held.tables + 1) as usize
        } else {
            held.tables
        },
        rows: (held.rows + rows) as usize,
    }
}

/// What a session holds after it took `rows` more rows, where it may take them.
pub fn admit_rows(
    held: Held,
    new_table: bool,
    rows: usize,
    max_tables: usize,
    max_rows: usize,
) -> (r: Result<Held, AnalyticsError>)
    ensures
        match r {
            Ok(after) => rows_problem(held, new_table, rows, max_tables, max_rows) is None && after
                == with_rows(held, new_table, rows),
            Err(err) => rows_problem(held, new_table, rows, max_tables, max_rows) == Some(err@),
        },
{
    if new_table && held.tables >= max_tables {
        return Err(
            AnalyticsError::scratchpad_limit(
                "max_tables_per_session",
                error::numbered(
                    "a session may hold at most ",
                    max_tables as u64,
                    " tables",
                ).as_str(),
            ),
        );
    }
    match held.rows.checked_add(rows) {
        Some(all) if all <= max_rows => Ok(
            Held {
                tables: if new_table {
                    held.tables + 1
                } else {
                    held.tables
                },
                rows: all,
            },
        ),
        _ => Err(
            AnalyticsError::scratchpad_limit(
                "max_rows_per_session",
                error::numbered("a session may hold at most ", max_rows as u64, " rows").as_str(),
            ),
        ),
    }
}

/// What a session holds after a table with `rows` rows was dropped.
pub fn release_table(held: Held, rows: usize) -> (r: Held)
    ensures
        r.tables == left_of(held.tables, 1),
        r.rows == left_of(held.rows, rows),
{
    Held { tables: held.tables.saturating_sub(1), rows: held.rows.saturating_sub(rows) }
}

/// The seconds that a session has left after it was idle for `idle_secs`, unless it ended.
pub fn seconds_left(ttl_secs: u64, idle_secs: u64) -> (r: Option<u64>)
    ensures
        r == (if idle_secs < ttl_secs {
            Some((ttl_secs - idle_secs) as u64)
        } else {
            None
        }),
{
    if idle_secs < ttl_secs {
        Some(ttl_secs - idle_secs)
    } else {
        None
    }
}

// ---------------------------------------------------------------------------
// Laws.
// ---------------------------------------------------------------------------

/// A session that holds no more than it may never comes to hold more, and dropping a table
/// gives back what it took.
pub proof fn law_sessions_keep_their_limits(
    held: Held,
    new_table: bool,
    rows: usize,
    max_tables: usize,
    max_rows: usize,
)
    requires
        held.within(max_tables, max_rows),
        rows_problem(held, new_table, rows, max_tables, max_rows) is None,
    ensures
        with_rows(held, new_table, rows).within(max_tables, max_rows),
        new_table ==> left_of(with_rows(held, new_table, rows).tables, 1) == held.tables
            && left_of(with_rows(held, new_table, rows).rows, rows) == held.rows,
{
}

/// What is left of a limit and what is used make up the limit; where more is used than that,
/// nothing is left.
pub proof fn law_what_is_left_makes_up_the_limit(limit: usize, used: usize)
    ensures
        used <= limit ==> used + left_of(limit, used) == limit,
        used > limit ==> left_of(limit, used) == 0,
{
}

/// Rows are taken exactly where a table that is new still has its place and the rows fit; then
/// the session holds so many rows more, and one table more where it is new.
pub proof fn law_rows_are_taken_where_they_fit(
    held: Held,
    new_table: bool,
    rows: usize,
    max_tables: usize,
    max_rows: usize,
)
    ensures
        rows_problem(held, new_table, rows, max_tables, max_rows) is None <==> (new_table
            ==> held.tables < max_tables) && held.rows + rows <= max_rows,
        new_table && held.tables >= max_tables ==> (rows_problem(
            held,
            new_table,
            rows,
            max_tables,
            max_rows,
        ) matches Some(Problem::ScratchpadLimitExceeded(field, said)) && field
            == "max_tables_per_session"@),
        (new_table ==> held.tables < max_tables) && held.rows + rows > max_rows ==> (rows_problem(
            held,
            new_table,
            rows,
            max_tables,
            max_rows,
        ) matches Some(Problem::ScratchpadLimitExceeded(field, said)) && field
            == "max_rows_per_session"@),
        held.rows + rows <= usize::MAX ==> with_rows(held, new_table, rows).rows == held.rows
            + rows,
        new_table && held.tables < usize::MAX ==> with_rows(held, new_table, rows).tables
            == held.tables + 1,
        !new_table ==> with_rows(held, new_table, rows).tables == held.tables,
{
}

/// A session may begin exactly where fewer are active than may be.
pub proof fn law_sessions_begin_where_there_is_room(active_sessions: usize, max_sessions: usize)
    ensures
        session_problem(active_sessions, max_sessions) is None <==> active_sessions
            < max_sessions,
        session_problem(active_sessions, max_sessions) matches Some(problem) ==> (
        problem matches Problem::ScratchpadLimitExceeded(field, said) && field
            == "max_sessions"@),
{
}

/// What is said where a session holds all that it may.
pub proof fn law_full_sessions_are_said(
    held: Held,
    rows: usize,
    max_tables: usize,
    max_rows: usize,
)
    requires
        held.tables >= max_tables,
        held.rows + rows > max_rows,
    ensures
        rows_problem(held, true, rows, max_tables, max_rows) == Some(
            Problem::ScratchpadLimitExceeded(
                "max_tables_per_session"@,
                "a session may hold at most "@ + text::decimal(max_tables as nat) + " tables"@,
            ),
        ),
        rows_problem(held, false, rows, max_tables, max_rows) == Some(
            Problem::ScratchpadLimitExceeded(
                "max_rows_per_session"@,
                "a session may hold at most "@ + text::decimal(max_rows as nat) + " rows"@,
            ),
        ),
        session_problem(max_tables, max_tables) == Some(
            Problem::ScratchpadLimitExceeded(
                "max_sessions"@,
                "at most "@ + text::decimal(max_tables as nat) + " sessions may be active"@,
            ),
        ),
{
}

} // verus!
