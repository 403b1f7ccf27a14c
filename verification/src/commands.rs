//! The task as the user's commands see it.

use vstd::prelude::*;
use crate::clock::{parse_rfc3339, parsed_instant, rfc3339_text};
use crate::db::{fetch_unresolved_tasks, select_unresolved_sql, SqlValueView, Statement};

verus! {

/// One row of the task table.
///
/// `scheduled_at` is the text of an RFC 3339 date and time, as the table
/// keeps it. A task is created unresolved and stays in the polls until it is
/// resolved or deleted.
#[derive(Debug, Clone)]
pub struct Task {
    pub id: i64,
    pub description: String,
    pub scheduled_at: String,
    pub resolved: bool,
}

/// Why a listing of tasks could not be laid out.
#[derive(Clone, Copy, Debug, PartialEq, Eq, Structural)]
pub enum GetTasksError {
    /// The date is no RFC 3339 date and time.
    InvalidDate,
    /// The date lies outside the years that can be written down.
    OutOfRange,
}

/// The statement that lists the unresolved tasks due at or after `date`, an
/// RFC 3339 date and time with any offset. The tasks are compared with the
/// same instant written in UTC.
pub fn get_tasks(date: &str) -> (listing: Result<Statement, GetTasksError>)
    ensures
        parsed_instant(date@).is_none() <==> listing == Err::<Statement, GetTasksError>(
            GetTasksError::InvalidDate,
        ),
        parsed_instant(date@) matches Some(since) ==> (rfc3339_text(
            since.secs,
            since.nanos,
        ).is_none() <==> listing == Err::<Statement, GetTasksError>(GetTasksError::OutOfRange)),
        listing.is_ok() ==> listing.unwrap()@.sql == select_unresolved_sql(),
        listing.is_ok() ==> listing.unwrap()@.params == seq![
            SqlValueView::Text(
                rfc3339_text(
                    parsed_instant(date@).unwrap().secs,
                    parsed_instant(date@).unwrap().nanos,
                ).unwrap(),
            ),
        ],
{
    match parse_rfc3339(date) {
        None => Err(GetTasksError::InvalidDate),
        Some(since) => match fetch_unresolved_tasks(since) {
            Some(statement) => Ok(statement),
            None => Err(GetTasksError::OutOfRange),
        },
    }
}

} // verus!
