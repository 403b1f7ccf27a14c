//! The statements by which tasks are kept in their table.
//!
//! Each function lays out one statement: its text, with a `?` for every
//! value, and the values in the order of their marks. Running it is left to
//! the caller, who holds the connection.

use vstd::prelude::*;
use crate::clock::{format_rfc3339, rfc3339_text, Instant};

verus! {

/// A value bound to a `?` of a statement.
#[derive(Debug, Clone, PartialEq, Eq)]
pub enum SqlValue {
    Integer(i64),
    Text(String),
}

/// A bound value as plain data.
pub ghost enum SqlValueView {
    Integer(i64),
    Text(Seq<char>),
}

impl View for SqlValue {
    type V = SqlValueView;

    open spec fn view(&self) -> SqlValueView {
        match self {
            SqlValue::Integer(number) => SqlValueView::Integer(*number),
            SqlValue::Text(text) => SqlValueView::Text(text@),
        }
    }
}

/// A statement: its text and the values for its marks, in order.
#[derive(Debug, Clone, PartialEq, Eq)]
pub struct Statement {
    pub sql: String,
    pub params: Vec<SqlValue>,
}

/// A statement as plain data.
pub ghost struct StatementView {
    pub sql: Seq<char>,
    pub params: Seq<SqlValueView>,
}

impl View for Statement {
    type V = StatementView;

    open spec fn view(&self) -> StatementView {
        StatementView { sql: self.sql@, params: self.params@.map_values(|p: SqlValue| p@) }
    }
}

/// The text that inserts a task.
pub open spec fn insert_sql() -> Seq<char> {
    "INSERT INTO task (description, scheduled_at) VALUES (?, ?)"@
}

/// The text that reads one task by its id.
pub open spec fn select_by_id_sql() -> Seq<char> {
    "SELECT id, description, scheduled_at, resolved FROM task WHERE id = ?"@
}

/// The text that lists the unresolved tasks due at or after a given time,
/// the earliest first.
pub open spec fn select_unresolved_sql() -> Seq<char> {
    "SELECT id, description, scheduled_at, resolved FROM task WHERE resolved = 0 AND scheduled_at >= ? ORDER BY scheduled_at ASC"@
}

/// The text that resolves a task.
pub open spec fn resolve_sql() -> Seq<char> {
    "UPDATE task SET resolved = 1 WHERE id = ?"@
}

/// The text that deletes a task.
pub open spec fn delete_sql() -> Seq<char> {
    "DELETE FROM task WHERE id = ?"@
}

/// The text that updates a task: one assignment for each column that gets a
/// new value, the description before the time, with a comma between two.
pub open spec fn update_sql(description: bool, scheduled_at: bool) -> Seq<char> {
    "UPDATE task SET "@ + (if description {
        "description = ?"@
    } else {
        Seq::empty()
    }) + (if description && scheduled_at {
        ", "@
    } else {
        Seq::empty()
    }) + (if scheduled_at {
        "scheduled_at = ?"@
    } else {
        Seq::empty()
    }) + " WHERE id = ?"@
}

/// The characters of a text that may be missing.
pub open spec fn text_of(text: Option<String>) -> Option<Seq<char>> {
    match text {
        Some(given) => Some(given@),
        None => None,
    }
}

/// The values of an update: the new description and the new time, as far as
/// they are given, and the id last.
pub open spec fn update_params(
    id: i64,
    description: Option<Seq<char>>,
    scheduled_at: Option<Seq<char>>,
) -> Seq<SqlValueView> {
    (match description {
        Some(text) => seq![SqlValueView::Text(text)],
        None => Seq::empty(),
    }) + (match scheduled_at {
        Some(text) => seq![SqlValueView::Text(text)],
        None => Seq::empty(),
    }) + seq![SqlValueView::Integer(id)]
}

/// The statement that inserts a task with this description and this time.
/// The table gives it its id and files it as unresolved.
pub fn insert_task(description: String, scheduled_at: String) -> (statement: Statement)
    ensures
        statement@.sql == insert_sql(),
        statement@.params == seq![
            SqlValueView::Text(description@),
            SqlValueView::Text(scheduled_at@),
        ],
{
    let mut params: Vec<SqlValue> = Vec::new();
    params.push(SqlValue::Text(description));
    params.push(SqlValue::Text(scheduled_at));
    let statement = Statement {
        sql: String::from_str("INSERT INTO task (description, scheduled_at) VALUES (?, ?)"),
        params,
    };
    assert(statement@.params =~= seq![
        SqlValueView::Text(description@),
        SqlValueView::Text(scheduled_at@),
    ]);
    statement
}

/// The statement that reads the task with this id.
pub fn fetch_task_by_id(id: i64) -> (statement: Statement)
    ensures
        statement@.sql == select_by_id_sql(),
        statement@.params == seq![SqlValueView::Integer(id)],
{
    by_id(String::from_str("SELECT id, description, scheduled_at, resolved FROM task WHERE id = ?"), id)
}

/// The statement that resolves the task with this id. Run on a task that is
/// resolved already, it leaves the task as it is.
pub fn mark_task_resolved(id: i64) -> (statement: Statement)
    ensures
        statement@.sql == resolve_sql(),
        statement@.params == seq![SqlValueView::Integer(id)],
{
    by_id(String::from_str("UPDATE task SET resolved = 1 WHERE id = ?"), id)
}

/// The statement that deletes the task with this id.
pub fn delete_task(id: i64) -> (statement: Statement)
    ensures
        statement@.sql == delete_sql(),
        statement@.params == seq![SqlValueView::Integer(id)],
{
    by_id(String::from_str("DELETE FROM task WHERE id = ?"), id)
}

/// A statement with this text whose one value is an id.
fn by_id(sql: String, id: i64) -> (statement: Statement)
    ensures
        statement@.sql == sql@,
        statement@.params == seq![SqlValueView::Integer(id)],
{
    let mut params: Vec<SqlValue> = Vec::new();
    params.push(SqlValue::Integer(id));
    let statement = Statement { sql, params };
    assert(statement@.params =~= seq![SqlValueView::Integer(id)]);
    statement
}

/// The statement that lists the unresolved tasks due at or after the time
/// that `since` spells out, the earliest first.
pub fn list_unresolved_since(since: String) -> (statement: Statement)
    ensures
        statement@.sql == select_unresolved_sql(),
        statement@.params == seq![SqlValueView::Text(since@)],
{
    let mut params: Vec<SqlValue> = Vec::new();
    params.push(SqlValue::Text(since));
    let statement = Statement {
        sql: String::from_str(
            "SELECT id, description, scheduled_at, resolved FROM task WHERE resolved = 0 AND scheduled_at >= ? ORDER BY scheduled_at ASC",
        ),
        params,
    };
    assert(statement@.params =~= seq![SqlValueView::Text(since@)]);
    statement
}

/// The statement that lists the unresolved tasks due at or after `date`, the
/// earliest first. There is none where `date` lies outside the years that
/// can be written down.
pub fn fetch_unresolved_tasks(date: Instant) -> (statement: Option<Statement>)
    ensures
        statement.is_some() == rfc3339_text(date.secs, date.nanos).is_some(),
        statement.is_some() ==> statement.unwrap()@.sql == select_unresolved_sql(),
        statement.is_some() ==> statement.unwrap()@.params == seq![
            SqlValueView::Text(rfc3339_text(date.secs, date.nanos).unwrap()),
        ],
{
    match format_rfc3339(date) {
        Some(since) => Some(list_unresolved_since(since)),
        None => None,
    }
}

/// The statement that gives the task with this id a new description, a new
/// time or both. With neither there is nothing to run.
pub fn update_task(id: i64, description: Option<String>, scheduled_at: Option<String>) -> (statement:
    Option<Statement>)
    ensures
        statement.is_none() <==> description.is_none() && scheduled_at.is_none(),
        statement.is_some() ==> statement.unwrap()@.sql == update_sql(
            description.is_some(),
            scheduled_at.is_some(),
        ),
        statement.is_some() ==> statement.unwrap()@.params == update_params(
            id,
            text_of(description),
            text_of(scheduled_at),
        ),
{
    if description.is_none() && scheduled_at.is_none() {
        return None;
    }
    let ghost wanted_sql = update_sql(description.is_some(), scheduled_at.is_some());
    let ghost wanted_params = update_params(
        id,
        text_of(description),
        text_of(scheduled_at),
    );
    let both = description.is_some() && scheduled_at.is_some();
    let mut sql = String::from_str("UPDATE task SET ");
    let mut params: Vec<SqlValue> = Vec::new();
    if let Some(text) = description {
        sql.append("description = ?");
        params.push(SqlValue::Text(text));
    }
    if both {
        sql.append(", ");
    }
    if let Some(text) = scheduled_at {
        sql.append("scheduled_at = ?");
        params.push(SqlValue::Text(text));
    }
    sql.append(" WHERE id = ?");
    params.push(SqlValue::Integer(id));
    let statement = Statement { sql, params };
    assert(statement@.sql =~= wanted_sql);
    assert(statement@.params =~= wanted_params);
    Some(statement)
}

} // verus!
