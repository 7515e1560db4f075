//! What travels between the core and the relational store.

use crate::model::op::prefixed;
use vstd::prelude::*;
use vstd::string::StringExecFns;

verus! {

/// What the core asks of the relational store. Every table it touches has an
/// id that the store generates and one text column, `story`.
#[derive(Debug, Clone, PartialEq, Eq)]
pub enum DbRequest {
    /// Open the connection pool for the database at `url`.
    Connect { url: String },
    /// Add a row and return the id it was given.
    Insert { table: String, story: String },
    /// Replace the text of row `id` and return how many rows that touched.
    Update { table: String, id: i64, story: String },
    /// Fetch row `id`.
    Select { table: String, id: i64 },
    /// Remove row `id` and return how many rows that touched.
    Delete { table: String, id: i64 },
}

/// A row as the store returns it.
#[derive(Debug, Clone, PartialEq, Eq)]
pub struct Row {
    pub id: i64,
    pub story: String,
}

/// What the relational store answered.
#[derive(Debug, Clone, PartialEq, Eq)]
pub enum DbReply {
    /// The pool is open.
    Connected,
    /// The pool could not be opened; the text is the driver's account of it.
    Unreachable(String),
    /// The id given to the row that was added.
    Inserted(i64),
    /// How many rows the statement touched.
    Affected(u64),
    /// The row that was asked for.
    Fetched(Row),
    /// The query ran and no row matched.
    NoRow,
    /// The statement failed for any other reason; the text is the driver's
    /// account of it.
    Failed(String),
}

/// `DbRequest` as plain mathematical values.
pub enum DbRequestView {
    Connect { url: Seq<char> },
    Insert { table: Seq<char>, story: Seq<char> },
    Update { table: Seq<char>, id: i64, story: Seq<char> },
    Select { table: Seq<char>, id: i64 },
    Delete { table: Seq<char>, id: i64 },
}

/// `Row` as plain mathematical values.
pub struct RowView {
    pub id: i64,
    pub story: Seq<char>,
}

/// `DbReply` as plain mathematical values.
pub enum DbReplyView {
    Connected,
    Unreachable(Seq<char>),
    Inserted(i64),
    Affected(u64),
    Fetched(RowView),
    NoRow,
    Failed(Seq<char>),
}

impl View for DbRequest {
    type V = DbRequestView;

    open spec fn view(&self) -> DbRequestView {
        match self {
            DbRequest::Connect { url } => DbRequestView::Connect { url: url@ },
            DbRequest::Insert { table, story } => {
                DbRequestView::Insert { table: table@, story: story@ }
            },
            DbRequest::Update { table, id, story } => {
                DbRequestView::Update { table: table@, id: *id, story: story@ }
            },
            DbRequest::Select { table, id } => DbRequestView::Select { table: table@, id: *id },
            DbRequest::Delete { table, id } => DbRequestView::Delete { table: table@, id: *id },
        }
    }
}

impl View for Row {
    type V = RowView;

    open spec fn view(&self) -> RowView {
        RowView { id: self.id, story: self.story@ }
    }
}

impl View for DbReply {
    type V = DbReplyView;

    open spec fn view(&self) -> DbReplyView {
        match self {
            DbReply::Connected => DbReplyView::Connected,
            DbReply::Unreachable(text) => DbReplyView::Unreachable(text@),
            DbReply::Inserted(id) => DbReplyView::Inserted(*id),
            DbReply::Affected(count) => DbReplyView::Affected(*count),
            DbReply::Fetched(row) => DbReplyView::Fetched(row@),
            DbReply::NoRow => DbReplyView::NoRow,
            DbReply::Failed(text) => DbReplyView::Failed(text@),
        }
    }
}

/// The SQL statement that carries out a request on `table`. Its parameters
/// are, in this order: the story, where the request has one; then the id,
/// where it has one.
pub open spec fn statement_of(request: DbRequestView) -> Option<Seq<char>> {
    match request {
        DbRequestView::Connect { url } => None,
        DbRequestView::Insert { table, story } => Some(
            "INSERT INTO "@ + table + " (story) VALUES ($1) RETURNING id"@,
        ),
        DbRequestView::Update { table, id, story } => Some(
            "UPDATE "@ + table + " SET story = $1 WHERE id = $2"@,
        ),
        DbRequestView::Select { table, id } => Some(
            "SELECT id, story FROM "@ + table + " WHERE id = $1"@,
        ),
        DbRequestView::Delete { table, id } => Some("DELETE FROM "@ + table + " WHERE id = $1"@),
    }
}

impl DbRequest {
    /// The SQL statement to run for this request; none for `Connect`.
    pub fn statement(&self) -> (sql: Option<String>)
        ensures
            match (sql, statement_of(self@)) {
                (Some(text), Some(expected)) => text@ == expected,
                (None, None) => true,
                _ => false,
            },
    {
        match self {
            DbRequest::Connect { .. } => None,
            DbRequest::Insert { table, .. } => Some(
                prefixed("INSERT INTO ", table.as_str()).concat(
                    " (story) VALUES ($1) RETURNING id",
                ),
            ),
            DbRequest::Update { table, .. } => Some(
                prefixed("UPDATE ", table.as_str()).concat(" SET story = $1 WHERE id = $2"),
            ),
            DbRequest::Select { table, .. } => Some(
                prefixed("SELECT id, story FROM ", table.as_str()).concat(" WHERE id = $1"),
            ),
            DbRequest::Delete { table, .. } => Some(
                prefixed("DELETE FROM ", table.as_str()).concat(" WHERE id = $1"),
            ),
        }
    }
}

} // verus!
