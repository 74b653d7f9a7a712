//! Paging and search rules of the notebook listing, a fixed-schema read.

use vstd::prelude::*;
use vstd::string::*;
use crate::statement::{BoundStatement, StatementModel, opt_text};
use crate::value::{DynamicValue, ValueModel};

verus! {

/// List notebooks, newest first, optionally only those whose title or body
/// contains `query`.
pub struct NotebookListInput {
    pub query: Option<String>,
    pub limit: Option<i64>,
    pub offset: Option<i64>,
}

/// The page size: 50 where none is asked for, and never outside 1 to 500.
pub open spec fn page_limit(limit: Option<i64>) -> i64 {
    match limit {
        Some(l) => if l < 1 {
            1
        } else if l > 500 {
            500
        } else {
            l
        },
        None => 50,
    }
}

/// The number of rows to skip: 0 where none is asked for, and never negative.
pub open spec fn page_offset(offset: Option<i64>) -> i64 {
    match offset {
        Some(o) => if o < 0 {
            0
        } else {
            o
        },
        None => 0,
    }
}

/// The `LIKE` pattern that matches any text containing `query`.
pub open spec fn like_pattern(query: Seq<char>) -> Seq<char> {
    "%"@ + query + "%"@
}

/// The listing statement and its bind list: with a query, the pattern for the
/// title and for the body, then page size and offset; without, page size and
/// offset alone.
pub open spec fn notebook_list_model(
    query: Option<Seq<char>>,
    limit: Option<i64>,
    offset: Option<i64>,
) -> StatementModel {
    match query {
        Some(q) => StatementModel {
            sql: "SELECT id, title, substr(data,1,200) AS snippet FROM notebooks WHERE (title LIKE ?1 OR data LIKE ?2) ORDER BY id DESC LIMIT ?3 OFFSET ?4"@,
            binds: seq![
                ValueModel::Text(like_pattern(q)),
                ValueModel::Text(like_pattern(q)),
                ValueModel::Integer(page_limit(limit)),
                ValueModel::Integer(page_offset(offset)),
            ],
        },
        None => StatementModel {
            sql: "SELECT id, title, substr(data,1,200) AS snippet FROM notebooks ORDER BY id DESC LIMIT ?1 OFFSET ?2"@,
            binds: seq![
                ValueModel::Integer(page_limit(limit)),
                ValueModel::Integer(page_offset(offset)),
            ],
        },
    }
}

fn clamp_limit(limit: Option<i64>) -> (l: i64)
    ensures
        l == page_limit(limit),
        1 <= l <= 500,
{
    match limit {
        Some(l) => if l < 1 {
            1
        } else if l > 500 {
            500
        } else {
            l
        },
        None => 50,
    }
}

fn clamp_offset(offset: Option<i64>) -> (o: i64)
    ensures
        o == page_offset(offset),
        o >= 0,
{
    match offset {
        Some(o) => if o < 0 {
            0
        } else {
            o
        },
        None => 0,
    }
}

fn like_text(query: &String) -> (p: String)
    ensures
        p@ == like_pattern(query@),
{
    let mut p = String::from_str("%");
    p.append(query.as_str());
    p.append("%");
    p
}

/// Builds the statement that lists notebooks.
pub fn notebook_list_statement(input: &NotebookListInput) -> (stmt: BoundStatement)
    ensures
        stmt@ == notebook_list_model(opt_text(input.query), input.limit, input.offset),
{
    let limit: i64 = clamp_limit(input.limit);
    let offset: i64 = clamp_offset(input.offset);
    let mut binds: Vec<DynamicValue> = Vec::new();
    let sql = match &input.query {
        Some(q) => {
            binds.push(DynamicValue::Text(like_text(q)));
            binds.push(DynamicValue::Text(like_text(q)));
            String::from_str(
                "SELECT id, title, substr(data,1,200) AS snippet FROM notebooks WHERE (title LIKE ?1 OR data LIKE ?2) ORDER BY id DESC LIMIT ?3 OFFSET ?4",
            )
        },
        None => String::from_str(
            "SELECT id, title, substr(data,1,200) AS snippet FROM notebooks ORDER BY id DESC LIMIT ?1 OFFSET ?2",
        ),
    };
    binds.push(DynamicValue::Integer(limit));
    binds.push(DynamicValue::Integer(offset));
    let stmt = BoundStatement { sql, binds };
    assert(stmt@.binds =~= notebook_list_model(
        opt_text(input.query),
        input.limit,
        input.offset,
    ).binds);
    stmt
}

} // verus!
