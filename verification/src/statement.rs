//! The statement builder.
//!
//! Each operation is turned into statement text with `?` placeholders plus the
//! ordered list of values to bind. Every table and column name is validated
//! before any text is assembled; values never enter the text.
//!
//! # Trust boundary
//!
//! The filter and order-by fragments are spliced into the statement verbatim.
//! They are neither parsed nor validated: whoever supplies them is trusted
//! with the full power of the store's expression language. This is the one
//! place that identifier validation does not reach.

use vstd::prelude::*;
use vstd::string::*;
use crate::ident::{is_valid_ident, valid_ident};
use crate::text::{decimal, join, join_texts, push_decimal, texts};
use crate::value::{DynamicValue, ValueModel, value_models};

verus! {

/// Statement text together with the values to bind, in placeholder order.
#[derive(Debug, PartialEq, Eq)]
pub struct BoundStatement {
    pub sql: String,
    pub binds: Vec<DynamicValue>,
}

/// The mathematical content of a [`BoundStatement`].
pub struct StatementModel {
    pub sql: Seq<char>,
    pub binds: Seq<ValueModel>,
}

impl View for BoundStatement {
    type V = StatementModel;

    open spec fn view(&self) -> StatementModel {
        StatementModel { sql: self.sql@, binds: value_models(self.binds@) }
    }
}

/// What a rejected name was meant to name.
#[derive(Clone, Copy, Debug, PartialEq, Eq)]
pub enum IdentRole {
    Table,
    Column,
}

/// Why no statement was built. Both are faults of the caller's input.
#[derive(Debug, PartialEq, Eq)]
pub enum BuildError {
    /// A table or column name is not a valid identifier; `name` is the
    /// offending name.
    InvalidIdentifier { role: IdentRole, name: String },
    /// An insert or update names no column.
    EmptyColumnSet,
}

/// Insert one row into `table`, giving each listed column its value.
pub struct InsertInput {
    pub table: String,
    pub values: Vec<(String, DynamicValue)>,
}

/// Read rows of `table`.
pub struct SelectInput {
    pub table: String,
    /// The columns to read; absent or empty reads all of them.
    pub columns: Option<Vec<String>>,
    /// Trusted expression text for `WHERE`.
    pub filter: Option<String>,
    /// Values for the placeholders inside `filter`.
    pub params: Option<Vec<DynamicValue>>,
    /// Trusted expression text for `ORDER BY`.
    pub order_by: Option<String>,
    pub limit: Option<i64>,
    pub offset: Option<i64>,
}

/// Give the listed columns new values in the rows of `table` that `filter`
/// selects.
pub struct UpdateInput {
    pub table: String,
    pub set: Vec<(String, DynamicValue)>,
    /// Trusted expression text for `WHERE`.
    pub filter: Option<String>,
    /// Values for the placeholders inside `filter`.
    pub params: Option<Vec<DynamicValue>>,
}

/// Remove the rows of `table` that `filter` selects; without a filter, all of
/// them.
pub struct DeleteInput {
    pub table: String,
    /// Trusted expression text for `WHERE`.
    pub filter: Option<String>,
    /// Values for the placeholders inside `filter`.
    pub params: Option<Vec<DynamicValue>>,
}

/// The column names of a list of assignments, in order.
pub open spec fn assignment_names(a: Seq<(String, DynamicValue)>) -> Seq<Seq<char>> {
    Seq::new(a.len(), |i: int| a[i].0@)
}

/// The values of a list of assignments, in order.
pub open spec fn assignment_values(a: Seq<(String, DynamicValue)>) -> Seq<ValueModel> {
    Seq::new(a.len(), |i: int| a[i].1@)
}

/// Every name is a valid identifier.
pub open spec fn all_valid(names: Seq<Seq<char>>) -> bool {
    forall|i: int| 0 <= i < names.len() ==> valid_ident(#[trigger] names[i])
}

/// `i` is the position of the first name that is not a valid identifier.
pub open spec fn first_invalid(names: Seq<Seq<char>>, i: int) -> bool {
    &&& 0 <= i < names.len()
    &&& !valid_ident(names[i])
    &&& forall|j: int| 0 <= j < i ==> valid_ident(#[trigger] names[j])
}

/// The view of an optional string.
pub open spec fn opt_text(o: Option<String>) -> Option<Seq<char>> {
    match o {
        Some(s) => Some(s@),
        None => None,
    }
}

/// The views of an optional list of names.
pub open spec fn opt_texts(o: Option<Vec<String>>) -> Option<Seq<Seq<char>>> {
    match o {
        Some(v) => Some(texts(v@)),
        None => None,
    }
}

/// The values of an optional parameter list; none where it is absent.
pub open spec fn param_models(o: Option<Vec<DynamicValue>>) -> Seq<ValueModel> {
    match o {
        Some(v) => value_models(v@),
        None => Seq::empty(),
    }
}

/// `n` placeholders.
pub open spec fn placeholders(n: nat) -> Seq<Seq<char>> {
    Seq::new(n, |i: int| "?"@)
}

/// One `name = ?` fragment per column.
pub open spec fn set_fragments(cols: Seq<Seq<char>>) -> Seq<Seq<char>> {
    Seq::new(cols.len(), |i: int| cols[i] + " = ?"@)
}

/// `keyword` followed by the fragment, or nothing where there is none.
pub open spec fn text_clause(keyword: Seq<char>, body: Option<Seq<char>>) -> Seq<char> {
    match body {
        Some(b) => keyword + b,
        None => Seq::empty(),
    }
}

/// `keyword` followed by the number in decimal, or nothing where there is
/// none.
pub open spec fn number_clause(keyword: Seq<char>, n: Option<i64>) -> Seq<char> {
    match n {
        Some(v) => keyword + decimal(v as int),
        None => Seq::empty(),
    }
}

/// The column list of a select: the names joined, or `*` where none is named.
pub open spec fn column_list(columns: Option<Seq<Seq<char>>>) -> Seq<char> {
    match columns {
        Some(c) => if c.len() == 0 {
            "*"@
        } else {
            join(c, ", "@)
        },
        None => "*"@,
    }
}

/// The columns that a select names; none where the list is absent.
pub open spec fn named_columns(columns: Option<Seq<Seq<char>>>) -> Seq<Seq<char>> {
    match columns {
        Some(c) => c,
        None => Seq::empty(),
    }
}

/// `INSERT INTO <table> (<c1>, ..) VALUES (?, ..)`, one placeholder per
/// column.
pub open spec fn insert_text(table: Seq<char>, cols: Seq<Seq<char>>) -> Seq<char> {
    "INSERT INTO "@ + table + " ("@ + join(cols, ", "@) + ") VALUES ("@ + join(
        placeholders(cols.len()),
        ", "@,
    ) + ")"@
}

/// `SELECT <columns> FROM <table>`, then the clauses that are present, in the
/// order `WHERE`, `ORDER BY`, `LIMIT`, `OFFSET`.
pub open spec fn select_text(
    table: Seq<char>,
    columns: Option<Seq<Seq<char>>>,
    filter: Option<Seq<char>>,
    order_by: Option<Seq<char>>,
    limit: Option<i64>,
    offset: Option<i64>,
) -> Seq<char> {
    "SELECT "@ + column_list(columns) + " FROM "@ + table + text_clause(" WHERE "@, filter)
        + text_clause(" ORDER BY "@, order_by) + number_clause(" LIMIT "@, limit) + number_clause(
        " OFFSET "@,
        offset,
    )
}

/// `UPDATE <table> SET <c1> = ?, ..`, then `WHERE` where a filter is given.
pub open spec fn update_text(table: Seq<char>, cols: Seq<Seq<char>>, filter: Option<Seq<char>>) -> Seq<
    char,
> {
    "UPDATE "@ + table + " SET "@ + join(set_fragments(cols), ", "@) + text_clause(
        " WHERE "@,
        filter,
    )
}

/// `DELETE FROM <table>`, then `WHERE` where a filter is given.
pub open spec fn delete_text(table: Seq<char>, filter: Option<Seq<char>>) -> Seq<char> {
    "DELETE FROM "@ + table + text_clause(" WHERE "@, filter)
}

/// The statement that a valid insert builds.
pub open spec fn insert_model(input: InsertInput) -> StatementModel {
    StatementModel {
        sql: insert_text(input.table@, assignment_names(input.values@)),
        binds: assignment_values(input.values@),
    }
}

/// The statement that a valid select builds.
pub open spec fn select_model(input: SelectInput) -> StatementModel {
    StatementModel {
        sql: select_text(
            input.table@,
            opt_texts(input.columns),
            opt_text(input.filter),
            opt_text(input.order_by),
            input.limit,
            input.offset,
        ),
        binds: param_models(input.params),
    }
}

/// The statement that a valid update builds: the new values are bound first,
/// then the filter's parameters, as `SET` stands before `WHERE` in the text.
pub open spec fn update_model(input: UpdateInput) -> StatementModel {
    StatementModel {
        sql: update_text(input.table@, assignment_names(input.set@), opt_text(input.filter)),
        binds: assignment_values(input.set@) + param_models(input.params),
    }
}

/// The statement that a valid delete builds.
pub open spec fn delete_model(input: DeleteInput) -> StatementModel {
    StatementModel {
        sql: delete_text(input.table@, opt_text(input.filter)),
        binds: param_models(input.params),
    }
}

/// What building a statement over `table` and `names` must give, input by
/// input: an invalid table is reported first; else the first invalid name;
/// else, where `needs_column` holds, an empty `names`; and where nothing is
/// wrong, the statement `built`.
pub open spec fn build_outcome(
    r: Result<BoundStatement, BuildError>,
    table: Seq<char>,
    names: Seq<Seq<char>>,
    needs_column: bool,
    built: StatementModel,
) -> bool {
    if !valid_ident(table) {
        &&& r is Err
        &&& r->Err_0 is InvalidIdentifier
        &&& r->Err_0->role == IdentRole::Table
        &&& r->Err_0->name@ == table
    } else if !all_valid(names) {
        &&& r is Err
        &&& r->Err_0 is InvalidIdentifier
        &&& r->Err_0->role == IdentRole::Column
        &&& exists|i: int| first_invalid(names, i) && r->Err_0->name@ == #[trigger] names[i]
    } else if needs_column && names.len() == 0 {
        r == Err::<BoundStatement, BuildError>(BuildError::EmptyColumnSet)
    } else {
        &&& r is Ok
        &&& r->Ok_0@ == built
    }
}

fn push_text_clause(sql: &mut String, keyword: &str, body: &Option<String>)
    ensures
        final(sql)@ == old(sql)@ + text_clause(keyword@, opt_text(*body)),
{
    match body {
        Some(b) => {
            sql.append(keyword);
            sql.append(b.as_str());
            assert(final(sql)@ =~= old(sql)@ + (keyword@ + b@));
        },
        None => {
            assert(final(sql)@ =~= old(sql)@ + Seq::<char>::empty());
        },
    }
}

fn push_number_clause(sql: &mut String, keyword: &str, n: Option<i64>)
    ensures
        final(sql)@ == old(sql)@ + number_clause(keyword@, n),
{
    match n {
        Some(v) => {
            sql.append(keyword);
            push_decimal(sql, v);
            assert(final(sql)@ =~= old(sql)@ + (keyword@ + decimal(v as int)));
        },
        None => {
            assert(final(sql)@ =~= old(sql)@ + Seq::<char>::empty());
        },
    }
}

fn append_params(binds: &mut Vec<DynamicValue>, params: &Option<Vec<DynamicValue>>)
    ensures
        value_models(final(binds)@) == value_models(old(binds)@) + param_models(*params),
{
    match params {
        Some(p) => {
            let n: usize = p.len();
            let mut i: usize = 0;
            while i < n
                invariant
                    i <= n,
                    n == p@.len(),
                    value_models(binds@) == value_models(old(binds)@) + value_models(p@).take(
                        i as int,
                    ),
                decreases n - i,
            {
                let ghost before = binds@;
                binds.push(p[i].clone());
                assert(value_models(binds@) =~= value_models(before) + seq![p@[i as int]@]);
                assert(value_models(p@).take(i + 1) =~= value_models(p@).take(i as int)
                    + seq![p@[i as int]@]);
                assert(value_models(binds@) =~= value_models(old(binds)@) + value_models(
                    p@,
                ).take(i + 1));
                i += 1;
            }
            assert(value_models(p@).take(n as int) =~= value_models(p@));
        },
        None => {
            assert(value_models(binds@) =~= value_models(old(binds)@) + Seq::<ValueModel>::empty());
        },
    }
}

/// The position of the first name that is not a valid identifier, if any.
fn find_invalid(names: &Vec<String>) -> (r: Option<usize>)
    ensures
        match r {
            Some(i) => first_invalid(texts(names@), i as int),
            None => all_valid(texts(names@)),
        },
{
    let n: usize = names.len();
    let mut i: usize = 0;
    while i < n
        invariant
            i <= n,
            n == names@.len(),
            forall|j: int| 0 <= j < i ==> valid_ident(#[trigger] texts(names@)[j]),
        decreases n - i,
    {
        if !is_valid_ident(names[i].as_str()) {
            return Some(i);
        }
        i += 1;
    }
    None
}

/// Splits assignments into column names and values, in order.
fn split_assignments(a: &Vec<(String, DynamicValue)>) -> (r: (Vec<String>, Vec<DynamicValue>))
    ensures
        texts(r.0@) == assignment_names(a@),
        value_models(r.1@) == assignment_values(a@),
{
    let mut names: Vec<String> = Vec::new();
    let mut values: Vec<DynamicValue> = Vec::new();
    let n: usize = a.len();
    let mut i: usize = 0;
    while i < n
        invariant
            i <= n,
            n == a@.len(),
            names@.len() == i,
            values@.len() == i,
            forall|j: int| 0 <= j < i ==> (#[trigger] names@[j])@ == a@[j].0@,
            forall|j: int| 0 <= j < i ==> (#[trigger] values@[j])@ == a@[j].1@,
        decreases n - i,
    {
        names.push(a[i].0.clone());
        values.push(a[i].1.clone());
        i += 1;
    }
    assert(texts(names@) =~= assignment_names(a@));
    assert(value_models(values@) =~= assignment_values(a@));
    (names, values)
}

fn invalid_name(role: IdentRole, name: &String) -> (e: BuildError)
    ensures
        e == (BuildError::InvalidIdentifier { role, name: e->name }),
        e is InvalidIdentifier,
        e->name@ == name@,
{
    BuildError::InvalidIdentifier { role, name: name.clone() }
}

/// Builds the statement for an insert.
///
/// The table and every column must be valid identifiers and at least one
/// column must be given. The placeholders and the bind list follow the order
/// of `input.values`.
pub fn insert_statement(input: &InsertInput) -> (r: Result<BoundStatement, BuildError>)
    ensures
        build_outcome(
            r,
            input.table@,
            assignment_names(input.values@),
            true,
            insert_model(*input),
        ),
{
    if !is_valid_ident(input.table.as_str()) {
        return Err(invalid_name(IdentRole::Table, &input.table));
    }
    let (cols, binds) = split_assignments(&input.values);
    match find_invalid(&cols) {
        Some(i) => {
            return Err(invalid_name(IdentRole::Column, &cols[i]));
        },
        None => {},
    }
    if cols.len() == 0 {
        return Err(BuildError::EmptyColumnSet);
    }
    let mut marks: Vec<String> = Vec::new();
    let n: usize = cols.len();
    let mut i: usize = 0;
    while i < n
        invariant
            i <= n,
            marks@.len() == i,
            forall|j: int| 0 <= j < i ==> (#[trigger] marks@[j])@ == "?"@,
        decreases n - i,
    {
        marks.push(String::from_str("?"));
        i += 1;
    }
    assert(texts(marks@) =~= placeholders(cols@.len()));
    let mut sql = String::from_str("INSERT INTO ");
    sql.append(input.table.as_str());
    sql.append(" (");
    sql.append(join_texts(&cols, ", ").as_str());
    sql.append(") VALUES (");
    sql.append(join_texts(&marks, ", ").as_str());
    sql.append(")");
    Ok(BoundStatement { sql, binds })
}

/// Builds the statement for a select.
///
/// The table and every named column must be valid identifiers. The filter and
/// order-by fragments are spliced in verbatim; limit and offset are written as
/// decimal literals. The bind list is the filter's parameter list.
pub fn select_statement(input: &SelectInput) -> (r: Result<BoundStatement, BuildError>)
    ensures
        build_outcome(
            r,
            input.table@,
            named_columns(opt_texts(input.columns)),
            false,
            select_model(*input),
        ),
{
    if !is_valid_ident(input.table.as_str()) {
        return Err(invalid_name(IdentRole::Table, &input.table));
    }
    let mut sql = String::from_str("SELECT ");
    match &input.columns {
        Some(list) => {
            if list.len() == 0 {
                sql.append("*");
            } else {
                match find_invalid(list) {
                    Some(i) => {
                        return Err(invalid_name(IdentRole::Column, &list[i]));
                    },
                    None => {},
                }
                sql.append(join_texts(list, ", ").as_str());
            }
        },
        None => {
            sql.append("*");
        },
    }
    sql.append(" FROM ");
    sql.append(input.table.as_str());
    push_text_clause(&mut sql, " WHERE ", &input.filter);
    push_text_clause(&mut sql, " ORDER BY ", &input.order_by);
    push_number_clause(&mut sql, " LIMIT ", input.limit);
    push_number_clause(&mut sql, " OFFSET ", input.offset);
    let mut binds: Vec<DynamicValue> = Vec::new();
    append_params(&mut binds, &input.params);
    assert(value_models(binds@) =~= param_models(input.params));
    Ok(BoundStatement { sql, binds })
}

/// Builds the statement for an update.
///
/// The table and every set-column must be valid identifiers and at least one
/// set-column must be given. The bind list holds the new values in the order
/// of `input.set`, then the filter's parameters.
pub fn update_statement(input: &UpdateInput) -> (r: Result<BoundStatement, BuildError>)
    ensures
        build_outcome(
            r,
            input.table@,
            assignment_names(input.set@),
            true,
            update_model(*input),
        ),
{
    if !is_valid_ident(input.table.as_str()) {
        return Err(invalid_name(IdentRole::Table, &input.table));
    }
    if input.set.len() == 0 {
        return Err(BuildError::EmptyColumnSet);
    }
    let (cols, mut binds) = split_assignments(&input.set);
    match find_invalid(&cols) {
        Some(i) => {
            return Err(invalid_name(IdentRole::Column, &cols[i]));
        },
        None => {},
    }
    let mut frags: Vec<String> = Vec::new();
    let n: usize = cols.len();
    let mut i: usize = 0;
    while i < n
        invariant
            i <= n,
            n == cols@.len(),
            frags@.len() == i,
            forall|j: int| 0 <= j < i ==> (#[trigger] frags@[j])@ == cols@[j]@ + " = ?"@,
        decreases n - i,
    {
        let mut frag = cols[i].clone();
        frag.append(" = ?");
        frags.push(frag);
        i += 1;
    }
    assert(texts(frags@) =~= set_fragments(texts(cols@)));
    let mut sql = String::from_str("UPDATE ");
    sql.append(input.table.as_str());
    sql.append(" SET ");
    sql.append(join_texts(&frags, ", ").as_str());
    push_text_clause(&mut sql, " WHERE ", &input.filter);
    append_params(&mut binds, &input.params);
    Ok(BoundStatement { sql, binds })
}

/// Builds the statement for a delete.
///
/// Only the table is validated. Without a filter the statement removes every
/// row of the table.
pub fn delete_statement(input: &DeleteInput) -> (r: Result<BoundStatement, BuildError>)
    ensures
        build_outcome(
            r,
            input.table@,
            Seq::empty(),
            false,
            delete_model(*input),
        ),
{
    if !is_valid_ident(input.table.as_str()) {
        return Err(invalid_name(IdentRole::Table, &input.table));
    }
    let mut sql = String::from_str("DELETE FROM ");
    sql.append(input.table.as_str());
    push_text_clause(&mut sql, " WHERE ", &input.filter);
    let mut binds: Vec<DynamicValue> = Vec::new();
    append_params(&mut binds, &input.params);
    assert(value_models(binds@) =~= param_models(input.params));
    Ok(BoundStatement { sql, binds })
}

/// In a built insert, column list, placeholders and bind list agree position
/// by position: there are as many binds as columns, and the `i`-th bind is
/// the value that the input gives to the `i`-th column of the statement's
/// column list, whatever order the input lists its columns in.
pub proof fn lemma_insert_binds_follow_columns(input: InsertInput, stmt: BoundStatement, i: int)
    requires
        build_outcome(
            Ok(stmt),
            input.table@,
            assignment_names(input.values@),
            true,
            insert_model(input),
        ),
        0 <= i < input.values@.len(),
    ensures
        stmt@.binds.len() == assignment_names(input.values@).len(),
        stmt@.binds.len() == placeholders(input.values@.len()).len(),
        stmt@.sql == insert_text(input.table@, assignment_names(input.values@)),
        assignment_names(input.values@)[i] == input.values@[i].0@,
        stmt@.binds[i] == input.values@[i].1@,
        valid_ident(assignment_names(input.values@)[i]),
{
}

/// No statement is built from a name that is not a valid identifier: where
/// the table or any listed column fails validation, every builder's outcome
/// is an error that carries the first offending name, and never a statement.
pub proof fn lemma_invalid_name_builds_nothing(
    r: Result<BoundStatement, BuildError>,
    table: Seq<char>,
    names: Seq<Seq<char>>,
    needs_column: bool,
    built: StatementModel,
)
    requires
        build_outcome(r, table, names, needs_column, built),
        !valid_ident(table) || !all_valid(names),
    ensures
        r is Err,
        r->Err_0 is InvalidIdentifier,
        !valid_ident(table) ==> r->Err_0->role == IdentRole::Table && r->Err_0->name@ == table,
        valid_ident(table) ==> r->Err_0->role == IdentRole::Column && exists|i: int|
            first_invalid(names, i) && r->Err_0->name@ == #[trigger] names[i],
{
}

/// A statement is built exactly when the table and every listed column are
/// valid identifiers and, where a column is required, one is listed; it is
/// then the statement `built`.
pub proof fn lemma_build_succeeds_iff(
    r: Result<BoundStatement, BuildError>,
    table: Seq<char>,
    names: Seq<Seq<char>>,
    needs_column: bool,
    built: StatementModel,
)
    requires
        build_outcome(r, table, names, needs_column, built),
    ensures
        r is Ok <==> valid_ident(table) && all_valid(names) && (needs_column ==> names.len() > 0),
        r is Ok ==> r->Ok_0@ == built,
        r == Err::<BoundStatement, BuildError>(BuildError::EmptyColumnSet) <==> valid_ident(table)
            && needs_column && names.len() == 0,
{
    if valid_ident(table) && !all_valid(names) {
        lemma_invalid_name_builds_nothing(r, table, names, needs_column, built);
    }
}

/// Values never enter statement text: two inserts that name the same table
/// and the same columns in the same order build the same text, whatever
/// values they carry; so do two updates that also share their filter.
pub proof fn lemma_text_ignores_values(a: InsertInput, b: InsertInput, c: UpdateInput, d: UpdateInput)
    requires
        a.table@ == b.table@,
        assignment_names(a.values@) == assignment_names(b.values@),
        c.table@ == d.table@,
        assignment_names(c.set@) == assignment_names(d.set@),
        opt_text(c.filter) == opt_text(d.filter),
    ensures
        insert_model(a).sql == insert_model(b).sql,
        update_model(c).sql == update_model(d).sql,
{
}

/// An update binds the new values first, in the order of its set-columns,
/// and the filter's parameters after them, in their own order.
pub proof fn lemma_update_bind_order(input: UpdateInput, i: int)
    requires
        0 <= i < input.set@.len() + param_models(input.params).len(),
    ensures
        update_model(input).binds.len() == input.set@.len() + param_models(input.params).len(),
        i < input.set@.len() ==> update_model(input).binds[i] == input.set@[i].1@,
        i >= input.set@.len() ==> update_model(input).binds[i] == param_models(input.params)[i
            - input.set@.len()],
{
}

} // verus!
