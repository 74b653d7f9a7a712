use warp_sqlite_mcp::statement::{
    delete_statement, insert_statement, select_statement, update_statement, BoundStatement,
    BuildError, DeleteInput, IdentRole, InsertInput, SelectInput, UpdateInput,
};
use warp_sqlite_mcp::value::DynamicValue;

fn text(s: &str) -> DynamicValue {
    DynamicValue::Text(s.to_string())
}

fn select_all(table: &str) -> SelectInput {
    SelectInput {
        table: table.to_string(),
        columns: None,
        filter: None,
        params: None,
        order_by: None,
        limit: None,
        offset: None,
    }
}

fn invalid(role: IdentRole, name: &str) -> BuildError {
    BuildError::InvalidIdentifier { role, name: name.to_string() }
}

#[test]
fn insert_two_columns() {
    let input = InsertInput {
        table: "t".to_string(),
        values: vec![("a".to_string(), DynamicValue::Integer(1)), ("b".to_string(), text("x"))],
    };
    let stmt = insert_statement(&input).unwrap();
    assert_eq!(stmt.sql, "INSERT INTO t (a, b) VALUES (?, ?)");
    assert_eq!(stmt.binds, vec![DynamicValue::Integer(1), text("x")]);
}

#[test]
fn insert_binds_follow_the_column_order_given() {
    let input = InsertInput {
        table: "t".to_string(),
        values: vec![("b".to_string(), text("x")), ("a".to_string(), DynamicValue::Integer(1))],
    };
    let stmt = insert_statement(&input).unwrap();
    assert_eq!(stmt.sql, "INSERT INTO t (b, a) VALUES (?, ?)");
    assert_eq!(stmt.binds, vec![text("x"), DynamicValue::Integer(1)]);
}

#[test]
fn insert_one_column_has_one_placeholder() {
    let input = InsertInput {
        table: "notes".to_string(),
        values: vec![("body".to_string(), DynamicValue::Null)],
    };
    let stmt = insert_statement(&input).unwrap();
    assert_eq!(stmt.sql, "INSERT INTO notes (body) VALUES (?)");
    assert_eq!(stmt.binds, vec![DynamicValue::Null]);
}

#[test]
fn insert_with_invalid_column_builds_nothing() {
    let input = InsertInput {
        table: "t".to_string(),
        values: vec![
            ("a".to_string(), DynamicValue::Integer(1)),
            ("1abc".to_string(), DynamicValue::Integer(2)),
            ("x y".to_string(), DynamicValue::Integer(3)),
        ],
    };
    assert_eq!(insert_statement(&input), Err(invalid(IdentRole::Column, "1abc")));
}

#[test]
fn insert_with_invalid_table_reports_the_table_first() {
    let input = InsertInput {
        table: "t; DROP TABLE t".to_string(),
        values: vec![("1abc".to_string(), DynamicValue::Integer(2))],
    };
    assert_eq!(insert_statement(&input), Err(invalid(IdentRole::Table, "t; DROP TABLE t")));
}

#[test]
fn insert_without_columns_is_rejected() {
    let input = InsertInput { table: "t".to_string(), values: vec![] };
    assert_eq!(insert_statement(&input), Err(BuildError::EmptyColumnSet));
}

#[test]
fn insert_without_columns_on_invalid_table_reports_the_table() {
    let input = InsertInput { table: "".to_string(), values: vec![] };
    assert_eq!(insert_statement(&input), Err(invalid(IdentRole::Table, "")));
}

#[test]
fn values_never_enter_the_text() {
    let input = InsertInput {
        table: "t".to_string(),
        values: vec![("a".to_string(), text("'); DROP TABLE t; --"))],
    };
    let stmt = insert_statement(&input).unwrap();
    assert_eq!(stmt.sql, "INSERT INTO t (a) VALUES (?)");
    assert_eq!(stmt.binds, vec![text("'); DROP TABLE t; --")]);
}

#[test]
fn select_everything() {
    let stmt = select_statement(&select_all("t")).unwrap();
    assert_eq!(stmt, BoundStatement { sql: "SELECT * FROM t".to_string(), binds: vec![] });
}

#[test]
fn select_with_empty_column_list_reads_all_columns() {
    let mut input = select_all("t");
    input.columns = Some(vec![]);
    assert_eq!(select_statement(&input).unwrap().sql, "SELECT * FROM t");
}

#[test]
fn select_named_columns() {
    let mut input = select_all("people");
    input.columns = Some(vec!["id".to_string(), "name".to_string()]);
    assert_eq!(select_statement(&input).unwrap().sql, "SELECT id, name FROM people");
}

#[test]
fn select_with_limit_and_offset() {
    let mut input = select_all("t");
    input.limit = Some(2);
    input.offset = Some(1);
    let stmt = select_statement(&input).unwrap();
    assert_eq!(stmt.sql, "SELECT * FROM t LIMIT 2 OFFSET 1");
    assert_eq!(stmt.binds, vec![]);
}

#[test]
fn select_with_every_clause() {
    let input = SelectInput {
        table: "t".to_string(),
        columns: Some(vec!["a".to_string()]),
        filter: Some("a > ? AND b = ?".to_string()),
        params: Some(vec![DynamicValue::Integer(3), text("k")]),
        order_by: Some("a DESC".to_string()),
        limit: Some(10),
        offset: Some(20),
    };
    let stmt = select_statement(&input).unwrap();
    assert_eq!(stmt.sql, "SELECT a FROM t WHERE a > ? AND b = ? ORDER BY a DESC LIMIT 10 OFFSET 20");
    assert_eq!(stmt.binds, vec![DynamicValue::Integer(3), text("k")]);
}

#[test]
fn select_offset_without_limit() {
    let mut input = select_all("t");
    input.offset = Some(5);
    assert_eq!(select_statement(&input).unwrap().sql, "SELECT * FROM t OFFSET 5");
}

#[test]
fn select_writes_negative_and_extreme_numbers_in_decimal() {
    let mut input = select_all("t");
    input.limit = Some(-1);
    input.offset = Some(i64::MIN);
    assert_eq!(
        select_statement(&input).unwrap().sql,
        "SELECT * FROM t LIMIT -1 OFFSET -9223372036854775808"
    );
    input.limit = Some(i64::MAX);
    input.offset = Some(0);
    assert_eq!(
        select_statement(&input).unwrap().sql,
        "SELECT * FROM t LIMIT 9223372036854775807 OFFSET 0"
    );
}

#[test]
fn select_params_without_filter_are_still_bound() {
    let mut input = select_all("t");
    input.params = Some(vec![DynamicValue::Boolean(true)]);
    let stmt = select_statement(&input).unwrap();
    assert_eq!(stmt.sql, "SELECT * FROM t");
    assert_eq!(stmt.binds, vec![DynamicValue::Boolean(true)]);
}

#[test]
fn select_rejects_invalid_table_and_columns() {
    assert_eq!(select_statement(&select_all("1t")), Err(invalid(IdentRole::Table, "1t")));
    let mut input = select_all("t");
    input.columns = Some(vec!["ok".to_string(), "a,b".to_string(), "*".to_string()]);
    assert_eq!(select_statement(&input), Err(invalid(IdentRole::Column, "a,b")));
}

#[test]
fn select_passes_fragments_through_verbatim() {
    let mut input = select_all("t");
    input.filter = Some("1=1; --".to_string());
    input.order_by = Some("random()".to_string());
    assert_eq!(
        select_statement(&input).unwrap().sql,
        "SELECT * FROM t WHERE 1=1; -- ORDER BY random()"
    );
}

#[test]
fn update_binds_set_values_then_filter_params() {
    let input = UpdateInput {
        table: "t".to_string(),
        set: vec![("a".to_string(), DynamicValue::Integer(1)), ("b".to_string(), text("x"))],
        filter: Some("id = ?".to_string()),
        params: Some(vec![DynamicValue::Integer(7)]),
    };
    let stmt = update_statement(&input).unwrap();
    assert_eq!(stmt.sql, "UPDATE t SET a = ?, b = ? WHERE id = ?");
    assert_eq!(stmt.binds, vec![DynamicValue::Integer(1), text("x"), DynamicValue::Integer(7)]);
}

#[test]
fn update_without_filter() {
    let input = UpdateInput {
        table: "t".to_string(),
        set: vec![("a".to_string(), DynamicValue::Null)],
        filter: None,
        params: None,
    };
    let stmt = update_statement(&input).unwrap();
    assert_eq!(stmt.sql, "UPDATE t SET a = ?");
    assert_eq!(stmt.binds, vec![DynamicValue::Null]);
}

#[test]
fn update_without_set_columns_is_rejected() {
    let input = UpdateInput {
        table: "t".to_string(),
        set: vec![],
        filter: Some("id = 1".to_string()),
        params: None,
    };
    assert_eq!(update_statement(&input), Err(BuildError::EmptyColumnSet));
}

#[test]
fn update_rejects_invalid_names() {
    let input = UpdateInput {
        table: "t".to_string(),
        set: vec![("a = 1, b".to_string(), DynamicValue::Null)],
        filter: None,
        params: None,
    };
    assert_eq!(update_statement(&input), Err(invalid(IdentRole::Column, "a = 1, b")));
    let input = UpdateInput {
        table: "t t".to_string(),
        set: vec![],
        filter: None,
        params: None,
    };
    assert_eq!(update_statement(&input), Err(invalid(IdentRole::Table, "t t")));
}

#[test]
fn delete_without_filter_targets_every_row() {
    let input = DeleteInput { table: "t".to_string(), filter: None, params: None };
    assert_eq!(
        delete_statement(&input),
        Ok(BoundStatement { sql: "DELETE FROM t".to_string(), binds: vec![] })
    );
}

#[test]
fn delete_with_filter() {
    let input = DeleteInput {
        table: "t".to_string(),
        filter: Some("id = ? OR name = ?".to_string()),
        params: Some(vec![DynamicValue::Integer(4), text("n")]),
    };
    let stmt = delete_statement(&input).unwrap();
    assert_eq!(stmt.sql, "DELETE FROM t WHERE id = ? OR name = ?");
    assert_eq!(stmt.binds, vec![DynamicValue::Integer(4), text("n")]);
}

#[test]
fn delete_rejects_invalid_table() {
    let input = DeleteInput { table: "t--".to_string(), filter: None, params: None };
    assert_eq!(delete_statement(&input), Err(invalid(IdentRole::Table, "t--")));
}
