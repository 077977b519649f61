use sea_query::backend::{MysqlQueryBuilder, PostgresQueryBuilder, SqliteQueryBuilder};
use sea_query::error::{RenderError, StatementKind};
use sea_query::expr::{BinOper, Function, JoinType, Order, SimpleExpr, UnOper};
use sea_query::iden::Iden;
use sea_query::query::{DeleteStatement, InsertStatement, SelectStatement, UpdateStatement};
use sea_query::value::Value;

fn glyph() -> Iden {
    Iden::new("glyph")
}

fn aspect() -> Iden {
    Iden::new("aspect")
}

fn eq_int(col: &str, v: i64) -> SimpleExpr {
    SimpleExpr::binary(
        SimpleExpr::col(Iden::new(col)),
        BinOper::Equal,
        SimpleExpr::val(Value::integer(v)),
    )
}

#[test]
fn select_quoting_per_dialect() {
    let q = SelectStatement::new().column(aspect()).from(glyph());
    let (mysql, _) = q.build(MysqlQueryBuilder).unwrap();
    let (pg, _) = q.build(PostgresQueryBuilder).unwrap();
    let (sqlite, _) = q.build(SqliteQueryBuilder).unwrap();
    assert_eq!(mysql, "SELECT `aspect` FROM `glyph`");
    assert_eq!(pg, "SELECT \"aspect\" FROM \"glyph\"");
    assert_eq!(sqlite, "SELECT `aspect` FROM `glyph`");
}

#[test]
fn select_placeholder_and_parameter_correspondence() {
    let q = SelectStatement::new()
        .column(aspect())
        .from(glyph())
        .and_where(eq_int("size_w", 3))
        .and_where(eq_int("size_h", 7))
        .limit(10)
        .offset(20);
    let (mysql, params) = q.build(MysqlQueryBuilder).unwrap();
    assert_eq!(
        mysql,
        "SELECT `aspect` FROM `glyph` WHERE (`size_w` = ?) AND (`size_h` = ?) LIMIT ? OFFSET ?"
    );
    assert_eq!(mysql.matches('?').count(), 4);
    assert_eq!(
        params,
        vec![Value::Int(3), Value::Int(7), Value::UInt(10), Value::UInt(20)]
    );

    let (pg, pg_params) = q.build(PostgresQueryBuilder).unwrap();
    assert_eq!(
        pg,
        "SELECT \"aspect\" FROM \"glyph\" WHERE (\"size_w\" = $1) AND (\"size_h\" = $2) LIMIT $3 OFFSET $4"
    );
    assert_eq!(pg.matches('$').count(), 4);
    assert_eq!(pg_params, params);

    let (sqlite, sq_params) = q.build(SqliteQueryBuilder).unwrap();
    assert_eq!(sqlite.matches('?').count(), 4);
    assert_eq!(sq_params, params);
}

#[test]
fn postgres_placeholders_are_numbered_past_nine() {
    let mut q = InsertStatement::new().into_table(glyph()).columns(vec![
        Iden::new("c1"),
        Iden::new("c2"),
        Iden::new("c3"),
        Iden::new("c4"),
        Iden::new("c5"),
        Iden::new("c6"),
        Iden::new("c7"),
        Iden::new("c8"),
        Iden::new("c9"),
        Iden::new("c10"),
        Iden::new("c11"),
        Iden::new("c12"),
    ]);
    let row: Vec<Value> = (1..=12).map(Value::integer).collect();
    q = q.values(row);
    let (pg, params) = q.build(PostgresQueryBuilder).unwrap();
    assert!(pg.ends_with("($1, $2, $3, $4, $5, $6, $7, $8, $9, $10, $11, $12)"));
    assert_eq!(params.len(), 12);
}

#[test]
fn repeated_literals_are_not_deduplicated() {
    let q = SelectStatement::new()
        .column(aspect())
        .from(glyph())
        .and_where(eq_int("size_w", 5))
        .and_where(eq_int("size_h", 5));
    let (mysql, params) = q.build(MysqlQueryBuilder).unwrap();
    assert_eq!(mysql.matches('?').count(), 2);
    assert_eq!(params, vec![Value::Int(5), Value::Int(5)]);
}

#[test]
fn where_order_changes_only_sibling_order() {
    let a = || eq_int("size_w", 3);
    let b = || eq_int("size_h", 7);
    let q1 = SelectStatement::new().column(aspect()).from(glyph()).and_where(a()).and_where(b());
    let q2 = SelectStatement::new().column(aspect()).from(glyph()).and_where(b()).and_where(a());
    let (t1, p1) = q1.build(MysqlQueryBuilder).unwrap();
    let (t2, p2) = q2.build(MysqlQueryBuilder).unwrap();
    assert_eq!(
        t1,
        "SELECT `aspect` FROM `glyph` WHERE (`size_w` = ?) AND (`size_h` = ?)"
    );
    assert_eq!(
        t2,
        "SELECT `aspect` FROM `glyph` WHERE (`size_h` = ?) AND (`size_w` = ?)"
    );
    assert_eq!(p1, vec![Value::Int(3), Value::Int(7)]);
    assert_eq!(p2, vec![Value::Int(7), Value::Int(3)]);
}

#[test]
fn idempotent_rerender() {
    let q = SelectStatement::new()
        .column(aspect())
        .from(glyph())
        .and_where(eq_int("id", 1))
        .order_by(SimpleExpr::col(Iden::new("id")), Order::Desc);
    let (t1, p1) = q.build(PostgresQueryBuilder).unwrap();
    let (t2, p2) = q.build(PostgresQueryBuilder).unwrap();
    assert_eq!(t1, t2);
    assert_eq!(p1, p2);
}

#[test]
fn clone_independence() {
    let original = SelectStatement::new().column(aspect()).from(glyph());
    let (before, _) = original.build(MysqlQueryBuilder).unwrap();
    let mut clone = original.clone();
    clone = clone.and_where(eq_int("id", 9)).limit(1);
    let (after, _) = original.build(MysqlQueryBuilder).unwrap();
    assert_eq!(before, after);
    let (clone_text, clone_params) = clone.build(MysqlQueryBuilder).unwrap();
    assert_ne!(clone_text, before);
    assert_eq!(clone_params, vec![Value::Int(9), Value::UInt(1)]);
}

#[test]
fn insert_without_table_fails() {
    let q = InsertStatement::new().columns(vec![aspect()]).values(vec![Value::integer(1)]);
    let r = q.build(MysqlQueryBuilder);
    assert_eq!(r, Err(RenderError::MissingTable(StatementKind::Insert)));
}

#[test]
fn insert_error_taxonomy() {
    let no_columns = InsertStatement::new().into_table(glyph()).values(vec![Value::integer(1)]);
    assert_eq!(
        no_columns.build(MysqlQueryBuilder),
        Err(RenderError::EmptyColumns(StatementKind::Insert))
    );
    let no_values = InsertStatement::new().into_table(glyph()).columns(vec![aspect()]);
    assert_eq!(
        no_values.build(MysqlQueryBuilder),
        Err(RenderError::EmptyValues(StatementKind::Insert))
    );
    let bad_arity = InsertStatement::new()
        .into_table(glyph())
        .columns(vec![aspect()])
        .values(vec![Value::integer(1), Value::integer(2)]);
    assert_eq!(
        bad_arity.build(MysqlQueryBuilder),
        Err(RenderError::RowArityMismatch(StatementKind::Insert))
    );
}

#[test]
fn insert_two_rows() {
    let q = InsertStatement::new()
        .into_table(glyph())
        .columns(vec![aspect(), Iden::new("image")])
        .values(vec![Value::integer(3), Value::text("scythe")])
        .values(vec![Value::integer(4), Value::text("sickle")]);
    let (mysql, params) = q.build(MysqlQueryBuilder).unwrap();
    assert_eq!(
        mysql,
        "INSERT INTO `glyph` (`aspect`, `image`) VALUES (?, ?), (?, ?)"
    );
    assert_eq!(
        params,
        vec![
            Value::Int(3),
            Value::Text("scythe".to_owned()),
            Value::Int(4),
            Value::Text("sickle".to_owned()),
        ]
    );
    let (pg, _) = q.build(PostgresQueryBuilder).unwrap();
    assert_eq!(
        pg,
        "INSERT INTO \"glyph\" (\"aspect\", \"image\") VALUES ($1, $2), ($3, $4)"
    );
}

#[test]
fn select_empty_projection_fails() {
    let q = SelectStatement::new().from(glyph());
    assert_eq!(
        q.build(MysqlQueryBuilder),
        Err(RenderError::EmptyColumns(StatementKind::Select))
    );
}

#[test]
fn update_statement_renders() {
    let q = UpdateStatement::new()
        .table(glyph())
        .value(aspect(), Value::integer(2))
        .and_where(eq_int("id", 1))
        .limit(1);
    let (mysql, params) = q.build(MysqlQueryBuilder).unwrap();
    assert_eq!(
        mysql,
        "UPDATE `glyph` SET `aspect` = ? WHERE (`id` = ?) LIMIT ?"
    );
    assert_eq!(params, vec![Value::Int(2), Value::Int(1), Value::UInt(1)]);
    let (pg, _) = q.build(PostgresQueryBuilder).unwrap();
    assert_eq!(
        pg,
        "UPDATE \"glyph\" SET \"aspect\" = $1 WHERE (\"id\" = $2) LIMIT $3"
    );
}

#[test]
fn update_error_taxonomy() {
    let no_table = UpdateStatement::new().value(aspect(), Value::integer(2));
    assert_eq!(
        no_table.build(MysqlQueryBuilder),
        Err(RenderError::MissingTable(StatementKind::Update))
    );
    let no_values = UpdateStatement::new().table(glyph());
    assert_eq!(
        no_values.build(MysqlQueryBuilder),
        Err(RenderError::EmptyValues(StatementKind::Update))
    );
}

#[test]
fn delete_statement_renders() {
    let q = DeleteStatement::new().from_table(glyph()).and_where(eq_int("id", 1));
    let (mysql, params) = q.build(MysqlQueryBuilder).unwrap();
    assert_eq!(mysql, "DELETE FROM `glyph` WHERE (`id` = ?)");
    assert_eq!(params, vec![Value::Int(1)]);
    let no_table = DeleteStatement::new();
    assert_eq!(
        no_table.build(MysqlQueryBuilder),
        Err(RenderError::MissingTable(StatementKind::Delete))
    );
}

#[test]
fn join_and_function_rendering() {
    let on = SimpleExpr::binary(
        SimpleExpr::table_col(glyph(), Iden::new("font_id")),
        BinOper::Equal,
        SimpleExpr::table_col(Iden::new("font"), Iden::new("id")),
    );
    let q = SelectStatement::new()
        .expr(SimpleExpr::func(Function::Count, vec![SimpleExpr::col(Iden::new("id"))]))
        .from(glyph())
        .join(JoinType::InnerJoin, Iden::new("font"), on);
    let (mysql, params) = q.build(MysqlQueryBuilder).unwrap();
    assert_eq!(
        mysql,
        "SELECT COUNT(`id`) FROM `glyph` INNER JOIN `font` ON (`glyph`.`font_id` = `font`.`id`)"
    );
    assert!(params.is_empty());
}

#[test]
fn custom_function_names_are_quoted_builtins_are_not() {
    let q = SelectStatement::new()
        .expr(SimpleExpr::func(
            Function::Custom(Iden::new("my_function")),
            vec![SimpleExpr::col(aspect())],
        ))
        .from(glyph());
    let (mysql, _) = q.build(MysqlQueryBuilder).unwrap();
    assert_eq!(mysql, "SELECT `my_function`(`aspect`) FROM `glyph`");
    let q2 = SelectStatement::new()
        .expr(SimpleExpr::func(Function::Max, vec![SimpleExpr::col(aspect())]))
        .from(glyph());
    let (mysql2, _) = q2.build(MysqlQueryBuilder).unwrap();
    assert_eq!(mysql2, "SELECT MAX(`aspect`) FROM `glyph`");
}

#[test]
fn nested_expressions_parenthesize_uniformly() {
    let grouped = SimpleExpr::binary(
        eq_int("a", 1),
        BinOper::Or,
        eq_int("b", 2),
    );
    let q = SelectStatement::new()
        .column(aspect())
        .from(glyph())
        .and_where(grouped)
        .and_where(SimpleExpr::unary(UnOper::Not, eq_int("c", 3)));
    let (mysql, params) = q.build(MysqlQueryBuilder).unwrap();
    assert_eq!(
        mysql,
        "SELECT `aspect` FROM `glyph` WHERE ((`a` = ?) OR (`b` = ?)) AND NOT (`c` = ?)"
    );
    assert_eq!(params, vec![Value::Int(1), Value::Int(2), Value::Int(3)]);
}

#[test]
fn distinct_group_by_having_order() {
    let q = SelectStatement::new()
        .distinct()
        .column(aspect())
        .from(glyph())
        .group_by(SimpleExpr::col(aspect()))
        .and_having(eq_int("n", 2))
        .order_by(SimpleExpr::col(aspect()), Order::Asc);
    let (mysql, params) = q.build(MysqlQueryBuilder).unwrap();
    assert_eq!(
        mysql,
        "SELECT DISTINCT `aspect` FROM `glyph` GROUP BY `aspect` HAVING (`n` = ?) ORDER BY `aspect` ASC"
    );
    assert_eq!(params, vec![Value::Int(2)]);
}

#[test]
fn or_where_uses_or_connective() {
    let q = SelectStatement::new()
        .column(aspect())
        .from(glyph())
        .and_where(eq_int("a", 1))
        .or_where(eq_int("b", 2));
    let (mysql, _) = q.build(MysqlQueryBuilder).unwrap();
    assert_eq!(
        mysql,
        "SELECT `aspect` FROM `glyph` WHERE (`a` = ?) OR (`b` = ?)"
    );
}

#[test]
fn value_constructors_carry_their_payloads() {
    assert_eq!(Value::boolean(true), Value::Bool(true));
    assert_eq!(Value::integer(-5), Value::Int(-5));
    assert_eq!(Value::unsigned(5), Value::UInt(5));
    assert_eq!(Value::text("ab"), Value::Text("ab".to_owned()));
    assert_eq!(Value::bytes(vec![1, 2]), Value::Bytes(vec![1, 2]));
    assert_eq!(
        Value::date_time("2020-01-01 00:00:00"),
        Value::DateTime("2020-01-01 00:00:00".to_owned())
    );
    let arr = Value::array(vec![Value::integer(1), Value::integer(2)]);
    assert_eq!(arr, Value::Array(vec![Value::Int(1), Value::Int(2)]));
}

#[test]
fn array_values_pass_through_the_collector() {
    let q = SelectStatement::new()
        .column(aspect())
        .from(glyph())
        .and_where(SimpleExpr::binary(
            SimpleExpr::col(Iden::new("id")),
            BinOper::Equal,
            SimpleExpr::val(Value::array(vec![Value::integer(1), Value::integer(2)])),
        ));
    let (_, params) = q.build(PostgresQueryBuilder).unwrap();
    assert_eq!(params, vec![Value::Array(vec![Value::Int(1), Value::Int(2)])]);
}

#[test]
fn identifier_handles_share_their_name() {
    let t = glyph();
    let u = t.clone();
    assert!(t.same_name(&u));
    assert!(!t.same_name(&aspect()));
    assert_eq!(t.as_text(), "glyph");
}
