use sea_query::backend::{MysqlQueryBuilder, PostgresQueryBuilder, SqliteQueryBuilder};
use sea_query::error::{RenderError, StatementKind};
use sea_query::iden::Iden;
use sea_query::index::{IndexCreateStatement, IndexDropStatement};
use sea_query::foreign_key::{ForeignKeyAction, ForeignKeyCreateStatement, ForeignKeyDropStatement};
use sea_query::table::{ColumnDef, ColumnSpec, ColumnType, TableAlterStatement, TableCreateStatement, TableDropStatement, TableRenameStatement, TableTruncateStatement};
use sea_query::value::Value;

fn glyph() -> Iden {
    Iden::new("glyph")
}

#[test]
fn index_drop_table_clause_policy() {
    let index = IndexDropStatement::new().name("idx-glyph-aspect").table(glyph());
    assert_eq!(
        index.build(MysqlQueryBuilder).unwrap(),
        r#"DROP INDEX `idx-glyph-aspect` ON `glyph`"#
    );
    assert_eq!(
        index.build(PostgresQueryBuilder).unwrap(),
        r#"DROP INDEX "idx-glyph-aspect""#
    );
    assert_eq!(
        index.build(SqliteQueryBuilder).unwrap(),
        r#"DROP INDEX `idx-glyph-aspect` ON `glyph`"#
    );
}

#[test]
fn index_drop_requires_name_everywhere() {
    let unnamed = IndexDropStatement::new().table(glyph());
    assert_eq!(
        unnamed.build(MysqlQueryBuilder),
        Err(RenderError::MissingName(StatementKind::IndexDrop))
    );
    assert_eq!(
        unnamed.build(PostgresQueryBuilder),
        Err(RenderError::MissingName(StatementKind::IndexDrop))
    );
}

#[test]
fn index_drop_table_requirement_is_dialect_specific() {
    let no_table = IndexDropStatement::new().name("idx-glyph-aspect");
    assert_eq!(
        no_table.build(MysqlQueryBuilder),
        Err(RenderError::MissingTable(StatementKind::IndexDrop))
    );
    assert_eq!(
        no_table.build(SqliteQueryBuilder),
        Err(RenderError::MissingTable(StatementKind::IndexDrop))
    );
    assert_eq!(
        no_table.build(PostgresQueryBuilder).unwrap(),
        r#"DROP INDEX "idx-glyph-aspect""#
    );
}

#[test]
fn index_create_renders_per_dialect() {
    let index = IndexCreateStatement::new()
        .name("idx-glyph-aspect")
        .table(glyph())
        .col(Iden::new("aspect"));
    assert_eq!(
        index.build(MysqlQueryBuilder).unwrap(),
        r#"CREATE INDEX `idx-glyph-aspect` ON `glyph` (`aspect`)"#
    );
    assert_eq!(
        index.build(PostgresQueryBuilder).unwrap(),
        r#"CREATE INDEX "idx-glyph-aspect" ON "glyph" ("aspect")"#
    );
}

#[test]
fn unique_index_create() {
    let index = IndexCreateStatement::new()
        .name("idx-glyph-aspect")
        .table(glyph())
        .col(Iden::new("aspect"))
        .col(Iden::new("image"))
        .unique();
    assert_eq!(
        index.build(MysqlQueryBuilder).unwrap(),
        r#"CREATE UNIQUE INDEX `idx-glyph-aspect` ON `glyph` (`aspect`, `image`)"#
    );
}

#[test]
fn index_create_error_taxonomy() {
    let no_name = IndexCreateStatement::new().table(glyph()).col(Iden::new("aspect"));
    assert_eq!(
        no_name.build(MysqlQueryBuilder),
        Err(RenderError::MissingName(StatementKind::IndexCreate))
    );
    let no_table = IndexCreateStatement::new().name("i").col(Iden::new("aspect"));
    assert_eq!(
        no_table.build(MysqlQueryBuilder),
        Err(RenderError::MissingTable(StatementKind::IndexCreate))
    );
    let no_columns = IndexCreateStatement::new().name("i").table(glyph());
    assert_eq!(
        no_columns.build(MysqlQueryBuilder),
        Err(RenderError::EmptyColumns(StatementKind::IndexCreate))
    );
}

#[test]
fn index_drop_clone_independence() {
    let original = IndexDropStatement::new().name("idx-glyph-aspect").table(glyph());
    let before = original.build(MysqlQueryBuilder).unwrap();
    let clone = original.clone().name("idx-other");
    let after = original.build(MysqlQueryBuilder).unwrap();
    assert_eq!(before, after);
    assert_eq!(
        clone.build(MysqlQueryBuilder).unwrap(),
        r#"DROP INDEX `idx-other` ON `glyph`"#
    );
}

#[test]
fn table_create_renders_per_dialect() {
    let table = TableCreateStatement::new()
        .table(glyph())
        .col(
            ColumnDef::new(Iden::new("id"))
                .column_type(ColumnType::Integer)
                .spec_entry(ColumnSpec::NotNull)
                .spec_entry(ColumnSpec::AutoIncrement)
                .spec_entry(ColumnSpec::PrimaryKey),
        )
        .col(
            ColumnDef::new(Iden::new("aspect"))
                .column_type(ColumnType::Varchar(255))
                .spec_entry(ColumnSpec::Default(Value::text("none"))),
        );
    assert_eq!(
        table.build(MysqlQueryBuilder).unwrap(),
        "CREATE TABLE `glyph` ( `id` INT NOT NULL AUTO_INCREMENT PRIMARY KEY, `aspect` VARCHAR(255) DEFAULT 'none' )"
    );
    assert_eq!(
        table.build(PostgresQueryBuilder).unwrap(),
        "CREATE TABLE \"glyph\" ( \"id\" INTEGER NOT NULL GENERATED ALWAYS AS IDENTITY PRIMARY KEY, \"aspect\" VARCHAR(255) DEFAULT 'none' )"
    );
    assert_eq!(
        table.build(SqliteQueryBuilder).unwrap(),
        "CREATE TABLE `glyph` ( `id` INTEGER NOT NULL AUTOINCREMENT PRIMARY KEY, `aspect` VARCHAR(255) DEFAULT 'none' )"
    );
}

#[test]
fn table_create_error_taxonomy() {
    let no_table = TableCreateStatement::new()
        .col(ColumnDef::new(Iden::new("id")).column_type(ColumnType::Integer));
    assert_eq!(
        no_table.build(MysqlQueryBuilder),
        Err(RenderError::MissingTable(StatementKind::TableCreate))
    );
    let no_columns = TableCreateStatement::new().table(glyph());
    assert_eq!(
        no_columns.build(MysqlQueryBuilder),
        Err(RenderError::EmptyColumns(StatementKind::TableCreate))
    );
    let untyped = TableCreateStatement::new().table(glyph()).col(ColumnDef::new(Iden::new("id")));
    assert_eq!(
        untyped.build(MysqlQueryBuilder),
        Err(RenderError::MissingType(StatementKind::TableCreate))
    );
    let binary_default = TableCreateStatement::new().table(glyph()).col(
        ColumnDef::new(Iden::new("blob"))
            .column_type(ColumnType::Text)
            .spec_entry(ColumnSpec::Default(Value::bytes(vec![1]))),
    );
    assert_eq!(
        binary_default.build(MysqlQueryBuilder),
        Err(RenderError::Unsupported(StatementKind::TableCreate))
    );
}

#[test]
fn boolean_and_negative_defaults_spell_per_dialect() {
    let table = TableCreateStatement::new().table(glyph()).col(
        ColumnDef::new(Iden::new("ok"))
            .column_type(ColumnType::Boolean)
            .spec_entry(ColumnSpec::Default(Value::boolean(true)))
            .spec_entry(ColumnSpec::Default(Value::integer(-42))),
    );
    assert_eq!(
        table.build(MysqlQueryBuilder).unwrap(),
        "CREATE TABLE `glyph` ( `ok` BOOL DEFAULT TRUE DEFAULT -42 )"
    );
    assert_eq!(
        table.build(SqliteQueryBuilder).unwrap(),
        "CREATE TABLE `glyph` ( `ok` BOOLEAN DEFAULT 1 DEFAULT -42 )"
    );
}

#[test]
fn table_drop_truncate_rename() {
    let drop = TableDropStatement::new().table(glyph()).table(Iden::new("font")).if_exists();
    assert_eq!(
        drop.build(MysqlQueryBuilder).unwrap(),
        "DROP TABLE IF EXISTS `glyph`, `font`"
    );
    let truncate = TableTruncateStatement::new().table(glyph());
    assert_eq!(
        truncate.build(PostgresQueryBuilder).unwrap(),
        "TRUNCATE TABLE \"glyph\""
    );
    assert_eq!(
        truncate.build(SqliteQueryBuilder),
        Err(RenderError::Unsupported(StatementKind::TableTruncate))
    );
    let rename = TableRenameStatement::new().table(glyph(), Iden::new("sigil"));
    assert_eq!(
        rename.build(MysqlQueryBuilder).unwrap(),
        "RENAME TABLE `glyph` TO `sigil`"
    );
    assert_eq!(
        rename.build(SqliteQueryBuilder).unwrap(),
        "ALTER TABLE `glyph` RENAME TO `sigil`"
    );
}

#[test]
fn table_alter_operations() {
    let add = TableAlterStatement::new()
        .table(glyph())
        .add_column(ColumnDef::new(Iden::new("score")).column_type(ColumnType::BigInteger));
    assert_eq!(
        add.build(MysqlQueryBuilder).unwrap(),
        "ALTER TABLE `glyph` ADD COLUMN `score` BIGINT"
    );
    let modify = TableAlterStatement::new()
        .table(glyph())
        .modify_column(ColumnDef::new(Iden::new("score")).column_type(ColumnType::Integer));
    assert_eq!(
        modify.build(MysqlQueryBuilder).unwrap(),
        "ALTER TABLE `glyph` MODIFY COLUMN `score` INT"
    );
    assert_eq!(
        modify.build(PostgresQueryBuilder).unwrap(),
        "ALTER TABLE \"glyph\" ALTER COLUMN \"score\" TYPE INTEGER"
    );
    assert_eq!(
        modify.build(SqliteQueryBuilder),
        Err(RenderError::Unsupported(StatementKind::TableAlter))
    );
    let rename = TableAlterStatement::new()
        .table(glyph())
        .rename_column(Iden::new("score"), Iden::new("points"));
    assert_eq!(
        rename.build(SqliteQueryBuilder).unwrap(),
        "ALTER TABLE `glyph` RENAME COLUMN `score` TO `points`"
    );
    let drop = TableAlterStatement::new().table(glyph()).drop_column(Iden::new("points"));
    assert_eq!(
        drop.build(PostgresQueryBuilder).unwrap(),
        "ALTER TABLE \"glyph\" DROP COLUMN \"points\""
    );
    let no_op = TableAlterStatement::new().table(glyph());
    assert_eq!(
        no_op.build(MysqlQueryBuilder),
        Err(RenderError::MissingOperation(StatementKind::TableAlter))
    );
}

#[test]
fn foreign_key_create_and_drop() {
    let fk = ForeignKeyCreateStatement::new()
        .name("fk-glyph-font")
        .table(glyph())
        .ref_table(Iden::new("font"))
        .col(Iden::new("font_id"))
        .ref_col(Iden::new("id"))
        .on_delete(ForeignKeyAction::Cascade)
        .on_update(ForeignKeyAction::Restrict);
    assert_eq!(
        fk.build(MysqlQueryBuilder).unwrap(),
        "ALTER TABLE `glyph` ADD CONSTRAINT `fk-glyph-font` FOREIGN KEY (`font_id`) REFERENCES `font` (`id`) ON DELETE CASCADE ON UPDATE RESTRICT"
    );
    assert_eq!(
        fk.build(PostgresQueryBuilder).unwrap(),
        "ALTER TABLE \"glyph\" ADD CONSTRAINT \"fk-glyph-font\" FOREIGN KEY (\"font_id\") REFERENCES \"font\" (\"id\") ON DELETE CASCADE ON UPDATE RESTRICT"
    );
    assert_eq!(
        fk.build(SqliteQueryBuilder),
        Err(RenderError::Unsupported(StatementKind::ForeignKeyCreate))
    );
    let mismatched = ForeignKeyCreateStatement::new()
        .name("fk")
        .table(glyph())
        .ref_table(Iden::new("font"))
        .col(Iden::new("a"))
        .col(Iden::new("b"))
        .ref_col(Iden::new("c"));
    assert_eq!(
        mismatched.build(MysqlQueryBuilder),
        Err(RenderError::RowArityMismatch(StatementKind::ForeignKeyCreate))
    );
    let drop = ForeignKeyDropStatement::new().name("fk-glyph-font").table(glyph());
    assert_eq!(
        drop.build(MysqlQueryBuilder).unwrap(),
        "ALTER TABLE `glyph` DROP FOREIGN KEY `fk-glyph-font`"
    );
    assert_eq!(
        drop.build(PostgresQueryBuilder).unwrap(),
        "ALTER TABLE \"glyph\" DROP CONSTRAINT \"fk-glyph-font\""
    );
    assert_eq!(
        drop.build(SqliteQueryBuilder),
        Err(RenderError::Unsupported(StatementKind::ForeignKeyDrop))
    );
}
