//! The backend capability contract and the three built-in dialect
//! renderers.
//!
//! The contract is split into four capability groups, one per statement
//! family, so a consumer needing only one family need not implement the
//! rest.  Every rendering operation is pinned to the specification-level
//! rendering function of the implementor's dialect, so a statement renders
//! identically against any conforming renderer of that dialect.  The
//! renderers hold no state: they are unit values, freely reusable across
//! any number of render calls.

use vstd::prelude::*;
use crate::dialect::{Dialect, ph_text};
use crate::error::RenderError;
use crate::expr::SimpleExpr;
use crate::foreign_key::{
    fk_action_text, foreign_key_create_render, foreign_key_drop_render, ForeignKeyAction,
    ForeignKeyCreateStatement, ForeignKeyDropStatement,
};
use crate::index::{index_create_render, index_drop_render, IndexCreateStatement, IndexDropStatement};
use crate::table::{
    column_def_render, table_alter_render, table_create_render, table_drop_render,
    table_rename_render, table_truncate_render, ColumnDef, TableAlterStatement,
    TableCreateStatement, TableDropStatement, TableRenameStatement, TableTruncateStatement,
};
use crate::query::{delete_render, insert_render, select_render, update_render, DeleteStatement, InsertStatement, SelectStatement, UpdateStatement};
use crate::render::expr_render;
use crate::value::Value;
use crate::writer::SqlWriter;

verus! {

/// A source of the one dialect a renderer speaks.
pub trait HasDialect {
    /// The dialect this renderer targets.
    spec fn dialect(&self) -> Dialect;
}

/// Rendering operations for query (DML) statements.
pub trait QueryBuilder: HasDialect {
    /// Translate an [`InsertStatement`] into this dialect's SQL text,
    /// handing each bound value to the collector in placeholder order; a
    /// malformed statement is reported and nothing is written.
    fn prepare_insert_statement(
        &self,
        insert: &InsertStatement,
        sql: &mut SqlWriter,
        collector: &mut Vec<Value>,
    ) -> (r: Result<(), RenderError>)
        ensures
            ({
                match insert_render(self.dialect(), insert@, old(collector)@.len() as nat) {
                    Ok(out) => r is Ok && final(sql)@ == old(sql)@ + out.text && final(collector).deep_view() == old(collector).deep_view() + out.params,
                    Err(e) => r == Result::<(), RenderError>::Err(e) && final(sql)@ == old(sql)@
                        && final(collector).deep_view() == old(collector).deep_view(),
                }
            }),
    ;

    /// Translate an [`UpdateStatement`] into this dialect's SQL text.
    fn prepare_update_statement(
        &self,
        update: &UpdateStatement,
        sql: &mut SqlWriter,
        collector: &mut Vec<Value>,
    ) -> (r: Result<(), RenderError>)
        ensures
            ({
                match update_render(self.dialect(), update@, old(collector)@.len() as nat) {
                    Ok(out) => r is Ok && final(sql)@ == old(sql)@ + out.text && final(collector).deep_view() == old(collector).deep_view() + out.params,
                    Err(e) => r == Result::<(), RenderError>::Err(e) && final(sql)@ == old(sql)@
                        && final(collector).deep_view() == old(collector).deep_view(),
                }
            }),
    ;

    /// Translate a [`DeleteStatement`] into this dialect's SQL text.
    fn prepare_delete_statement(
        &self,
        delete: &DeleteStatement,
        sql: &mut SqlWriter,
        collector: &mut Vec<Value>,
    ) -> (r: Result<(), RenderError>)
        ensures
            ({
                match delete_render(self.dialect(), delete@, old(collector)@.len() as nat) {
                    Ok(out) => r is Ok && final(sql)@ == old(sql)@ + out.text && final(collector).deep_view() == old(collector).deep_view() + out.params,
                    Err(e) => r == Result::<(), RenderError>::Err(e) && final(sql)@ == old(sql)@
                        && final(collector).deep_view() == old(collector).deep_view(),
                }
            }),
    ;

    /// Translate a [`SelectStatement`] into this dialect's SQL text,
    /// handing each bound value to the collector in placeholder order; a
    /// malformed statement is reported and nothing is written.
    fn prepare_select_statement(
        &self,
        select: &SelectStatement,
        sql: &mut SqlWriter,
        collector: &mut Vec<Value>,
    ) -> (r: Result<(), RenderError>)
        ensures
            ({
                match select_render(self.dialect(), select@, old(collector)@.len() as nat) {
                    Ok(out) => r is Ok && final(sql)@ == old(sql)@ + out.text && final(collector).deep_view() == old(collector).deep_view() + out.params,
                    Err(e) => r == Result::<(), RenderError>::Err(e) && final(sql)@ == old(sql)@
                        && final(collector).deep_view() == old(collector).deep_view(),
                }
            }),
    ;

    /// Translate one expression node into this dialect's SQL text.
    fn prepare_simple_expr(
        &self,
        simple_expr: &SimpleExpr,
        sql: &mut SqlWriter,
        collector: &mut Vec<Value>,
    )
        ensures
            ({
                let r = expr_render(self.dialect(), simple_expr@, old(collector)@.len() as nat);
                final(sql)@ == old(sql)@ + r.text && final(collector).deep_view() == old(
                    collector,
                ).deep_view() + r.params
            }),
    ;

    /// Emit one placeholder and hand its value to the collector.
    fn prepare_value(&self, value: &Value, sql: &mut SqlWriter, collector: &mut Vec<Value>)
        ensures
            final(sql)@ == old(sql)@ + ph_text(self.dialect(), old(collector)@.len() as nat),
            final(collector).deep_view() == old(collector).deep_view().push(value@),
    ;
}


/// Rendering operations for table DDL statements.
pub trait TableBuilder: HasDialect {
    /// Translate a [`TableCreateStatement`] into this dialect's SQL text;
    /// a malformed statement is reported and nothing is written.
    fn prepare_table_create_statement(
        &self,
        create: &TableCreateStatement,
        sql: &mut SqlWriter,
    ) -> (r: Result<(), RenderError>)
        ensures
            ({
                match table_create_render(self.dialect(), create@) {
                    Ok(t) => r is Ok && final(sql)@ == old(sql)@ + t,
                    Err(e) => r == Result::<(), RenderError>::Err(e) && final(sql)@ == old(sql)@,
                }
            }),
    ;

    /// Translate one column definition into this dialect's SQL text.
    fn prepare_column_def(&self, column_def: &ColumnDef, sql: &mut SqlWriter) -> (r: Result<
        (),
        RenderError,
    >)
        ensures
            ({
                match column_def_render(self.dialect(), column_def@) {
                    Ok(t) => r is Ok && final(sql)@ == old(sql)@ + t,
                    Err(e) => r == Result::<(), RenderError>::Err(e) && final(sql)@ == old(sql)@,
                }
            }),
    ;

    /// Translate a [`TableDropStatement`] into this dialect's SQL text.
    fn prepare_table_drop_statement(
        &self,
        drop: &TableDropStatement,
        sql: &mut SqlWriter,
    ) -> (r: Result<(), RenderError>)
        ensures
            ({
                match table_drop_render(self.dialect(), drop@) {
                    Ok(t) => r is Ok && final(sql)@ == old(sql)@ + t,
                    Err(e) => r == Result::<(), RenderError>::Err(e) && final(sql)@ == old(sql)@,
                }
            }),
    ;

    /// Translate a [`TableTruncateStatement`] into this dialect's SQL
    /// text; the construct is refused for a dialect that lacks it.
    fn prepare_table_truncate_statement(
        &self,
        truncate: &TableTruncateStatement,
        sql: &mut SqlWriter,
    ) -> (r: Result<(), RenderError>)
        ensures
            ({
                match table_truncate_render(self.dialect(), truncate@) {
                    Ok(t) => r is Ok && final(sql)@ == old(sql)@ + t,
                    Err(e) => r == Result::<(), RenderError>::Err(e) && final(sql)@ == old(sql)@,
                }
            }),
    ;

    /// Translate a [`TableAlterStatement`] into this dialect's SQL text.
    fn prepare_table_alter_statement(
        &self,
        alter: &TableAlterStatement,
        sql: &mut SqlWriter,
    ) -> (r: Result<(), RenderError>)
        ensures
            ({
                match table_alter_render(self.dialect(), alter@) {
                    Ok(t) => r is Ok && final(sql)@ == old(sql)@ + t,
                    Err(e) => r == Result::<(), RenderError>::Err(e) && final(sql)@ == old(sql)@,
                }
            }),
    ;

    /// Translate a [`TableRenameStatement`] into this dialect's SQL text.
    fn prepare_table_rename_statement(
        &self,
        rename: &TableRenameStatement,
        sql: &mut SqlWriter,
    ) -> (r: Result<(), RenderError>)
        ensures
            ({
                match table_rename_render(self.dialect(), rename@) {
                    Ok(t) => r is Ok && final(sql)@ == old(sql)@ + t,
                    Err(e) => r == Result::<(), RenderError>::Err(e) && final(sql)@ == old(sql)@,
                }
            }),
    ;
}

/// Rendering operations for index DDL statements.
pub trait IndexBuilder: HasDialect {
    /// Translate an [`IndexCreateStatement`] into this dialect's SQL
    /// text; a malformed statement is reported and nothing is written.
    fn prepare_index_create_statement(
        &self,
        create: &IndexCreateStatement,
        sql: &mut SqlWriter,
    ) -> (r: Result<(), RenderError>)
        ensures
            ({
                match index_create_render(self.dialect(), create@) {
                    Ok(t) => r is Ok && final(sql)@ == old(sql)@ + t,
                    Err(e) => r == Result::<(), RenderError>::Err(e) && final(sql)@ == old(sql)@,
                }
            }),
    ;

    /// Translate an [`IndexDropStatement`] into this dialect's SQL text;
    /// the table clause is emitted exactly when this dialect scopes index
    /// names per table.
    fn prepare_index_drop_statement(
        &self,
        drop: &IndexDropStatement,
        sql: &mut SqlWriter,
    ) -> (r: Result<(), RenderError>)
        ensures
            ({
                match index_drop_render(self.dialect(), drop@) {
                    Ok(t) => r is Ok && final(sql)@ == old(sql)@ + t,
                    Err(e) => r == Result::<(), RenderError>::Err(e) && final(sql)@ == old(sql)@,
                }
            }),
    ;
}

/// Rendering operations for foreign-key DDL statements.
pub trait ForeignKeyBuilder: HasDialect {
    /// Translate a [`ForeignKeyCreateStatement`] into this dialect's SQL
    /// text; the construct is refused for a dialect that lacks it.
    fn prepare_foreign_key_create_statement(
        &self,
        create: &ForeignKeyCreateStatement,
        sql: &mut SqlWriter,
    ) -> (r: Result<(), RenderError>)
        ensures
            ({
                match foreign_key_create_render(self.dialect(), create@) {
                    Ok(t) => r is Ok && final(sql)@ == old(sql)@ + t,
                    Err(e) => r == Result::<(), RenderError>::Err(e) && final(sql)@ == old(sql)@,
                }
            }),
    ;

    /// Append the keyword of one referential action.
    fn prepare_foreign_key_action(&self, foreign_key_action: &ForeignKeyAction, sql: &mut SqlWriter)
        ensures
            final(sql)@ == old(sql)@ + fk_action_text(*foreign_key_action),
    ;

    /// Translate a [`ForeignKeyDropStatement`] into this dialect's SQL
    /// text; the construct is refused for a dialect that lacks it.
    fn prepare_foreign_key_drop_statement(
        &self,
        drop: &ForeignKeyDropStatement,
        sql: &mut SqlWriter,
    ) -> (r: Result<(), RenderError>)
        ensures
            ({
                match foreign_key_drop_render(self.dialect(), drop@) {
                    Ok(t) => r is Ok && final(sql)@ == old(sql)@ + t,
                    Err(e) => r == Result::<(), RenderError>::Err(e) && final(sql)@ == old(sql)@,
                }
            }),
    ;
}

/// A full backend: the union of the four capability groups, for a
/// consumer that renders every statement family through one value.
pub trait GenericBuilder: QueryBuilder + TableBuilder + IndexBuilder + ForeignKeyBuilder {
}

/// The MySQL-like dialect renderer.
#[derive(Clone, Copy, Debug)]
pub struct MysqlQueryBuilder;

/// The PostgreSQL-like dialect renderer.
#[derive(Clone, Copy, Debug)]
pub struct PostgresQueryBuilder;

/// The SQLite-like dialect renderer.
#[derive(Clone, Copy, Debug)]
pub struct SqliteQueryBuilder;

impl HasDialect for MysqlQueryBuilder {
    open spec fn dialect(&self) -> Dialect {
        Dialect::Mysql
    }
}

impl HasDialect for PostgresQueryBuilder {
    open spec fn dialect(&self) -> Dialect {
        Dialect::Postgres
    }
}

impl HasDialect for SqliteQueryBuilder {
    open spec fn dialect(&self) -> Dialect {
        Dialect::Sqlite
    }
}

impl QueryBuilder for MysqlQueryBuilder {
    fn prepare_insert_statement(
        &self,
        insert: &InsertStatement,
        sql: &mut SqlWriter,
        collector: &mut Vec<Value>,
    ) -> (r: Result<(), RenderError>) {
        crate::query::write_insert(Dialect::Mysql, insert, sql, collector)
    }

    fn prepare_update_statement(
        &self,
        update: &UpdateStatement,
        sql: &mut SqlWriter,
        collector: &mut Vec<Value>,
    ) -> (r: Result<(), RenderError>) {
        crate::query::write_update(Dialect::Mysql, update, sql, collector)
    }

    fn prepare_delete_statement(
        &self,
        delete: &DeleteStatement,
        sql: &mut SqlWriter,
        collector: &mut Vec<Value>,
    ) -> (r: Result<(), RenderError>) {
        crate::query::write_delete(Dialect::Mysql, delete, sql, collector)
    }

    fn prepare_select_statement(
        &self,
        select: &SelectStatement,
        sql: &mut SqlWriter,
        collector: &mut Vec<Value>,
    ) -> (r: Result<(), RenderError>) {
        crate::query::write_select(Dialect::Mysql, select, sql, collector)
    }

    fn prepare_simple_expr(
        &self,
        simple_expr: &SimpleExpr,
        sql: &mut SqlWriter,
        collector: &mut Vec<Value>,
    ) {
        crate::render::write_expr(Dialect::Mysql, simple_expr, sql, collector)
    }

    fn prepare_value(&self, value: &Value, sql: &mut SqlWriter, collector: &mut Vec<Value>) {
        crate::render::write_value_param(Dialect::Mysql, value, sql, collector)
    }
}

impl QueryBuilder for PostgresQueryBuilder {
    fn prepare_insert_statement(
        &self,
        insert: &InsertStatement,
        sql: &mut SqlWriter,
        collector: &mut Vec<Value>,
    ) -> (r: Result<(), RenderError>) {
        crate::query::write_insert(Dialect::Postgres, insert, sql, collector)
    }

    fn prepare_update_statement(
        &self,
        update: &UpdateStatement,
        sql: &mut SqlWriter,
        collector: &mut Vec<Value>,
    ) -> (r: Result<(), RenderError>) {
        crate::query::write_update(Dialect::Postgres, update, sql, collector)
    }

    fn prepare_delete_statement(
        &self,
        delete: &DeleteStatement,
        sql: &mut SqlWriter,
        collector: &mut Vec<Value>,
    ) -> (r: Result<(), RenderError>) {
        crate::query::write_delete(Dialect::Postgres, delete, sql, collector)
    }

    fn prepare_select_statement(
        &self,
        select: &SelectStatement,
        sql: &mut SqlWriter,
        collector: &mut Vec<Value>,
    ) -> (r: Result<(), RenderError>) {
        crate::query::write_select(Dialect::Postgres, select, sql, collector)
    }

    fn prepare_simple_expr(
        &self,
        simple_expr: &SimpleExpr,
        sql: &mut SqlWriter,
        collector: &mut Vec<Value>,
    ) {
        crate::render::write_expr(Dialect::Postgres, simple_expr, sql, collector)
    }

    fn prepare_value(&self, value: &Value, sql: &mut SqlWriter, collector: &mut Vec<Value>) {
        crate::render::write_value_param(Dialect::Postgres, value, sql, collector)
    }
}

impl QueryBuilder for SqliteQueryBuilder {
    fn prepare_insert_statement(
        &self,
        insert: &InsertStatement,
        sql: &mut SqlWriter,
        collector: &mut Vec<Value>,
    ) -> (r: Result<(), RenderError>) {
        crate::query::write_insert(Dialect::Sqlite, insert, sql, collector)
    }

    fn prepare_update_statement(
        &self,
        update: &UpdateStatement,
        sql: &mut SqlWriter,
        collector: &mut Vec<Value>,
    ) -> (r: Result<(), RenderError>) {
        crate::query::write_update(Dialect::Sqlite, update, sql, collector)
    }

    fn prepare_delete_statement(
        &self,
        delete: &DeleteStatement,
        sql: &mut SqlWriter,
        collector: &mut Vec<Value>,
    ) -> (r: Result<(), RenderError>) {
        crate::query::write_delete(Dialect::Sqlite, delete, sql, collector)
    }

    fn prepare_select_statement(
        &self,
        select: &SelectStatement,
        sql: &mut SqlWriter,
        collector: &mut Vec<Value>,
    ) -> (r: Result<(), RenderError>) {
        crate::query::write_select(Dialect::Sqlite, select, sql, collector)
    }

    fn prepare_simple_expr(
        &self,
        simple_expr: &SimpleExpr,
        sql: &mut SqlWriter,
        collector: &mut Vec<Value>,
    ) {
        crate::render::write_expr(Dialect::Sqlite, simple_expr, sql, collector)
    }

    fn prepare_value(&self, value: &Value, sql: &mut SqlWriter, collector: &mut Vec<Value>) {
        crate::render::write_value_param(Dialect::Sqlite, value, sql, collector)
    }
}

impl IndexBuilder for MysqlQueryBuilder {
    fn prepare_index_create_statement(
        &self,
        create: &IndexCreateStatement,
        sql: &mut SqlWriter,
    ) -> (r: Result<(), RenderError>) {
        crate::index::write_index_create(Dialect::Mysql, create, sql)
    }

    fn prepare_index_drop_statement(
        &self,
        drop: &IndexDropStatement,
        sql: &mut SqlWriter,
    ) -> (r: Result<(), RenderError>) {
        crate::index::write_index_drop(Dialect::Mysql, drop, sql)
    }
}

impl IndexBuilder for PostgresQueryBuilder {
    fn prepare_index_create_statement(
        &self,
        create: &IndexCreateStatement,
        sql: &mut SqlWriter,
    ) -> (r: Result<(), RenderError>) {
        crate::index::write_index_create(Dialect::Postgres, create, sql)
    }

    fn prepare_index_drop_statement(
        &self,
        drop: &IndexDropStatement,
        sql: &mut SqlWriter,
    ) -> (r: Result<(), RenderError>) {
        crate::index::write_index_drop(Dialect::Postgres, drop, sql)
    }
}

impl IndexBuilder for SqliteQueryBuilder {
    fn prepare_index_create_statement(
        &self,
        create: &IndexCreateStatement,
        sql: &mut SqlWriter,
    ) -> (r: Result<(), RenderError>) {
        crate::index::write_index_create(Dialect::Sqlite, create, sql)
    }

    fn prepare_index_drop_statement(
        &self,
        drop: &IndexDropStatement,
        sql: &mut SqlWriter,
    ) -> (r: Result<(), RenderError>) {
        crate::index::write_index_drop(Dialect::Sqlite, drop, sql)
    }
}

impl TableBuilder for MysqlQueryBuilder {
    fn prepare_table_create_statement(
        &self,
        create: &TableCreateStatement,
        sql: &mut SqlWriter,
    ) -> (r: Result<(), RenderError>) {
        crate::table::write_table_create(Dialect::Mysql, create, sql)
    }

    fn prepare_column_def(&self, column_def: &ColumnDef, sql: &mut SqlWriter) -> (r: Result<
        (),
        RenderError,
    >) {
        crate::table::write_column_def(Dialect::Mysql, column_def, sql)
    }

    fn prepare_table_drop_statement(
        &self,
        drop: &TableDropStatement,
        sql: &mut SqlWriter,
    ) -> (r: Result<(), RenderError>) {
        crate::table::write_table_drop(Dialect::Mysql, drop, sql)
    }

    fn prepare_table_truncate_statement(
        &self,
        truncate: &TableTruncateStatement,
        sql: &mut SqlWriter,
    ) -> (r: Result<(), RenderError>) {
        crate::table::write_table_truncate(Dialect::Mysql, truncate, sql)
    }

    fn prepare_table_alter_statement(
        &self,
        alter: &TableAlterStatement,
        sql: &mut SqlWriter,
    ) -> (r: Result<(), RenderError>) {
        crate::table::write_table_alter(Dialect::Mysql, alter, sql)
    }

    fn prepare_table_rename_statement(
        &self,
        rename: &TableRenameStatement,
        sql: &mut SqlWriter,
    ) -> (r: Result<(), RenderError>) {
        crate::table::write_table_rename(Dialect::Mysql, rename, sql)
    }
}

impl TableBuilder for PostgresQueryBuilder {
    fn prepare_table_create_statement(
        &self,
        create: &TableCreateStatement,
        sql: &mut SqlWriter,
    ) -> (r: Result<(), RenderError>) {
        crate::table::write_table_create(Dialect::Postgres, create, sql)
    }

    fn prepare_column_def(&self, column_def: &ColumnDef, sql: &mut SqlWriter) -> (r: Result<
        (),
        RenderError,
    >) {
        crate::table::write_column_def(Dialect::Postgres, column_def, sql)
    }

    fn prepare_table_drop_statement(
        &self,
        drop: &TableDropStatement,
        sql: &mut SqlWriter,
    ) -> (r: Result<(), RenderError>) {
        crate::table::write_table_drop(Dialect::Postgres, drop, sql)
    }

    fn prepare_table_truncate_statement(
        &self,
        truncate: &TableTruncateStatement,
        sql: &mut SqlWriter,
    ) -> (r: Result<(), RenderError>) {
        crate::table::write_table_truncate(Dialect::Postgres, truncate, sql)
    }

    fn prepare_table_alter_statement(
        &self,
        alter: &TableAlterStatement,
        sql: &mut SqlWriter,
    ) -> (r: Result<(), RenderError>) {
        crate::table::write_table_alter(Dialect::Postgres, alter, sql)
    }

    fn prepare_table_rename_statement(
        &self,
        rename: &TableRenameStatement,
        sql: &mut SqlWriter,
    ) -> (r: Result<(), RenderError>) {
        crate::table::write_table_rename(Dialect::Postgres, rename, sql)
    }
}

impl TableBuilder for SqliteQueryBuilder {
    fn prepare_table_create_statement(
        &self,
        create: &TableCreateStatement,
        sql: &mut SqlWriter,
    ) -> (r: Result<(), RenderError>) {
        crate::table::write_table_create(Dialect::Sqlite, create, sql)
    }

    fn prepare_column_def(&self, column_def: &ColumnDef, sql: &mut SqlWriter) -> (r: Result<
        (),
        RenderError,
    >) {
        crate::table::write_column_def(Dialect::Sqlite, column_def, sql)
    }

    fn prepare_table_drop_statement(
        &self,
        drop: &TableDropStatement,
        sql: &mut SqlWriter,
    ) -> (r: Result<(), RenderError>) {
        crate::table::write_table_drop(Dialect::Sqlite, drop, sql)
    }

    fn prepare_table_truncate_statement(
        &self,
        truncate: &TableTruncateStatement,
        sql: &mut SqlWriter,
    ) -> (r: Result<(), RenderError>) {
        crate::table::write_table_truncate(Dialect::Sqlite, truncate, sql)
    }

    fn prepare_table_alter_statement(
        &self,
        alter: &TableAlterStatement,
        sql: &mut SqlWriter,
    ) -> (r: Result<(), RenderError>) {
        crate::table::write_table_alter(Dialect::Sqlite, alter, sql)
    }

    fn prepare_table_rename_statement(
        &self,
        rename: &TableRenameStatement,
        sql: &mut SqlWriter,
    ) -> (r: Result<(), RenderError>) {
        crate::table::write_table_rename(Dialect::Sqlite, rename, sql)
    }
}

impl ForeignKeyBuilder for MysqlQueryBuilder {
    fn prepare_foreign_key_create_statement(
        &self,
        create: &ForeignKeyCreateStatement,
        sql: &mut SqlWriter,
    ) -> (r: Result<(), RenderError>) {
        crate::foreign_key::write_foreign_key_create(Dialect::Mysql, create, sql)
    }

    fn prepare_foreign_key_action(
        &self,
        foreign_key_action: &ForeignKeyAction,
        sql: &mut SqlWriter,
    ) {
        crate::foreign_key::write_fk_action(foreign_key_action, sql)
    }

    fn prepare_foreign_key_drop_statement(
        &self,
        drop: &ForeignKeyDropStatement,
        sql: &mut SqlWriter,
    ) -> (r: Result<(), RenderError>) {
        crate::foreign_key::write_foreign_key_drop(Dialect::Mysql, drop, sql)
    }
}

impl GenericBuilder for MysqlQueryBuilder {
}

impl ForeignKeyBuilder for PostgresQueryBuilder {
    fn prepare_foreign_key_create_statement(
        &self,
        create: &ForeignKeyCreateStatement,
        sql: &mut SqlWriter,
    ) -> (r: Result<(), RenderError>) {
        crate::foreign_key::write_foreign_key_create(Dialect::Postgres, create, sql)
    }

    fn prepare_foreign_key_action(
        &self,
        foreign_key_action: &ForeignKeyAction,
        sql: &mut SqlWriter,
    ) {
        crate::foreign_key::write_fk_action(foreign_key_action, sql)
    }

    fn prepare_foreign_key_drop_statement(
        &self,
        drop: &ForeignKeyDropStatement,
        sql: &mut SqlWriter,
    ) -> (r: Result<(), RenderError>) {
        crate::foreign_key::write_foreign_key_drop(Dialect::Postgres, drop, sql)
    }
}

impl GenericBuilder for PostgresQueryBuilder {
}

impl ForeignKeyBuilder for SqliteQueryBuilder {
    fn prepare_foreign_key_create_statement(
        &self,
        create: &ForeignKeyCreateStatement,
        sql: &mut SqlWriter,
    ) -> (r: Result<(), RenderError>) {
        crate::foreign_key::write_foreign_key_create(Dialect::Sqlite, create, sql)
    }

    fn prepare_foreign_key_action(
        &self,
        foreign_key_action: &ForeignKeyAction,
        sql: &mut SqlWriter,
    ) {
        crate::foreign_key::write_fk_action(foreign_key_action, sql)
    }

    fn prepare_foreign_key_drop_statement(
        &self,
        drop: &ForeignKeyDropStatement,
        sql: &mut SqlWriter,
    ) -> (r: Result<(), RenderError>) {
        crate::foreign_key::write_foreign_key_drop(Dialect::Sqlite, drop, sql)
    }
}

impl GenericBuilder for SqliteQueryBuilder {
}

} // verus!
