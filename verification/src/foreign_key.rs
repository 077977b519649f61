//! The foreign-key DDL statements: create and drop.

use vstd::prelude::*;
use vstd::string::StringExecFns;
use crate::backend::ForeignKeyBuilder;
use crate::dialect::{Dialect, push_quoted, quoted};
use crate::error::{RenderError, StatementKind};
use crate::iden::Iden;
use crate::query::clone_vec_deep;
use crate::render::{idents_text, write_idents};
use crate::writer::SqlWriter;

verus! {

/// The referential action taken on delete or update.
#[derive(Clone, Copy, PartialEq, Eq, Structural, Debug)]
pub enum ForeignKeyAction {
    Restrict,
    Cascade,
    SetNull,
    SetDefault,
    NoAction,
}

/// The keyword of a referential action.
pub open spec fn fk_action_text(a: ForeignKeyAction) -> Seq<char> {
    match a {
        ForeignKeyAction::Restrict => "RESTRICT"@,
        ForeignKeyAction::Cascade => "CASCADE"@,
        ForeignKeyAction::SetNull => "SET NULL"@,
        ForeignKeyAction::SetDefault => "SET DEFAULT"@,
        ForeignKeyAction::NoAction => "NO ACTION"@,
    }
}

/// Append the keyword of a referential action.
pub fn write_fk_action(a: &ForeignKeyAction, sql: &mut SqlWriter)
    ensures
        final(sql)@ == old(sql)@ + fk_action_text(*a),
{
    match a {
        ForeignKeyAction::Restrict => sql.push_str("RESTRICT"),
        ForeignKeyAction::Cascade => sql.push_str("CASCADE"),
        ForeignKeyAction::SetNull => sql.push_str("SET NULL"),
        ForeignKeyAction::SetDefault => sql.push_str("SET DEFAULT"),
        ForeignKeyAction::NoAction => sql.push_str("NO ACTION"),
    }
}

/// An ADD FOREIGN KEY statement under construction.
pub struct ForeignKeyCreateStatement {
    pub name: Option<String>,
    pub table: Option<Iden>,
    pub ref_table: Option<Iden>,
    pub columns: Vec<Iden>,
    pub ref_columns: Vec<Iden>,
    pub on_delete: Option<ForeignKeyAction>,
    pub on_update: Option<ForeignKeyAction>,
}

/// The model of a [`ForeignKeyCreateStatement`].
#[verifier::ext_equal]
pub struct ForeignKeyCreateV {
    pub name: Option<Seq<char>>,
    pub table: Option<Seq<char>>,
    pub ref_table: Option<Seq<char>>,
    pub columns: Seq<Seq<char>>,
    pub ref_columns: Seq<Seq<char>>,
    pub on_delete: Option<ForeignKeyAction>,
    pub on_update: Option<ForeignKeyAction>,
}

impl View for ForeignKeyCreateStatement {
    type V = ForeignKeyCreateV;

    open spec fn view(&self) -> ForeignKeyCreateV {
        ForeignKeyCreateV {
            name: self.name.deep_view(),
            table: self.table.deep_view(),
            ref_table: self.ref_table.deep_view(),
            columns: self.columns.deep_view(),
            ref_columns: self.ref_columns.deep_view(),
            on_delete: self.on_delete,
            on_update: self.on_update,
        }
    }
}

impl Clone for ForeignKeyCreateStatement {
    fn clone(&self) -> (r: ForeignKeyCreateStatement)
        ensures
            r@ == self@,
    {
        proof {
            assert forall|a: Iden, b: Iden|
                #[trigger] vstd::pervasive::cloned::<Iden>(a, b) implies a.deep_view()
                == b.deep_view() by {}
        }
        let r = ForeignKeyCreateStatement {
            name: match &self.name {
                Some(n) => Some(n.clone()),
                None => None,
            },
            table: match &self.table {
                Some(t) => Some(t.clone()),
                None => None,
            },
            ref_table: match &self.ref_table {
                Some(t) => Some(t.clone()),
                None => None,
            },
            columns: clone_vec_deep(&self.columns),
            ref_columns: clone_vec_deep(&self.ref_columns),
            on_delete: self.on_delete,
            on_update: self.on_update,
        };
        proof {
            assert(r@ =~= self@);
        }
        r
    }
}

/// The trailing referential-action clauses.
pub open spec fn fk_actions_text(
    on_delete: Option<ForeignKeyAction>,
    on_update: Option<ForeignKeyAction>,
) -> Seq<char> {
    (match on_delete {
        Some(a) => " ON DELETE "@ + fk_action_text(a),
        None => Seq::<char>::empty(),
    }) + (match on_update {
        Some(a) => " ON UPDATE "@ + fk_action_text(a),
        None => Seq::<char>::empty(),
    })
}

/// The complete rendering of an ADD FOREIGN KEY statement.  The
/// constraint name, both tables and two column lists of equal, non-zero
/// length are required; the SQLite-like dialect cannot add a foreign key
/// to an existing table, so there the render fails while the same
/// statement still renders for the other dialects.
pub open spec fn foreign_key_create_render(d: Dialect, s: ForeignKeyCreateV) -> Result<
    Seq<char>,
    RenderError,
> {
    if s.name is None {
        Err(RenderError::MissingName(StatementKind::ForeignKeyCreate))
    } else if s.table is None || s.ref_table is None {
        Err(RenderError::MissingTable(StatementKind::ForeignKeyCreate))
    } else if s.columns.len() == 0 || s.ref_columns.len() == 0 {
        Err(RenderError::EmptyColumns(StatementKind::ForeignKeyCreate))
    } else if s.columns.len() != s.ref_columns.len() {
        Err(RenderError::RowArityMismatch(StatementKind::ForeignKeyCreate))
    } else if d is Sqlite {
        Err(RenderError::Unsupported(StatementKind::ForeignKeyCreate))
    } else {
        Ok(
            "ALTER TABLE "@ + quoted(d, s.table->0) + " ADD CONSTRAINT "@ + quoted(d, s.name->0)
                + " FOREIGN KEY ("@ + idents_text(d, s.columns) + ") REFERENCES "@ + quoted(
                d,
                s.ref_table->0,
            ) + " ("@ + idents_text(d, s.ref_columns) + ")"@ + fk_actions_text(
                s.on_delete,
                s.on_update,
            ),
        )
    }
}

/// Append a full ADD FOREIGN KEY statement, or leave the writer alone
/// and report why the statement cannot render.
#[verifier::rlimit(100)]
pub fn write_foreign_key_create(
    d: Dialect,
    s: &ForeignKeyCreateStatement,
    sql: &mut SqlWriter,
) -> (r: Result<(), RenderError>)
    ensures
        ({
            match foreign_key_create_render(d, s@) {
                Ok(t) => r is Ok && final(sql)@ == old(sql)@ + t,
                Err(e) => r == Result::<(), RenderError>::Err(e) && final(sql)@ == old(sql)@,
            }
        }),
{
    let name = match &s.name {
        Some(n) => n,
        None => {
            return Err(RenderError::MissingName(StatementKind::ForeignKeyCreate));
        },
    };
    let (table, ref_table) = match (&s.table, &s.ref_table) {
        (Some(t), Some(rt)) => (t, rt),
        _ => {
            return Err(RenderError::MissingTable(StatementKind::ForeignKeyCreate));
        },
    };
    if s.columns.len() == 0 || s.ref_columns.len() == 0 {
        return Err(RenderError::EmptyColumns(StatementKind::ForeignKeyCreate));
    }
    if s.columns.len() != s.ref_columns.len() {
        return Err(RenderError::RowArityMismatch(StatementKind::ForeignKeyCreate));
    }
    match d {
        Dialect::Sqlite => {
            return Err(RenderError::Unsupported(StatementKind::ForeignKeyCreate));
        },
        _ => {},
    }
    sql.push_str("ALTER TABLE ");
    push_quoted(sql, d, table.as_text());
    sql.push_str(" ADD CONSTRAINT ");
    push_quoted(sql, d, name.as_str());
    sql.push_str(" FOREIGN KEY (");
    write_idents(d, &s.columns, sql);
    sql.push_str(") REFERENCES ");
    push_quoted(sql, d, ref_table.as_text());
    sql.push_str(" (");
    write_idents(d, &s.ref_columns, sql);
    sql.push_str(")");
    match &s.on_delete {
        Some(a) => {
            sql.push_str(" ON DELETE ");
            write_fk_action(a, sql);
        },
        None => {},
    }
    match &s.on_update {
        Some(a) => {
            sql.push_str(" ON UPDATE ");
            write_fk_action(a, sql);
        },
        None => {},
    }
    proof {
        assert(final(sql)@ =~= old(sql)@ + foreign_key_create_render(d, s@)->Ok_0);
    }
    Ok(())
}

impl ForeignKeyCreateStatement {
    /// An empty ADD FOREIGN KEY statement.
    pub fn new() -> (r: ForeignKeyCreateStatement)
        ensures
            r@ == (ForeignKeyCreateV {
                name: None,
                table: None,
                ref_table: None,
                columns: Seq::empty(),
                ref_columns: Seq::empty(),
                on_delete: None,
                on_update: None,
            }),
    {
        let r = ForeignKeyCreateStatement {
            name: None,
            table: None,
            ref_table: None,
            columns: Vec::new(),
            ref_columns: Vec::new(),
            on_delete: None,
            on_update: None,
        };
        proof {
            assert(r@ =~= (ForeignKeyCreateV {
                name: None,
                table: None,
                ref_table: None,
                columns: Seq::empty(),
                ref_columns: Seq::empty(),
                on_delete: None,
                on_update: None,
            }));
        }
        r
    }

    /// Set the constraint name (overwrites).
    pub fn name(self, name: &str) -> (r: ForeignKeyCreateStatement)
        ensures
            r@ == (ForeignKeyCreateV { name: Some(name@), ..self@ }),
    {
        let r = ForeignKeyCreateStatement { name: Some(name.to_owned()), ..self };
        proof {
            assert(r@ =~= (ForeignKeyCreateV { name: Some(name@), ..self@ }));
        }
        r
    }

    /// Set the referencing table (overwrites).
    pub fn table(self, table: Iden) -> (r: ForeignKeyCreateStatement)
        ensures
            r@ == (ForeignKeyCreateV { table: Some(table@), ..self@ }),
    {
        let ghost tv = table@;
        let r = ForeignKeyCreateStatement { table: Some(table), ..self };
        proof {
            assert(r@ =~= (ForeignKeyCreateV { table: Some(tv), ..self@ }));
        }
        r
    }

    /// Set the referenced table (overwrites).
    pub fn ref_table(self, table: Iden) -> (r: ForeignKeyCreateStatement)
        ensures
            r@ == (ForeignKeyCreateV { ref_table: Some(table@), ..self@ }),
    {
        let ghost tv = table@;
        let r = ForeignKeyCreateStatement { ref_table: Some(table), ..self };
        proof {
            assert(r@ =~= (ForeignKeyCreateV { ref_table: Some(tv), ..self@ }));
        }
        r
    }

    /// Add one referencing column (appends, in call order).
    pub fn col(self, column: Iden) -> (r: ForeignKeyCreateStatement)
        ensures
            r@ == (ForeignKeyCreateV { columns: self@.columns.push(column@), ..self@ }),
    {
        let ghost cv = column@;
        let mut columns = self.columns;
        columns.push(column);
        let r = ForeignKeyCreateStatement { columns, ..self };
        proof {
            assert(r@.columns =~= self@.columns.push(cv));
            assert(r@ =~= (ForeignKeyCreateV { columns: self@.columns.push(cv), ..self@ }));
        }
        r
    }

    /// Add one referenced column (appends, in call order).
    pub fn ref_col(self, column: Iden) -> (r: ForeignKeyCreateStatement)
        ensures
            r@ == (ForeignKeyCreateV {
                ref_columns: self@.ref_columns.push(column@),
                ..self@
            }),
    {
        let ghost cv = column@;
        let mut ref_columns = self.ref_columns;
        ref_columns.push(column);
        let r = ForeignKeyCreateStatement { ref_columns, ..self };
        proof {
            assert(r@.ref_columns =~= self@.ref_columns.push(cv));
            assert(r@ =~= (ForeignKeyCreateV {
                ref_columns: self@.ref_columns.push(cv),
                ..self@
            }));
        }
        r
    }

    /// Set the ON DELETE action (overwrites).
    pub fn on_delete(self, action: ForeignKeyAction) -> (r: ForeignKeyCreateStatement)
        ensures
            r@ == (ForeignKeyCreateV { on_delete: Some(action), ..self@ }),
    {
        let r = ForeignKeyCreateStatement { on_delete: Some(action), ..self };
        proof {
            assert(r@ =~= (ForeignKeyCreateV { on_delete: Some(action), ..self@ }));
        }
        r
    }

    /// Set the ON UPDATE action (overwrites).
    pub fn on_update(self, action: ForeignKeyAction) -> (r: ForeignKeyCreateStatement)
        ensures
            r@ == (ForeignKeyCreateV { on_update: Some(action), ..self@ }),
    {
        let r = ForeignKeyCreateStatement { on_update: Some(action), ..self };
        proof {
            assert(r@ =~= (ForeignKeyCreateV { on_update: Some(action), ..self@ }));
        }
        r
    }

    /// Render against a dialect.
    pub fn build<T: ForeignKeyBuilder>(&self, schema_builder: T) -> (r: Result<
        String,
        RenderError,
    >)
        ensures
            ({
                match foreign_key_create_render(schema_builder.dialect(), self@) {
                    Ok(t) => r matches Ok(out) && out@ == t,
                    Err(e) => r matches Err(e2) && e2 == e,
                }
            }),
    {
        let mut sql = SqlWriter::new();
        match schema_builder.prepare_foreign_key_create_statement(self, &mut sql) {
            Ok(()) => {
                proof {
                    let t = foreign_key_create_render(schema_builder.dialect(), self@)->Ok_0;
                    assert(Seq::<char>::empty() + t =~= t);
                }
                Ok(sql.result())
            },
            Err(e) => Err(e),
        }
    }
}

/// A DROP FOREIGN KEY statement under construction.
pub struct ForeignKeyDropStatement {
    pub name: Option<String>,
    pub table: Option<Iden>,
}

/// The model of a [`ForeignKeyDropStatement`].
#[verifier::ext_equal]
pub struct ForeignKeyDropV {
    pub name: Option<Seq<char>>,
    pub table: Option<Seq<char>>,
}

impl View for ForeignKeyDropStatement {
    type V = ForeignKeyDropV;

    open spec fn view(&self) -> ForeignKeyDropV {
        ForeignKeyDropV { name: self.name.deep_view(), table: self.table.deep_view() }
    }
}

impl Clone for ForeignKeyDropStatement {
    fn clone(&self) -> (r: ForeignKeyDropStatement)
        ensures
            r@ == self@,
    {
        let r = ForeignKeyDropStatement {
            name: match &self.name {
                Some(n) => Some(n.clone()),
                None => None,
            },
            table: match &self.table {
                Some(t) => Some(t.clone()),
                None => None,
            },
        };
        proof {
            assert(r@ =~= self@);
        }
        r
    }
}

/// The complete rendering of a DROP FOREIGN KEY statement: a DDL keyword
/// variant (`DROP FOREIGN KEY` against `DROP CONSTRAINT`).  The
/// constraint name and table are required; the SQLite-like dialect cannot
/// drop a foreign key from an existing table.
pub open spec fn foreign_key_drop_render(d: Dialect, s: ForeignKeyDropV) -> Result<
    Seq<char>,
    RenderError,
> {
    if s.name is None {
        Err(RenderError::MissingName(StatementKind::ForeignKeyDrop))
    } else if s.table is None {
        Err(RenderError::MissingTable(StatementKind::ForeignKeyDrop))
    } else {
        match d {
            Dialect::Mysql => Ok(
                "ALTER TABLE "@ + quoted(d, s.table->0) + " DROP FOREIGN KEY "@ + quoted(
                    d,
                    s.name->0,
                ),
            ),
            Dialect::Postgres => Ok(
                "ALTER TABLE "@ + quoted(d, s.table->0) + " DROP CONSTRAINT "@ + quoted(
                    d,
                    s.name->0,
                ),
            ),
            Dialect::Sqlite => Err(RenderError::Unsupported(StatementKind::ForeignKeyDrop)),
        }
    }
}

/// Append a full DROP FOREIGN KEY statement, or leave the writer alone
/// and report why the statement cannot render.
pub fn write_foreign_key_drop(
    d: Dialect,
    s: &ForeignKeyDropStatement,
    sql: &mut SqlWriter,
) -> (r: Result<(), RenderError>)
    ensures
        ({
            match foreign_key_drop_render(d, s@) {
                Ok(t) => r is Ok && final(sql)@ == old(sql)@ + t,
                Err(e) => r == Result::<(), RenderError>::Err(e) && final(sql)@ == old(sql)@,
            }
        }),
{
    let name = match &s.name {
        Some(n) => n,
        None => {
            return Err(RenderError::MissingName(StatementKind::ForeignKeyDrop));
        },
    };
    let table = match &s.table {
        Some(t) => t,
        None => {
            return Err(RenderError::MissingTable(StatementKind::ForeignKeyDrop));
        },
    };
    match d {
        Dialect::Sqlite => Err(RenderError::Unsupported(StatementKind::ForeignKeyDrop)),
        Dialect::Mysql => {
            sql.push_str("ALTER TABLE ");
            push_quoted(sql, d, table.as_text());
            sql.push_str(" DROP FOREIGN KEY ");
            push_quoted(sql, d, name.as_str());
            proof {
                assert(final(sql)@ =~= old(sql)@ + foreign_key_drop_render(d, s@)->Ok_0);
            }
            Ok(())
        },
        Dialect::Postgres => {
            sql.push_str("ALTER TABLE ");
            push_quoted(sql, d, table.as_text());
            sql.push_str(" DROP CONSTRAINT ");
            push_quoted(sql, d, name.as_str());
            proof {
                assert(final(sql)@ =~= old(sql)@ + foreign_key_drop_render(d, s@)->Ok_0);
            }
            Ok(())
        },
    }
}

impl ForeignKeyDropStatement {
    /// An empty DROP FOREIGN KEY statement.
    pub fn new() -> (r: ForeignKeyDropStatement)
        ensures
            r@ == (ForeignKeyDropV { name: None, table: None }),
    {
        let r = ForeignKeyDropStatement { name: None, table: None };
        proof {
            assert(r@ =~= (ForeignKeyDropV { name: None, table: None }));
        }
        r
    }

    /// Set the constraint name (overwrites).
    pub fn name(self, name: &str) -> (r: ForeignKeyDropStatement)
        ensures
            r@ == (ForeignKeyDropV { name: Some(name@), ..self@ }),
    {
        let r = ForeignKeyDropStatement { name: Some(name.to_owned()), ..self };
        proof {
            assert(r@ =~= (ForeignKeyDropV { name: Some(name@), ..self@ }));
        }
        r
    }

    /// Set the table (overwrites).
    pub fn table(self, table: Iden) -> (r: ForeignKeyDropStatement)
        ensures
            r@ == (ForeignKeyDropV { table: Some(table@), ..self@ }),
    {
        let ghost tv = table@;
        let r = ForeignKeyDropStatement { table: Some(table), ..self };
        proof {
            assert(r@ =~= (ForeignKeyDropV { table: Some(tv), ..self@ }));
        }
        r
    }

    /// Render against a dialect.
    pub fn build<T: ForeignKeyBuilder>(&self, schema_builder: T) -> (r: Result<
        String,
        RenderError,
    >)
        ensures
            ({
                match foreign_key_drop_render(schema_builder.dialect(), self@) {
                    Ok(t) => r matches Ok(out) && out@ == t,
                    Err(e) => r matches Err(e2) && e2 == e,
                }
            }),
    {
        let mut sql = SqlWriter::new();
        match schema_builder.prepare_foreign_key_drop_statement(self, &mut sql) {
            Ok(()) => {
                proof {
                    let t = foreign_key_drop_render(schema_builder.dialect(), self@)->Ok_0;
                    assert(Seq::<char>::empty() + t =~= t);
                }
                Ok(sql.result())
            },
            Err(e) => Err(e),
        }
    }
}

} // verus!
