//! The index DDL statements: create and drop.

use vstd::prelude::*;
use vstd::string::StringExecFns;
use crate::backend::IndexBuilder;
use crate::dialect::{Dialect, quoted, table_scoped_indexes, push_quoted};
use crate::error::{RenderError, StatementKind};
use crate::iden::Iden;
use crate::query::clone_vec_deep;
use crate::render::idents_text;
use crate::writer::SqlWriter;

verus! {

/// An index's name and column list, shared by the index statements.
pub struct TableIndex {
    pub name: Option<String>,
    pub columns: Vec<Iden>,
}

/// The model of a [`TableIndex`].
#[verifier::ext_equal]
pub struct TableIndexV {
    pub name: Option<Seq<char>>,
    pub columns: Seq<Seq<char>>,
}

impl View for TableIndex {
    type V = TableIndexV;

    open spec fn view(&self) -> TableIndexV {
        TableIndexV { name: self.name.deep_view(), columns: self.columns.deep_view() }
    }
}

impl Clone for TableIndex {
    fn clone(&self) -> (r: TableIndex)
        ensures
            r@ == self@,
    {
        proof {
            assert forall|a: Iden, b: Iden|
                #[trigger] vstd::pervasive::cloned::<Iden>(a, b) implies a.deep_view()
                == b.deep_view() by {}
        }
        let r = TableIndex {
            name: match &self.name {
                Some(n) => Some(n.clone()),
                None => None,
            },
            columns: clone_vec_deep(&self.columns),
        };
        proof {
            assert(r@ =~= self@);
        }
        r
    }
}

impl TableIndex {
    /// An unnamed index over no columns.
    pub fn new() -> (r: TableIndex)
        ensures
            r@ == (TableIndexV { name: None, columns: Seq::empty() }),
    {
        let r = TableIndex { name: None, columns: Vec::new() };
        proof {
            assert(r@ =~= (TableIndexV { name: None, columns: Seq::empty() }));
        }
        r
    }

    /// Set the index name (overwrites).
    pub fn name(&mut self, name: &str)
        ensures
            final(self)@ == (TableIndexV { name: Some(name@), ..old(self)@ }),
    {
        self.name = Some(name.to_owned());
        proof {
            assert(self@ =~= (TableIndexV { name: Some(name@), ..old(self)@ }));
        }
    }

    /// Add one indexed column (appends, in call order).
    pub fn col(&mut self, column: Iden)
        ensures
            final(self)@ == (TableIndexV {
                columns: old(self)@.columns.push(column@),
                ..old(self)@
            }),
    {
        let ghost cv = column@;
        self.columns.push(column);
        proof {
            assert(self@.columns =~= old(self)@.columns.push(cv));
            assert(self@ =~= (TableIndexV { columns: old(self)@.columns.push(cv), ..old(self)@ }));
        }
    }
}

/// A CREATE INDEX statement under construction.
pub struct IndexCreateStatement {
    pub table: Option<Iden>,
    pub index: TableIndex,
    pub unique: bool,
}

/// The model of an [`IndexCreateStatement`].
#[verifier::ext_equal]
pub struct IndexCreateV {
    pub table: Option<Seq<char>>,
    pub index: TableIndexV,
    pub unique: bool,
}

impl View for IndexCreateStatement {
    type V = IndexCreateV;

    open spec fn view(&self) -> IndexCreateV {
        IndexCreateV { table: self.table.deep_view(), index: self.index@, unique: self.unique }
    }
}

impl Clone for IndexCreateStatement {
    fn clone(&self) -> (r: IndexCreateStatement)
        ensures
            r@ == self@,
    {
        let r = IndexCreateStatement {
            table: match &self.table {
                Some(t) => Some(t.clone()),
                None => None,
            },
            index: self.index.clone(),
            unique: self.unique,
        };
        proof {
            assert(r@ =~= self@);
        }
        r
    }
}

/// The complete rendering of a CREATE INDEX statement.  The index name,
/// the table, and at least one column are required.
pub open spec fn index_create_render(d: Dialect, s: IndexCreateV) -> Result<
    Seq<char>,
    RenderError,
> {
    if s.index.name is None {
        Err(RenderError::MissingName(StatementKind::IndexCreate))
    } else if s.table is None {
        Err(RenderError::MissingTable(StatementKind::IndexCreate))
    } else if s.index.columns.len() == 0 {
        Err(RenderError::EmptyColumns(StatementKind::IndexCreate))
    } else {
        Ok(
            "CREATE "@ + (if s.unique {
                "UNIQUE "@
            } else {
                Seq::<char>::empty()
            }) + "INDEX "@ + quoted(d, s.index.name->0) + " ON "@ + quoted(d, s.table->0) + " ("@
                + idents_text(d, s.index.columns) + ")"@,
        )
    }
}

/// Append a full CREATE INDEX statement, or leave the writer alone and
/// report why the statement is malformed.
pub fn write_index_create(d: Dialect, s: &IndexCreateStatement, sql: &mut SqlWriter) -> (r: Result<
    (),
    RenderError,
>)
    ensures
        ({
            match index_create_render(d, s@) {
                Ok(t) => r is Ok && final(sql)@ == old(sql)@ + t,
                Err(e) => r == Result::<(), RenderError>::Err(e) && final(sql)@ == old(sql)@,
            }
        }),
{
    let name = match &s.index.name {
        Some(n) => n,
        None => {
            return Err(RenderError::MissingName(StatementKind::IndexCreate));
        },
    };
    let table = match &s.table {
        Some(t) => t,
        None => {
            return Err(RenderError::MissingTable(StatementKind::IndexCreate));
        },
    };
    if s.index.columns.len() == 0 {
        return Err(RenderError::EmptyColumns(StatementKind::IndexCreate));
    }
    sql.push_str("CREATE ");
    if s.unique {
        sql.push_str("UNIQUE ");
    }
    sql.push_str("INDEX ");
    push_quoted(sql, d, name.as_str());
    sql.push_str(" ON ");
    push_quoted(sql, d, table.as_text());
    sql.push_str(" (");
    crate::render::write_idents(d, &s.index.columns, sql);
    sql.push_str(")");
    proof {
        assert(final(sql)@ =~= old(sql)@ + index_create_render(d, s@)->Ok_0);
    }
    Ok(())
}

/// A DROP INDEX statement under construction.
///
/// The table association is dialect-agnostic data: whether it is emitted
/// is each renderer's decision.  A dialect that scopes index names per
/// table requires and emits the table clause; one with a schema-wide
/// index namespace omits it even when a table was set.
pub struct IndexDropStatement {
    pub table: Option<Iden>,
    pub index: TableIndex,
}

/// The model of an [`IndexDropStatement`].
#[verifier::ext_equal]
pub struct IndexDropV {
    pub table: Option<Seq<char>>,
    pub index: TableIndexV,
}

impl View for IndexDropStatement {
    type V = IndexDropV;

    open spec fn view(&self) -> IndexDropV {
        IndexDropV { table: self.table.deep_view(), index: self.index@ }
    }
}

impl Clone for IndexDropStatement {
    fn clone(&self) -> (r: IndexDropStatement)
        ensures
            r@ == self@,
    {
        let r = IndexDropStatement {
            table: match &self.table {
                Some(t) => Some(t.clone()),
                None => None,
            },
            index: self.index.clone(),
        };
        proof {
            assert(r@ =~= self@);
        }
        r
    }
}

/// The complete rendering of a DROP INDEX statement.  The index name is
/// always required; the table is required exactly when the dialect scopes
/// index names per table, and is emitted only then.
pub open spec fn index_drop_render(d: Dialect, s: IndexDropV) -> Result<Seq<char>, RenderError> {
    if s.index.name is None {
        Err(RenderError::MissingName(StatementKind::IndexDrop))
    } else if table_scoped_indexes(d) && s.table is None {
        Err(RenderError::MissingTable(StatementKind::IndexDrop))
    } else {
        Ok(
            "DROP INDEX "@ + quoted(d, s.index.name->0) + (if table_scoped_indexes(d) {
                " ON "@ + quoted(d, s.table->0)
            } else {
                Seq::<char>::empty()
            }),
        )
    }
}

/// Append a full DROP INDEX statement, or leave the writer alone and
/// report why the statement is malformed.
pub fn write_index_drop(d: Dialect, s: &IndexDropStatement, sql: &mut SqlWriter) -> (r: Result<
    (),
    RenderError,
>)
    ensures
        ({
            match index_drop_render(d, s@) {
                Ok(t) => r is Ok && final(sql)@ == old(sql)@ + t,
                Err(e) => r == Result::<(), RenderError>::Err(e) && final(sql)@ == old(sql)@,
            }
        }),
{
    let name = match &s.index.name {
        Some(n) => n,
        None => {
            return Err(RenderError::MissingName(StatementKind::IndexDrop));
        },
    };
    let scoped = match d {
        Dialect::Postgres => false,
        _ => true,
    };
    proof {
        assert(scoped == table_scoped_indexes(d));
    }
    if scoped {
        match &s.table {
            Some(table) => {
                sql.push_str("DROP INDEX ");
                push_quoted(sql, d, name.as_str());
                sql.push_str(" ON ");
                push_quoted(sql, d, table.as_text());
                proof {
                    assert(final(sql)@ =~= old(sql)@ + index_drop_render(d, s@)->Ok_0);
                }
                Ok(())
            },
            None => Err(RenderError::MissingTable(StatementKind::IndexDrop)),
        }
    } else {
        sql.push_str("DROP INDEX ");
        push_quoted(sql, d, name.as_str());
        proof {
            assert(final(sql)@ =~= old(sql)@ + index_drop_render(d, s@)->Ok_0);
        }
        Ok(())
    }
}

impl Default for IndexDropStatement {
    /// An empty DROP INDEX statement.
    fn default() -> (r: IndexDropStatement)
        ensures
            r@ == (IndexDropV {
                table: None,
                index: TableIndexV { name: None, columns: Seq::empty() },
            }),
    {
        IndexDropStatement::new()
    }
}

impl IndexDropStatement {
    /// An empty DROP INDEX statement.
    pub fn new() -> (r: IndexDropStatement)
        ensures
            r@ == (IndexDropV {
                table: None,
                index: TableIndexV { name: None, columns: Seq::empty() },
            }),
    {
        let r = IndexDropStatement { table: None, index: TableIndex::new() };
        proof {
            assert(r@ =~= (IndexDropV {
                table: None,
                index: TableIndexV { name: None, columns: Seq::empty() },
            }));
        }
        r
    }

    /// Set the index name (overwrites).
    pub fn name(self, name: &str) -> (r: IndexDropStatement)
        ensures
            r@ == (IndexDropV {
                index: TableIndexV { name: Some(name@), ..self@.index },
                ..self@
            }),
    {
        let mut s = self;
        s.index.name(name);
        proof {
            assert(s@ =~= (IndexDropV {
                index: TableIndexV { name: Some(name@), ..self@.index },
                ..self@
            }));
        }
        s
    }

    /// Set the target table (overwrites).
    pub fn table(self, table: Iden) -> (r: IndexDropStatement)
        ensures
            r@ == (IndexDropV { table: Some(table@), ..self@ }),
    {
        let ghost tv = table@;
        let r = IndexDropStatement { table: Some(table), ..self };
        proof {
            assert(r@ =~= (IndexDropV { table: Some(tv), ..self@ }));
        }
        r
    }

    /// Render against a dialect.
    pub fn build<T: IndexBuilder>(&self, schema_builder: T) -> (r: Result<String, RenderError>)
        ensures
            ({
                match index_drop_render(schema_builder.dialect(), self@) {
                    Ok(t) => r matches Ok(out) && out@ == t,
                    Err(e) => r matches Err(e2) && e2 == e,
                }
            }),
    {
        let mut sql = SqlWriter::new();
        match schema_builder.prepare_index_drop_statement(self, &mut sql) {
            Ok(()) => {
                proof {
                    let t = index_drop_render(schema_builder.dialect(), self@)->Ok_0;
                    assert(Seq::<char>::empty() + t =~= t);
                }
                Ok(sql.result())
            },
            Err(e) => Err(e),
        }
    }
}

impl IndexCreateStatement {
    /// An empty CREATE INDEX statement.
    pub fn new() -> (r: IndexCreateStatement)
        ensures
            r@ == (IndexCreateV {
                table: None,
                index: TableIndexV { name: None, columns: Seq::empty() },
                unique: false,
            }),
    {
        let r = IndexCreateStatement { table: None, index: TableIndex::new(), unique: false };
        proof {
            assert(r@ =~= (IndexCreateV {
                table: None,
                index: TableIndexV { name: None, columns: Seq::empty() },
                unique: false,
            }));
        }
        r
    }

    /// Set the index name (overwrites).
    pub fn name(self, name: &str) -> (r: IndexCreateStatement)
        ensures
            r@ == (IndexCreateV {
                index: TableIndexV { name: Some(name@), ..self@.index },
                ..self@
            }),
    {
        let mut s = self;
        s.index.name(name);
        proof {
            assert(s@ =~= (IndexCreateV {
                index: TableIndexV { name: Some(name@), ..self@.index },
                ..self@
            }));
        }
        s
    }

    /// Set the target table (overwrites).
    pub fn table(self, table: Iden) -> (r: IndexCreateStatement)
        ensures
            r@ == (IndexCreateV { table: Some(table@), ..self@ }),
    {
        let ghost tv = table@;
        let r = IndexCreateStatement { table: Some(table), ..self };
        proof {
            assert(r@ =~= (IndexCreateV { table: Some(tv), ..self@ }));
        }
        r
    }

    /// Add one indexed column (appends, in call order).
    pub fn col(self, column: Iden) -> (r: IndexCreateStatement)
        ensures
            r@ == (IndexCreateV {
                index: TableIndexV {
                    columns: self@.index.columns.push(column@),
                    ..self@.index
                },
                ..self@
            }),
    {
        let ghost cv = column@;
        let mut s = self;
        s.index.col(column);
        proof {
            assert(s@ =~= (IndexCreateV {
                index: TableIndexV { columns: self@.index.columns.push(cv), ..self@.index },
                ..self@
            }));
        }
        s
    }

    /// Make the index unique.
    pub fn unique(self) -> (r: IndexCreateStatement)
        ensures
            r@ == (IndexCreateV { unique: true, ..self@ }),
    {
        let r = IndexCreateStatement { unique: true, ..self };
        proof {
            assert(r@ =~= (IndexCreateV { unique: true, ..self@ }));
        }
        r
    }

    /// Render against a dialect.
    pub fn build<T: IndexBuilder>(&self, schema_builder: T) -> (r: Result<String, RenderError>)
        ensures
            ({
                match index_create_render(schema_builder.dialect(), self@) {
                    Ok(t) => r matches Ok(out) && out@ == t,
                    Err(e) => r matches Err(e2) && e2 == e,
                }
            }),
    {
        let mut sql = SqlWriter::new();
        match schema_builder.prepare_index_create_statement(self, &mut sql) {
            Ok(()) => {
                proof {
                    let t = index_create_render(schema_builder.dialect(), self@)->Ok_0;
                    assert(Seq::<char>::empty() + t =~= t);
                }
                Ok(sql.result())
            },
            Err(e) => Err(e),
        }
    }
}

} // verus!
