//! The table DDL statements: create, drop, truncate, alter, rename.
//!
//! These render text only: DDL carries its literals (column defaults)
//! spelled inline in the dialect's lexical form, and binds no
//! placeholders.

use vstd::prelude::*;
use vstd::string::StringExecFns;
use crate::backend::TableBuilder;
use crate::dialect::{dec_seq, Dialect, push_decimal, push_quoted, quoted};
use crate::error::{RenderError, StatementKind};
use crate::iden::Iden;
use crate::query::clone_vec_deep;
use crate::render::idents_text;
use crate::value::{Value, ValueV};
use crate::writer::SqlWriter;

verus! {

/// The decimal text of a signed literal.
pub open spec fn int_text(i: int) -> Seq<char> {
    if i < 0 {
        "-"@ + dec_seq((-i) as nat)
    } else {
        dec_seq(i as nat)
    }
}

/// The inline literal spelling of a scalar value under a dialect:
/// booleans differ per dialect, text and timestamps are quoted in single
/// quotes, integers are spelled in decimal.  Binary and array values have
/// no inline spelling here; a default of such a kind is reported as
/// unsupported before this function's result is ever emitted.
pub open spec fn value_literal_text(d: Dialect, v: ValueV) -> Seq<char> {
    match v {
        ValueV::Null => "NULL"@,
        ValueV::Bool(b) => match d {
            Dialect::Sqlite => if b {
                "1"@
            } else {
                "0"@
            },
            _ => if b {
                "TRUE"@
            } else {
                "FALSE"@
            },
        },
        ValueV::Int(i) => int_text(i as int),
        ValueV::UInt(u) => dec_seq(u as nat),
        ValueV::Text(s) => "'"@ + s + "'"@,
        ValueV::DateTime(s) => "'"@ + s + "'"@,
        ValueV::Bytes(_) => Seq::empty(),
        ValueV::Array(_) => Seq::empty(),
    }
}

/// Whether a value has an inline literal spelling.
pub open spec fn literal_ok(v: ValueV) -> bool {
    !(v is Bytes) && !(v is Array)
}

/// Append the inline literal spelling of a scalar value.
pub fn write_value_literal(d: Dialect, v: &Value, sql: &mut SqlWriter)
    requires
        literal_ok(v@),
    ensures
        final(sql)@ == old(sql)@ + value_literal_text(d, v@),
{
    match v {
        Value::Null => sql.push_str("NULL"),
        Value::Bool(b) => match d {
            Dialect::Sqlite => sql.push_str(if *b {
                "1"
            } else {
                "0"
            }),
            _ => sql.push_str(if *b {
                "TRUE"
            } else {
                "FALSE"
            }),
        },
        Value::Int(i) => {
            if *i < 0 {
                sql.push_str("-");
                let mag: u64 = ((-(*i + 1)) as u64) + 1;
                push_decimal(sql, mag);
                proof {
                    assert(mag as nat == (-(*i as int)) as nat);
                    assert(final(sql)@ =~= old(sql)@ + value_literal_text(d, v@));
                }
            } else {
                push_decimal(sql, *i as u64);
            }
        },
        Value::UInt(u) => push_decimal(sql, *u),
        Value::Text(s) => {
            sql.push_str("'");
            sql.push_str(s.as_str());
            sql.push_str("'");
            proof {
                assert(final(sql)@ =~= old(sql)@ + value_literal_text(d, v@));
            }
        },
        Value::DateTime(s) => {
            sql.push_str("'");
            sql.push_str(s.as_str());
            sql.push_str("'");
            proof {
                assert(final(sql)@ =~= old(sql)@ + value_literal_text(d, v@));
            }
        },
        Value::Bytes(_) => {},
        Value::Array(_) => {},
    }
}

/// A column's data type; the type-name spelling is per dialect.
#[derive(Clone, Copy, PartialEq, Eq, Structural, Debug)]
pub enum ColumnType {
    Integer,
    BigInteger,
    Text,
    Varchar(u32),
    Boolean,
    DateTime,
}

/// The dialect's spelling of a column type name.
pub open spec fn column_type_text(d: Dialect, t: ColumnType) -> Seq<char> {
    match t {
        ColumnType::Integer => match d {
            Dialect::Mysql => "INT"@,
            _ => "INTEGER"@,
        },
        ColumnType::BigInteger => "BIGINT"@,
        ColumnType::Text => "TEXT"@,
        ColumnType::Varchar(n) => "VARCHAR("@ + dec_seq(n as nat) + ")"@,
        ColumnType::Boolean => match d {
            Dialect::Mysql => "BOOL"@,
            _ => "BOOLEAN"@,
        },
        ColumnType::DateTime => match d {
            Dialect::Mysql => "DATETIME"@,
            Dialect::Postgres => "TIMESTAMP"@,
            Dialect::Sqlite => "TEXT"@,
        },
    }
}

/// Append a column type name.
pub fn write_column_type(d: Dialect, t: &ColumnType, sql: &mut SqlWriter)
    ensures
        final(sql)@ == old(sql)@ + column_type_text(d, *t),
{
    match t {
        ColumnType::Integer => match d {
            Dialect::Mysql => sql.push_str("INT"),
            _ => sql.push_str("INTEGER"),
        },
        ColumnType::BigInteger => sql.push_str("BIGINT"),
        ColumnType::Text => sql.push_str("TEXT"),
        ColumnType::Varchar(n) => {
            sql.push_str("VARCHAR(");
            push_decimal(sql, *n as u64);
            sql.push_str(")");
            proof {
                assert(final(sql)@ =~= old(sql)@ + column_type_text(d, *t));
            }
        },
        ColumnType::Boolean => match d {
            Dialect::Mysql => sql.push_str("BOOL"),
            _ => sql.push_str("BOOLEAN"),
        },
        ColumnType::DateTime => match d {
            Dialect::Mysql => sql.push_str("DATETIME"),
            Dialect::Postgres => sql.push_str("TIMESTAMP"),
            Dialect::Sqlite => sql.push_str("TEXT"),
        },
    }
}

/// One constraint or modifier on a column definition.
pub enum ColumnSpec {
    NotNull,
    Nullable,
    Default(Value),
    AutoIncrement,
    UniqueKey,
    PrimaryKey,
}

/// The model of a [`ColumnSpec`].
#[verifier::ext_equal]
pub enum ColumnSpecV {
    NotNull,
    Nullable,
    Default(ValueV),
    AutoIncrement,
    UniqueKey,
    PrimaryKey,
}

impl View for ColumnSpec {
    type V = ColumnSpecV;

    open spec fn view(&self) -> ColumnSpecV {
        match self {
            ColumnSpec::NotNull => ColumnSpecV::NotNull,
            ColumnSpec::Nullable => ColumnSpecV::Nullable,
            ColumnSpec::Default(v) => ColumnSpecV::Default(v@),
            ColumnSpec::AutoIncrement => ColumnSpecV::AutoIncrement,
            ColumnSpec::UniqueKey => ColumnSpecV::UniqueKey,
            ColumnSpec::PrimaryKey => ColumnSpecV::PrimaryKey,
        }
    }
}

impl DeepView for ColumnSpec {
    type V = ColumnSpecV;

    open spec fn deep_view(&self) -> ColumnSpecV {
        self.view()
    }
}

impl Clone for ColumnSpec {
    fn clone(&self) -> (r: ColumnSpec)
        ensures
            r@ == self@,
    {
        match self {
            ColumnSpec::NotNull => ColumnSpec::NotNull,
            ColumnSpec::Nullable => ColumnSpec::Nullable,
            ColumnSpec::Default(v) => ColumnSpec::Default(v.clone()),
            ColumnSpec::AutoIncrement => ColumnSpec::AutoIncrement,
            ColumnSpec::UniqueKey => ColumnSpec::UniqueKey,
            ColumnSpec::PrimaryKey => ColumnSpec::PrimaryKey,
        }
    }
}

/// The dialect's spelling of one column constraint or modifier.  The
/// auto-increment modifier is a DDL keyword variant: each dialect has its
/// own.
pub open spec fn column_spec_text(d: Dialect, s: ColumnSpecV) -> Seq<char> {
    match s {
        ColumnSpecV::NotNull => "NOT NULL"@,
        ColumnSpecV::Nullable => "NULL"@,
        ColumnSpecV::Default(v) => "DEFAULT "@ + value_literal_text(d, v),
        ColumnSpecV::AutoIncrement => match d {
            Dialect::Mysql => "AUTO_INCREMENT"@,
            Dialect::Postgres => "GENERATED ALWAYS AS IDENTITY"@,
            Dialect::Sqlite => "AUTOINCREMENT"@,
        },
        ColumnSpecV::UniqueKey => "UNIQUE"@,
        ColumnSpecV::PrimaryKey => "PRIMARY KEY"@,
    }
}

/// Whether one column constraint can be rendered (a default of binary or
/// array kind has no inline spelling).
pub open spec fn column_spec_ok(s: ColumnSpecV) -> bool {
    match s {
        ColumnSpecV::Default(v) => literal_ok(v),
        _ => true,
    }
}

/// Append one column constraint or modifier.
pub fn write_column_spec(d: Dialect, s: &ColumnSpec, sql: &mut SqlWriter)
    requires
        column_spec_ok(s@),
    ensures
        final(sql)@ == old(sql)@ + column_spec_text(d, s@),
{
    match s {
        ColumnSpec::NotNull => sql.push_str("NOT NULL"),
        ColumnSpec::Nullable => sql.push_str("NULL"),
        ColumnSpec::Default(v) => {
            sql.push_str("DEFAULT ");
            write_value_literal(d, v, sql);
            proof {
                assert(final(sql)@ =~= old(sql)@ + column_spec_text(d, s@));
            }
        },
        ColumnSpec::AutoIncrement => match d {
            Dialect::Mysql => sql.push_str("AUTO_INCREMENT"),
            Dialect::Postgres => sql.push_str("GENERATED ALWAYS AS IDENTITY"),
            Dialect::Sqlite => sql.push_str("AUTOINCREMENT"),
        },
        ColumnSpec::UniqueKey => sql.push_str("UNIQUE"),
        ColumnSpec::PrimaryKey => sql.push_str("PRIMARY KEY"),
    }
}

/// One column of a CREATE TABLE (or column-bearing ALTER) statement.
pub struct ColumnDef {
    pub name: Iden,
    pub types: Option<ColumnType>,
    pub specs: Vec<ColumnSpec>,
}

/// The model of a [`ColumnDef`].
#[verifier::ext_equal]
pub struct ColumnDefV {
    pub name: Seq<char>,
    pub types: Option<ColumnType>,
    pub specs: Seq<ColumnSpecV>,
}

impl View for ColumnDef {
    type V = ColumnDefV;

    open spec fn view(&self) -> ColumnDefV {
        ColumnDefV { name: self.name@, types: self.types, specs: self.specs.deep_view() }
    }
}

impl DeepView for ColumnDef {
    type V = ColumnDefV;

    open spec fn deep_view(&self) -> ColumnDefV {
        self.view()
    }
}

impl Clone for ColumnDef {
    fn clone(&self) -> (r: ColumnDef)
        ensures
            r@ == self@,
    {
        proof {
            assert forall|a: ColumnSpec, b: ColumnSpec|
                #[trigger] vstd::pervasive::cloned::<ColumnSpec>(a, b) implies a.deep_view()
                == b.deep_view() by {}
        }
        let r = ColumnDef {
            name: self.name.clone(),
            types: self.types,
            specs: clone_vec_deep(&self.specs),
        };
        proof {
            assert(r@ =~= self@);
        }
        r
    }
}

/// The constraint suffix of a column definition: one space-led piece per
/// constraint, in call order.
pub open spec fn column_specs_text(d: Dialect, s: Seq<ColumnSpecV>) -> Seq<char>
    decreases s,
{
    if s.len() == 0 {
        Seq::empty()
    } else {
        column_specs_text(d, s.drop_last()) + " "@ + column_spec_text(d, s.last())
    }
}

/// The rendering of one column definition.  The column type is required;
/// a default of binary or array kind cannot be spelled inline and is
/// reported as unsupported.
pub open spec fn column_def_render(d: Dialect, c: ColumnDefV) -> Result<Seq<char>, RenderError> {
    if c.types is None {
        Err(RenderError::MissingType(StatementKind::TableCreate))
    } else if exists|i: int| 0 <= i < c.specs.len() && !column_spec_ok(#[trigger] c.specs[i]) {
        Err(RenderError::Unsupported(StatementKind::TableCreate))
    } else {
        Ok(quoted(d, c.name) + " "@ + column_type_text(d, c.types->0) + column_specs_text(
            d,
            c.specs,
        ))
    }
}

/// Append one column definition, or leave the writer alone and report why
/// it is malformed.
#[verifier::rlimit(100)]
pub fn write_column_def(d: Dialect, c: &ColumnDef, sql: &mut SqlWriter) -> (r: Result<
    (),
    RenderError,
>)
    ensures
        ({
            match column_def_render(d, c@) {
                Ok(t) => r is Ok && final(sql)@ == old(sql)@ + t,
                Err(e) => r == Result::<(), RenderError>::Err(e) && final(sql)@ == old(sql)@,
            }
        }),
{
    let types = match &c.types {
        Some(t) => t,
        None => {
            return Err(RenderError::MissingType(StatementKind::TableCreate));
        },
    };
    let mut i: usize = 0;
    #[verifier::loop_isolation(false)]
    while i < c.specs.len()
        invariant
            i <= c.specs@.len(),
            forall|j: int| 0 <= j < i ==> column_spec_ok(#[trigger] c@.specs[j]),
        decreases c.specs@.len() - i,
    {
        let ok = match &c.specs[i] {
            ColumnSpec::Default(v) => match v {
                Value::Bytes(_) => false,
                Value::Array(_) => false,
                _ => true,
            },
            _ => true,
        };
        if !ok {
            proof {
                assert(!column_spec_ok(c@.specs[i as int]));
            }
            return Err(RenderError::Unsupported(StatementKind::TableCreate));
        }
        i = i + 1;
    }
    push_quoted(sql, d, c.name.as_text());
    sql.push_str(" ");
    write_column_type(d, types, sql);
    let ghost head = quoted(d, c@.name) + " "@ + column_type_text(d, c@.types->0);
    proof {
        assert(sql@ =~= old(sql)@ + head);
    }
    let ghost spv = c.specs.deep_view();
    let mut j: usize = 0;
    #[verifier::loop_isolation(false)]
    while j < c.specs.len()
        invariant
            j <= c.specs@.len(),
            sql@ == old(sql)@ + head + column_specs_text(d, spv.take(j as int)),
        decreases c.specs@.len() - j,
    {
        sql.push_str(" ");
        proof {
            assert(c@.specs[j as int] == c.specs@[j as int]@);
        }
        write_column_spec(d, &c.specs[j], sql);
        j = j + 1;
        proof {
            let pre = spv.take(j - 1 as int);
            let cur = spv.take(j as int);
            assert(cur.drop_last() =~= pre);
            assert(cur.last() == spv[j - 1]);
            assert(sql@ =~= old(sql)@ + head + column_specs_text(d, cur));
        }
    }
    proof {
        assert(spv.take(spv.len() as int) =~= spv);
        assert(sql@ =~= old(sql)@ + column_def_render(d, c@)->Ok_0);
    }
    Ok(())
}

impl ColumnDef {
    /// A new column definition with no type and no constraints.
    pub fn new(name: Iden) -> (r: ColumnDef)
        ensures
            r@ == (ColumnDefV { name: name@, types: None, specs: Seq::empty() }),
    {
        let ghost nv = name@;
        let r = ColumnDef { name, types: None, specs: Vec::new() };
        proof {
            assert(r@ =~= (ColumnDefV { name: nv, types: None, specs: Seq::empty() }));
        }
        r
    }

    /// Set the column type (overwrites).
    pub fn column_type(self, t: ColumnType) -> (r: ColumnDef)
        ensures
            r@ == (ColumnDefV { types: Some(t), ..self@ }),
    {
        let r = ColumnDef { types: Some(t), ..self };
        proof {
            assert(r@ =~= (ColumnDefV { types: Some(t), ..self@ }));
        }
        r
    }

    /// Add one constraint or modifier (appends, in call order).
    pub fn spec_entry(self, s: ColumnSpec) -> (r: ColumnDef)
        ensures
            r@ == (ColumnDefV { specs: self@.specs.push(s@), ..self@ }),
    {
        let ghost svv = s@;
        let mut specs = self.specs;
        specs.push(s);
        let r = ColumnDef { specs, ..self };
        proof {
            assert(r@.specs =~= self@.specs.push(svv));
            assert(r@ =~= (ColumnDefV { specs: self@.specs.push(svv), ..self@ }));
        }
        r
    }
}

/// A CREATE TABLE statement under construction.
pub struct TableCreateStatement {
    pub table: Option<Iden>,
    pub columns: Vec<ColumnDef>,
    pub if_not_exists: bool,
}

/// The model of a [`TableCreateStatement`].
#[verifier::ext_equal]
pub struct TableCreateV {
    pub table: Option<Seq<char>>,
    pub columns: Seq<ColumnDefV>,
    pub if_not_exists: bool,
}

impl View for TableCreateStatement {
    type V = TableCreateV;

    open spec fn view(&self) -> TableCreateV {
        TableCreateV {
            table: self.table.deep_view(),
            columns: self.columns.deep_view(),
            if_not_exists: self.if_not_exists,
        }
    }
}

impl Clone for TableCreateStatement {
    fn clone(&self) -> (r: TableCreateStatement)
        ensures
            r@ == self@,
    {
        proof {
            assert forall|a: ColumnDef, b: ColumnDef|
                #[trigger] vstd::pervasive::cloned::<ColumnDef>(a, b) implies a.deep_view()
                == b.deep_view() by {}
        }
        let r = TableCreateStatement {
            table: match &self.table {
                Some(t) => Some(t.clone()),
                None => None,
            },
            columns: clone_vec_deep(&self.columns),
            if_not_exists: self.if_not_exists,
        };
        proof {
            assert(r@ =~= self@);
        }
        r
    }
}

/// The column list of a CREATE TABLE, comma-separated; the first failing
/// column's error wins.
pub open spec fn column_defs_render(d: Dialect, s: Seq<ColumnDefV>) -> Result<
    Seq<char>,
    RenderError,
>
    decreases s,
{
    if s.len() == 0 {
        Ok(Seq::empty())
    } else {
        match column_defs_render(d, s.drop_last()) {
            Err(e) => Err(e),
            Ok(init) => match column_def_render(d, s.last()) {
                Err(e) => Err(e),
                Ok(ct) => Ok(
                    init + (if s.len() == 1 {
                        Seq::<char>::empty()
                    } else {
                        ", "@
                    }) + ct,
                ),
            },
        }
    }
}

/// The complete rendering of a CREATE TABLE statement.  The table name
/// and at least one column are required, and every column must render.
pub open spec fn table_create_render(d: Dialect, s: TableCreateV) -> Result<
    Seq<char>,
    RenderError,
> {
    if s.table is None {
        Err(RenderError::MissingTable(StatementKind::TableCreate))
    } else if s.columns.len() == 0 {
        Err(RenderError::EmptyColumns(StatementKind::TableCreate))
    } else {
        match column_defs_render(d, s.columns) {
            Err(e) => Err(e),
            Ok(cols) => Ok(
                "CREATE TABLE "@ + (if s.if_not_exists {
                    "IF NOT EXISTS "@
                } else {
                    Seq::<char>::empty()
                }) + quoted(d, s.table->0) + " ( "@ + cols + " )"@,
            ),
        }
    }
}

/// Append a full CREATE TABLE statement, or leave the writer alone and
/// report why the statement is malformed.
#[verifier::rlimit(100)]
pub fn write_table_create(d: Dialect, s: &TableCreateStatement, sql: &mut SqlWriter) -> (r: Result<
    (),
    RenderError,
>)
    ensures
        ({
            match table_create_render(d, s@) {
                Ok(t) => r is Ok && final(sql)@ == old(sql)@ + t,
                Err(e) => r == Result::<(), RenderError>::Err(e) && final(sql)@ == old(sql)@,
            }
        }),
{
    let table = match &s.table {
        Some(t) => t,
        None => {
            return Err(RenderError::MissingTable(StatementKind::TableCreate));
        },
    };
    if s.columns.len() == 0 {
        return Err(RenderError::EmptyColumns(StatementKind::TableCreate));
    }
    let ghost cv = s.columns.deep_view();
    let mut probe = SqlWriter::new();
    let mut i: usize = 0;
    #[verifier::loop_isolation(false)]
    while i < s.columns.len()
        invariant
            i <= s.columns@.len(),
            column_defs_render(d, cv.take(i as int)) is Ok,
            probe@ == Seq::<char>::empty() + column_defs_render(d, cv.take(i as int))->Ok_0,
        decreases s.columns@.len() - i,
    {
        if i > 0 {
            probe.push_str(", ");
        }
        match write_column_def(d, &s.columns[i], &mut probe) {
            Ok(()) => {},
            Err(e) => {
                proof {
                    let pre = cv.take(i as int);
                    let cur = cv.take(i + 1 as int);
                    assert(cur.drop_last() =~= pre);
                    assert(cur.last() == cv[i as int]);
                    assert(column_defs_render(d, cur) == Err::<Seq<char>, RenderError>(e));
                    lemma_column_defs_prefix_error(d, cv, i + 1 as int);
                }
                return Err(e);
            },
        }
        i = i + 1;
        proof {
            let pre = cv.take(i - 1 as int);
            let cur = cv.take(i as int);
            assert(cur.drop_last() =~= pre);
            assert(cur.last() == cv[i - 1]);
            assert(probe@ =~= Seq::<char>::empty() + column_defs_render(d, cur)->Ok_0);
        }
    }
    proof {
        assert(cv.take(cv.len() as int) =~= cv);
    }
    sql.push_str("CREATE TABLE ");
    if s.if_not_exists {
        sql.push_str("IF NOT EXISTS ");
    }
    push_quoted(sql, d, table.as_text());
    sql.push_str(" ( ");
    let rendered = probe.result();
    sql.push_str(rendered.as_str());
    sql.push_str(" )");
    proof {
        assert(final(sql)@ =~= old(sql)@ + table_create_render(d, s@)->Ok_0);
    }
    Ok(())
}

/// If a prefix of the column list fails to render, so does any longer
/// prefix, with the same error.
proof fn lemma_column_defs_prefix_error(d: Dialect, s: Seq<ColumnDefV>, i: int)
    requires
        0 <= i <= s.len(),
        column_defs_render(d, s.take(i)) is Err,
    ensures
        column_defs_render(d, s) == column_defs_render(d, s.take(i)),
    decreases s.len(),
{
    if i < s.len() {
        assert(s.drop_last() =~= s.take(s.len() - 1));
        assert(s.take(s.len() - 1).take(i) =~= s.take(i));
        lemma_column_defs_prefix_error(d, s.take(s.len() - 1), i);
    } else {
        assert(s.take(i) =~= s);
    }
}

impl TableCreateStatement {
    /// An empty CREATE TABLE statement.
    pub fn new() -> (r: TableCreateStatement)
        ensures
            r@ == (TableCreateV { table: None, columns: Seq::empty(), if_not_exists: false }),
    {
        let r = TableCreateStatement { table: None, columns: Vec::new(), if_not_exists: false };
        proof {
            assert(r@ =~= (TableCreateV {
                table: None,
                columns: Seq::empty(),
                if_not_exists: false,
            }));
        }
        r
    }

    /// Set the table name (overwrites).
    pub fn table(self, table: Iden) -> (r: TableCreateStatement)
        ensures
            r@ == (TableCreateV { table: Some(table@), ..self@ }),
    {
        let ghost tv = table@;
        let r = TableCreateStatement { table: Some(table), ..self };
        proof {
            assert(r@ =~= (TableCreateV { table: Some(tv), ..self@ }));
        }
        r
    }

    /// Add one column (appends, in call order).
    pub fn col(self, column: ColumnDef) -> (r: TableCreateStatement)
        ensures
            r@ == (TableCreateV { columns: self@.columns.push(column@), ..self@ }),
    {
        let ghost cdv = column@;
        let mut columns = self.columns;
        columns.push(column);
        let r = TableCreateStatement { columns, ..self };
        proof {
            assert(r@.columns =~= self@.columns.push(cdv));
            assert(r@ =~= (TableCreateV { columns: self@.columns.push(cdv), ..self@ }));
        }
        r
    }

    /// Create the table only if it does not exist yet.
    pub fn if_not_exists(self) -> (r: TableCreateStatement)
        ensures
            r@ == (TableCreateV { if_not_exists: true, ..self@ }),
    {
        let r = TableCreateStatement { if_not_exists: true, ..self };
        proof {
            assert(r@ =~= (TableCreateV { if_not_exists: true, ..self@ }));
        }
        r
    }

    /// Render against a dialect.
    pub fn build<T: TableBuilder>(&self, schema_builder: T) -> (r: Result<String, RenderError>)
        ensures
            ({
                match table_create_render(schema_builder.dialect(), self@) {
                    Ok(t) => r matches Ok(out) && out@ == t,
                    Err(e) => r matches Err(e2) && e2 == e,
                }
            }),
    {
        let mut sql = SqlWriter::new();
        match schema_builder.prepare_table_create_statement(self, &mut sql) {
            Ok(()) => {
                proof {
                    let t = table_create_render(schema_builder.dialect(), self@)->Ok_0;
                    assert(Seq::<char>::empty() + t =~= t);
                }
                Ok(sql.result())
            },
            Err(e) => Err(e),
        }
    }
}

/// A DROP TABLE statement under construction.
pub struct TableDropStatement {
    pub tables: Vec<Iden>,
    pub if_exists: bool,
}

/// The model of a [`TableDropStatement`].
#[verifier::ext_equal]
pub struct TableDropV {
    pub tables: Seq<Seq<char>>,
    pub if_exists: bool,
}

impl View for TableDropStatement {
    type V = TableDropV;

    open spec fn view(&self) -> TableDropV {
        TableDropV { tables: self.tables.deep_view(), if_exists: self.if_exists }
    }
}

impl Clone for TableDropStatement {
    fn clone(&self) -> (r: TableDropStatement)
        ensures
            r@ == self@,
    {
        proof {
            assert forall|a: Iden, b: Iden|
                #[trigger] vstd::pervasive::cloned::<Iden>(a, b) implies a.deep_view()
                == b.deep_view() by {}
        }
        let r = TableDropStatement {
            tables: clone_vec_deep(&self.tables),
            if_exists: self.if_exists,
        };
        proof {
            assert(r@ =~= self@);
        }
        r
    }
}

/// The complete rendering of a DROP TABLE statement.  At least one table
/// is required.
pub open spec fn table_drop_render(d: Dialect, s: TableDropV) -> Result<Seq<char>, RenderError> {
    if s.tables.len() == 0 {
        Err(RenderError::MissingTable(StatementKind::TableDrop))
    } else {
        Ok(
            "DROP TABLE "@ + (if s.if_exists {
                "IF EXISTS "@
            } else {
                Seq::<char>::empty()
            }) + idents_text(d, s.tables),
        )
    }
}

/// Append a full DROP TABLE statement, or leave the writer alone and
/// report why the statement is malformed.
pub fn write_table_drop(d: Dialect, s: &TableDropStatement, sql: &mut SqlWriter) -> (r: Result<
    (),
    RenderError,
>)
    ensures
        ({
            match table_drop_render(d, s@) {
                Ok(t) => r is Ok && final(sql)@ == old(sql)@ + t,
                Err(e) => r == Result::<(), RenderError>::Err(e) && final(sql)@ == old(sql)@,
            }
        }),
{
    if s.tables.len() == 0 {
        return Err(RenderError::MissingTable(StatementKind::TableDrop));
    }
    sql.push_str("DROP TABLE ");
    if s.if_exists {
        sql.push_str("IF EXISTS ");
    }
    crate::render::write_idents(d, &s.tables, sql);
    proof {
        assert(final(sql)@ =~= old(sql)@ + table_drop_render(d, s@)->Ok_0);
    }
    Ok(())
}

impl TableDropStatement {
    /// An empty DROP TABLE statement.
    pub fn new() -> (r: TableDropStatement)
        ensures
            r@ == (TableDropV { tables: Seq::empty(), if_exists: false }),
    {
        let r = TableDropStatement { tables: Vec::new(), if_exists: false };
        proof {
            assert(r@ =~= (TableDropV { tables: Seq::empty(), if_exists: false }));
        }
        r
    }

    /// Add one table to drop (appends, in call order).
    pub fn table(self, table: Iden) -> (r: TableDropStatement)
        ensures
            r@ == (TableDropV { tables: self@.tables.push(table@), ..self@ }),
    {
        let ghost tv = table@;
        let mut tables = self.tables;
        tables.push(table);
        let r = TableDropStatement { tables, ..self };
        proof {
            assert(r@.tables =~= self@.tables.push(tv));
            assert(r@ =~= (TableDropV { tables: self@.tables.push(tv), ..self@ }));
        }
        r
    }

    /// Drop the tables only if they exist.
    pub fn if_exists(self) -> (r: TableDropStatement)
        ensures
            r@ == (TableDropV { if_exists: true, ..self@ }),
    {
        let r = TableDropStatement { if_exists: true, ..self };
        proof {
            assert(r@ =~= (TableDropV { if_exists: true, ..self@ }));
        }
        r
    }

    /// Render against a dialect.
    pub fn build<T: TableBuilder>(&self, schema_builder: T) -> (r: Result<String, RenderError>)
        ensures
            ({
                match table_drop_render(schema_builder.dialect(), self@) {
                    Ok(t) => r matches Ok(out) && out@ == t,
                    Err(e) => r matches Err(e2) && e2 == e,
                }
            }),
    {
        let mut sql = SqlWriter::new();
        match schema_builder.prepare_table_drop_statement(self, &mut sql) {
            Ok(()) => {
                proof {
                    let t = table_drop_render(schema_builder.dialect(), self@)->Ok_0;
                    assert(Seq::<char>::empty() + t =~= t);
                }
                Ok(sql.result())
            },
            Err(e) => Err(e),
        }
    }
}

/// A TRUNCATE TABLE statement under construction.
pub struct TableTruncateStatement {
    pub table: Option<Iden>,
}

/// The model of a [`TableTruncateStatement`].
#[verifier::ext_equal]
pub struct TableTruncateV {
    pub table: Option<Seq<char>>,
}

impl View for TableTruncateStatement {
    type V = TableTruncateV;

    open spec fn view(&self) -> TableTruncateV {
        TableTruncateV { table: self.table.deep_view() }
    }
}

impl Clone for TableTruncateStatement {
    fn clone(&self) -> (r: TableTruncateStatement)
        ensures
            r@ == self@,
    {
        let r = TableTruncateStatement {
            table: match &self.table {
                Some(t) => Some(t.clone()),
                None => None,
            },
        };
        proof {
            assert(r@ =~= self@);
        }
        r
    }
}

/// The complete rendering of a TRUNCATE TABLE statement.  The table is
/// required, and the construct does not exist in the SQLite-like dialect:
/// there the render fails while the same statement still renders for the
/// other dialects.
pub open spec fn table_truncate_render(d: Dialect, s: TableTruncateV) -> Result<
    Seq<char>,
    RenderError,
> {
    if s.table is None {
        Err(RenderError::MissingTable(StatementKind::TableTruncate))
    } else if d is Sqlite {
        Err(RenderError::Unsupported(StatementKind::TableTruncate))
    } else {
        Ok("TRUNCATE TABLE "@ + quoted(d, s.table->0))
    }
}

/// Append a full TRUNCATE TABLE statement, or leave the writer alone and
/// report why the statement cannot render.
pub fn write_table_truncate(
    d: Dialect,
    s: &TableTruncateStatement,
    sql: &mut SqlWriter,
) -> (r: Result<(), RenderError>)
    ensures
        ({
            match table_truncate_render(d, s@) {
                Ok(t) => r is Ok && final(sql)@ == old(sql)@ + t,
                Err(e) => r == Result::<(), RenderError>::Err(e) && final(sql)@ == old(sql)@,
            }
        }),
{
    let table = match &s.table {
        Some(t) => t,
        None => {
            return Err(RenderError::MissingTable(StatementKind::TableTruncate));
        },
    };
    match d {
        Dialect::Sqlite => Err(RenderError::Unsupported(StatementKind::TableTruncate)),
        _ => {
            sql.push_str("TRUNCATE TABLE ");
            push_quoted(sql, d, table.as_text());
            proof {
                assert(final(sql)@ =~= old(sql)@ + table_truncate_render(d, s@)->Ok_0);
            }
            Ok(())
        },
    }
}

impl TableTruncateStatement {
    /// An empty TRUNCATE TABLE statement.
    pub fn new() -> (r: TableTruncateStatement)
        ensures
            r@ == (TableTruncateV { table: None }),
    {
        let r = TableTruncateStatement { table: None };
        proof {
            assert(r@ =~= (TableTruncateV { table: None }));
        }
        r
    }

    /// Set the table (overwrites).
    pub fn table(self, table: Iden) -> (r: TableTruncateStatement)
        ensures
            r@ == (TableTruncateV { table: Some(table@) }),
    {
        let ghost tv = table@;
        let r = TableTruncateStatement { table: Some(table) };
        proof {
            assert(r@ =~= (TableTruncateV { table: Some(tv) }));
        }
        r
    }

    /// Render against a dialect.
    pub fn build<T: TableBuilder>(&self, schema_builder: T) -> (r: Result<String, RenderError>)
        ensures
            ({
                match table_truncate_render(schema_builder.dialect(), self@) {
                    Ok(t) => r matches Ok(out) && out@ == t,
                    Err(e) => r matches Err(e2) && e2 == e,
                }
            }),
    {
        let mut sql = SqlWriter::new();
        match schema_builder.prepare_table_truncate_statement(self, &mut sql) {
            Ok(()) => {
                proof {
                    let t = table_truncate_render(schema_builder.dialect(), self@)->Ok_0;
                    assert(Seq::<char>::empty() + t =~= t);
                }
                Ok(sql.result())
            },
            Err(e) => Err(e),
        }
    }
}

/// A RENAME TABLE statement under construction.
pub struct TableRenameStatement {
    pub from_name: Option<Iden>,
    pub to_name: Option<Iden>,
}

/// The model of a [`TableRenameStatement`].
#[verifier::ext_equal]
pub struct TableRenameV {
    pub from_name: Option<Seq<char>>,
    pub to_name: Option<Seq<char>>,
}

impl View for TableRenameStatement {
    type V = TableRenameV;

    open spec fn view(&self) -> TableRenameV {
        TableRenameV { from_name: self.from_name.deep_view(), to_name: self.to_name.deep_view() }
    }
}

impl Clone for TableRenameStatement {
    fn clone(&self) -> (r: TableRenameStatement)
        ensures
            r@ == self@,
    {
        let r = TableRenameStatement {
            from_name: match &self.from_name {
                Some(t) => Some(t.clone()),
                None => None,
            },
            to_name: match &self.to_name {
                Some(t) => Some(t.clone()),
                None => None,
            },
        };
        proof {
            assert(r@ =~= self@);
        }
        r
    }
}

/// The complete rendering of a RENAME TABLE statement: a DDL keyword
/// variant (`RENAME TABLE ... TO ...` against `ALTER TABLE ... RENAME TO
/// ...`).  Both names are required.
pub open spec fn table_rename_render(d: Dialect, s: TableRenameV) -> Result<
    Seq<char>,
    RenderError,
> {
    if s.from_name is None || s.to_name is None {
        Err(RenderError::MissingTable(StatementKind::TableRename))
    } else {
        match d {
            Dialect::Mysql => Ok(
                "RENAME TABLE "@ + quoted(d, s.from_name->0) + " TO "@ + quoted(d, s.to_name->0),
            ),
            _ => Ok(
                "ALTER TABLE "@ + quoted(d, s.from_name->0) + " RENAME TO "@ + quoted(
                    d,
                    s.to_name->0,
                ),
            ),
        }
    }
}

/// Append a full RENAME TABLE statement, or leave the writer alone and
/// report why the statement is malformed.
pub fn write_table_rename(d: Dialect, s: &TableRenameStatement, sql: &mut SqlWriter) -> (r: Result<
    (),
    RenderError,
>)
    ensures
        ({
            match table_rename_render(d, s@) {
                Ok(t) => r is Ok && final(sql)@ == old(sql)@ + t,
                Err(e) => r == Result::<(), RenderError>::Err(e) && final(sql)@ == old(sql)@,
            }
        }),
{
    let (from_name, to_name) = match (&s.from_name, &s.to_name) {
        (Some(f), Some(t)) => (f, t),
        _ => {
            return Err(RenderError::MissingTable(StatementKind::TableRename));
        },
    };
    match d {
        Dialect::Mysql => {
            sql.push_str("RENAME TABLE ");
            push_quoted(sql, d, from_name.as_text());
            sql.push_str(" TO ");
            push_quoted(sql, d, to_name.as_text());
        },
        _ => {
            sql.push_str("ALTER TABLE ");
            push_quoted(sql, d, from_name.as_text());
            sql.push_str(" RENAME TO ");
            push_quoted(sql, d, to_name.as_text());
        },
    }
    proof {
        assert(final(sql)@ =~= old(sql)@ + table_rename_render(d, s@)->Ok_0);
    }
    Ok(())
}

impl TableRenameStatement {
    /// An empty RENAME TABLE statement.
    pub fn new() -> (r: TableRenameStatement)
        ensures
            r@ == (TableRenameV { from_name: None, to_name: None }),
    {
        let r = TableRenameStatement { from_name: None, to_name: None };
        proof {
            assert(r@ =~= (TableRenameV { from_name: None, to_name: None }));
        }
        r
    }

    /// Set both names (overwrites).
    pub fn table(self, from_name: Iden, to_name: Iden) -> (r: TableRenameStatement)
        ensures
            r@ == (TableRenameV { from_name: Some(from_name@), to_name: Some(to_name@) }),
    {
        let ghost fv = from_name@;
        let ghost tv = to_name@;
        let r = TableRenameStatement { from_name: Some(from_name), to_name: Some(to_name) };
        proof {
            assert(r@ =~= (TableRenameV { from_name: Some(fv), to_name: Some(tv) }));
        }
        r
    }

    /// Render against a dialect.
    pub fn build<T: TableBuilder>(&self, schema_builder: T) -> (r: Result<String, RenderError>)
        ensures
            ({
                match table_rename_render(schema_builder.dialect(), self@) {
                    Ok(t) => r matches Ok(out) && out@ == t,
                    Err(e) => r matches Err(e2) && e2 == e,
                }
            }),
    {
        let mut sql = SqlWriter::new();
        match schema_builder.prepare_table_rename_statement(self, &mut sql) {
            Ok(()) => {
                proof {
                    let t = table_rename_render(schema_builder.dialect(), self@)->Ok_0;
                    assert(Seq::<char>::empty() + t =~= t);
                }
                Ok(sql.result())
            },
            Err(e) => Err(e),
        }
    }
}

/// One ALTER TABLE operation.
pub enum TableAlterOp {
    AddColumn(ColumnDef),
    ModifyColumn(ColumnDef),
    RenameColumn(Iden, Iden),
    DropColumn(Iden),
}

/// The model of a [`TableAlterOp`].
#[verifier::ext_equal]
pub enum TableAlterOpV {
    AddColumn(ColumnDefV),
    ModifyColumn(ColumnDefV),
    RenameColumn(Seq<char>, Seq<char>),
    DropColumn(Seq<char>),
}

impl View for TableAlterOp {
    type V = TableAlterOpV;

    open spec fn view(&self) -> TableAlterOpV {
        match self {
            TableAlterOp::AddColumn(c) => TableAlterOpV::AddColumn(c@),
            TableAlterOp::ModifyColumn(c) => TableAlterOpV::ModifyColumn(c@),
            TableAlterOp::RenameColumn(a, b) => TableAlterOpV::RenameColumn(a@, b@),
            TableAlterOp::DropColumn(a) => TableAlterOpV::DropColumn(a@),
        }
    }
}

impl Clone for TableAlterOp {
    fn clone(&self) -> (r: TableAlterOp)
        ensures
            r@ == self@,
    {
        match self {
            TableAlterOp::AddColumn(c) => TableAlterOp::AddColumn(c.clone()),
            TableAlterOp::ModifyColumn(c) => TableAlterOp::ModifyColumn(c.clone()),
            TableAlterOp::RenameColumn(a, b) => TableAlterOp::RenameColumn(a.clone(), b.clone()),
            TableAlterOp::DropColumn(a) => TableAlterOp::DropColumn(a.clone()),
        }
    }
}

/// An ALTER TABLE statement under construction.
pub struct TableAlterStatement {
    pub table: Option<Iden>,
    pub operation: Option<TableAlterOp>,
}

/// The model of a [`TableAlterStatement`].
#[verifier::ext_equal]
pub struct TableAlterV {
    pub table: Option<Seq<char>>,
    pub operation: Option<TableAlterOpV>,
}

impl View for TableAlterStatement {
    type V = TableAlterV;

    open spec fn view(&self) -> TableAlterV {
        TableAlterV { table: self.table.deep_view(), operation: self.operation.deep_view() }
    }
}

impl DeepView for TableAlterOp {
    type V = TableAlterOpV;

    open spec fn deep_view(&self) -> TableAlterOpV {
        self.view()
    }
}

impl Clone for TableAlterStatement {
    fn clone(&self) -> (r: TableAlterStatement)
        ensures
            r@ == self@,
    {
        let r = TableAlterStatement {
            table: match &self.table {
                Some(t) => Some(t.clone()),
                None => None,
            },
            operation: match &self.operation {
                Some(o) => Some(o.clone()),
                None => None,
            },
        };
        proof {
            assert(r@ =~= self@);
        }
        r
    }
}

/// The rendering of one ALTER TABLE operation.  Modifying a column's type
/// is a per-dialect keyword variant, and is not expressible in the
/// SQLite-like dialect at all: there the render fails while the same
/// statement still renders for the other dialects.
pub open spec fn table_alter_op_render(d: Dialect, o: TableAlterOpV) -> Result<
    Seq<char>,
    RenderError,
> {
    match o {
        TableAlterOpV::AddColumn(c) => match column_def_render(d, c) {
            Err(e) => Err(e),
            Ok(t) => Ok(" ADD COLUMN "@ + t),
        },
        TableAlterOpV::ModifyColumn(c) => match d {
            Dialect::Sqlite => Err(RenderError::Unsupported(StatementKind::TableAlter)),
            Dialect::Mysql => match column_def_render(d, c) {
                Err(e) => Err(e),
                Ok(t) => Ok(" MODIFY COLUMN "@ + t),
            },
            Dialect::Postgres => {
                if c.types is None {
                    Err(RenderError::MissingType(StatementKind::TableAlter))
                } else {
                    Ok(
                        " ALTER COLUMN "@ + quoted(d, c.name) + " TYPE "@ + column_type_text(
                            d,
                            c.types->0,
                        ),
                    )
                }
            },
        },
        TableAlterOpV::RenameColumn(a, b) => Ok(
            " RENAME COLUMN "@ + quoted(d, a) + " TO "@ + quoted(d, b),
        ),
        TableAlterOpV::DropColumn(a) => Ok(" DROP COLUMN "@ + quoted(d, a)),
    }
}

/// The complete rendering of an ALTER TABLE statement.  The table and an
/// operation are required.
pub open spec fn table_alter_render(d: Dialect, s: TableAlterV) -> Result<Seq<char>, RenderError> {
    if s.table is None {
        Err(RenderError::MissingTable(StatementKind::TableAlter))
    } else if s.operation is None {
        Err(RenderError::MissingOperation(StatementKind::TableAlter))
    } else {
        match table_alter_op_render(d, s.operation->0) {
            Err(e) => Err(e),
            Ok(t) => Ok("ALTER TABLE "@ + quoted(d, s.table->0) + t),
        }
    }
}

/// Append a full ALTER TABLE statement, or leave the writer alone and
/// report why the statement cannot render.
#[verifier::rlimit(100)]
pub fn write_table_alter(d: Dialect, s: &TableAlterStatement, sql: &mut SqlWriter) -> (r: Result<
    (),
    RenderError,
>)
    ensures
        ({
            match table_alter_render(d, s@) {
                Ok(t) => r is Ok && final(sql)@ == old(sql)@ + t,
                Err(e) => r == Result::<(), RenderError>::Err(e) && final(sql)@ == old(sql)@,
            }
        }),
{
    let table = match &s.table {
        Some(t) => t,
        None => {
            return Err(RenderError::MissingTable(StatementKind::TableAlter));
        },
    };
    let op = match &s.operation {
        Some(o) => o,
        None => {
            return Err(RenderError::MissingOperation(StatementKind::TableAlter));
        },
    };
    let mut probe = SqlWriter::new();
    match op {
        TableAlterOp::AddColumn(c) => {
            probe.push_str(" ADD COLUMN ");
            match write_column_def(d, c, &mut probe) {
                Ok(()) => {},
                Err(e) => {
                    return Err(e);
                },
            }
        },
        TableAlterOp::ModifyColumn(c) => {
            match d {
                Dialect::Sqlite => {
                    return Err(RenderError::Unsupported(StatementKind::TableAlter));
                },
                Dialect::Mysql => {
                    probe.push_str(" MODIFY COLUMN ");
                    match write_column_def(d, c, &mut probe) {
                        Ok(()) => {},
                        Err(e) => {
                            return Err(e);
                        },
                    }
                },
                Dialect::Postgres => {
                    let types = match &c.types {
                        Some(t) => t,
                        None => {
                            return Err(RenderError::MissingType(StatementKind::TableAlter));
                        },
                    };
                    probe.push_str(" ALTER COLUMN ");
                    push_quoted(&mut probe, d, c.name.as_text());
                    probe.push_str(" TYPE ");
                    write_column_type(d, types, &mut probe);
                },
            }
        },
        TableAlterOp::RenameColumn(a, b) => {
            probe.push_str(" RENAME COLUMN ");
            push_quoted(&mut probe, d, a.as_text());
            probe.push_str(" TO ");
            push_quoted(&mut probe, d, b.as_text());
        },
        TableAlterOp::DropColumn(a) => {
            probe.push_str(" DROP COLUMN ");
            push_quoted(&mut probe, d, a.as_text());
        },
    }
    proof {
        assert(probe@ =~= Seq::<char>::empty() + table_alter_op_render(d, s@.operation->0)->Ok_0);
    }
    sql.push_str("ALTER TABLE ");
    push_quoted(sql, d, table.as_text());
    let rendered = probe.result();
    sql.push_str(rendered.as_str());
    proof {
        assert(final(sql)@ =~= old(sql)@ + table_alter_render(d, s@)->Ok_0);
    }
    Ok(())
}

impl TableAlterStatement {
    /// An empty ALTER TABLE statement.
    pub fn new() -> (r: TableAlterStatement)
        ensures
            r@ == (TableAlterV { table: None, operation: None }),
    {
        let r = TableAlterStatement { table: None, operation: None };
        proof {
            assert(r@ =~= (TableAlterV { table: None, operation: None }));
        }
        r
    }

    /// Set the table (overwrites).
    pub fn table(self, table: Iden) -> (r: TableAlterStatement)
        ensures
            r@ == (TableAlterV { table: Some(table@), ..self@ }),
    {
        let ghost tv = table@;
        let r = TableAlterStatement { table: Some(table), ..self };
        proof {
            assert(r@ =~= (TableAlterV { table: Some(tv), ..self@ }));
        }
        r
    }

    /// Add a column (overwrites the operation).
    pub fn add_column(self, column: ColumnDef) -> (r: TableAlterStatement)
        ensures
            r@ == (TableAlterV {
                operation: Some(TableAlterOpV::AddColumn(column@)),
                ..self@
            }),
    {
        let ghost cdv = column@;
        let r = TableAlterStatement { operation: Some(TableAlterOp::AddColumn(column)), ..self };
        proof {
            assert(r@ =~= (TableAlterV {
                operation: Some(TableAlterOpV::AddColumn(cdv)),
                ..self@
            }));
        }
        r
    }

    /// Modify a column (overwrites the operation).
    pub fn modify_column(self, column: ColumnDef) -> (r: TableAlterStatement)
        ensures
            r@ == (TableAlterV {
                operation: Some(TableAlterOpV::ModifyColumn(column@)),
                ..self@
            }),
    {
        let ghost cdv = column@;
        let r = TableAlterStatement { operation: Some(TableAlterOp::ModifyColumn(column)), ..self };
        proof {
            assert(r@ =~= (TableAlterV {
                operation: Some(TableAlterOpV::ModifyColumn(cdv)),
                ..self@
            }));
        }
        r
    }

    /// Rename a column (overwrites the operation).
    pub fn rename_column(self, from_name: Iden, to_name: Iden) -> (r: TableAlterStatement)
        ensures
            r@ == (TableAlterV {
                operation: Some(TableAlterOpV::RenameColumn(from_name@, to_name@)),
                ..self@
            }),
    {
        let ghost fv = from_name@;
        let ghost tv = to_name@;
        let r = TableAlterStatement {
            operation: Some(TableAlterOp::RenameColumn(from_name, to_name)),
            ..self
        };
        proof {
            assert(r@ =~= (TableAlterV {
                operation: Some(TableAlterOpV::RenameColumn(fv, tv)),
                ..self@
            }));
        }
        r
    }

    /// Drop a column (overwrites the operation).
    pub fn drop_column(self, name: Iden) -> (r: TableAlterStatement)
        ensures
            r@ == (TableAlterV {
                operation: Some(TableAlterOpV::DropColumn(name@)),
                ..self@
            }),
    {
        let ghost nv = name@;
        let r = TableAlterStatement { operation: Some(TableAlterOp::DropColumn(name)), ..self };
        proof {
            assert(r@ =~= (TableAlterV {
                operation: Some(TableAlterOpV::DropColumn(nv)),
                ..self@
            }));
        }
        r
    }

    /// Render against a dialect.
    pub fn build<T: TableBuilder>(&self, schema_builder: T) -> (r: Result<String, RenderError>)
        ensures
            ({
                match table_alter_render(schema_builder.dialect(), self@) {
                    Ok(t) => r matches Ok(out) && out@ == t,
                    Err(e) => r matches Err(e2) && e2 == e,
                }
            }),
    {
        let mut sql = SqlWriter::new();
        match schema_builder.prepare_table_alter_statement(self, &mut sql) {
            Ok(()) => {
                proof {
                    let t = table_alter_render(schema_builder.dialect(), self@)->Ok_0;
                    assert(Seq::<char>::empty() + t =~= t);
                }
                Ok(sql.result())
            },
            Err(e) => Err(e),
        }
    }
}

} // verus!
