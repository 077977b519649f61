//! The render-time error taxonomy.

use vstd::prelude::*;

verus! {

/// The statement kind an error speaks of.
#[derive(Clone, Copy, PartialEq, Eq, Structural, Debug)]
pub enum StatementKind {
    Insert,
    Select,
    Update,
    Delete,
    TableCreate,
    TableDrop,
    TableTruncate,
    TableAlter,
    TableRename,
    IndexCreate,
    IndexDrop,
    ForeignKeyCreate,
    ForeignKeyDrop,
}

/// Why a render call failed.
///
/// A malformed statement (a required clause missing at render time, an
/// empty list where at least one entry is required, or value rows that do
/// not match the column list) fails fast instead of emitting invalid
/// text.  A construct that a particular dialect cannot express fails for
/// that dialect only; the same statement may render for another.
#[derive(Clone, Copy, PartialEq, Eq, Structural, Debug)]
pub enum RenderError {
    /// The target table is required but was never set.
    MissingTable(StatementKind),
    /// The statement's name (of an index or constraint) was never set.
    MissingName(StatementKind),
    /// A column definition carries no column type.
    MissingType(StatementKind),
    /// An ALTER statement carries no operation.
    MissingOperation(StatementKind),
    /// A column or projection list that must be non-empty is empty.
    EmptyColumns(StatementKind),
    /// A value list that must be non-empty is empty.
    EmptyValues(StatementKind),
    /// A value row's length does not match the column list's length.
    RowArityMismatch(StatementKind),
    /// The construct cannot be expressed in the target dialect.
    Unsupported(StatementKind),
}

} // verus!
