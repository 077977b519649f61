//! A database-agnostic SQL statement construction and rendering library.
//!
//! Callers assemble structured representations of SQL statements (DML:
//! insert / select / update / delete; DDL: table, index and foreign-key
//! operations) through fluent builder methods, then render the structure
//! into the concrete text of one of three built-in dialects, collecting
//! the bound literal values in emission order for parameterized execution.
//!
//! Rendering is a pure top-down walk of the statement tree: the text and
//! the ordered value sequence produced for a statement are pinned, clause
//! by clause, to specification-level rendering functions, so the same
//! statement always renders to the same output against the same dialect.

pub mod backend;
pub mod dialect;
pub mod error;
pub mod expr;
pub mod foreign_key;
pub mod iden;
pub mod index;
pub mod laws;
pub mod query;
pub mod render;
pub mod table;
pub mod value;
pub mod writer;
