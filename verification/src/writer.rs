//! The append-only text sink that a render call writes into.

use vstd::prelude::*;
use vstd::string::StringExecFns;

verus! {

/// An append-only accumulator for SQL text.
///
/// A writer is created fresh for each render call, filled left to right
/// while the statement tree is walked, and consumed by [`SqlWriter::result`].
/// Its view is the sequence of characters written so far.
pub struct SqlWriter {
    content: String,
}

impl View for SqlWriter {
    type V = Seq<char>;

    closed spec fn view(&self) -> Seq<char> {
        self.content@
    }
}

impl SqlWriter {
    /// An empty writer.
    pub fn new() -> (r: SqlWriter)
        ensures
            r@ == Seq::<char>::empty(),
    {
        SqlWriter { content: String::new() }
    }

    /// Append a piece of text.
    pub fn push_str(&mut self, piece: &str)
        ensures
            final(self)@ == old(self)@ + piece@,
    {
        self.content.append(piece);
    }

    /// The accumulated text.
    pub fn result(self) -> (r: String)
        ensures
            r@ == self@,
    {
        self.content
    }
}

} // verus!
