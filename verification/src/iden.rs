//! Shared identifier handles for table, column, index and alias names.

use vstd::prelude::*;
use std::rc::Rc;

verus! {

/// Relies on `Rc::clone`: the standard library documents that cloning an
/// `Rc` yields another pointer to the same allocation, so the clone carries
/// the same value.
#[verifier::external_body]
fn clone_shared_name(v: &Rc<String>) -> (res: Rc<String>)
    ensures
        res == *v,
{
    Rc::clone(v)
}

/// A shared, read-only handle to an identifier (a table, column, index or
/// alias name).
///
/// The name text is reference-counted, so a handle can be referenced from
/// several clauses, or several statements, without duplicating the text.
/// Identity is the resolved name, not the handle address: the view of a
/// handle is its character sequence, and all contracts speak of that view.
pub struct Iden {
    name: Rc<String>,
}

impl View for Iden {
    type V = Seq<char>;

    closed spec fn view(&self) -> Seq<char> {
        self.name@
    }
}

impl DeepView for Iden {
    type V = Seq<char>;

    open spec fn deep_view(&self) -> Seq<char> {
        self.view()
    }
}

impl Clone for Iden {
    fn clone(&self) -> (r: Iden)
        ensures
            r == *self,
    {
        Iden { name: clone_shared_name(&self.name) }
    }
}

impl Iden {
    /// A new identifier handle holding the given name.
    pub fn new(name: &str) -> (r: Iden)
        ensures
            r@ == name@,
    {
        Iden { name: Rc::new(name.to_owned()) }
    }

    /// The name this handle resolves to.
    pub fn as_text(&self) -> (r: &str)
        ensures
            r@ == self@,
    {
        (&*self.name).as_str()
    }

    /// Whether two handles resolve to the same name.
    pub fn same_name(&self, other: &Iden) -> (r: bool)
        ensures
            r == (self@ == other@),
    {
        (&*self.name).eq(&*other.name)
    }
}

} // verus!
