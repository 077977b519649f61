//! The closed set of literal value kinds carried to a parameter collector.

use vstd::prelude::*;
use vstd::string::StringExecFns;

verus! {

/// One literal operand: a tagged union of the supported scalar kinds plus
/// a homogeneous array of scalars.
///
/// A value's kind is fixed at construction and never mutated afterwards.
/// `Null` is a first-class value, not the absence of one.  During
/// rendering a value is never spelled into the statement text of a query:
/// it is replaced by a placeholder and handed to the collector.
#[derive(Debug, PartialEq)]
pub enum Value {
    Null,
    Bool(bool),
    Int(i64),
    UInt(u64),
    Text(String),
    Bytes(Vec<u8>),
    DateTime(String),
    Array(Vec<Value>),
}

/// The mathematical model of a [`Value`].
#[verifier::ext_equal]
pub enum ValueV {
    Null,
    Bool(bool),
    Int(i64),
    UInt(u64),
    Text(Seq<char>),
    Bytes(Seq<u8>),
    DateTime(Seq<char>),
    Array(Seq<ValueV>),
}

/// The model of a sequence of values.
pub open spec fn values_view(s: Seq<Value>) -> Seq<ValueV>
    decreases s,
{
    if s.len() == 0 {
        Seq::empty()
    } else {
        values_view(s.drop_last()).push(s.last().view())
    }
}

impl View for Value {
    type V = ValueV;

    open spec fn view(&self) -> ValueV
        decreases self,
    {
        match self {
            Value::Null => ValueV::Null,
            Value::Bool(b) => ValueV::Bool(*b),
            Value::Int(i) => ValueV::Int(*i),
            Value::UInt(u) => ValueV::UInt(*u),
            Value::Text(s) => ValueV::Text(s@),
            Value::Bytes(b) => ValueV::Bytes(b@),
            Value::DateTime(s) => ValueV::DateTime(s@),
            Value::Array(vs) => ValueV::Array(values_view(vs@)),
        }
    }
}

impl DeepView for Value {
    type V = ValueV;

    open spec fn deep_view(&self) -> ValueV {
        self.view()
    }
}

/// `values_view` maps the element views positionally.
pub broadcast proof fn lemma_values_view(s: Seq<Value>)
    ensures
        (#[trigger] values_view(s)).len() == s.len(),
        forall|i: int| 0 <= i < s.len() ==> values_view(s)[i] == s[i]@,
    decreases s,
{
    if s.len() > 0 {
        lemma_values_view(s.drop_last());
        let prefix = values_view(s.drop_last());
        let x = s.last()@;
        assert(values_view(s) == prefix.push(x));
        assert forall|i: int| 0 <= i < s.len() implies values_view(s)[i] == s[i]@ by {
            if i < s.len() - 1 {
                assert(prefix.push(x)[i] == prefix[i]);
                assert(s.drop_last()[i] == s[i]);
            } else {
                assert(prefix.push(x)[i] == x);
            }
        }
    }
}

/// A small tag distinguishing the value kinds.
pub open spec fn kind_id(v: ValueV) -> int {
    match v {
        ValueV::Null => 0,
        ValueV::Bool(_) => 1,
        ValueV::Int(_) => 2,
        ValueV::UInt(_) => 3,
        ValueV::Text(_) => 4,
        ValueV::Bytes(_) => 5,
        ValueV::DateTime(_) => 6,
        ValueV::Array(_) => 7,
    }
}

/// Whether a sequence of values is a legal array payload: every element
/// is a scalar (no nested arrays) and all elements share one kind.
pub open spec fn homogeneous(vs: Seq<ValueV>) -> bool {
    (forall|i: int| 0 <= i < vs.len() ==> !(#[trigger] vs[i] is Array))
        && (forall|i: int, j: int|
            0 <= i < vs.len() && 0 <= j < vs.len() ==> kind_id(#[trigger] vs[i]) == kind_id(
                #[trigger] vs[j],
            ))
}

/// Well-formedness of a value: an array payload is homogeneous.
pub open spec fn value_wf(v: ValueV) -> bool {
    match v {
        ValueV::Array(vs) => homogeneous(vs),
        _ => true,
    }
}

/// An exact copy of a byte vector.
fn clone_bytes(v: &Vec<u8>) -> (r: Vec<u8>)
    ensures
        r@ == v@,
{
    let mut out: Vec<u8> = Vec::new();
    let mut i: usize = 0;
    while i < v.len()
        invariant
            i <= v@.len(),
            out@ == v@.take(i as int),
        decreases v@.len() - i,
    {
        out.push(v[i]);
        i = i + 1;
        proof {
            assert(out@ =~= v@.take(i as int));
        }
    }
    proof {
        assert(v@.take(v@.len() as int) =~= v@);
    }
    out
}

/// An exact copy of a value vector, element views preserved.
fn clone_values(v: &Vec<Value>) -> (r: Vec<Value>)
    ensures
        values_view(r@) == values_view(v@),
    decreases *v,
{
    let mut out: Vec<Value> = Vec::new();
    let mut i: usize = 0;
    while i < v.len()
        invariant
            i <= v@.len(),
            out@.len() == i,
            forall|j: int| 0 <= j < i ==> (#[trigger] out@[j])@ == v@[j]@,
        decreases v@.len() - i,
    {
        let c = v[i].clone();
        out.push(c);
        i = i + 1;
    }
    proof {
        broadcast use lemma_values_view;

        assert(values_view(out@) =~= values_view(v@));
    }
    out
}

impl Clone for Value {
    /// A deep copy whose model equals the original's.
    fn clone(&self) -> (r: Value)
        ensures
            r@ == self@,
        decreases *self,
    {
        match self {
            Value::Null => Value::Null,
            Value::Bool(b) => Value::Bool(*b),
            Value::Int(i) => Value::Int(*i),
            Value::UInt(u) => Value::UInt(*u),
            Value::Text(s) => Value::Text(s.clone()),
            Value::Bytes(b) => Value::Bytes(clone_bytes(b)),
            Value::DateTime(s) => Value::DateTime(s.clone()),
            Value::Array(vs) => Value::Array(clone_values(vs)),
        }
    }
}

impl Value {
    /// The boolean value.
    pub fn boolean(b: bool) -> (r: Value)
        ensures
            r@ == ValueV::Bool(b),
    {
        Value::Bool(b)
    }

    /// A signed integer value.
    pub fn integer(i: i64) -> (r: Value)
        ensures
            r@ == ValueV::Int(i),
    {
        Value::Int(i)
    }

    /// An unsigned integer value.
    pub fn unsigned(u: u64) -> (r: Value)
        ensures
            r@ == ValueV::UInt(u),
    {
        Value::UInt(u)
    }

    /// A text value holding the given characters.
    pub fn text(s: &str) -> (r: Value)
        ensures
            r@ == ValueV::Text(s@),
    {
        Value::Text(s.to_owned())
    }

    /// A binary value.
    pub fn bytes(b: Vec<u8>) -> (r: Value)
        ensures
            r@ == ValueV::Bytes(b@),
    {
        Value::Bytes(b)
    }

    /// A date/time value holding the given textual timestamp.
    pub fn date_time(s: &str) -> (r: Value)
        ensures
            r@ == ValueV::DateTime(s@),
    {
        Value::DateTime(s.to_owned())
    }

    /// A homogeneous array of scalar values.
    pub fn array(vs: Vec<Value>) -> (r: Value)
        requires
            homogeneous(values_view(vs@)),
        ensures
            r@ == ValueV::Array(values_view(vs@)),
            value_wf(r@),
    {
        Value::Array(vs)
    }
}

} // verus!
