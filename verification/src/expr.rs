//! The expression and clause node types of the statement model.
//!
//! Every node is a closed tagged union; operand arity is fixed by the
//! variant itself (a unary node has one operand, a binary node two, a
//! logical chain any number of links), so arity mismatches are prevented
//! structurally rather than checked at render time.  Each node type has a
//! mathematical view; all rendering contracts are stated over the views.

use vstd::prelude::*;
use crate::iden::Iden;
use crate::value::{Value, ValueV};

verus! {

/// A unary operator.
#[derive(Clone, Copy, PartialEq, Eq, Structural, Debug)]
pub enum UnOper {
    Not,
}

/// A binary operator.
#[derive(Clone, Copy, PartialEq, Eq, Structural, Debug)]
pub enum BinOper {
    And,
    Or,
    Equal,
    NotEqual,
    SmallerThan,
    SmallerThanOrEqual,
    GreaterThan,
    GreaterThanOrEqual,
    Like,
    Is,
    IsNot,
    Add,
    Sub,
    Mul,
    Div,
}

/// An ordering direction.
#[derive(Clone, Copy, PartialEq, Eq, Structural, Debug)]
pub enum Order {
    Asc,
    Desc,
}

/// A join kind keyword.
#[derive(Clone, Copy, PartialEq, Eq, Structural, Debug)]
pub enum JoinType {
    InnerJoin,
    LeftJoin,
    RightJoin,
    FullOuterJoin,
    CrossJoin,
}

/// Whether duplicate result rows are kept.
#[derive(Clone, Copy, PartialEq, Eq, Structural, Debug)]
pub enum SelectDistinct {
    All,
    Distinct,
}

/// A built-in function, or a caller-named one.
///
/// A built-in function name is a recognized keyword and is rendered
/// unquoted; a custom function name is subject to the same quoting rule
/// as user identifiers.
pub enum Function {
    Max,
    Min,
    Sum,
    Avg,
    Count,
    Custom(Iden),
}

/// The model of a [`Function`].
#[verifier::ext_equal]
pub enum FunctionV {
    Max,
    Min,
    Sum,
    Avg,
    Count,
    Custom(Seq<char>),
}

impl View for Function {
    type V = FunctionV;

    open spec fn view(&self) -> FunctionV {
        match self {
            Function::Max => FunctionV::Max,
            Function::Min => FunctionV::Min,
            Function::Sum => FunctionV::Sum,
            Function::Avg => FunctionV::Avg,
            Function::Count => FunctionV::Count,
            Function::Custom(i) => FunctionV::Custom(i@),
        }
    }
}

impl Clone for Function {
    fn clone(&self) -> (r: Function)
        ensures
            r@ == self@,
    {
        match self {
            Function::Max => Function::Max,
            Function::Min => Function::Min,
            Function::Sum => Function::Sum,
            Function::Avg => Function::Avg,
            Function::Count => Function::Count,
            Function::Custom(i) => Function::Custom(i.clone()),
        }
    }
}

/// A reference to a column, optionally qualified by its table.
pub enum ColumnRef {
    Column(Iden),
    TableColumn(Iden, Iden),
}

/// The model of a [`ColumnRef`].
#[verifier::ext_equal]
pub enum ColumnRefV {
    Column(Seq<char>),
    TableColumn(Seq<char>, Seq<char>),
}

impl View for ColumnRef {
    type V = ColumnRefV;

    open spec fn view(&self) -> ColumnRefV {
        match self {
            ColumnRef::Column(c) => ColumnRefV::Column(c@),
            ColumnRef::TableColumn(t, c) => ColumnRefV::TableColumn(t@, c@),
        }
    }
}

impl Clone for ColumnRef {
    fn clone(&self) -> (r: ColumnRef)
        ensures
            r@ == self@,
    {
        match self {
            ColumnRef::Column(c) => ColumnRef::Column(c.clone()),
            ColumnRef::TableColumn(t, c) => ColumnRef::TableColumn(t.clone(), c.clone()),
        }
    }
}

/// A reference to a table, optionally under an alias.
pub enum TableRef {
    Table(Iden),
    TableAlias(Iden, Iden),
}

/// The model of a [`TableRef`].
#[verifier::ext_equal]
pub enum TableRefV {
    Table(Seq<char>),
    TableAlias(Seq<char>, Seq<char>),
}

impl View for TableRef {
    type V = TableRefV;

    open spec fn view(&self) -> TableRefV {
        match self {
            TableRef::Table(t) => TableRefV::Table(t@),
            TableRef::TableAlias(t, a) => TableRefV::TableAlias(t@, a@),
        }
    }
}

impl DeepView for TableRef {
    type V = TableRefV;

    open spec fn deep_view(&self) -> TableRefV {
        self.view()
    }
}

impl Clone for TableRef {
    fn clone(&self) -> (r: TableRef)
        ensures
            r@ == self@,
    {
        match self {
            TableRef::Table(t) => TableRef::Table(t.clone()),
            TableRef::TableAlias(t, a) => TableRef::TableAlias(t.clone(), a.clone()),
        }
    }
}

/// One operand or operator node of a WHERE / SELECT / ON tree.
pub enum SimpleExpr {
    Column(ColumnRef),
    Value(Value),
    Unary(UnOper, Box<SimpleExpr>),
    Binary(Box<SimpleExpr>, BinOper, Box<SimpleExpr>),
    FunctionCall(Function, Vec<SimpleExpr>),
}

/// The model of a [`SimpleExpr`].
#[verifier::ext_equal]
pub enum ExprV {
    Column(ColumnRefV),
    Value(ValueV),
    Unary(UnOper, Box<ExprV>),
    Binary(Box<ExprV>, BinOper, Box<ExprV>),
    FunctionCall(FunctionV, Seq<ExprV>),
}

/// The model of a sequence of expressions.
pub open spec fn exprs_view(s: Seq<SimpleExpr>) -> Seq<ExprV>
    decreases s,
{
    if s.len() == 0 {
        Seq::empty()
    } else {
        exprs_view(s.drop_last()).push(s.last().view())
    }
}

impl View for SimpleExpr {
    type V = ExprV;

    open spec fn view(&self) -> ExprV
        decreases self,
    {
        match self {
            SimpleExpr::Column(c) => ExprV::Column(c@),
            SimpleExpr::Value(v) => ExprV::Value(v@),
            SimpleExpr::Unary(op, x) => ExprV::Unary(*op, Box::new((**x)@)),
            SimpleExpr::Binary(l, op, r) => ExprV::Binary(Box::new((**l)@), *op, Box::new((**r)@)),
            SimpleExpr::FunctionCall(f, args) => ExprV::FunctionCall(f@, exprs_view(args@)),
        }
    }
}

impl DeepView for SimpleExpr {
    type V = ExprV;

    open spec fn deep_view(&self) -> ExprV {
        self.view()
    }
}

/// `exprs_view` maps the element views positionally.
pub broadcast proof fn lemma_exprs_view(s: Seq<SimpleExpr>)
    ensures
        (#[trigger] exprs_view(s)).len() == s.len(),
        forall|i: int| 0 <= i < s.len() ==> exprs_view(s)[i] == s[i]@,
    decreases s,
{
    if s.len() > 0 {
        lemma_exprs_view(s.drop_last());
        let prefix = exprs_view(s.drop_last());
        let x = s.last()@;
        assert(exprs_view(s) == prefix.push(x));
        assert forall|i: int| 0 <= i < s.len() implies exprs_view(s)[i] == s[i]@ by {
            if i < s.len() - 1 {
                assert(prefix.push(x)[i] == prefix[i]);
                assert(s.drop_last()[i] == s[i]);
            } else {
                assert(prefix.push(x)[i] == x);
            }
        }
    }
}

/// An exact copy of an expression vector, element views preserved.
fn clone_exprs(v: &Vec<SimpleExpr>) -> (r: Vec<SimpleExpr>)
    ensures
        exprs_view(r@) == exprs_view(v@),
    decreases *v,
{
    let mut out: Vec<SimpleExpr> = Vec::new();
    let mut i: usize = 0;
    while i < v.len()
        invariant
            i <= v@.len(),
            out@.len() == i,
            forall|j: int| 0 <= j < i ==> (#[trigger] out@[j])@ == v@[j]@,
        decreases v@.len() - i,
    {
        let c = v[i].clone();
        out.push(c);
        i = i + 1;
    }
    proof {
        broadcast use lemma_exprs_view;

        assert(exprs_view(out@) =~= exprs_view(v@));
    }
    out
}

impl Clone for SimpleExpr {
    /// A deep copy whose model equals the original's; shared identifier
    /// handles stay shared.
    fn clone(&self) -> (r: SimpleExpr)
        ensures
            r@ == self@,
        decreases *self,
    {
        match self {
            SimpleExpr::Column(c) => SimpleExpr::Column(c.clone()),
            SimpleExpr::Value(v) => SimpleExpr::Value(v.clone()),
            SimpleExpr::Unary(op, x) => SimpleExpr::Unary(*op, Box::new((**x).clone())),
            SimpleExpr::Binary(l, op, r2) => SimpleExpr::Binary(
                Box::new((**l).clone()),
                *op,
                Box::new((**r2).clone()),
            ),
            SimpleExpr::FunctionCall(f, args) => SimpleExpr::FunctionCall(
                f.clone(),
                clone_exprs(args),
            ),
        }
    }
}

impl SimpleExpr {
    /// An unqualified column operand.
    pub fn col(c: Iden) -> (r: SimpleExpr)
        ensures
            r@ == ExprV::Column(ColumnRefV::Column(c@)),
    {
        SimpleExpr::Column(ColumnRef::Column(c))
    }

    /// A table-qualified column operand.
    pub fn table_col(t: Iden, c: Iden) -> (r: SimpleExpr)
        ensures
            r@ == ExprV::Column(ColumnRefV::TableColumn(t@, c@)),
    {
        SimpleExpr::Column(ColumnRef::TableColumn(t, c))
    }

    /// A literal operand.
    pub fn val(v: Value) -> (r: SimpleExpr)
        ensures
            r@ == ExprV::Value(v@),
    {
        SimpleExpr::Value(v)
    }

    /// A binary operator node over two operands.
    pub fn binary(l: SimpleExpr, op: BinOper, r2: SimpleExpr) -> (r: SimpleExpr)
        ensures
            r@ == ExprV::Binary(Box::new(l@), op, Box::new(r2@)),
    {
        SimpleExpr::Binary(Box::new(l), op, Box::new(r2))
    }

    /// A unary operator node over one operand.
    pub fn unary(op: UnOper, x: SimpleExpr) -> (r: SimpleExpr)
        ensures
            r@ == ExprV::Unary(op, Box::new(x@)),
    {
        SimpleExpr::Unary(op, Box::new(x))
    }

    /// A function call node over an argument list.
    pub fn func(f: Function, args: Vec<SimpleExpr>) -> (r: SimpleExpr)
        ensures
            r@ == ExprV::FunctionCall(f@, exprs_view(args@)),
    {
        SimpleExpr::FunctionCall(f, args)
    }
}

/// One link of a WHERE / HAVING chain: the condition together with the
/// connective that joins it to the preceding links.
pub enum LogicalChainOper {
    And(SimpleExpr),
    Or(SimpleExpr),
}

/// The model of a [`LogicalChainOper`].
#[verifier::ext_equal]
pub enum LogicalChainOperV {
    And(ExprV),
    Or(ExprV),
}

impl View for LogicalChainOper {
    type V = LogicalChainOperV;

    open spec fn view(&self) -> LogicalChainOperV {
        match self {
            LogicalChainOper::And(e) => LogicalChainOperV::And(e@),
            LogicalChainOper::Or(e) => LogicalChainOperV::Or(e@),
        }
    }
}

impl DeepView for LogicalChainOper {
    type V = LogicalChainOperV;

    open spec fn deep_view(&self) -> LogicalChainOperV {
        self.view()
    }
}

impl Clone for LogicalChainOper {
    fn clone(&self) -> (r: LogicalChainOper)
        ensures
            r@ == self@,
    {
        match self {
            LogicalChainOper::And(e) => LogicalChainOper::And(e.clone()),
            LogicalChainOper::Or(e) => LogicalChainOper::Or(e.clone()),
        }
    }
}

/// One ORDER BY entry.
pub struct OrderExpr {
    pub expr: SimpleExpr,
    pub order: Order,
}

/// The model of an [`OrderExpr`].
#[verifier::ext_equal]
pub struct OrderExprV {
    pub expr: ExprV,
    pub order: Order,
}

impl View for OrderExpr {
    type V = OrderExprV;

    open spec fn view(&self) -> OrderExprV {
        OrderExprV { expr: self.expr@, order: self.order }
    }
}

impl DeepView for OrderExpr {
    type V = OrderExprV;

    open spec fn deep_view(&self) -> OrderExprV {
        self.view()
    }
}

impl Clone for OrderExpr {
    fn clone(&self) -> (r: OrderExpr)
        ensures
            r@ == self@,
    {
        OrderExpr { expr: self.expr.clone(), order: self.order }
    }
}

/// One JOIN clause: kind, joined table, and an optional ON condition.
pub struct JoinExpr {
    pub join: JoinType,
    pub table: TableRef,
    pub on: Option<SimpleExpr>,
}

/// The model of a [`JoinExpr`].
#[verifier::ext_equal]
pub struct JoinExprV {
    pub join: JoinType,
    pub table: TableRefV,
    pub on: Option<ExprV>,
}

impl View for JoinExpr {
    type V = JoinExprV;

    open spec fn view(&self) -> JoinExprV {
        JoinExprV { join: self.join, table: self.table@, on: self.on.deep_view() }
    }
}

impl DeepView for JoinExpr {
    type V = JoinExprV;

    open spec fn deep_view(&self) -> JoinExprV {
        self.view()
    }
}

impl Clone for JoinExpr {
    fn clone(&self) -> (r: JoinExpr)
        ensures
            r@ == self@,
    {
        let on = match &self.on {
            Some(e) => Some(e.clone()),
            None => None,
        };
        JoinExpr { join: self.join, table: self.table.clone(), on }
    }
}

/// One projected expression of a SELECT, optionally under an alias.
pub struct SelectExpr {
    pub expr: SimpleExpr,
    pub alias: Option<Iden>,
}

/// The model of a [`SelectExpr`].
#[verifier::ext_equal]
pub struct SelectExprV {
    pub expr: ExprV,
    pub alias: Option<Seq<char>>,
}

impl View for SelectExpr {
    type V = SelectExprV;

    open spec fn view(&self) -> SelectExprV {
        SelectExprV { expr: self.expr@, alias: self.alias.deep_view() }
    }
}

impl DeepView for SelectExpr {
    type V = SelectExprV;

    open spec fn deep_view(&self) -> SelectExprV {
        self.view()
    }
}

impl Clone for SelectExpr {
    fn clone(&self) -> (r: SelectExpr)
        ensures
            r@ == self@,
    {
        let alias = match &self.alias {
            Some(a) => Some(a.clone()),
            None => None,
        };
        SelectExpr { expr: self.expr.clone(), alias }
    }
}

} // verus!
