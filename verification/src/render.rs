//! The dialect-parameterized rendering model for expression nodes, and the
//! verified emitters that realize it.
//!
//! Every rendering function is a pure function of the dialect, the node's
//! view, and the number of values already bound in the surrounding render
//! call (which fixes placeholder numbering).  The emitters append to a
//! [`SqlWriter`] and push each encountered literal onto the collector at
//! the exact point its placeholder enters the text, so the collector
//! receives the literals in strict left-to-right emission order.

use vstd::prelude::*;
use crate::dialect::{
    Dialect, ph_text, quoted, push_placeholder, push_quoted,
};
use crate::expr::{
    BinOper, ColumnRef, ColumnRefV, ExprV, Function, FunctionV, JoinType, LogicalChainOper,
    LogicalChainOperV, Order, SelectDistinct, SimpleExpr, TableRef, TableRefV, UnOper,
};
use crate::iden::Iden;
use crate::value::{Value, ValueV};
use crate::writer::SqlWriter;

verus! {

/// What a piece of rendering produces: text, and the values bound by the
/// placeholders inside that text, in emission order.
#[verifier::ext_equal]
pub struct Rendered {
    pub text: Seq<char>,
    pub params: Seq<ValueV>,
}

/// Text with no bound values.
pub open spec fn r_text(t: Seq<char>) -> Rendered {
    Rendered { text: t, params: Seq::empty() }
}

/// Nothing rendered.
pub open spec fn r_empty() -> Rendered {
    Rendered { text: Seq::empty(), params: Seq::empty() }
}

/// Two renderings in sequence.
pub open spec fn r_cat(a: Rendered, b: Rendered) -> Rendered {
    Rendered { text: a.text + b.text, params: a.params + b.params }
}

/// A rendering wrapped in parentheses.
pub open spec fn r_paren(a: Rendered) -> Rendered {
    Rendered { text: "("@ + a.text + ")"@, params: a.params }
}

/// The keyword of a unary operator.
pub open spec fn un_oper_text(o: UnOper) -> Seq<char> {
    "NOT"@
}

/// The keyword or sign of a binary operator.
pub open spec fn bin_oper_text(o: BinOper) -> Seq<char> {
    match o {
        BinOper::And => "AND"@,
        BinOper::Or => "OR"@,
        BinOper::Equal => "="@,
        BinOper::NotEqual => "<>"@,
        BinOper::SmallerThan => "<"@,
        BinOper::SmallerThanOrEqual => "<="@,
        BinOper::GreaterThan => ">"@,
        BinOper::GreaterThanOrEqual => ">="@,
        BinOper::Like => "LIKE"@,
        BinOper::Is => "IS"@,
        BinOper::IsNot => "IS NOT"@,
        BinOper::Add => "+"@,
        BinOper::Sub => "-"@,
        BinOper::Mul => "*"@,
        BinOper::Div => "/"@,
    }
}

/// The keyword of a join kind.
pub open spec fn join_type_text(j: JoinType) -> Seq<char> {
    match j {
        JoinType::InnerJoin => "INNER JOIN"@,
        JoinType::LeftJoin => "LEFT JOIN"@,
        JoinType::RightJoin => "RIGHT JOIN"@,
        JoinType::FullOuterJoin => "FULL OUTER JOIN"@,
        JoinType::CrossJoin => "CROSS JOIN"@,
    }
}

/// The keyword of an ordering direction.
pub open spec fn order_text(o: Order) -> Seq<char> {
    match o {
        Order::Asc => "ASC"@,
        Order::Desc => "DESC"@,
    }
}

/// The name of a function: built-ins are recognized keywords and stay
/// unquoted, a custom name is quoted like any user identifier.
pub open spec fn func_name_text(d: Dialect, f: FunctionV) -> Seq<char> {
    match f {
        FunctionV::Max => "MAX"@,
        FunctionV::Min => "MIN"@,
        FunctionV::Sum => "SUM"@,
        FunctionV::Avg => "AVG"@,
        FunctionV::Count => "COUNT"@,
        FunctionV::Custom(name) => quoted(d, name),
    }
}

/// The text of a column reference.
pub open spec fn column_ref_text(d: Dialect, c: ColumnRefV) -> Seq<char> {
    match c {
        ColumnRefV::Column(name) => quoted(d, name),
        ColumnRefV::TableColumn(t, name) => quoted(d, t) + "."@ + quoted(d, name),
    }
}

/// The text of a table reference.
pub open spec fn table_ref_text(d: Dialect, t: TableRefV) -> Seq<char> {
    match t {
        TableRefV::Table(name) => quoted(d, name),
        TableRefV::TableAlias(name, alias) => quoted(d, name) + " AS "@ + quoted(d, alias),
    }
}

/// The rendering of one expression node, with placeholder numbering
/// starting after `k` already-bound values.
pub open spec fn expr_render(d: Dialect, e: ExprV, k: nat) -> Rendered
    decreases e, 0int,
{
    match e {
        ExprV::Column(c) => r_text(column_ref_text(d, c)),
        ExprV::Value(v) => Rendered { text: ph_text(d, k), params: seq![v] },
        ExprV::Unary(op, x) => r_cat(
            r_text(un_oper_text(op) + " "@),
            operand_render(d, *x, k),
        ),
        ExprV::Binary(l, op, r) => {
            let lr = operand_render(d, *l, k);
            let rr = operand_render(d, *r, k + lr.params.len());
            r_cat(lr, r_cat(r_text(" "@ + bin_oper_text(op) + " "@), rr))
        },
        ExprV::FunctionCall(f, args) => r_cat(
            r_text(func_name_text(d, f) + "("@),
            r_cat(exprs_list_render(d, args, k), r_text(")"@)),
        ),
    }
}

/// The rendering of an operand: a nested binary node is parenthesized,
/// uniformly and regardless of its position, so grouping never depends on
/// the order in which siblings were supplied.
pub open spec fn operand_render(d: Dialect, e: ExprV, k: nat) -> Rendered
    decreases e, 1int,
{
    if e is Binary {
        r_paren(expr_render(d, e, k))
    } else {
        expr_render(d, e, k)
    }
}

/// The rendering of a comma-separated expression list.
pub open spec fn exprs_list_render(d: Dialect, s: Seq<ExprV>, k: nat) -> Rendered
    decreases s, 0int,
{
    if s.len() == 0 {
        r_empty()
    } else {
        let init = exprs_list_render(d, s.drop_last(), k);
        let sep: Seq<char> = if s.len() == 1 { Seq::empty() } else { ", "@ };
        r_cat(init, r_cat(r_text(sep), expr_render(d, s.last(), k + init.params.len())))
    }
}

/// The condition of one chain link.
pub open spec fn chain_expr(c: LogicalChainOperV) -> ExprV {
    match c {
        LogicalChainOperV::And(e) => e,
        LogicalChainOperV::Or(e) => e,
    }
}

/// The connective a chain link is joined with.
pub open spec fn chain_sep(c: LogicalChainOperV) -> Seq<char> {
    match c {
        LogicalChainOperV::And(_) => " AND "@,
        LogicalChainOperV::Or(_) => " OR "@,
    }
}

/// The rendering of one chain link's condition (parenthesized exactly
/// when the condition is itself a binary node).
pub open spec fn chain_item_render(d: Dialect, c: LogicalChainOperV, k: nat) -> Rendered
    decreases c, 1int,
{
    operand_render(d, chain_expr(c), k)
}

/// The rendering of a condition chain: the first link's condition, then
/// each further link's connective and condition, in call order.
pub open spec fn chain_render(d: Dialect, cs: Seq<LogicalChainOperV>, k: nat) -> Rendered
    decreases cs, 2int,
{
    if cs.len() == 0 {
        r_empty()
    } else {
        let init = chain_render(d, cs.drop_last(), k);
        let sep: Seq<char> = if cs.len() == 1 { Seq::empty() } else { chain_sep(cs.last()) };
        r_cat(init, r_cat(r_text(sep), chain_item_render(d, cs.last(), k + init.params.len())))
    }
}

/// Whether the expression is a binary node.
fn is_binary(e: &SimpleExpr) -> (b: bool)
    ensures
        b == (e@ is Binary),
{
    matches!(e, SimpleExpr::Binary(_, _, _))
}

/// Append the keyword of a unary operator.
pub fn write_un_oper(o: &UnOper, sql: &mut SqlWriter)
    ensures
        final(sql)@ == old(sql)@ + un_oper_text(*o),
{
    match o {
        UnOper::Not => sql.push_str("NOT"),
    }
}

/// Append the keyword or sign of a binary operator.
pub fn write_bin_oper(o: &BinOper, sql: &mut SqlWriter)
    ensures
        final(sql)@ == old(sql)@ + bin_oper_text(*o),
{
    match o {
        BinOper::And => sql.push_str("AND"),
        BinOper::Or => sql.push_str("OR"),
        BinOper::Equal => sql.push_str("="),
        BinOper::NotEqual => sql.push_str("<>"),
        BinOper::SmallerThan => sql.push_str("<"),
        BinOper::SmallerThanOrEqual => sql.push_str("<="),
        BinOper::GreaterThan => sql.push_str(">"),
        BinOper::GreaterThanOrEqual => sql.push_str(">="),
        BinOper::Like => sql.push_str("LIKE"),
        BinOper::Is => sql.push_str("IS"),
        BinOper::IsNot => sql.push_str("IS NOT"),
        BinOper::Add => sql.push_str("+"),
        BinOper::Sub => sql.push_str("-"),
        BinOper::Mul => sql.push_str("*"),
        BinOper::Div => sql.push_str("/"),
    }
}

/// Append the keyword of a join kind.
pub fn write_join_type(j: &JoinType, sql: &mut SqlWriter)
    ensures
        final(sql)@ == old(sql)@ + join_type_text(*j),
{
    match j {
        JoinType::InnerJoin => sql.push_str("INNER JOIN"),
        JoinType::LeftJoin => sql.push_str("LEFT JOIN"),
        JoinType::RightJoin => sql.push_str("RIGHT JOIN"),
        JoinType::FullOuterJoin => sql.push_str("FULL OUTER JOIN"),
        JoinType::CrossJoin => sql.push_str("CROSS JOIN"),
    }
}

/// Append the keyword of an ordering direction.
pub fn write_order(o: &Order, sql: &mut SqlWriter)
    ensures
        final(sql)@ == old(sql)@ + order_text(*o),
{
    match o {
        Order::Asc => sql.push_str("ASC"),
        Order::Desc => sql.push_str("DESC"),
    }
}

/// Append a column reference.
pub fn write_column_ref(d: Dialect, c: &ColumnRef, sql: &mut SqlWriter)
    ensures
        final(sql)@ == old(sql)@ + column_ref_text(d, c@),
{
    match c {
        ColumnRef::Column(name) => {
            push_quoted(sql, d, name.as_text());
        },
        ColumnRef::TableColumn(t, name) => {
            push_quoted(sql, d, t.as_text());
            sql.push_str(".");
            push_quoted(sql, d, name.as_text());
            proof {
                assert(final(sql)@ =~= old(sql)@ + column_ref_text(d, c@));
            }
        },
    }
}

/// Append a table reference.
pub fn write_table_ref(d: Dialect, t: &TableRef, sql: &mut SqlWriter)
    ensures
        final(sql)@ == old(sql)@ + table_ref_text(d, t@),
{
    match t {
        TableRef::Table(name) => {
            push_quoted(sql, d, name.as_text());
        },
        TableRef::TableAlias(name, alias) => {
            push_quoted(sql, d, name.as_text());
            sql.push_str(" AS ");
            push_quoted(sql, d, alias.as_text());
            proof {
                assert(final(sql)@ =~= old(sql)@ + table_ref_text(d, t@));
            }
        },
    }
}

/// Append the name of a function.
pub fn write_func_name(d: Dialect, f: &Function, sql: &mut SqlWriter)
    ensures
        final(sql)@ == old(sql)@ + func_name_text(d, f@),
{
    match f {
        Function::Max => sql.push_str("MAX"),
        Function::Min => sql.push_str("MIN"),
        Function::Sum => sql.push_str("SUM"),
        Function::Avg => sql.push_str("AVG"),
        Function::Count => sql.push_str("COUNT"),
        Function::Custom(name) => push_quoted(sql, d, name.as_text()),
    }
}

/// Append the placeholder for one value and hand the value to the
/// collector, keeping placeholder index and collector position aligned.
pub fn write_value_param(d: Dialect, v: &Value, sql: &mut SqlWriter, collector: &mut Vec<Value>)
    ensures
        final(sql)@ == old(sql)@ + ph_text(d, old(collector)@.len() as nat),
        final(collector).deep_view() == old(collector).deep_view().push(v@),
{
    let c = v.clone();
    collector.push(c);
    let n = collector.len();
    push_placeholder(sql, d, n);
    proof {
        assert(final(collector).deep_view() =~= old(collector).deep_view().push(v@));
    }
}

/// Append one rendered expression; every literal inside it is replaced by
/// a placeholder and pushed onto the collector in emission order.
#[verifier::rlimit(60)]
pub fn write_expr(d: Dialect, e: &SimpleExpr, sql: &mut SqlWriter, collector: &mut Vec<Value>)
    ensures
        ({
            let r = expr_render(d, e@, old(collector)@.len() as nat);
            final(sql)@ == old(sql)@ + r.text && final(collector).deep_view() == old(
                collector,
            ).deep_view() + r.params
        }),
    decreases *e, 0int,
{
    let ghost k: nat = collector@.len() as nat;
    match e {
        SimpleExpr::Column(c) => {
            write_column_ref(d, c, sql);
            proof {
                assert(collector.deep_view() =~= old(collector).deep_view() + Seq::empty());
            }
        },
        SimpleExpr::Value(v) => {
            write_value_param(d, v, sql, collector);
            proof {
                assert(collector.deep_view() =~= old(collector).deep_view() + seq![v@]);
            }
        },
        SimpleExpr::Unary(op, x) => {
            write_un_oper(op, sql);
            sql.push_str(" ");
            write_operand(d, x, sql, collector);
            proof {
                let r = expr_render(d, e@, k);
                assert(sql@ =~= old(sql)@ + r.text);
            }
        },
        SimpleExpr::Binary(l, op, r2) => {
            write_operand(d, l, sql, collector);
            sql.push_str(" ");
            write_bin_oper(op, sql);
            sql.push_str(" ");
            write_operand(d, r2, sql, collector);
            proof {
                let r = expr_render(d, e@, k);
                assert(sql@ =~= old(sql)@ + r.text);
                assert(collector.deep_view() =~= old(collector).deep_view() + r.params);
            }
        },
        SimpleExpr::FunctionCall(f, args) => {
            write_func_name(d, f, sql);
            sql.push_str("(");
            let ghost head: Seq<char> = func_name_text(d, f@) + "("@;
            let ghost argsv = crate::expr::exprs_view(args@);
            proof {
                crate::expr::lemma_exprs_view(args@);
            }
            let mut i: usize = 0;
            #[verifier::loop_isolation(false)]
            while i < args.len()
                invariant
                    i <= args@.len(),
                    k == old(collector)@.len(),
                    argsv == crate::expr::exprs_view(args@),
                    argsv.len() == args@.len(),
                    forall|j: int| 0 <= j < args@.len() ==> argsv[j] == args@[j]@,
                    sql@ == old(sql)@ + head + exprs_list_render(d, argsv.take(i as int), k).text,
                    collector.deep_view() == old(collector).deep_view() + exprs_list_render(
                        d,
                        argsv.take(i as int),
                        k,
                    ).params,
                    collector@.len() == old(collector)@.len() + exprs_list_render(
                        d,
                        argsv.take(i as int),
                        k,
                    ).params.len(),
                decreases args@.len() - i,
            {
                if i > 0 {
                    sql.push_str(", ");
                }
                proof {
                    let ghost whole = *e;
                    assert(whole == SimpleExpr::FunctionCall(*f, *args));
                    assert(decreases_to!(whole => *args));
                    assert(decreases_to!(*args => args[i as int]));
                }
                write_expr(d, &args[i], sql, collector);
                i = i + 1;
                proof {
                    let pre = argsv.take(i - 1 as int);
                    let cur = argsv.take(i as int);
                    assert(cur.drop_last() =~= pre);
                    assert(cur.last() == argsv[i - 1]);
                    let init = exprs_list_render(d, pre, k);
                    let last = expr_render(d, argsv[i - 1], k + init.params.len());
                    let sep: Seq<char> = if cur.len() == 1 { Seq::empty() } else { ", "@ };
                    assert(exprs_list_render(d, cur, k) == r_cat(
                        init,
                        r_cat(r_text(sep), last),
                    ));
                    assert(sql@ =~= old(sql)@ + head + exprs_list_render(d, cur, k).text);
                    assert(collector.deep_view() =~= old(collector).deep_view()
                        + exprs_list_render(d, cur, k).params);
                }
            }
            sql.push_str(")");
            proof {
                assert(argsv.take(argsv.len() as int) =~= argsv);
                let r = expr_render(d, e@, k);
                assert(sql@ =~= old(sql)@ + r.text);
            }
        },
    }
}

/// Append one rendered operand, parenthesizing a nested binary node.
pub fn write_operand(d: Dialect, e: &SimpleExpr, sql: &mut SqlWriter, collector: &mut Vec<Value>)
    ensures
        ({
            let r = operand_render(d, e@, old(collector)@.len() as nat);
            final(sql)@ == old(sql)@ + r.text && final(collector).deep_view() == old(
                collector,
            ).deep_view() + r.params
        }),
    decreases *e, 1int,
{
    if is_binary(e) {
        sql.push_str("(");
        write_expr(d, e, sql, collector);
        sql.push_str(")");
        proof {
            let r = operand_render(d, e@, old(collector)@.len() as nat);
            assert(sql@ =~= old(sql)@ + r.text);
        }
    } else {
        write_expr(d, e, sql, collector);
    }
}

/// Append a rendered condition chain.
#[verifier::rlimit(60)]
pub fn write_chain(
    d: Dialect,
    cs: &Vec<LogicalChainOper>,
    sql: &mut SqlWriter,
    collector: &mut Vec<Value>,
)
    ensures
        ({
            let r = chain_render(d, cs.deep_view(), old(collector)@.len() as nat);
            final(sql)@ == old(sql)@ + r.text && final(collector).deep_view() == old(
                collector,
            ).deep_view() + r.params
        }),
{
    let ghost k: nat = collector@.len() as nat;
    let ghost csv = cs.deep_view();
    let mut i: usize = 0;
    proof {
        assert(csv.len() == cs@.len());
    }
    #[verifier::loop_isolation(false)]
    while i < cs.len()
        invariant
            i <= cs@.len(),
            k == old(collector)@.len(),
            csv == cs.deep_view(),
            csv.len() == cs@.len(),
            forall|j: int| 0 <= j < cs@.len() ==> csv[j] == cs@[j]@,
            sql@ == old(sql)@ + chain_render(d, csv.take(i as int), k).text,
            collector.deep_view() == old(collector).deep_view() + chain_render(
                d,
                csv.take(i as int),
                k,
            ).params,
            collector@.len() == old(collector)@.len() + chain_render(
                d,
                csv.take(i as int),
                k,
            ).params.len(),
        decreases cs@.len() - i,
    {
        let link = &cs[i];
        let cond: &SimpleExpr = match link {
            LogicalChainOper::And(e) => {
                if i > 0 {
                    sql.push_str(" AND ");
                }
                e
            },
            LogicalChainOper::Or(e) => {
                if i > 0 {
                    sql.push_str(" OR ");
                }
                e
            },
        };
        write_operand(d, cond, sql, collector);
        i = i + 1;
        proof {
            let pre = csv.take(i - 1 as int);
            let cur = csv.take(i as int);
            assert(cur.drop_last() =~= pre);
            assert(cur.last() == csv[i - 1]);
            let init = chain_render(d, pre, k);
            let item = chain_item_render(d, csv[i - 1], k + init.params.len());
            let sep: Seq<char> = if cur.len() == 1 { Seq::empty() } else { chain_sep(cur.last()) };
            assert(chain_render(d, cur, k) == r_cat(init, r_cat(r_text(sep), item)));
            assert(collector.deep_view().len() == collector@.len());
            assert(old(collector).deep_view().len() == old(collector)@.len());
            assert(sql@ =~= old(sql)@ + chain_render(d, cur, k).text);
            assert(collector.deep_view() =~= old(collector).deep_view() + chain_render(
                d,
                cur,
                k,
            ).params);
        }
    }
    proof {
        assert(csv.take(csv.len() as int) =~= csv);
    }
}

/// The text of a comma-separated list of quoted identifiers.
pub open spec fn idents_text(d: Dialect, s: Seq<Seq<char>>) -> Seq<char>
    decreases s,
{
    if s.len() == 0 {
        Seq::empty()
    } else {
        idents_text(d, s.drop_last()) + (if s.len() == 1 {
            Seq::<char>::empty()
        } else {
            ", "@
        }) + quoted(d, s.last())
    }
}

/// Append a comma-separated list of quoted identifiers.
pub fn write_idents(d: Dialect, ids: &Vec<Iden>, sql: &mut SqlWriter)
    ensures
        final(sql)@ == old(sql)@ + idents_text(d, ids.deep_view()),
{
    let ghost idsv = ids.deep_view();
    let mut i: usize = 0;
    #[verifier::loop_isolation(false)]
    while i < ids.len()
        invariant
            i <= ids@.len(),
            sql@ == old(sql)@ + idents_text(d, idsv.take(i as int)),
        decreases ids@.len() - i,
    {
        if i > 0 {
            sql.push_str(", ");
        }
        push_quoted(sql, d, ids[i].as_text());
        i = i + 1;
        proof {
            let pre = idsv.take(i - 1 as int);
            let cur = idsv.take(i as int);
            assert(cur.drop_last() =~= pre);
            assert(cur.last() == idsv[i - 1]);
            assert(sql@ =~= old(sql)@ + idents_text(d, cur));
        }
    }
    proof {
        assert(idsv.take(idsv.len() as int) =~= idsv);
    }
}

/// Append a comma-separated list of rendered expressions.
pub fn write_exprs_list(
    d: Dialect,
    exprs: &Vec<SimpleExpr>,
    sql: &mut SqlWriter,
    collector: &mut Vec<Value>,
)
    ensures
        ({
            let r = exprs_list_render(d, exprs.deep_view(), old(collector)@.len() as nat);
            final(sql)@ == old(sql)@ + r.text && final(collector).deep_view() == old(
                collector,
            ).deep_view() + r.params
        }),
{
    let ghost k: nat = collector@.len() as nat;
    let ghost ev = exprs.deep_view();
    let mut i: usize = 0;
    #[verifier::loop_isolation(false)]
    while i < exprs.len()
        invariant
            i <= exprs@.len(),
            sql@ == old(sql)@ + exprs_list_render(d, ev.take(i as int), k).text,
            collector.deep_view() == old(collector).deep_view() + exprs_list_render(
                d,
                ev.take(i as int),
                k,
            ).params,
            collector@.len() == old(collector)@.len() + exprs_list_render(
                d,
                ev.take(i as int),
                k,
            ).params.len(),
        decreases exprs@.len() - i,
    {
        if i > 0 {
            sql.push_str(", ");
        }
        write_expr(d, &exprs[i], sql, collector);
        i = i + 1;
        proof {
            let pre = ev.take(i - 1 as int);
            let cur = ev.take(i as int);
            assert(cur.drop_last() =~= pre);
            assert(cur.last() == ev[i - 1]);
            let init = exprs_list_render(d, pre, k);
            let last = expr_render(d, ev[i - 1], k + init.params.len());
            let sep: Seq<char> = if cur.len() == 1 { Seq::empty() } else { ", "@ };
            assert(exprs_list_render(d, cur, k) == r_cat(init, r_cat(r_text(sep), last)));
            assert(collector.deep_view().len() == collector@.len());
            assert(old(collector).deep_view().len() == old(collector)@.len());
            assert(sql@ =~= old(sql)@ + exprs_list_render(d, cur, k).text);
            assert(collector.deep_view() =~= old(collector).deep_view() + exprs_list_render(
                d,
                cur,
                k,
            ).params);
        }
    }
    proof {
        assert(ev.take(ev.len() as int) =~= ev);
    }
}

} // verus!
