//! The DML statements: insert, select, update, delete.
//!
//! Each statement is built by fluent methods (set methods overwrite,
//! append methods accumulate in call order, which becomes render order)
//! and rendered by a terminal build call.  Clause order in the output is
//! fixed by the rendering functions, never by builder call order.

use vstd::prelude::*;
use crate::backend::QueryBuilder;
use crate::dialect::{Dialect, ph_text, quoted};
use crate::error::{RenderError, StatementKind};
use crate::expr::{
    ExprV, JoinExpr, JoinExprV, JoinType, LogicalChainOper, LogicalChainOperV,
    Order, OrderExpr, OrderExprV, SelectDistinct, SelectExpr, SelectExprV, SimpleExpr, TableRef,
    TableRefV,
};
use crate::iden::Iden;
use crate::render::{
    Rendered, chain_render, expr_render, exprs_list_render, idents_text, operand_render, order_text,
    r_cat, r_empty, r_text, table_ref_text, write_chain, write_expr, write_exprs_list, write_idents,
    write_operand, write_order, write_table_ref, write_join_type,
};
use crate::value::{Value, ValueV};
use crate::writer::SqlWriter;

verus! {

/// The distinct keyword, when duplicate rows are dropped.
pub open spec fn distinct_text(o: Option<SelectDistinct>) -> Seq<char> {
    match o {
        Some(SelectDistinct::Distinct) => "DISTINCT "@,
        _ => Seq::empty(),
    }
}

/// The rendering of one projected expression, with its optional alias.
pub open spec fn select_item_render(d: Dialect, s: SelectExprV, k: nat) -> Rendered {
    let er = expr_render(d, s.expr, k);
    match s.alias {
        Some(a) => r_cat(er, r_text(" AS "@ + quoted(d, a))),
        None => er,
    }
}

/// The rendering of the projection list.
pub open spec fn select_list_render(d: Dialect, s: Seq<SelectExprV>, k: nat) -> Rendered
    decreases s,
{
    if s.len() == 0 {
        r_empty()
    } else {
        let init = select_list_render(d, s.drop_last(), k);
        let sep: Seq<char> = if s.len() == 1 { Seq::empty() } else { ", "@ };
        r_cat(init, r_cat(r_text(sep), select_item_render(d, s.last(), k + init.params.len())))
    }
}

/// The rendering of one join clause.
pub open spec fn join_render(d: Dialect, j: JoinExprV, k: nat) -> Rendered {
    let head = r_text(" "@ + crate::render::join_type_text(j.join) + " "@ + table_ref_text(d, j.table));
    match j.on {
        Some(e) => r_cat(head, r_cat(r_text(" ON "@), operand_render(d, e, k))),
        None => head,
    }
}

/// The rendering of all join clauses, in call order.
pub open spec fn joins_render(d: Dialect, s: Seq<JoinExprV>, k: nat) -> Rendered
    decreases s,
{
    if s.len() == 0 {
        r_empty()
    } else {
        let init = joins_render(d, s.drop_last(), k);
        r_cat(init, join_render(d, s.last(), k + init.params.len()))
    }
}

/// The WHERE clause, absent when no condition was added.
pub open spec fn where_render(d: Dialect, cs: Seq<LogicalChainOperV>, k: nat) -> Rendered {
    if cs.len() == 0 {
        r_empty()
    } else {
        r_cat(r_text(" WHERE "@), chain_render(d, cs, k))
    }
}

/// The GROUP BY clause, absent when no grouping was added.
pub open spec fn groups_render(d: Dialect, s: Seq<ExprV>, k: nat) -> Rendered {
    if s.len() == 0 {
        r_empty()
    } else {
        r_cat(r_text(" GROUP BY "@), exprs_list_render(d, s, k))
    }
}

/// The HAVING clause, absent when no condition was added.
pub open spec fn having_render(d: Dialect, cs: Seq<LogicalChainOperV>, k: nat) -> Rendered {
    if cs.len() == 0 {
        r_empty()
    } else {
        r_cat(r_text(" HAVING "@), chain_render(d, cs, k))
    }
}

/// The rendering of one ORDER BY entry.
pub open spec fn order_item_render(d: Dialect, o: OrderExprV, k: nat) -> Rendered {
    r_cat(expr_render(d, o.expr, k), r_text(" "@ + order_text(o.order)))
}

/// The rendering of the ORDER BY list.
pub open spec fn orders_list_render(d: Dialect, s: Seq<OrderExprV>, k: nat) -> Rendered
    decreases s,
{
    if s.len() == 0 {
        r_empty()
    } else {
        let init = orders_list_render(d, s.drop_last(), k);
        let sep: Seq<char> = if s.len() == 1 { Seq::empty() } else { ", "@ };
        r_cat(init, r_cat(r_text(sep), order_item_render(d, s.last(), k + init.params.len())))
    }
}

/// The ORDER BY clause, absent when no ordering was added.
pub open spec fn orders_render(d: Dialect, s: Seq<OrderExprV>, k: nat) -> Rendered {
    if s.len() == 0 {
        r_empty()
    } else {
        r_cat(r_text(" ORDER BY "@), orders_list_render(d, s, k))
    }
}

/// The LIMIT clause: a placeholder bound to the row count.
pub open spec fn limit_render(d: Dialect, l: Option<u64>, k: nat) -> Rendered {
    match l {
        Some(n) => Rendered { text: " LIMIT "@ + ph_text(d, k), params: seq![ValueV::UInt(n)] },
        None => r_empty(),
    }
}

/// The OFFSET clause: a placeholder bound to the row offset.
pub open spec fn offset_render(d: Dialect, l: Option<u64>, k: nat) -> Rendered {
    match l {
        Some(n) => Rendered { text: " OFFSET "@ + ph_text(d, k), params: seq![ValueV::UInt(n)] },
        None => r_empty(),
    }
}

/// Append the projection list.
#[verifier::rlimit(100)]
fn write_select_list(
    d: Dialect,
    items: &Vec<SelectExpr>,
    sql: &mut SqlWriter,
    collector: &mut Vec<Value>,
)
    ensures
        ({
            let r = select_list_render(d, items.deep_view(), old(collector)@.len() as nat);
            final(sql)@ == old(sql)@ + r.text && final(collector).deep_view() == old(
                collector,
            ).deep_view() + r.params
        }),
{
    let ghost k: nat = collector@.len() as nat;
    let ghost sv = items.deep_view();
    let mut i: usize = 0;
    #[verifier::loop_isolation(false)]
    while i < items.len()
        invariant
            i <= items@.len(),
            sql@ == old(sql)@ + select_list_render(d, sv.take(i as int), k).text,
            collector.deep_view() == old(collector).deep_view() + select_list_render(
                d,
                sv.take(i as int),
                k,
            ).params,
            collector@.len() == old(collector)@.len() + select_list_render(
                d,
                sv.take(i as int),
                k,
            ).params.len(),
        decreases items@.len() - i,
    {
        if i > 0 {
            sql.push_str(", ");
        }
        let item = &items[i];
        write_expr(d, &item.expr, sql, collector);
        match &item.alias {
            Some(a) => {
                sql.push_str(" AS ");
                crate::dialect::push_quoted(sql, d, a.as_text());
            },
            None => {},
        }
        i = i + 1;
        proof {
            let pre = sv.take(i - 1 as int);
            let cur = sv.take(i as int);
            assert(cur.drop_last() =~= pre);
            assert(cur.last() == sv[i - 1]);
            let init = select_list_render(d, pre, k);
            let last = select_item_render(d, sv[i - 1], k + init.params.len());
            let sep: Seq<char> = if cur.len() == 1 { Seq::empty() } else { ", "@ };
            assert(select_list_render(d, cur, k) == r_cat(init, r_cat(r_text(sep), last)));
            assert(collector.deep_view().len() == collector@.len());
            assert(old(collector).deep_view().len() == old(collector)@.len());
            assert(sql@ =~= old(sql)@ + select_list_render(d, cur, k).text);
            assert(collector.deep_view() =~= old(collector).deep_view() + select_list_render(
                d,
                cur,
                k,
            ).params);
        }
    }
    proof {
        assert(sv.take(sv.len() as int) =~= sv);
    }
}

/// Append all join clauses.
#[verifier::rlimit(100)]
#[verifier::spinoff_prover]
fn write_joins(d: Dialect, joins: &Vec<JoinExpr>, sql: &mut SqlWriter, collector: &mut Vec<Value>)
    ensures
        ({
            let r = joins_render(d, joins.deep_view(), old(collector)@.len() as nat);
            final(sql)@ == old(sql)@ + r.text && final(collector).deep_view() == old(
                collector,
            ).deep_view() + r.params
        }),
{
    let ghost k: nat = collector@.len() as nat;
    let ghost jv = joins.deep_view();
    let mut i: usize = 0;
    #[verifier::loop_isolation(false)]
    while i < joins.len()
        invariant
            i <= joins@.len(),
            sql@ == old(sql)@ + joins_render(d, jv.take(i as int), k).text,
            collector.deep_view() == old(collector).deep_view() + joins_render(
                d,
                jv.take(i as int),
                k,
            ).params,
            collector@.len() == old(collector)@.len() + joins_render(
                d,
                jv.take(i as int),
                k,
            ).params.len(),
        decreases joins@.len() - i,
    {
        let j = &joins[i];
        sql.push_str(" ");
        write_join_type(&j.join, sql);
        sql.push_str(" ");
        write_table_ref(d, &j.table, sql);
        match &j.on {
            Some(cond) => {
                sql.push_str(" ON ");
                write_operand(d, cond, sql, collector);
            },
            None => {},
        }
        i = i + 1;
        proof {
            let pre = jv.take(i - 1 as int);
            let cur = jv.take(i as int);
            assert(cur.drop_last() =~= pre);
            assert(cur.last() == jv[i - 1]);
            let init = joins_render(d, pre, k);
            assert(joins_render(d, cur, k) == r_cat(init, join_render(d, jv[i - 1], k
                + init.params.len())));
            assert(collector.deep_view().len() == collector@.len());
            assert(old(collector).deep_view().len() == old(collector)@.len());
            assert(sql@ =~= old(sql)@ + joins_render(d, cur, k).text);
            assert(collector.deep_view() =~= old(collector).deep_view() + joins_render(
                d,
                cur,
                k,
            ).params);
        }
    }
    proof {
        assert(jv.take(jv.len() as int) =~= jv);
    }
}

/// Append the ORDER BY list.
#[verifier::rlimit(100)]
fn write_orders_list(
    d: Dialect,
    orders: &Vec<OrderExpr>,
    sql: &mut SqlWriter,
    collector: &mut Vec<Value>,
)
    ensures
        ({
            let r = orders_list_render(d, orders.deep_view(), old(collector)@.len() as nat);
            final(sql)@ == old(sql)@ + r.text && final(collector).deep_view() == old(
                collector,
            ).deep_view() + r.params
        }),
{
    let ghost k: nat = collector@.len() as nat;
    let ghost ov = orders.deep_view();
    let mut i: usize = 0;
    #[verifier::loop_isolation(false)]
    while i < orders.len()
        invariant
            i <= orders@.len(),
            sql@ == old(sql)@ + orders_list_render(d, ov.take(i as int), k).text,
            collector.deep_view() == old(collector).deep_view() + orders_list_render(
                d,
                ov.take(i as int),
                k,
            ).params,
            collector@.len() == old(collector)@.len() + orders_list_render(
                d,
                ov.take(i as int),
                k,
            ).params.len(),
        decreases orders@.len() - i,
    {
        if i > 0 {
            sql.push_str(", ");
        }
        let o = &orders[i];
        write_expr(d, &o.expr, sql, collector);
        sql.push_str(" ");
        write_order(&o.order, sql);
        i = i + 1;
        proof {
            let pre = ov.take(i - 1 as int);
            let cur = ov.take(i as int);
            assert(cur.drop_last() =~= pre);
            assert(cur.last() == ov[i - 1]);
            let init = orders_list_render(d, pre, k);
            let last = order_item_render(d, ov[i - 1], k + init.params.len());
            let sep: Seq<char> = if cur.len() == 1 { Seq::empty() } else { ", "@ };
            assert(orders_list_render(d, cur, k) == r_cat(init, r_cat(r_text(sep), last)));
            assert(collector.deep_view().len() == collector@.len());
            assert(old(collector).deep_view().len() == old(collector)@.len());
            assert(sql@ =~= old(sql)@ + orders_list_render(d, cur, k).text);
            assert(collector.deep_view() =~= old(collector).deep_view() + orders_list_render(
                d,
                cur,
                k,
            ).params);
        }
    }
    proof {
        assert(ov.take(ov.len() as int) =~= ov);
    }
}

/// Append the LIMIT clause, if set.
fn write_limit(d: Dialect, l: &Option<u64>, sql: &mut SqlWriter, collector: &mut Vec<Value>)
    ensures
        ({
            let r = limit_render(d, *l, old(collector)@.len() as nat);
            final(sql)@ == old(sql)@ + r.text && final(collector).deep_view() == old(
                collector,
            ).deep_view() + r.params
        }),
{
    match l {
        Some(n) => {
            sql.push_str(" LIMIT ");
            crate::render::write_value_param(d, &Value::UInt(*n), sql, collector);
            proof {
                assert(sql@ =~= old(sql)@ + limit_render(d, *l, old(collector)@.len() as nat).text);
            }
        },
        None => {
            proof {
                assert(collector.deep_view() =~= old(collector).deep_view() + Seq::empty());
            }
        },
    }
}

/// Append the OFFSET clause, if set.
fn write_offset(d: Dialect, l: &Option<u64>, sql: &mut SqlWriter, collector: &mut Vec<Value>)
    ensures
        ({
            let r = offset_render(d, *l, old(collector)@.len() as nat);
            final(sql)@ == old(sql)@ + r.text && final(collector).deep_view() == old(
                collector,
            ).deep_view() + r.params
        }),
{
    match l {
        Some(n) => {
            sql.push_str(" OFFSET ");
            crate::render::write_value_param(d, &Value::UInt(*n), sql, collector);
            proof {
                assert(sql@ =~= old(sql)@ + offset_render(
                    d,
                    *l,
                    old(collector)@.len() as nat,
                ).text);
            }
        },
        None => {
            proof {
                assert(collector.deep_view() =~= old(collector).deep_view() + Seq::empty());
            }
        },
    }
}

/// A SELECT statement under construction.
pub struct SelectStatement {
    pub distinct: Option<SelectDistinct>,
    pub selects: Vec<SelectExpr>,
    pub from: Option<TableRef>,
    pub joins: Vec<JoinExpr>,
    pub wheres: Vec<LogicalChainOper>,
    pub groups: Vec<SimpleExpr>,
    pub having: Vec<LogicalChainOper>,
    pub orders: Vec<OrderExpr>,
    pub limit: Option<u64>,
    pub offset: Option<u64>,
}

/// The model of a [`SelectStatement`].
#[verifier::ext_equal]
pub struct SelectV {
    pub distinct: Option<SelectDistinct>,
    pub selects: Seq<SelectExprV>,
    pub from: Option<TableRefV>,
    pub joins: Seq<JoinExprV>,
    pub wheres: Seq<LogicalChainOperV>,
    pub groups: Seq<ExprV>,
    pub having: Seq<LogicalChainOperV>,
    pub orders: Seq<OrderExprV>,
    pub limit: Option<u64>,
    pub offset: Option<u64>,
}

impl View for SelectStatement {
    type V = SelectV;

    open spec fn view(&self) -> SelectV {
        SelectV {
            distinct: self.distinct,
            selects: self.selects.deep_view(),
            from: self.from.deep_view(),
            joins: self.joins.deep_view(),
            wheres: self.wheres.deep_view(),
            groups: self.groups.deep_view(),
            having: self.having.deep_view(),
            orders: self.orders.deep_view(),
            limit: self.limit,
            offset: self.offset,
        }
    }
}

/// The rendering of the head of a SELECT statement: the distinct
/// keyword, the projection list, FROM, and the joins, in that order.
pub open spec fn select_head_render(d: Dialect, s: SelectV, k: nat) -> Rendered {
    let r1 = r_cat(r_text("SELECT "@ + distinct_text(s.distinct)), select_list_render(
        d,
        s.selects,
        k,
    ));
    let r2 = match s.from {
        Some(t) => r_cat(r1, r_text(" FROM "@ + table_ref_text(d, t))),
        None => r1,
    };
    r_cat(r2, joins_render(d, s.joins, k + r2.params.len()))
}

/// The rendering of the filter clauses: WHERE, GROUP BY, HAVING.
pub open spec fn select_filter_render(d: Dialect, s: SelectV, k: nat) -> Rendered {
    let r4 = where_render(d, s.wheres, k);
    let r5 = r_cat(r4, groups_render(d, s.groups, k + r4.params.len()));
    r_cat(r5, having_render(d, s.having, k + r5.params.len()))
}

/// The rendering of the trailing clauses: ORDER BY, LIMIT, OFFSET.
pub open spec fn select_trailer_render(d: Dialect, s: SelectV, k: nat) -> Rendered {
    let r7 = orders_render(d, s.orders, k);
    let r8 = r_cat(r7, limit_render(d, s.limit, k + r7.params.len()));
    r_cat(r8, offset_render(d, s.offset, k + r8.params.len()))
}

/// The rendering of the tail of a SELECT statement: WHERE, GROUP BY,
/// HAVING, ORDER BY, LIMIT, OFFSET, in that order.
pub open spec fn select_tail_render(d: Dialect, s: SelectV, k: nat) -> Rendered {
    let f = select_filter_render(d, s, k);
    r_cat(f, select_trailer_render(d, s, k + f.params.len()))
}

/// The complete rendering of a SELECT statement: the clauses always come
/// in the fixed order distinct, projection, FROM, joins, WHERE, GROUP BY,
/// HAVING, ORDER BY, LIMIT, OFFSET, whatever the builder call order was.
/// The projection must be non-empty.
pub open spec fn select_render(d: Dialect, s: SelectV, k: nat) -> Result<Rendered, RenderError> {
    if s.selects.len() == 0 {
        Err(RenderError::EmptyColumns(StatementKind::Select))
    } else {
        let head = select_head_render(d, s, k);
        Ok(r_cat(head, select_tail_render(d, s, k + head.params.len())))
    }
}

/// Append the head of a SELECT statement.
#[verifier::rlimit(100)]
fn write_select_head(
    d: Dialect,
    s: &SelectStatement,
    sql: &mut SqlWriter,
    collector: &mut Vec<Value>,
)
    ensures
        ({
            let r = select_head_render(d, s@, old(collector)@.len() as nat);
            final(sql)@ == old(sql)@ + r.text && final(collector).deep_view() == old(collector).deep_view() + r.params
        }),
{
    let ghost k: nat = collector@.len() as nat;
    sql.push_str("SELECT ");
    match s.distinct {
        Some(SelectDistinct::Distinct) => sql.push_str("DISTINCT "),
        _ => {},
    }
    proof {
        assert(sql@ =~= old(sql)@ + ("SELECT "@ + distinct_text(s.distinct)));
    }
    write_select_list(d, &s.selects, sql, collector);
    let ghost r1 = r_cat(r_text("SELECT "@ + distinct_text(s@.distinct)), select_list_render(
        d,
        s@.selects,
        k,
    ));
    proof {
        assert(sql@ =~= old(sql)@ + r1.text);
    }
    match &s.from {
        Some(t) => {
            sql.push_str(" FROM ");
            write_table_ref(d, t, sql);
        },
        None => {},
    }
    let ghost r2 = match s@.from {
        Some(t) => r_cat(r1, r_text(" FROM "@ + table_ref_text(d, t))),
        None => r1,
    };
    proof {
        assert(sql@ =~= old(sql)@ + r2.text);
        assert(collector.deep_view() =~= old(collector).deep_view() + r2.params);
        assert(collector.deep_view().len() == collector@.len());
        assert(old(collector).deep_view().len() == old(collector)@.len());
    }
    write_joins(d, &s.joins, sql, collector);
    proof {
        let r3 = r_cat(r2, joins_render(d, s@.joins, k + r2.params.len()));
        assert(sql@ =~= old(sql)@ + r3.text);
        assert(collector.deep_view() =~= old(collector).deep_view() + r3.params);
    }
}

/// Append the filter clauses of a SELECT statement.
#[verifier::rlimit(100)]
fn write_select_filter(
    d: Dialect,
    s: &SelectStatement,
    sql: &mut SqlWriter,
    collector: &mut Vec<Value>,
)
    ensures
        ({
            let r = select_filter_render(d, s@, old(collector)@.len() as nat);
            final(sql)@ == old(sql)@ + r.text && final(collector).deep_view() == old(collector).deep_view() + r.params
        }),
{
    let ghost k: nat = collector@.len() as nat;
    if s.wheres.len() > 0 {
        sql.push_str(" WHERE ");
    }
    write_chain(d, &s.wheres, sql, collector);
    let ghost r4 = where_render(d, s@.wheres, k);
    proof {
        assert(s@.wheres.len() == s.wheres@.len());
        assert(collector.deep_view().len() == collector@.len());
        assert(old(collector).deep_view().len() == old(collector)@.len());
    }
    if s.groups.len() > 0 {
        sql.push_str(" GROUP BY ");
    }
    write_exprs_list(d, &s.groups, sql, collector);
    let ghost r5 = r_cat(r4, groups_render(d, s@.groups, k + r4.params.len()));
    proof {
        assert(s@.groups.len() == s.groups@.len());
        assert(collector.deep_view().len() == collector@.len());
    }
    if s.having.len() > 0 {
        sql.push_str(" HAVING ");
    }
    write_chain(d, &s.having, sql, collector);
    proof {
        assert(s@.having.len() == s.having@.len());
        let r6 = r_cat(r5, having_render(d, s@.having, k + r5.params.len()));
        assert(sql@ =~= old(sql)@ + r6.text);
        assert(collector.deep_view() =~= old(collector).deep_view() + r6.params);
    }
}

/// Append the trailing clauses of a SELECT statement.
#[verifier::rlimit(100)]
fn write_select_trailer(
    d: Dialect,
    s: &SelectStatement,
    sql: &mut SqlWriter,
    collector: &mut Vec<Value>,
)
    ensures
        ({
            let r = select_trailer_render(d, s@, old(collector)@.len() as nat);
            final(sql)@ == old(sql)@ + r.text && final(collector).deep_view() == old(collector).deep_view() + r.params
        }),
{
    let ghost k: nat = collector@.len() as nat;
    if s.orders.len() > 0 {
        sql.push_str(" ORDER BY ");
    }
    write_orders_list(d, &s.orders, sql, collector);
    let ghost r7 = orders_render(d, s@.orders, k);
    proof {
        assert(s@.orders.len() == s.orders@.len());
        assert(collector.deep_view().len() == collector@.len());
        assert(old(collector).deep_view().len() == old(collector)@.len());
    }
    write_limit(d, &s.limit, sql, collector);
    let ghost r8 = r_cat(r7, limit_render(d, s@.limit, k + r7.params.len()));
    proof {
        assert(collector.deep_view().len() == collector@.len());
    }
    write_offset(d, &s.offset, sql, collector);
    proof {
        let r9 = r_cat(r8, offset_render(d, s@.offset, k + r8.params.len()));
        assert(sql@ =~= old(sql)@ + r9.text);
        assert(collector.deep_view() =~= old(collector).deep_view() + r9.params);
    }
}

/// Append the tail of a SELECT statement.
fn write_select_tail(
    d: Dialect,
    s: &SelectStatement,
    sql: &mut SqlWriter,
    collector: &mut Vec<Value>,
)
    ensures
        ({
            let r = select_tail_render(d, s@, old(collector)@.len() as nat);
            final(sql)@ == old(sql)@ + r.text && final(collector).deep_view() == old(collector).deep_view() + r.params
        }),
{
    let ghost k: nat = collector@.len() as nat;
    write_select_filter(d, s, sql, collector);
    proof {
        assert(collector.deep_view().len() == collector@.len());
        assert(old(collector).deep_view().len() == old(collector)@.len());
    }
    write_select_trailer(d, s, sql, collector);
    proof {
        let f = select_filter_render(d, s@, k);
        let r = r_cat(f, select_trailer_render(d, s@, k + f.params.len()));
        assert(sql@ =~= old(sql)@ + r.text);
        assert(collector.deep_view() =~= old(collector).deep_view() + r.params);
    }
}

/// Append a full SELECT statement, or leave writer and collector alone
/// and report why the statement is malformed.
pub fn write_select(
    d: Dialect,
    s: &SelectStatement,
    sql: &mut SqlWriter,
    collector: &mut Vec<Value>,
) -> (r: Result<(), RenderError>)
    ensures
        ({
            match select_render(d, s@, old(collector)@.len() as nat) {
                Ok(out) => r is Ok && final(sql)@ == old(sql)@ + out.text && final(collector).deep_view() == old(collector).deep_view() + out.params,
                Err(e) => r == Result::<(), RenderError>::Err(e) && final(sql)@ == old(sql)@
                    && final(collector).deep_view() == old(collector).deep_view(),
            }
        }),
{
    if s.selects.len() == 0 {
        proof {
            assert(s@.selects.len() == 0);
        }
        return Err(RenderError::EmptyColumns(StatementKind::Select));
    }
    let ghost k: nat = collector@.len() as nat;
    write_select_head(d, s, sql, collector);
    proof {
        assert(collector.deep_view().len() == collector@.len());
        assert(old(collector).deep_view().len() == old(collector)@.len());
    }
    write_select_tail(d, s, sql, collector);
    proof {
        let head = select_head_render(d, s@, k);
        let out = r_cat(head, select_tail_render(d, s@, k + head.params.len()));
        assert(sql@ =~= old(sql)@ + out.text);
        assert(collector.deep_view() =~= old(collector).deep_view() + out.params);
        assert(s@.selects.len() > 0);
    }
    Ok(())
}

impl Clone for SelectStatement {
    /// A deep copy whose model equals the original's.
    fn clone(&self) -> (r: SelectStatement)
        ensures
            r@ == self@,
    {
        let r = SelectStatement {
            distinct: self.distinct,
            selects: clone_vec_deep(&self.selects),
            from: match &self.from {
                Some(t) => Some(t.clone()),
                None => None,
            },
            joins: clone_vec_deep(&self.joins),
            wheres: clone_vec_deep(&self.wheres),
            groups: clone_vec_deep(&self.groups),
            having: clone_vec_deep(&self.having),
            orders: clone_vec_deep(&self.orders),
            limit: self.limit,
            offset: self.offset,
        };
        proof {
            assert(r@ =~= self@);
        }
        r
    }
}

/// An exact copy of a vector, element models preserved.  Relies on each
/// element type's own `Clone` contract.
pub fn clone_vec_deep<T: Clone + DeepView>(v: &Vec<T>) -> (r: Vec<T>)
    requires
        forall|a: T, b: T|
            #[trigger] vstd::pervasive::cloned::<T>(a, b) ==> a.deep_view() == b.deep_view(),
    ensures
        r.deep_view() == v.deep_view(),
{
    let r = v.clone();
    proof {
        assert forall|i: int| 0 <= i < v@.len() implies r.deep_view()[i] == v.deep_view()[i] by {
            assert(vstd::pervasive::cloned::<T>(v[i], r[i]));
        }
        assert(r.deep_view() =~= v.deep_view());
    }
    r
}

impl SelectStatement {
    /// An empty SELECT statement.
    pub fn new() -> (r: SelectStatement)
        ensures
            r@ == (SelectV {
                distinct: None,
                selects: Seq::empty(),
                from: None,
                joins: Seq::empty(),
                wheres: Seq::empty(),
                groups: Seq::empty(),
                having: Seq::empty(),
                orders: Seq::empty(),
                limit: None,
                offset: None,
            }),
    {
        let r = SelectStatement {
            distinct: None,
            selects: Vec::new(),
            from: None,
            joins: Vec::new(),
            wheres: Vec::new(),
            groups: Vec::new(),
            having: Vec::new(),
            orders: Vec::new(),
            limit: None,
            offset: None,
        };
        proof {
            assert(r@ =~= (SelectV {
                distinct: None,
                selects: Seq::empty(),
                from: None,
                joins: Seq::empty(),
                wheres: Seq::empty(),
                groups: Seq::empty(),
                having: Seq::empty(),
                orders: Seq::empty(),
                limit: None,
                offset: None,
            }));
        }
        r
    }

    /// Drop duplicate result rows.
    pub fn distinct(self) -> (r: SelectStatement)
        ensures
            r@ == (SelectV { distinct: Some(SelectDistinct::Distinct), ..self@ }),
    {
        let r = SelectStatement { distinct: Some(SelectDistinct::Distinct), ..self };
        proof {
            assert(r@ =~= (SelectV { distinct: Some(SelectDistinct::Distinct), ..self@ }));
        }
        r
    }

    /// Project one column (appends to the projection list).
    pub fn column(self, col: Iden) -> (r: SelectStatement)
        ensures
            r@ == (SelectV {
                selects: self@.selects.push(
                    SelectExprV {
                        expr: ExprV::Column(crate::expr::ColumnRefV::Column(col@)),
                        alias: None,
                    },
                ),
                ..self@
            }),
    {
        self.expr(SimpleExpr::col(col))
    }

    /// Project one expression (appends to the projection list).
    pub fn expr(self, e: SimpleExpr) -> (r: SelectStatement)
        ensures
            r@ == (SelectV {
                selects: self@.selects.push(SelectExprV { expr: e@, alias: None }),
                ..self@
            }),
    {
        let mut selects = self.selects;
        selects.push(SelectExpr { expr: e, alias: None });
        let r = SelectStatement { selects, ..self };
        proof {
            assert(r@.selects =~= self@.selects.push(SelectExprV { expr: e@, alias: None }));
            assert(r@ =~= (SelectV {
                selects: self@.selects.push(SelectExprV { expr: e@, alias: None }),
                ..self@
            }));
        }
        r
    }

    /// Project one expression under an alias (appends).
    pub fn expr_as(self, e: SimpleExpr, alias: Iden) -> (r: SelectStatement)
        ensures
            r@ == (SelectV {
                selects: self@.selects.push(SelectExprV { expr: e@, alias: Some(alias@) }),
                ..self@
            }),
    {
        let ghost av = alias@;
        let mut selects = self.selects;
        selects.push(SelectExpr { expr: e, alias: Some(alias) });
        let r = SelectStatement { selects, ..self };
        proof {
            assert(r@.selects =~= self@.selects.push(SelectExprV { expr: e@, alias: Some(av) }));
            assert(r@ =~= (SelectV {
                selects: self@.selects.push(SelectExprV { expr: e@, alias: Some(av) }),
                ..self@
            }));
        }
        r
    }

    /// Select the source table (overwrites).
    pub fn from(self, table: Iden) -> (r: SelectStatement)
        ensures
            r@ == (SelectV { from: Some(TableRefV::Table(table@)), ..self@ }),
    {
        let ghost tv = table@;
        let r = SelectStatement { from: Some(TableRef::Table(table)), ..self };
        proof {
            assert(r@ =~= (SelectV { from: Some(TableRefV::Table(tv)), ..self@ }));
        }
        r
    }

    /// Select the source table under an alias (overwrites).
    pub fn from_as(self, table: Iden, alias: Iden) -> (r: SelectStatement)
        ensures
            r@ == (SelectV { from: Some(TableRefV::TableAlias(table@, alias@)), ..self@ }),
    {
        let ghost tv = table@;
        let ghost av = alias@;
        let r = SelectStatement { from: Some(TableRef::TableAlias(table, alias)), ..self };
        proof {
            assert(r@ =~= (SelectV { from: Some(TableRefV::TableAlias(tv, av)), ..self@ }));
        }
        r
    }

    /// Add a join clause (appends, in call order).
    pub fn join(self, join: JoinType, table: Iden, on: SimpleExpr) -> (r: SelectStatement)
        ensures
            r@ == (SelectV {
                joins: self@.joins.push(
                    JoinExprV { join, table: TableRefV::Table(table@), on: Some(on@) },
                ),
                ..self@
            }),
    {
        let ghost tv = table@;
        let ghost ov = on@;
        let mut joins = self.joins;
        joins.push(JoinExpr { join, table: TableRef::Table(table), on: Some(on) });
        let r = SelectStatement { joins, ..self };
        proof {
            assert(r@.joins =~= self@.joins.push(
                JoinExprV { join, table: TableRefV::Table(tv), on: Some(ov) },
            ));
            assert(r@ =~= (SelectV {
                joins: self@.joins.push(
                    JoinExprV { join, table: TableRefV::Table(tv), on: Some(ov) },
                ),
                ..self@
            }));
        }
        r
    }

    /// Add a WHERE condition joined with AND (appends, in call order).
    pub fn and_where(self, e: SimpleExpr) -> (r: SelectStatement)
        ensures
            r@ == (SelectV {
                wheres: self@.wheres.push(LogicalChainOperV::And(e@)),
                ..self@
            }),
    {
        let ghost evw = e@;
        let mut wheres = self.wheres;
        wheres.push(LogicalChainOper::And(e));
        let r = SelectStatement { wheres, ..self };
        proof {
            assert(r@.wheres =~= self@.wheres.push(LogicalChainOperV::And(evw)));
            assert(r@ =~= (SelectV {
                wheres: self@.wheres.push(LogicalChainOperV::And(evw)),
                ..self@
            }));
        }
        r
    }

    /// Add a WHERE condition joined with OR (appends, in call order).
    pub fn or_where(self, e: SimpleExpr) -> (r: SelectStatement)
        ensures
            r@ == (SelectV {
                wheres: self@.wheres.push(LogicalChainOperV::Or(e@)),
                ..self@
            }),
    {
        let ghost evw = e@;
        let mut wheres = self.wheres;
        wheres.push(LogicalChainOper::Or(e));
        let r = SelectStatement { wheres, ..self };
        proof {
            assert(r@.wheres =~= self@.wheres.push(LogicalChainOperV::Or(evw)));
            assert(r@ =~= (SelectV {
                wheres: self@.wheres.push(LogicalChainOperV::Or(evw)),
                ..self@
            }));
        }
        r
    }

    /// Add a GROUP BY expression (appends, in call order).
    pub fn group_by(self, e: SimpleExpr) -> (r: SelectStatement)
        ensures
            r@ == (SelectV { groups: self@.groups.push(e@), ..self@ }),
    {
        let ghost evg = e@;
        let mut groups = self.groups;
        groups.push(e);
        let r = SelectStatement { groups, ..self };
        proof {
            assert(r@.groups =~= self@.groups.push(evg));
            assert(r@ =~= (SelectV { groups: self@.groups.push(evg), ..self@ }));
        }
        r
    }

    /// Add a HAVING condition joined with AND (appends, in call order).
    pub fn and_having(self, e: SimpleExpr) -> (r: SelectStatement)
        ensures
            r@ == (SelectV {
                having: self@.having.push(LogicalChainOperV::And(e@)),
                ..self@
            }),
    {
        let ghost evh = e@;
        let mut having = self.having;
        having.push(LogicalChainOper::And(e));
        let r = SelectStatement { having, ..self };
        proof {
            assert(r@.having =~= self@.having.push(LogicalChainOperV::And(evh)));
            assert(r@ =~= (SelectV {
                having: self@.having.push(LogicalChainOperV::And(evh)),
                ..self@
            }));
        }
        r
    }

    /// Add an ORDER BY entry (appends, in call order).
    pub fn order_by(self, e: SimpleExpr, order: Order) -> (r: SelectStatement)
        ensures
            r@ == (SelectV {
                orders: self@.orders.push(OrderExprV { expr: e@, order }),
                ..self@
            }),
    {
        let ghost evo = e@;
        let mut orders = self.orders;
        orders.push(OrderExpr { expr: e, order });
        let r = SelectStatement { orders, ..self };
        proof {
            assert(r@.orders =~= self@.orders.push(OrderExprV { expr: evo, order }));
            assert(r@ =~= (SelectV {
                orders: self@.orders.push(OrderExprV { expr: evo, order }),
                ..self@
            }));
        }
        r
    }

    /// Set the row limit (overwrites).
    pub fn limit(self, n: u64) -> (r: SelectStatement)
        ensures
            r@ == (SelectV { limit: Some(n), ..self@ }),
    {
        let r = SelectStatement { limit: Some(n), ..self };
        proof {
            assert(r@ =~= (SelectV { limit: Some(n), ..self@ }));
        }
        r
    }

    /// Set the row offset (overwrites).
    pub fn offset(self, n: u64) -> (r: SelectStatement)
        ensures
            r@ == (SelectV { offset: Some(n), ..self@ }),
    {
        let r = SelectStatement { offset: Some(n), ..self };
        proof {
            assert(r@ =~= (SelectV { offset: Some(n), ..self@ }));
        }
        r
    }

    /// Render against a dialect: the statement text and the bound values
    /// in placeholder order.
    pub fn build<T: QueryBuilder>(&self, query_builder: T) -> (r: Result<
        (String, Vec<Value>),
        RenderError,
    >)
        ensures
            ({
                match select_render(query_builder.dialect(), self@, 0) {
                    Ok(out) => r matches Ok(p) && p.0@ == out.text && p.1.deep_view()
                        == out.params,
                    Err(e) => r matches Err(e2) && e2 == e,
                }
            }),
    {
        let mut sql = SqlWriter::new();
        let mut collector: Vec<Value> = Vec::new();
        match query_builder.prepare_select_statement(self, &mut sql, &mut collector) {
            Ok(()) => {
                proof {
                    assert(Seq::<char>::empty() + select_render(
                        query_builder.dialect(),
                        self@,
                        0,
                    )->Ok_0.text =~= select_render(query_builder.dialect(), self@, 0)->Ok_0.text);
                    assert(Seq::<ValueV>::empty() + select_render(
                        query_builder.dialect(),
                        self@,
                        0,
                    )->Ok_0.params =~= select_render(query_builder.dialect(), self@, 0)->Ok_0.params);
                }
                Ok((sql.result(), collector))
            },
            Err(e) => Err(e),
        }
    }
}


/// The rendering of one VALUES row: one placeholder per value.
pub open spec fn row_render(d: Dialect, vs: Seq<ValueV>, k: nat) -> Rendered
    decreases vs,
{
    if vs.len() == 0 {
        r_empty()
    } else {
        let init = row_render(d, vs.drop_last(), k);
        let sep: Seq<char> = if vs.len() == 1 { Seq::empty() } else { ", "@ };
        r_cat(
            init,
            r_cat(
                r_text(sep),
                Rendered { text: ph_text(d, k + init.params.len()), params: seq![vs.last()] },
            ),
        )
    }
}

/// The rendering of all VALUES rows, each in parentheses.
pub open spec fn rows_render(d: Dialect, rows: Seq<Seq<ValueV>>, k: nat) -> Rendered
    decreases rows,
{
    if rows.len() == 0 {
        r_empty()
    } else {
        let init = rows_render(d, rows.drop_last(), k);
        let sep: Seq<char> = if rows.len() == 1 { Seq::empty() } else { ", "@ };
        r_cat(init, r_cat(r_text(sep), crate::render::r_paren(row_render(d, rows.last(), k
            + init.params.len()))))
    }
}

/// Append one VALUES row.
#[verifier::rlimit(100)]
fn write_row(d: Dialect, row: &Vec<Value>, sql: &mut SqlWriter, collector: &mut Vec<Value>)
    ensures
        ({
            let r = row_render(d, row.deep_view(), old(collector)@.len() as nat);
            final(sql)@ == old(sql)@ + r.text && final(collector).deep_view() == old(collector).deep_view() + r.params
        }),
{
    let ghost k: nat = collector@.len() as nat;
    let ghost rv = row.deep_view();
    let mut i: usize = 0;
    #[verifier::loop_isolation(false)]
    while i < row.len()
        invariant
            i <= row@.len(),
            sql@ == old(sql)@ + row_render(d, rv.take(i as int), k).text,
            collector.deep_view() == old(collector).deep_view() + row_render(
                d,
                rv.take(i as int),
                k,
            ).params,
            collector@.len() == old(collector)@.len() + row_render(
                d,
                rv.take(i as int),
                k,
            ).params.len(),
        decreases row@.len() - i,
    {
        if i > 0 {
            sql.push_str(", ");
        }
        crate::render::write_value_param(d, &row[i], sql, collector);
        i = i + 1;
        proof {
            let pre = rv.take(i - 1 as int);
            let cur = rv.take(i as int);
            assert(cur.drop_last() =~= pre);
            assert(cur.last() == rv[i - 1]);
            let init = row_render(d, pre, k);
            let sep: Seq<char> = if cur.len() == 1 { Seq::empty() } else { ", "@ };
            assert(row_render(d, cur, k) == r_cat(
                init,
                r_cat(
                    r_text(sep),
                    Rendered { text: ph_text(d, k + init.params.len()), params: seq![cur.last()] },
                ),
            ));
            assert(collector.deep_view().len() == collector@.len());
            assert(old(collector).deep_view().len() == old(collector)@.len());
            assert(sql@ =~= old(sql)@ + row_render(d, cur, k).text);
            assert(collector.deep_view() =~= old(collector).deep_view() + row_render(
                d,
                cur,
                k,
            ).params);
        }
    }
    proof {
        assert(rv.take(rv.len() as int) =~= rv);
    }
}

/// Append all VALUES rows.
#[verifier::rlimit(100)]
fn write_rows(d: Dialect, rows: &Vec<Vec<Value>>, sql: &mut SqlWriter, collector: &mut Vec<Value>)
    ensures
        ({
            let r = rows_render(d, rows.deep_view(), old(collector)@.len() as nat);
            final(sql)@ == old(sql)@ + r.text && final(collector).deep_view() == old(collector).deep_view() + r.params
        }),
{
    let ghost k: nat = collector@.len() as nat;
    let ghost rsv = rows.deep_view();
    let mut i: usize = 0;
    #[verifier::loop_isolation(false)]
    while i < rows.len()
        invariant
            i <= rows@.len(),
            sql@ == old(sql)@ + rows_render(d, rsv.take(i as int), k).text,
            collector.deep_view() == old(collector).deep_view() + rows_render(
                d,
                rsv.take(i as int),
                k,
            ).params,
            collector@.len() == old(collector)@.len() + rows_render(
                d,
                rsv.take(i as int),
                k,
            ).params.len(),
        decreases rows@.len() - i,
    {
        if i > 0 {
            sql.push_str(", ");
        }
        sql.push_str("(");
        write_row(d, &rows[i], sql, collector);
        sql.push_str(")");
        i = i + 1;
        proof {
            let pre = rsv.take(i - 1 as int);
            let cur = rsv.take(i as int);
            assert(cur.drop_last() =~= pre);
            assert(cur.last() == rsv[i - 1]);
            let init = rows_render(d, pre, k);
            let sep: Seq<char> = if cur.len() == 1 { Seq::empty() } else { ", "@ };
            assert(rows_render(d, cur, k) == r_cat(init, r_cat(r_text(sep), crate::render::r_paren(
                row_render(d, cur.last(), k + init.params.len()),
            ))));
            assert(collector.deep_view().len() == collector@.len());
            assert(old(collector).deep_view().len() == old(collector)@.len());
            assert(sql@ =~= old(sql)@ + rows_render(d, cur, k).text);
            assert(collector.deep_view() =~= old(collector).deep_view() + rows_render(
                d,
                cur,
                k,
            ).params);
        }
    }
    proof {
        assert(rsv.take(rsv.len() as int) =~= rsv);
    }
}

/// An INSERT statement under construction.
pub struct InsertStatement {
    pub table: Option<TableRef>,
    pub columns: Vec<Iden>,
    pub values: Vec<Vec<Value>>,
}

/// The model of an [`InsertStatement`].
#[verifier::ext_equal]
pub struct InsertV {
    pub table: Option<TableRefV>,
    pub columns: Seq<Seq<char>>,
    pub values: Seq<Seq<ValueV>>,
}

impl View for InsertStatement {
    type V = InsertV;

    open spec fn view(&self) -> InsertV {
        InsertV {
            table: self.table.deep_view(),
            columns: self.columns.deep_view(),
            values: self.values.deep_view(),
        }
    }
}

/// The complete rendering of an INSERT statement.  The target table, a
/// non-empty column list and at least one row are required, and every row
/// must match the column list's length; a violation reports the matching
/// error and nothing is rendered.
pub open spec fn insert_render(d: Dialect, s: InsertV, k: nat) -> Result<Rendered, RenderError> {
    if s.table is None {
        Err(RenderError::MissingTable(StatementKind::Insert))
    } else if s.columns.len() == 0 {
        Err(RenderError::EmptyColumns(StatementKind::Insert))
    } else if s.values.len() == 0 {
        Err(RenderError::EmptyValues(StatementKind::Insert))
    } else if exists|i: int| 0 <= i < s.values.len() && (#[trigger] s.values[i]).len()
        != s.columns.len() {
        Err(RenderError::RowArityMismatch(StatementKind::Insert))
    } else {
        Ok(r_cat(
            r_text(
                "INSERT INTO "@ + table_ref_text(d, s.table->0) + " ("@ + idents_text(
                    d,
                    s.columns,
                ) + ") VALUES "@,
            ),
            rows_render(d, s.values, k),
        ))
    }
}

/// Append a full INSERT statement, or leave writer and collector alone
/// and report why the statement is malformed.
#[verifier::rlimit(100)]
pub fn write_insert(
    d: Dialect,
    s: &InsertStatement,
    sql: &mut SqlWriter,
    collector: &mut Vec<Value>,
) -> (r: Result<(), RenderError>)
    ensures
        ({
            match insert_render(d, s@, old(collector)@.len() as nat) {
                Ok(out) => r is Ok && final(sql)@ == old(sql)@ + out.text && final(collector).deep_view() == old(collector).deep_view() + out.params,
                Err(e) => r == Result::<(), RenderError>::Err(e) && final(sql)@ == old(sql)@
                    && final(collector).deep_view() == old(collector).deep_view(),
            }
        }),
{
    let table = match &s.table {
        Some(t) => t,
        None => {
            return Err(RenderError::MissingTable(StatementKind::Insert));
        },
    };
    if s.columns.len() == 0 {
        return Err(RenderError::EmptyColumns(StatementKind::Insert));
    }
    if s.values.len() == 0 {
        return Err(RenderError::EmptyValues(StatementKind::Insert));
    }
    let cols = s.columns.len();
    let mut i: usize = 0;
    #[verifier::loop_isolation(false)]
    while i < s.values.len()
        invariant
            i <= s.values@.len(),
            forall|j: int| 0 <= j < i ==> (#[trigger] s@.values[j]).len() == s@.columns.len(),
        decreases s.values@.len() - i,
    {
        if s.values[i].len() != cols {
            proof {
                assert(s@.values[i as int].len() != s@.columns.len());
            }
            return Err(RenderError::RowArityMismatch(StatementKind::Insert));
        }
        i = i + 1;
    }
    let ghost k: nat = collector@.len() as nat;
    sql.push_str("INSERT INTO ");
    write_table_ref(d, table, sql);
    sql.push_str(" (");
    write_idents(d, &s.columns, sql);
    sql.push_str(") VALUES ");
    proof {
        assert(sql@ =~= old(sql)@ + ("INSERT INTO "@ + table_ref_text(d, s@.table->0) + " ("@
            + idents_text(d, s@.columns) + ") VALUES "@));
    }
    write_rows(d, &s.values, sql, collector);
    proof {
        let out = insert_render(d, s@, k)->Ok_0;
        assert(sql@ =~= old(sql)@ + out.text);
    }
    Ok(())
}

/// An exact copy of the rows of an INSERT, element models preserved.
fn clone_rows(rows: &Vec<Vec<Value>>) -> (r: Vec<Vec<Value>>)
    ensures
        r.deep_view() == rows.deep_view(),
{
    let mut out: Vec<Vec<Value>> = Vec::new();
    let mut i: usize = 0;
    #[verifier::loop_isolation(false)]
    while i < rows.len()
        invariant
            i <= rows@.len(),
            out@.len() == i,
            forall|j: int| 0 <= j < i ==> (#[trigger] out@[j]).deep_view() == rows@[j].deep_view(),
        decreases rows@.len() - i,
    {
        proof {
            assert forall|a: Value, b: Value|
                #[trigger] vstd::pervasive::cloned::<Value>(a, b) implies a.deep_view()
                == b.deep_view() by {}
        }
        let c = clone_vec_deep(&rows[i]);
        out.push(c);
        i = i + 1;
    }
    proof {
        assert(out.deep_view() =~= rows.deep_view());
    }
    out
}

impl Clone for InsertStatement {
    /// A deep copy whose model equals the original's.
    fn clone(&self) -> (r: InsertStatement)
        ensures
            r@ == self@,
    {
        proof {
            assert forall|a: Iden, b: Iden|
                #[trigger] vstd::pervasive::cloned::<Iden>(a, b) implies a.deep_view()
                == b.deep_view() by {}
        }
        let r = InsertStatement {
            table: match &self.table {
                Some(t) => Some(t.clone()),
                None => None,
            },
            columns: clone_vec_deep(&self.columns),
            values: clone_rows(&self.values),
        };
        proof {
            assert(r@ =~= self@);
        }
        r
    }
}

impl InsertStatement {
    /// An empty INSERT statement.
    pub fn new() -> (r: InsertStatement)
        ensures
            r@ == (InsertV { table: None, columns: Seq::empty(), values: Seq::empty() }),
    {
        let r = InsertStatement { table: None, columns: Vec::new(), values: Vec::new() };
        proof {
            assert(r@ =~= (InsertV { table: None, columns: Seq::empty(), values: Seq::empty() }));
        }
        r
    }

    /// Set the target table (overwrites).
    pub fn into_table(self, table: Iden) -> (r: InsertStatement)
        ensures
            r@ == (InsertV { table: Some(TableRefV::Table(table@)), ..self@ }),
    {
        let ghost tv = table@;
        let r = InsertStatement { table: Some(TableRef::Table(table)), ..self };
        proof {
            assert(r@ =~= (InsertV { table: Some(TableRefV::Table(tv)), ..self@ }));
        }
        r
    }

    /// Set the column list (overwrites).
    pub fn columns(self, columns: Vec<Iden>) -> (r: InsertStatement)
        ensures
            r@ == (InsertV { columns: columns.deep_view(), ..self@ }),
    {
        let ghost cv = columns.deep_view();
        let r = InsertStatement { columns, ..self };
        proof {
            assert(r@ =~= (InsertV { columns: cv, ..self@ }));
        }
        r
    }

    /// Add one row of values (appends, in call order).
    pub fn values(self, row: Vec<Value>) -> (r: InsertStatement)
        ensures
            r@ == (InsertV { values: self@.values.push(row.deep_view()), ..self@ }),
    {
        let ghost rv = row.deep_view();
        let mut values = self.values;
        values.push(row);
        let r = InsertStatement { values, ..self };
        proof {
            assert(r@.values =~= self@.values.push(rv));
            assert(r@ =~= (InsertV { values: self@.values.push(rv), ..self@ }));
        }
        r
    }

    /// Render against a dialect: the statement text and the bound values
    /// in placeholder order.
    pub fn build<T: QueryBuilder>(&self, query_builder: T) -> (r: Result<
        (String, Vec<Value>),
        RenderError,
    >)
        ensures
            ({
                match insert_render(query_builder.dialect(), self@, 0) {
                    Ok(out) => r matches Ok(p) && p.0@ == out.text && p.1.deep_view()
                        == out.params,
                    Err(e) => r matches Err(e2) && e2 == e,
                }
            }),
    {
        let mut sql = SqlWriter::new();
        let mut collector: Vec<Value> = Vec::new();
        match query_builder.prepare_insert_statement(self, &mut sql, &mut collector) {
            Ok(()) => {
                proof {
                    let out = insert_render(query_builder.dialect(), self@, 0)->Ok_0;
                    assert(Seq::<char>::empty() + out.text =~= out.text);
                    assert(Seq::<ValueV>::empty() + out.params =~= out.params);
                }
                Ok((sql.result(), collector))
            },
            Err(e) => Err(e),
        }
    }
}

/// One SET entry of an UPDATE statement.
pub struct Assignment {
    pub col: Iden,
    pub expr: SimpleExpr,
}

/// The model of an [`Assignment`].
#[verifier::ext_equal]
pub struct AssignmentV {
    pub col: Seq<char>,
    pub expr: ExprV,
}

impl View for Assignment {
    type V = AssignmentV;

    open spec fn view(&self) -> AssignmentV {
        AssignmentV { col: self.col@, expr: self.expr@ }
    }
}

impl DeepView for Assignment {
    type V = AssignmentV;

    open spec fn deep_view(&self) -> AssignmentV {
        self.view()
    }
}

impl Clone for Assignment {
    fn clone(&self) -> (r: Assignment)
        ensures
            r@ == self@,
    {
        Assignment { col: self.col.clone(), expr: self.expr.clone() }
    }
}

/// The rendering of one SET entry.
pub open spec fn assign_item_render(d: Dialect, a: AssignmentV, k: nat) -> Rendered {
    r_cat(r_text(quoted(d, a.col) + " = "@), operand_render(d, a.expr, k))
}

/// The rendering of the SET list.
pub open spec fn assigns_render(d: Dialect, s: Seq<AssignmentV>, k: nat) -> Rendered
    decreases s,
{
    if s.len() == 0 {
        r_empty()
    } else {
        let init = assigns_render(d, s.drop_last(), k);
        let sep: Seq<char> = if s.len() == 1 { Seq::empty() } else { ", "@ };
        r_cat(init, r_cat(r_text(sep), assign_item_render(d, s.last(), k + init.params.len())))
    }
}

/// Append the SET list.
#[verifier::rlimit(100)]
fn write_assignments(
    d: Dialect,
    items: &Vec<Assignment>,
    sql: &mut SqlWriter,
    collector: &mut Vec<Value>,
)
    ensures
        ({
            let r = assigns_render(d, items.deep_view(), old(collector)@.len() as nat);
            final(sql)@ == old(sql)@ + r.text && final(collector).deep_view() == old(collector).deep_view() + r.params
        }),
{
    let ghost k: nat = collector@.len() as nat;
    let ghost av = items.deep_view();
    let mut i: usize = 0;
    #[verifier::loop_isolation(false)]
    while i < items.len()
        invariant
            i <= items@.len(),
            sql@ == old(sql)@ + assigns_render(d, av.take(i as int), k).text,
            collector.deep_view() == old(collector).deep_view() + assigns_render(
                d,
                av.take(i as int),
                k,
            ).params,
            collector@.len() == old(collector)@.len() + assigns_render(
                d,
                av.take(i as int),
                k,
            ).params.len(),
        decreases items@.len() - i,
    {
        if i > 0 {
            sql.push_str(", ");
        }
        let a = &items[i];
        crate::dialect::push_quoted(sql, d, a.col.as_text());
        sql.push_str(" = ");
        write_operand(d, &a.expr, sql, collector);
        i = i + 1;
        proof {
            let pre = av.take(i - 1 as int);
            let cur = av.take(i as int);
            assert(cur.drop_last() =~= pre);
            assert(cur.last() == av[i - 1]);
            let init = assigns_render(d, pre, k);
            let last = assign_item_render(d, av[i - 1], k + init.params.len());
            let sep: Seq<char> = if cur.len() == 1 { Seq::empty() } else { ", "@ };
            assert(assigns_render(d, cur, k) == r_cat(init, r_cat(r_text(sep), last)));
            assert(collector.deep_view().len() == collector@.len());
            assert(old(collector).deep_view().len() == old(collector)@.len());
            assert(sql@ =~= old(sql)@ + assigns_render(d, cur, k).text);
            assert(collector.deep_view() =~= old(collector).deep_view() + assigns_render(
                d,
                cur,
                k,
            ).params);
        }
    }
    proof {
        assert(av.take(av.len() as int) =~= av);
    }
}

/// The rendering of the shared trailing clauses of UPDATE and DELETE:
/// WHERE, ORDER BY, LIMIT, in that order.
pub open spec fn conditions_tail_render(
    d: Dialect,
    wheres: Seq<LogicalChainOperV>,
    orders: Seq<OrderExprV>,
    limit: Option<u64>,
    k: nat,
) -> Rendered {
    let w = where_render(d, wheres, k);
    let o = r_cat(w, orders_render(d, orders, k + w.params.len()));
    r_cat(o, limit_render(d, limit, k + o.params.len()))
}

/// Append the shared trailing clauses of UPDATE and DELETE.
#[verifier::rlimit(100)]
fn write_conditions_tail(
    d: Dialect,
    wheres: &Vec<LogicalChainOper>,
    orders: &Vec<OrderExpr>,
    limit: &Option<u64>,
    sql: &mut SqlWriter,
    collector: &mut Vec<Value>,
)
    ensures
        ({
            let r = conditions_tail_render(
                d,
                wheres.deep_view(),
                orders.deep_view(),
                *limit,
                old(collector)@.len() as nat,
            );
            final(sql)@ == old(sql)@ + r.text && final(collector).deep_view() == old(collector).deep_view() + r.params
        }),
{
    let ghost k: nat = collector@.len() as nat;
    if wheres.len() > 0 {
        sql.push_str(" WHERE ");
    }
    write_chain(d, wheres, sql, collector);
    let ghost w = where_render(d, wheres.deep_view(), k);
    proof {
        assert(wheres.deep_view().len() == wheres@.len());
        assert(collector.deep_view().len() == collector@.len());
        assert(old(collector).deep_view().len() == old(collector)@.len());
    }
    if orders.len() > 0 {
        sql.push_str(" ORDER BY ");
    }
    write_orders_list(d, orders, sql, collector);
    let ghost o = r_cat(w, orders_render(d, orders.deep_view(), k + w.params.len()));
    proof {
        assert(orders.deep_view().len() == orders@.len());
        assert(collector.deep_view().len() == collector@.len());
    }
    write_limit(d, limit, sql, collector);
    proof {
        let r = r_cat(o, limit_render(d, *limit, k + o.params.len()));
        assert(sql@ =~= old(sql)@ + r.text);
        assert(collector.deep_view() =~= old(collector).deep_view() + r.params);
    }
}

/// An UPDATE statement under construction.
pub struct UpdateStatement {
    pub table: Option<TableRef>,
    pub assignments: Vec<Assignment>,
    pub wheres: Vec<LogicalChainOper>,
    pub orders: Vec<OrderExpr>,
    pub limit: Option<u64>,
}

/// The model of an [`UpdateStatement`].
#[verifier::ext_equal]
pub struct UpdateV {
    pub table: Option<TableRefV>,
    pub assignments: Seq<AssignmentV>,
    pub wheres: Seq<LogicalChainOperV>,
    pub orders: Seq<OrderExprV>,
    pub limit: Option<u64>,
}

impl View for UpdateStatement {
    type V = UpdateV;

    open spec fn view(&self) -> UpdateV {
        UpdateV {
            table: self.table.deep_view(),
            assignments: self.assignments.deep_view(),
            wheres: self.wheres.deep_view(),
            orders: self.orders.deep_view(),
            limit: self.limit,
        }
    }
}

/// The complete rendering of an UPDATE statement.  The target table and a
/// non-empty SET list are required.
pub open spec fn update_render(d: Dialect, s: UpdateV, k: nat) -> Result<Rendered, RenderError> {
    if s.table is None {
        Err(RenderError::MissingTable(StatementKind::Update))
    } else if s.assignments.len() == 0 {
        Err(RenderError::EmptyValues(StatementKind::Update))
    } else {
        let head = r_cat(
            r_text("UPDATE "@ + table_ref_text(d, s.table->0) + " SET "@),
            assigns_render(d, s.assignments, k),
        );
        Ok(r_cat(head, conditions_tail_render(d, s.wheres, s.orders, s.limit, k
            + head.params.len())))
    }
}

/// Append a full UPDATE statement, or leave writer and collector alone
/// and report why the statement is malformed.
#[verifier::rlimit(100)]
pub fn write_update(
    d: Dialect,
    s: &UpdateStatement,
    sql: &mut SqlWriter,
    collector: &mut Vec<Value>,
) -> (r: Result<(), RenderError>)
    ensures
        ({
            match update_render(d, s@, old(collector)@.len() as nat) {
                Ok(out) => r is Ok && final(sql)@ == old(sql)@ + out.text && final(collector).deep_view() == old(collector).deep_view() + out.params,
                Err(e) => r == Result::<(), RenderError>::Err(e) && final(sql)@ == old(sql)@
                    && final(collector).deep_view() == old(collector).deep_view(),
            }
        }),
{
    let table = match &s.table {
        Some(t) => t,
        None => {
            return Err(RenderError::MissingTable(StatementKind::Update));
        },
    };
    if s.assignments.len() == 0 {
        return Err(RenderError::EmptyValues(StatementKind::Update));
    }
    let ghost k: nat = collector@.len() as nat;
    sql.push_str("UPDATE ");
    write_table_ref(d, table, sql);
    sql.push_str(" SET ");
    proof {
        assert(sql@ =~= old(sql)@ + ("UPDATE "@ + table_ref_text(d, s@.table->0) + " SET "@));
    }
    write_assignments(d, &s.assignments, sql, collector);
    let ghost head = r_cat(
        r_text("UPDATE "@ + table_ref_text(d, s@.table->0) + " SET "@),
        assigns_render(d, s@.assignments, k),
    );
    proof {
        assert(s@.assignments.len() == s.assignments@.len());
        assert(collector.deep_view().len() == collector@.len());
        assert(old(collector).deep_view().len() == old(collector)@.len());
    }
    write_conditions_tail(d, &s.wheres, &s.orders, &s.limit, sql, collector);
    proof {
        let out = r_cat(head, conditions_tail_render(d, s@.wheres, s@.orders, s@.limit, k
            + head.params.len()));
        assert(sql@ =~= old(sql)@ + out.text);
        assert(collector.deep_view() =~= old(collector).deep_view() + out.params);
    }
    Ok(())
}

impl Clone for UpdateStatement {
    /// A deep copy whose model equals the original's.
    fn clone(&self) -> (r: UpdateStatement)
        ensures
            r@ == self@,
    {
        let r = UpdateStatement {
            table: match &self.table {
                Some(t) => Some(t.clone()),
                None => None,
            },
            assignments: clone_vec_deep(&self.assignments),
            wheres: clone_vec_deep(&self.wheres),
            orders: clone_vec_deep(&self.orders),
            limit: self.limit,
        };
        proof {
            assert(r@ =~= self@);
        }
        r
    }
}

impl UpdateStatement {
    /// An empty UPDATE statement.
    pub fn new() -> (r: UpdateStatement)
        ensures
            r@ == (UpdateV {
                table: None,
                assignments: Seq::empty(),
                wheres: Seq::empty(),
                orders: Seq::empty(),
                limit: None,
            }),
    {
        let r = UpdateStatement {
            table: None,
            assignments: Vec::new(),
            wheres: Vec::new(),
            orders: Vec::new(),
            limit: None,
        };
        proof {
            assert(r@ =~= (UpdateV {
                table: None,
                assignments: Seq::empty(),
                wheres: Seq::empty(),
                orders: Seq::empty(),
                limit: None,
            }));
        }
        r
    }

    /// Set the target table (overwrites).
    pub fn table(self, table: Iden) -> (r: UpdateStatement)
        ensures
            r@ == (UpdateV { table: Some(TableRefV::Table(table@)), ..self@ }),
    {
        let ghost tv = table@;
        let r = UpdateStatement { table: Some(TableRef::Table(table)), ..self };
        proof {
            assert(r@ =~= (UpdateV { table: Some(TableRefV::Table(tv)), ..self@ }));
        }
        r
    }

    /// Set one column to a literal value (appends, in call order).
    pub fn value(self, col: Iden, v: Value) -> (r: UpdateStatement)
        ensures
            r@ == (UpdateV {
                assignments: self@.assignments.push(
                    AssignmentV { col: col@, expr: ExprV::Value(v@) },
                ),
                ..self@
            }),
    {
        self.value_expr(col, SimpleExpr::val(v))
    }

    /// Set one column to an expression (appends, in call order).
    pub fn value_expr(self, col: Iden, e: SimpleExpr) -> (r: UpdateStatement)
        ensures
            r@ == (UpdateV {
                assignments: self@.assignments.push(AssignmentV { col: col@, expr: e@ }),
                ..self@
            }),
    {
        let ghost cv = col@;
        let ghost evu = e@;
        let mut assignments = self.assignments;
        assignments.push(Assignment { col, expr: e });
        let r = UpdateStatement { assignments, ..self };
        proof {
            assert(r@.assignments =~= self@.assignments.push(AssignmentV { col: cv, expr: evu }));
            assert(r@ =~= (UpdateV {
                assignments: self@.assignments.push(AssignmentV { col: cv, expr: evu }),
                ..self@
            }));
        }
        r
    }

    /// Add a WHERE condition joined with AND (appends, in call order).
    pub fn and_where(self, e: SimpleExpr) -> (r: UpdateStatement)
        ensures
            r@ == (UpdateV {
                wheres: self@.wheres.push(LogicalChainOperV::And(e@)),
                ..self@
            }),
    {
        let ghost evw = e@;
        let mut wheres = self.wheres;
        wheres.push(LogicalChainOper::And(e));
        let r = UpdateStatement { wheres, ..self };
        proof {
            assert(r@.wheres =~= self@.wheres.push(LogicalChainOperV::And(evw)));
            assert(r@ =~= (UpdateV {
                wheres: self@.wheres.push(LogicalChainOperV::And(evw)),
                ..self@
            }));
        }
        r
    }

    /// Add an ORDER BY entry (appends, in call order).
    pub fn order_by(self, e: SimpleExpr, order: Order) -> (r: UpdateStatement)
        ensures
            r@ == (UpdateV {
                orders: self@.orders.push(OrderExprV { expr: e@, order }),
                ..self@
            }),
    {
        let ghost evo = e@;
        let mut orders = self.orders;
        orders.push(OrderExpr { expr: e, order });
        let r = UpdateStatement { orders, ..self };
        proof {
            assert(r@.orders =~= self@.orders.push(OrderExprV { expr: evo, order }));
            assert(r@ =~= (UpdateV {
                orders: self@.orders.push(OrderExprV { expr: evo, order }),
                ..self@
            }));
        }
        r
    }

    /// Set the row limit (overwrites).
    pub fn limit(self, n: u64) -> (r: UpdateStatement)
        ensures
            r@ == (UpdateV { limit: Some(n), ..self@ }),
    {
        let r = UpdateStatement { limit: Some(n), ..self };
        proof {
            assert(r@ =~= (UpdateV { limit: Some(n), ..self@ }));
        }
        r
    }

    /// Render against a dialect: the statement text and the bound values
    /// in placeholder order.
    pub fn build<T: QueryBuilder>(&self, query_builder: T) -> (r: Result<
        (String, Vec<Value>),
        RenderError,
    >)
        ensures
            ({
                match update_render(query_builder.dialect(), self@, 0) {
                    Ok(out) => r matches Ok(p) && p.0@ == out.text && p.1.deep_view()
                        == out.params,
                    Err(e) => r matches Err(e2) && e2 == e,
                }
            }),
    {
        let mut sql = SqlWriter::new();
        let mut collector: Vec<Value> = Vec::new();
        match query_builder.prepare_update_statement(self, &mut sql, &mut collector) {
            Ok(()) => {
                proof {
                    let out = update_render(query_builder.dialect(), self@, 0)->Ok_0;
                    assert(Seq::<char>::empty() + out.text =~= out.text);
                    assert(Seq::<ValueV>::empty() + out.params =~= out.params);
                }
                Ok((sql.result(), collector))
            },
            Err(e) => Err(e),
        }
    }
}

/// A DELETE statement under construction.
pub struct DeleteStatement {
    pub table: Option<TableRef>,
    pub wheres: Vec<LogicalChainOper>,
    pub orders: Vec<OrderExpr>,
    pub limit: Option<u64>,
}

/// The model of a [`DeleteStatement`].
#[verifier::ext_equal]
pub struct DeleteV {
    pub table: Option<TableRefV>,
    pub wheres: Seq<LogicalChainOperV>,
    pub orders: Seq<OrderExprV>,
    pub limit: Option<u64>,
}

impl View for DeleteStatement {
    type V = DeleteV;

    open spec fn view(&self) -> DeleteV {
        DeleteV {
            table: self.table.deep_view(),
            wheres: self.wheres.deep_view(),
            orders: self.orders.deep_view(),
            limit: self.limit,
        }
    }
}

/// The complete rendering of a DELETE statement.  The target table is
/// required.
pub open spec fn delete_render(d: Dialect, s: DeleteV, k: nat) -> Result<Rendered, RenderError> {
    if s.table is None {
        Err(RenderError::MissingTable(StatementKind::Delete))
    } else {
        Ok(r_cat(
            r_text("DELETE FROM "@ + table_ref_text(d, s.table->0)),
            conditions_tail_render(d, s.wheres, s.orders, s.limit, k),
        ))
    }
}

/// Append a full DELETE statement, or leave writer and collector alone
/// and report why the statement is malformed.
#[verifier::rlimit(100)]
pub fn write_delete(
    d: Dialect,
    s: &DeleteStatement,
    sql: &mut SqlWriter,
    collector: &mut Vec<Value>,
) -> (r: Result<(), RenderError>)
    ensures
        ({
            match delete_render(d, s@, old(collector)@.len() as nat) {
                Ok(out) => r is Ok && final(sql)@ == old(sql)@ + out.text && final(collector).deep_view() == old(collector).deep_view() + out.params,
                Err(e) => r == Result::<(), RenderError>::Err(e) && final(sql)@ == old(sql)@
                    && final(collector).deep_view() == old(collector).deep_view(),
            }
        }),
{
    let table = match &s.table {
        Some(t) => t,
        None => {
            return Err(RenderError::MissingTable(StatementKind::Delete));
        },
    };
    let ghost k: nat = collector@.len() as nat;
    sql.push_str("DELETE FROM ");
    write_table_ref(d, table, sql);
    proof {
        assert(sql@ =~= old(sql)@ + ("DELETE FROM "@ + table_ref_text(d, s@.table->0)));
    }
    write_conditions_tail(d, &s.wheres, &s.orders, &s.limit, sql, collector);
    proof {
        let out = delete_render(d, s@, k)->Ok_0;
        assert(sql@ =~= old(sql)@ + out.text);
        assert(collector.deep_view() =~= old(collector).deep_view() + out.params);
    }
    Ok(())
}

impl Clone for DeleteStatement {
    /// A deep copy whose model equals the original's.
    fn clone(&self) -> (r: DeleteStatement)
        ensures
            r@ == self@,
    {
        let r = DeleteStatement {
            table: match &self.table {
                Some(t) => Some(t.clone()),
                None => None,
            },
            wheres: clone_vec_deep(&self.wheres),
            orders: clone_vec_deep(&self.orders),
            limit: self.limit,
        };
        proof {
            assert(r@ =~= self@);
        }
        r
    }
}

impl DeleteStatement {
    /// An empty DELETE statement.
    pub fn new() -> (r: DeleteStatement)
        ensures
            r@ == (DeleteV {
                table: None,
                wheres: Seq::empty(),
                orders: Seq::empty(),
                limit: None,
            }),
    {
        let r = DeleteStatement { table: None, wheres: Vec::new(), orders: Vec::new(), limit: None };
        proof {
            assert(r@ =~= (DeleteV {
                table: None,
                wheres: Seq::empty(),
                orders: Seq::empty(),
                limit: None,
            }));
        }
        r
    }

    /// Set the target table (overwrites).
    pub fn from_table(self, table: Iden) -> (r: DeleteStatement)
        ensures
            r@ == (DeleteV { table: Some(TableRefV::Table(table@)), ..self@ }),
    {
        let ghost tv = table@;
        let r = DeleteStatement { table: Some(TableRef::Table(table)), ..self };
        proof {
            assert(r@ =~= (DeleteV { table: Some(TableRefV::Table(tv)), ..self@ }));
        }
        r
    }

    /// Add a WHERE condition joined with AND (appends, in call order).
    pub fn and_where(self, e: SimpleExpr) -> (r: DeleteStatement)
        ensures
            r@ == (DeleteV {
                wheres: self@.wheres.push(LogicalChainOperV::And(e@)),
                ..self@
            }),
    {
        let ghost evw = e@;
        let mut wheres = self.wheres;
        wheres.push(LogicalChainOper::And(e));
        let r = DeleteStatement { wheres, ..self };
        proof {
            assert(r@.wheres =~= self@.wheres.push(LogicalChainOperV::And(evw)));
            assert(r@ =~= (DeleteV {
                wheres: self@.wheres.push(LogicalChainOperV::And(evw)),
                ..self@
            }));
        }
        r
    }

    /// Add a WHERE condition joined with OR (appends, in call order).
    pub fn or_where(self, e: SimpleExpr) -> (r: DeleteStatement)
        ensures
            r@ == (DeleteV {
                wheres: self@.wheres.push(LogicalChainOperV::Or(e@)),
                ..self@
            }),
    {
        let ghost evw = e@;
        let mut wheres = self.wheres;
        wheres.push(LogicalChainOper::Or(e));
        let r = DeleteStatement { wheres, ..self };
        proof {
            assert(r@.wheres =~= self@.wheres.push(LogicalChainOperV::Or(evw)));
            assert(r@ =~= (DeleteV {
                wheres: self@.wheres.push(LogicalChainOperV::Or(evw)),
                ..self@
            }));
        }
        r
    }

    /// Add an ORDER BY entry (appends, in call order).
    pub fn order_by(self, e: SimpleExpr, order: Order) -> (r: DeleteStatement)
        ensures
            r@ == (DeleteV {
                orders: self@.orders.push(OrderExprV { expr: e@, order }),
                ..self@
            }),
    {
        let ghost evo = e@;
        let mut orders = self.orders;
        orders.push(OrderExpr { expr: e, order });
        let r = DeleteStatement { orders, ..self };
        proof {
            assert(r@.orders =~= self@.orders.push(OrderExprV { expr: evo, order }));
            assert(r@ =~= (DeleteV {
                orders: self@.orders.push(OrderExprV { expr: evo, order }),
                ..self@
            }));
        }
        r
    }

    /// Set the row limit (overwrites).
    pub fn limit(self, n: u64) -> (r: DeleteStatement)
        ensures
            r@ == (DeleteV { limit: Some(n), ..self@ }),
    {
        let r = DeleteStatement { limit: Some(n), ..self };
        proof {
            assert(r@ =~= (DeleteV { limit: Some(n), ..self@ }));
        }
        r
    }

    /// Render against a dialect: the statement text and the bound values
    /// in placeholder order.
    pub fn build<T: QueryBuilder>(&self, query_builder: T) -> (r: Result<
        (String, Vec<Value>),
        RenderError,
    >)
        ensures
            ({
                match delete_render(query_builder.dialect(), self@, 0) {
                    Ok(out) => r matches Ok(p) && p.0@ == out.text && p.1.deep_view()
                        == out.params,
                    Err(e) => r matches Err(e2) && e2 == e,
                }
            }),
    {
        let mut sql = SqlWriter::new();
        let mut collector: Vec<Value> = Vec::new();
        match query_builder.prepare_delete_statement(self, &mut sql, &mut collector) {
            Ok(()) => {
                proof {
                    let out = delete_render(query_builder.dialect(), self@, 0)->Ok_0;
                    assert(Seq::<char>::empty() + out.text =~= out.text);
                    assert(Seq::<ValueV>::empty() + out.params =~= out.params);
                }
                Ok((sql.result(), collector))
            },
            Err(e) => Err(e),
        }
    }
}

} // verus!
