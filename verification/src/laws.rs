//! The library's global guarantees, stated and proved once over the
//! rendering model.
//!
//! The central one is placeholder/parameter correspondence: the sequence
//! of values a render call hands to the collector is exactly the sequence
//! of literal occurrences in the statement tree, read left to right, with
//! no deduplication and no reordering — for every dialect, under every
//! nesting of expressions, joins and sub-clauses.

use vstd::prelude::*;
use crate::dialect::{Dialect, numbered_placeholders, quote_char, quoted};
use crate::expr::{ExprV, LogicalChainOperV, OrderExprV, SelectExprV};
use crate::query::{
    assigns_render, conditions_tail_render, delete_render, insert_render, joins_render,
    orders_list_render, orders_render, row_render, rows_render, select_head_render,
    select_list_render, select_filter_render, select_render, select_trailer_render,
    update_render, where_render, AssignmentV, DeleteV, InsertV, SelectV, UpdateV,
};
use crate::render::{
    chain_expr, chain_item_render, chain_render, expr_render, exprs_list_render, operand_render,
    r_cat, r_empty, r_text, Rendered,
};
use crate::value::ValueV;

verus! {

/// The literal occurrences of an expression, in left-to-right order.
pub open spec fn expr_values(e: ExprV) -> Seq<ValueV>
    decreases e, 0int,
{
    match e {
        ExprV::Column(_) => Seq::empty(),
        ExprV::Value(v) => seq![v],
        ExprV::Unary(_, x) => expr_values(*x),
        ExprV::Binary(l, _, r) => expr_values(*l) + expr_values(*r),
        ExprV::FunctionCall(_, args) => exprs_values(args),
    }
}

/// The literal occurrences of an expression list, in order.
pub open spec fn exprs_values(s: Seq<ExprV>) -> Seq<ValueV>
    decreases s, 0int,
{
    if s.len() == 0 {
        Seq::empty()
    } else {
        exprs_values(s.drop_last()) + expr_values(s.last())
    }
}

/// The literal occurrences of a condition chain, in order.
pub open spec fn chain_values(cs: Seq<LogicalChainOperV>) -> Seq<ValueV>
    decreases cs,
{
    if cs.len() == 0 {
        Seq::empty()
    } else {
        chain_values(cs.drop_last()) + expr_values(chain_expr(cs.last()))
    }
}

/// The literal occurrences of a projection list, in order.
pub open spec fn select_list_values(s: Seq<SelectExprV>) -> Seq<ValueV>
    decreases s,
{
    if s.len() == 0 {
        Seq::empty()
    } else {
        select_list_values(s.drop_last()) + expr_values(s.last().expr)
    }
}

/// The literal occurrences of the join clauses, in order.
pub open spec fn joins_values(s: Seq<crate::expr::JoinExprV>) -> Seq<ValueV>
    decreases s,
{
    if s.len() == 0 {
        Seq::empty()
    } else {
        joins_values(s.drop_last()) + (match s.last().on {
            Some(e) => expr_values(e),
            None => Seq::empty(),
        })
    }
}

/// The literal occurrences of the ORDER BY list, in order.
pub open spec fn orders_values(s: Seq<OrderExprV>) -> Seq<ValueV>
    decreases s,
{
    if s.len() == 0 {
        Seq::empty()
    } else {
        orders_values(s.drop_last()) + expr_values(s.last().expr)
    }
}

/// The value bound by an optional LIMIT or OFFSET.
pub open spec fn bound_values(l: Option<u64>) -> Seq<ValueV> {
    match l {
        Some(n) => seq![ValueV::UInt(n)],
        None => Seq::empty(),
    }
}

/// The literal occurrences of a whole SELECT, in traversal order.
pub open spec fn select_values(s: SelectV) -> Seq<ValueV> {
    select_list_values(s.selects) + joins_values(s.joins) + chain_values(s.wheres) + exprs_values(
        s.groups,
    ) + chain_values(s.having) + orders_values(s.orders) + bound_values(s.limit) + bound_values(
        s.offset,
    )
}

/// The literal occurrences of a whole INSERT: its rows, flattened in
/// order.
pub open spec fn rows_values(rows: Seq<Seq<ValueV>>) -> Seq<ValueV>
    decreases rows,
{
    if rows.len() == 0 {
        Seq::empty()
    } else {
        rows_values(rows.drop_last()) + rows.last()
    }
}

/// The literal occurrences of the SET list of an UPDATE, in order.
pub open spec fn assigns_values(s: Seq<AssignmentV>) -> Seq<ValueV>
    decreases s,
{
    if s.len() == 0 {
        Seq::empty()
    } else {
        assigns_values(s.drop_last()) + expr_values(s.last().expr)
    }
}

/// The literal occurrences of a whole UPDATE, in traversal order.
pub open spec fn update_values(s: UpdateV) -> Seq<ValueV> {
    assigns_values(s.assignments) + chain_values(s.wheres) + orders_values(s.orders)
        + bound_values(s.limit)
}

/// The literal occurrences of a whole DELETE, in traversal order.
pub open spec fn delete_values(s: DeleteV) -> Seq<ValueV> {
    chain_values(s.wheres) + orders_values(s.orders) + bound_values(s.limit)
}

/// An expression's bound values are its literals, left to right, whatever
/// the dialect and the placeholder numbering base.
pub proof fn lemma_expr_params(d: Dialect, e: ExprV, k: nat)
    ensures
        expr_render(d, e, k).params == expr_values(e),
    decreases e, 0int,
{
    match e {
        ExprV::Column(_) => {
            assert(expr_render(d, e, k).params =~= expr_values(e));
        },
        ExprV::Value(_) => {},
        ExprV::Unary(_, x) => {
            lemma_operand_params(d, *x, k);
            assert(expr_render(d, e, k).params =~= expr_values(e));
        },
        ExprV::Binary(l, _, r) => {
            lemma_operand_params(d, *l, k);
            lemma_operand_params(d, *r, k + operand_render(d, *l, k).params.len());
            assert(expr_render(d, e, k).params =~= expr_values(e));
        },
        ExprV::FunctionCall(_, args) => {
            lemma_exprs_list_params(d, args, k);
            assert(expr_render(d, e, k).params =~= expr_values(e));
        },
    }
}

/// An operand's bound values equal its expression's.
pub proof fn lemma_operand_params(d: Dialect, e: ExprV, k: nat)
    ensures
        operand_render(d, e, k).params == expr_values(e),
    decreases e, 1int,
{
    lemma_expr_params(d, e, k);
}

/// An expression list's bound values are its members' literals, in order.
pub proof fn lemma_exprs_list_params(d: Dialect, s: Seq<ExprV>, k: nat)
    ensures
        exprs_list_render(d, s, k).params == exprs_values(s),
    decreases s, 0int,
{
    if s.len() > 0 {
        lemma_exprs_list_params(d, s.drop_last(), k);
        lemma_expr_params(d, s.last(), k + exprs_list_render(d, s.drop_last(), k).params.len());
        assert(exprs_list_render(d, s, k).params =~= exprs_values(s));
    } else {
        assert(exprs_list_render(d, s, k).params =~= exprs_values(s));
    }
}

/// A condition chain's bound values are its conditions' literals, in call
/// order.
pub proof fn lemma_chain_params(d: Dialect, cs: Seq<LogicalChainOperV>, k: nat)
    ensures
        chain_render(d, cs, k).params == chain_values(cs),
    decreases cs,
{
    if cs.len() > 0 {
        lemma_chain_params(d, cs.drop_last(), k);
        lemma_operand_params(
            d,
            chain_expr(cs.last()),
            k + chain_render(d, cs.drop_last(), k).params.len(),
        );
        assert(chain_render(d, cs, k).params =~= chain_values(cs));
    } else {
        assert(chain_render(d, cs, k).params =~= chain_values(cs));
    }
}

/// The projection list's bound values, in order.
pub proof fn lemma_select_list_params(d: Dialect, s: Seq<SelectExprV>, k: nat)
    ensures
        select_list_render(d, s, k).params == select_list_values(s),
    decreases s,
{
    if s.len() > 0 {
        lemma_select_list_params(d, s.drop_last(), k);
        lemma_expr_params(d, s.last().expr, k + select_list_render(d, s.drop_last(), k).params.len());
        assert(select_list_render(d, s, k).params =~= select_list_values(s));
    } else {
        assert(select_list_render(d, s, k).params =~= select_list_values(s));
    }
}

/// The join clauses' bound values, in order.
pub proof fn lemma_joins_params(d: Dialect, s: Seq<crate::expr::JoinExprV>, k: nat)
    ensures
        joins_render(d, s, k).params == joins_values(s),
    decreases s,
{
    if s.len() > 0 {
        lemma_joins_params(d, s.drop_last(), k);
        let kk = k + joins_render(d, s.drop_last(), k).params.len();
        match s.last().on {
            Some(e) => {
                lemma_operand_params(d, e, kk);
            },
            None => {},
        }
        assert(joins_render(d, s, k).params =~= joins_values(s));
    } else {
        assert(joins_render(d, s, k).params =~= joins_values(s));
    }
}

/// The ORDER BY list's bound values, in order.
pub proof fn lemma_orders_params(d: Dialect, s: Seq<OrderExprV>, k: nat)
    ensures
        orders_list_render(d, s, k).params == orders_values(s),
    decreases s,
{
    if s.len() > 0 {
        lemma_orders_params(d, s.drop_last(), k);
        lemma_expr_params(d, s.last().expr, k + orders_list_render(d, s.drop_last(), k).params.len());
        assert(orders_list_render(d, s, k).params =~= orders_values(s));
    } else {
        assert(orders_list_render(d, s, k).params =~= orders_values(s));
    }
}

/// Placeholder/parameter correspondence for SELECT: when a SELECT
/// renders, the collector receives exactly the statement's literal
/// occurrences, in left-to-right traversal order — the same sequence for
/// every dialect, so its length never depends on the placeholder
/// notation.
pub proof fn lemma_select_placeholder_correspondence(d: Dialect, s: SelectV, k: nat)
    ensures
        select_render(d, s, k) matches Ok(out) ==> out.params == select_values(s),
{
    if s.selects.len() > 0 {
        let out = select_render(d, s, k)->Ok_0;
        lemma_select_list_params(d, s.selects, k);
        let head = select_head_render(d, s, k);
        let r1p = select_list_values(s.selects);
        lemma_joins_params(d, s.joins, k + r1p.len());
        assert(head.params =~= select_list_values(s.selects) + joins_values(s.joins));
        let kt = k + head.params.len();
        lemma_chain_params(d, s.wheres, kt);
        let f1 = where_render(d, s.wheres, kt);
        lemma_exprs_list_params(d, s.groups, kt + f1.params.len());
        let f2 = r_cat(f1, crate::query::groups_render(d, s.groups, kt + f1.params.len()));
        lemma_chain_params(d, s.having, kt + f2.params.len());
        let f = select_filter_render(d, s, kt);
        assert(f.params =~= chain_values(s.wheres) + exprs_values(s.groups) + chain_values(
            s.having,
        ));
        let ko = kt + f.params.len();
        lemma_orders_params(d, s.orders, ko);
        let t1 = orders_render(d, s.orders, ko);
        let t = select_trailer_render(d, s, ko);
        assert(t.params =~= orders_values(s.orders) + bound_values(s.limit) + bound_values(
            s.offset,
        ));
        assert(out.params =~= select_values(s));
    }
}

/// One row's bound values are exactly that row, in order.
pub proof fn lemma_row_params(d: Dialect, vs: Seq<ValueV>, k: nat)
    ensures
        row_render(d, vs, k).params == vs,
    decreases vs,
{
    if vs.len() > 0 {
        lemma_row_params(d, vs.drop_last(), k);
        assert(row_render(d, vs, k).params =~= vs);
    } else {
        assert(row_render(d, vs, k).params =~= vs);
    }
}

/// The VALUES rows' bound values are the rows, flattened in order.
pub proof fn lemma_rows_params(d: Dialect, rows: Seq<Seq<ValueV>>, k: nat)
    ensures
        rows_render(d, rows, k).params == rows_values(rows),
    decreases rows,
{
    if rows.len() > 0 {
        lemma_rows_params(d, rows.drop_last(), k);
        lemma_row_params(d, rows.last(), k + rows_render(d, rows.drop_last(), k).params.len());
        assert(rows_render(d, rows, k).params =~= rows_values(rows));
    } else {
        assert(rows_render(d, rows, k).params =~= rows_values(rows));
    }
}

/// Placeholder/parameter correspondence for INSERT: when an INSERT
/// renders, the collector receives exactly the inserted rows, flattened
/// left to right, for every dialect.
pub proof fn lemma_insert_placeholder_correspondence(d: Dialect, s: InsertV, k: nat)
    ensures
        insert_render(d, s, k) matches Ok(out) ==> out.params == rows_values(s.values),
{
    if insert_render(d, s, k) is Ok {
        lemma_rows_params(d, s.values, k);
        assert(insert_render(d, s, k)->Ok_0.params =~= rows_values(s.values));
    }
}

/// The SET list's bound values, in order.
pub proof fn lemma_assigns_params(d: Dialect, s: Seq<AssignmentV>, k: nat)
    ensures
        assigns_render(d, s, k).params == assigns_values(s),
    decreases s,
{
    if s.len() > 0 {
        lemma_assigns_params(d, s.drop_last(), k);
        lemma_operand_params(d, s.last().expr, k + assigns_render(d, s.drop_last(), k).params.len());
        assert(assigns_render(d, s, k).params =~= assigns_values(s));
    } else {
        assert(assigns_render(d, s, k).params =~= assigns_values(s));
    }
}

/// The shared WHERE / ORDER BY / LIMIT tail's bound values, in order.
pub proof fn lemma_conditions_tail_params(
    d: Dialect,
    wheres: Seq<LogicalChainOperV>,
    orders: Seq<OrderExprV>,
    limit: Option<u64>,
    k: nat,
)
    ensures
        conditions_tail_render(d, wheres, orders, limit, k).params == chain_values(wheres)
            + orders_values(orders) + bound_values(limit),
{
    lemma_chain_params(d, wheres, k);
    let w = where_render(d, wheres, k);
    lemma_orders_params(d, orders, k + w.params.len());
    assert(conditions_tail_render(d, wheres, orders, limit, k).params =~= chain_values(wheres)
        + orders_values(orders) + bound_values(limit));
}

/// Placeholder/parameter correspondence for UPDATE.
pub proof fn lemma_update_placeholder_correspondence(d: Dialect, s: UpdateV, k: nat)
    ensures
        update_render(d, s, k) matches Ok(out) ==> out.params == update_values(s),
{
    if update_render(d, s, k) is Ok {
        lemma_assigns_params(d, s.assignments, k);
        lemma_conditions_tail_params(
            d,
            s.wheres,
            s.orders,
            s.limit,
            k + assigns_values(s.assignments).len(),
        );
        assert(update_render(d, s, k)->Ok_0.params =~= update_values(s));
    }
}

/// Placeholder/parameter correspondence for DELETE.
pub proof fn lemma_delete_placeholder_correspondence(d: Dialect, s: DeleteV, k: nat)
    ensures
        delete_render(d, s, k) matches Ok(out) ==> out.params == delete_values(s),
{
    if delete_render(d, s, k) is Ok {
        lemma_conditions_tail_params(d, s.wheres, s.orders, s.limit, k);
        assert(delete_render(d, s, k)->Ok_0.params =~= delete_values(s));
    }
}

/// Dialect-specific quoting: every dialect wraps the same underlying name
/// in its own fixed quoting character, and the name is recovered
/// unchanged from between the quotes.  The two quoting styles in use are
/// distinct characters.
pub proof fn lemma_dialect_quoting(name: Seq<char>)
    ensures
        quoted(Dialect::Mysql, name) == seq!['`'] + name + seq!['`'],
        quoted(Dialect::Postgres, name) == seq!['"'] + name + seq!['"'],
        quoted(Dialect::Sqlite, name) == seq!['`'] + name + seq!['`'],
        forall|d: Dialect| (#[trigger] quoted(d, name)).len() == name.len() + 2,
        forall|d: Dialect| (#[trigger] quoted(d, name))[0] == quote_char(d),
        forall|d: Dialect|
            (#[trigger] quoted(d, name)).subrange(1, name.len() as int + 1) =~= name,
        quote_char(Dialect::Mysql) != quote_char(Dialect::Postgres),
{
}

/// Clause-order stability: in a rendered condition chain, each link
/// contributes its own text — the condition, parenthesized exactly when
/// it is a binary node — independent of its position in the chain.
/// Reordering sibling links therefore reorders those pieces left to right
/// but never changes any link's own parenthesization or grouping.  Stated
/// for the dialects with unnumbered placeholders, where a condition's
/// text does not depend on how many values were bound before it.
pub proof fn lemma_chain_order_stability(d: Dialect, cs: Seq<LogicalChainOperV>, k: nat, i: int)
    requires
        !numbered_placeholders(d),
        0 <= i < cs.len(),
    ensures
        chain_render(d, seq![cs[i]], k).text == chain_item_render(d, cs[i], 0).text,
        chain_render(d, cs, k).text == chain_parts_text(d, cs),
{
    lemma_chain_parts(d, cs, k);
    lemma_operand_k_independent(d, chain_expr(cs[i]), k, 0);
    let one = seq![cs[i]];
    assert(one.drop_last() =~= Seq::<LogicalChainOperV>::empty());
    assert(one.last() == cs[i]);
    assert(chain_render(d, Seq::<LogicalChainOperV>::empty(), k) == r_empty());
    assert(one.len() == 1);
    assert(chain_render(d, one, k) == r_cat(
        r_empty(),
        r_cat(r_text(Seq::<char>::empty()), chain_item_render(d, cs[i], k)),
    ));
    assert(chain_render(d, one, k).text =~= chain_item_render(d, cs[i], k).text);
}

/// The text of a chain as the join of per-link pieces, where each piece
/// is a function of its link alone.
pub open spec fn chain_parts_text(d: Dialect, cs: Seq<LogicalChainOperV>) -> Seq<char>
    decreases cs,
{
    if cs.len() == 0 {
        Seq::empty()
    } else {
        chain_parts_text(d, cs.drop_last()) + (if cs.len() == 1 {
            Seq::<char>::empty()
        } else {
            crate::render::chain_sep(cs.last())
        }) + chain_item_render(d, cs.last(), 0).text
    }
}

/// For unnumbered placeholders, an expression renders the same text
/// whatever the numbering base.
pub proof fn lemma_expr_k_independent(d: Dialect, e: ExprV, k1: nat, k2: nat)
    requires
        !numbered_placeholders(d),
    ensures
        expr_render(d, e, k1) == expr_render(d, e, k2),
    decreases e, 0int,
{
    match e {
        ExprV::Column(_) => {},
        ExprV::Value(_) => {},
        ExprV::Unary(_, x) => {
            lemma_operand_k_independent(d, *x, k1, k2);
            assert(expr_render(d, e, k1) =~= expr_render(d, e, k2));
        },
        ExprV::Binary(l, _, r) => {
            lemma_operand_k_independent(d, *l, k1, k2);
            lemma_operand_k_independent(
                d,
                *r,
                k1 + operand_render(d, *l, k1).params.len(),
                k2 + operand_render(d, *l, k2).params.len(),
            );
            assert(expr_render(d, e, k1) =~= expr_render(d, e, k2));
        },
        ExprV::FunctionCall(_, args) => {
            lemma_exprs_list_k_independent(d, args, k1, k2);
            assert(expr_render(d, e, k1) =~= expr_render(d, e, k2));
        },
    }
}

/// For unnumbered placeholders, an operand renders the same text
/// whatever the numbering base.
pub proof fn lemma_operand_k_independent(d: Dialect, e: ExprV, k1: nat, k2: nat)
    requires
        !numbered_placeholders(d),
    ensures
        operand_render(d, e, k1) == operand_render(d, e, k2),
    decreases e, 1int,
{
    lemma_expr_k_independent(d, e, k1, k2);
}

/// For unnumbered placeholders, an expression list renders the same text
/// whatever the numbering base.
pub proof fn lemma_exprs_list_k_independent(d: Dialect, s: Seq<ExprV>, k1: nat, k2: nat)
    requires
        !numbered_placeholders(d),
    ensures
        exprs_list_render(d, s, k1) == exprs_list_render(d, s, k2),
    decreases s, 0int,
{
    if s.len() > 0 {
        lemma_exprs_list_k_independent(d, s.drop_last(), k1, k2);
        lemma_expr_k_independent(
            d,
            s.last(),
            k1 + exprs_list_render(d, s.drop_last(), k1).params.len(),
            k2 + exprs_list_render(d, s.drop_last(), k2).params.len(),
        );
        assert(exprs_list_render(d, s, k1) =~= exprs_list_render(d, s, k2));
    } else {
        assert(exprs_list_render(d, s, k1) =~= exprs_list_render(d, s, k2));
    }
}

/// For unnumbered placeholders, a chain's text is the join of per-link
/// pieces, each depending only on its own link.
pub proof fn lemma_chain_parts(d: Dialect, cs: Seq<LogicalChainOperV>, k: nat)
    requires
        !numbered_placeholders(d),
    ensures
        chain_render(d, cs, k).text == chain_parts_text(d, cs),
    decreases cs,
{
    if cs.len() > 0 {
        lemma_chain_parts(d, cs.drop_last(), k);
        lemma_operand_k_independent(
            d,
            chain_expr(cs.last()),
            k + chain_render(d, cs.drop_last(), k).params.len(),
            0,
        );
        assert(chain_render(d, cs, k).text =~= chain_parts_text(d, cs));
    } else {
        assert(chain_render(d, cs, k).text =~= chain_parts_text(d, cs));
    }
}

/// Idempotent re-render: rendering is a pure function of the statement's
/// model and the dialect, so two renders of the same built statement
/// against the same renderer yield the same text and the same parameter
/// sequence.
pub proof fn lemma_idempotent_rerender(d: Dialect, s: SelectV, k: nat, a: Rendered, b: Rendered)
    requires
        select_render(d, s, k) == Ok::<Rendered, crate::error::RenderError>(a),
        select_render(d, s, k) == Ok::<Rendered, crate::error::RenderError>(b),
    ensures
        a.text == b.text,
        a.params == b.params,
{
}

/// Clone independence: a clone carries the same model, so it renders
/// identically; and because rendering reads only the statement value it
/// is given, no later mutation of the clone can change what the original
/// renders.
pub proof fn lemma_clone_independence(d: Dialect, s: SelectV, c: SelectV, k: nat)
    requires
        c == s,
    ensures
        select_render(d, c, k) == select_render(d, s, k),
{
}

/// Missing-required-field failure: an INSERT with no target table never
/// renders text; it reports the malformed statement.
pub proof fn lemma_insert_missing_table(d: Dialect, s: InsertV, k: nat)
    requires
        s.table is None,
    ensures
        insert_render(d, s, k) == Err::<Rendered, crate::error::RenderError>(
            crate::error::RenderError::MissingTable(crate::error::StatementKind::Insert),
        ),
{
}

/// Index-drop table-clause policy: with name and table both set, a
/// table-scoped dialect renders the table clause after the index name and
/// a schema-scoped dialect omits it, even though the table association
/// was set on the statement either way.
pub proof fn lemma_index_drop_policy(d: Dialect, s: crate::index::IndexDropV)
    requires
        s.index.name is Some,
        s.table is Some,
    ensures
        crate::index::index_drop_render(d, s) matches Ok(t) && t == "DROP INDEX "@ + quoted(
            d,
            s.index.name->0,
        ) + (if crate::dialect::table_scoped_indexes(d) {
            " ON "@ + quoted(d, s.table->0)
        } else {
            Seq::<char>::empty()
        }),
{
}

} // verus!
