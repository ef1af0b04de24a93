//! Which rows the lists of a repository hold.

use vstd::prelude::*;
use vstd::string::*;

use crate::filter_states::{states_of, FilterState, ValueVirtualState, VirtualState};
use crate::filters_struct::{
    filter_patterns, filter_scrutinee, matches_pattern, virtual_conditions, with_any_states,
    with_filters, with_values, Bound,
};
use crate::list_by_fn::ListByFn;
use crate::list_for_filters_fn::{scope_bound, ListForFiltersFn, QueryCase};
use crate::list_for_fn::ListForFn;
use crate::options::column::Column;
use crate::options::delete::DeleteOption;
use crate::scope::ScopeCol;
use crate::sql::{
    all_hold, cursor_in, follows, given_conditions, holds_page, is_cursor, is_ordered,
    page_is_meant, stored, written, Args, Expr, PageQuery, Record,
};
use crate::text::{decimal, param};

verus! {

/// The variant of a list whose function is named with the postfix
/// `_include_deleted`, or without it.
pub open spec fn variant_of(with_deleted: bool) -> DeleteOption {
    if with_deleted {
        DeleteOption::Soft
    } else {
        DeleteOption::No
    }
}

/// Whether a list holds a row as far as deletion goes: rows that are marked as
/// deleted are left out, unless the function is named with the postfix
/// `_include_deleted`. A repository that deletes nothing marks nothing.
pub open spec fn lives(delete: DeleteOption, with_deleted: bool, row: Record) -> bool {
    delete == DeleteOption::No || with_deleted || !row.deleted
}

/// Whether a row belongs to the scope: its value of the scope's column is the
/// one that the parameter holds.
pub open spec fn in_scope(scope: Option<ScopeCol>, n: nat, row: Record, args: Args) -> bool {
    scope matches Some(col) ==> args(n) is Some && (row.fields)(col.column_name@) == args(n)
}

spec fn scope_exprs(scope: Option<ScopeCol>, n: nat) -> Seq<Expr> {
    match scope {
        Some(col) => seq![Expr::Equal(col.column_name@, n)],
        None => Seq::empty(),
    }
}

spec fn live_exprs(delete: DeleteOption, with_deleted: bool) -> Seq<Expr> {
    if delete != DeleteOption::No && !with_deleted {
        seq![Expr::Live]
    } else {
        Seq::empty()
    }
}

proof fn scope_is_meant(scope: Option<ScopeCol>, n: nat, row: Record, args: Args)
    ensures
        all_hold(scope_exprs(scope, n), row, args) <==> in_scope(scope, n, row, args),
{
    let exprs = scope_exprs(scope, n);
    if scope is Some {
        assert(exprs[0].truth(row, args) == Some(true) <==> in_scope(scope, n, row, args));
    }
}

proof fn scope_is_written(scope: Option<ScopeCol>, n: nat)
    ensures
        written(scope_exprs(scope, n)) == (match scope {
            Some(col) => seq![col.condition(n)],
            None => Seq::empty(),
        }),
{
    assert(written(scope_exprs(scope, n)) =~= (match scope {
        Some(col) => seq![col.condition(n)],
        None => Seq::empty(),
    }));
}

proof fn live_is_meant(delete: DeleteOption, with_deleted: bool, row: Record, args: Args)
    ensures
        all_hold(live_exprs(delete, with_deleted), row, args) <==> lives(delete, with_deleted, row),
{
    let exprs = live_exprs(delete, with_deleted);
    if exprs.len() > 0 {
        assert(exprs[0].truth(row, args) == Some(true) <==> !row.deleted);
    }
}

proof fn live_is_written(delete: DeleteOption, with_deleted: bool)
    ensures
        written(live_exprs(delete, with_deleted)) == crate::list_by_fn::not_deleted(
            variant_of(with_deleted),
            delete,
        ),
{
    assert(written(live_exprs(delete, with_deleted)) =~= crate::list_by_fn::not_deleted(
        variant_of(with_deleted),
        delete,
    ));
}

proof fn both_hold(a: Seq<Expr>, b: Seq<Expr>, row: Record, args: Args)
    ensures
        all_hold(a + b, row, args) <==> all_hold(a, row, args) && all_hold(b, row, args),
{
    let all = a + b;
    if all_hold(all, row, args) {
        assert forall|i: int| 0 <= i < a.len() implies (#[trigger] a[i]).truth(row, args) == Some(
            true,
        ) by {
            assert(all[i] == a[i]);
        }
        assert forall|i: int| 0 <= i < b.len() implies (#[trigger] b[i]).truth(row, args) == Some(
            true,
        ) by {
            assert(all[a.len() + i] == b[i]);
        }
    }
}

proof fn one_more_holds(a: Seq<Expr>, e: Expr, row: Record, args: Args)
    ensures
        all_hold(a.push(e), row, args) <==> all_hold(a, row, args) && e.truth(row, args) == Some(
            true,
        ),
{
    both_hold(a, seq![e], row, args);
    assert(a + seq![e] =~= a.push(e));
    if all_hold(seq![e], row, args) {
        assert(seq![e][0].truth(row, args) == Some(true));
    }
}

proof fn same_page(
    q: PageQuery,
    c: Column,
    ascending: bool,
    offset: nat,
    a: spec_fn(Record, Args) -> bool,
    b: spec_fn(Record, Args) -> bool,
)
    requires
        holds_page(q, c, ascending, offset, a),
        forall|row: Record, args: Args| #[trigger] a(row, args) == b(row, args),
    ensures
        holds_page(q, c, ascending, offset, b),
{
    assert forall|row: Record, args: Args|
        stored(c, row) && is_cursor(c, cursor_in(args, offset + 2)) implies (#[trigger] q.finds(
        row,
        args,
    ) <==> b(row, args) && follows(c, ascending, row, cursor_in(args, offset + 2))) by {
        assert(a(row, args) == b(row, args));
    }
}

/// The list that is sorted by a column holds, page by page, the rows of the
/// scope that are not deleted, and the deleted ones too where its name says so.
pub proof fn list_by_holds(
    f: &ListByFn,
    with_deleted: bool,
    scope: Option<ScopeCol>,
    ascending: bool,
) -> (q: PageQuery)
    ensures
        f.query(variant_of(with_deleted), scope, ascending) == q.text(),
        q.table == f.table_name@,
        holds_page(
            q,
            *f.column,
            ascending,
            if scope is Some {
                1
            } else {
                0
            },
            |row: Record, args: Args|
                lives(f.delete, with_deleted, row) && in_scope(scope, 1, row, args),
        ),
{
    let offset: nat = if scope is Some {
        1
    } else {
        0
    };
    let leading = scope_exprs(scope, 1);
    let trailing = live_exprs(f.delete, with_deleted);
    scope_is_written(scope, 1);
    live_is_written(f.delete, with_deleted);
    let cursor = f.cursor_spec();
    let q = page_is_meant(
        &cursor,
        cursor.selected(None),
        f.table_name@,
        leading,
        trailing,
        offset,
        ascending,
    );
    let given = given_conditions(leading, trailing);
    let wanted = |row: Record, args: Args|
        lives(f.delete, with_deleted, row) && in_scope(scope, 1, row, args);
    assert forall|row: Record, args: Args| #[trigger] given(row, args) == wanted(row, args) by {
        scope_is_meant(scope, 1, row, args);
        live_is_meant(f.delete, with_deleted, row, args);
    }
    same_page(q, *f.column, ascending, offset, given, wanted);
    q
}

/// Whether the value of a row's column is the one that is looked for: NULL is
/// looked for in a column that is an `Option`, where it is the same as NULL and
/// differs from every value.
pub open spec fn is_value(c: Column, n: nat, row: Record, args: Args) -> bool {
    (row.fields)(c.name@) == args(n) && (c.optional() || args(n) is Some)
}

/// The list for a value of a column holds, page by page, the rows of the scope
/// with just that value that are not deleted, and the deleted ones too where its
/// name says so.
pub proof fn list_for_holds(
    f: &ListForFn,
    with_deleted: bool,
    scope: Option<ScopeCol>,
    ascending: bool,
) -> (q: PageQuery)
    ensures
        f.query(variant_of(with_deleted), scope, ascending) == q.text(),
        q.table == f.table_name@,
        holds_page(
            q,
            *f.by_column,
            ascending,
            if scope is Some {
                2
            } else {
                1
            },
            |row: Record, args: Args|
                is_value(*f.for_column, 1, row, args) && lives(f.delete, with_deleted, row)
                    && in_scope(scope, 2, row, args),
        ),
{
    reveal_with_fuel(Expr::text, 2);
    let offset: nat = if scope is Some {
        2
    } else {
        1
    };
    let name = f.for_column.name@;
    let compared = if f.for_column.optional() {
        Expr::NotDistinct(name, 1)
    } else {
        Expr::Equal(name, 1)
    };
    let filter = Expr::Brackets(Box::new(compared));
    let leading = seq![filter] + scope_exprs(scope, 2);
    let trailing = live_exprs(f.delete, with_deleted);
    scope_is_written(scope, 2);
    live_is_written(f.delete, with_deleted);
    assert(filter.text() =~= f.condition()) by {
        reveal_strlit(" = ");
        reveal_strlit("=");
        reveal_strlit(" ");
        reveal_strlit(" IS NOT DISTINCT FROM ");
        reveal_strlit("IS NOT DISTINCT FROM");
        reveal_strlit(" $1)");
        reveal_strlit("$");
        reveal_strlit("1");
        reveal_strlit(")");
        assert(param(1) =~= "$"@ + "1"@) by {
            reveal_with_fuel(decimal, 1);
        }
        assert(" = "@ =~= " "@ + "="@ + " "@);
        assert(" IS NOT DISTINCT FROM "@ =~= " "@ + "IS NOT DISTINCT FROM"@ + " "@);
        assert(" $1)"@ =~= " "@ + "$"@ + "1"@ + ")"@);
    }
    assert(written(leading) =~= (match scope {
        Some(col) => seq![f.condition(), col.condition(2)],
        None => seq![f.condition()],
    })) by {
        assert(written(leading) =~= seq![f.condition()] + written(scope_exprs(scope, 2)));
    }
    let cursor = f.cursor_spec();
    let q = page_is_meant(
        &cursor,
        cursor.selected(Some(name)),
        f.table_name@,
        leading,
        trailing,
        offset,
        ascending,
    );
    let given = given_conditions(leading, trailing);
    let wanted = |row: Record, args: Args|
        is_value(*f.for_column, 1, row, args) && lives(f.delete, with_deleted, row) && in_scope(
            scope,
            2,
            row,
            args,
        );
    assert forall|row: Record, args: Args| #[trigger] given(row, args) == wanted(row, args) by {
        scope_is_meant(scope, 2, row, args);
        live_is_meant(f.delete, with_deleted, row, args);
        both_hold(seq![filter], scope_exprs(scope, 2), row, args);
        reveal_with_fuel(Expr::truth, 2);
        assert(seq![filter][0] == filter);
        assert(filter.truth(row, args) == Some(true) <==> is_value(*f.for_column, 1, row, args));
    }
    same_page(q, *f.by_column, ascending, offset, given, wanted);
    q
}

/// What the filters of a list are set to, by the names of their columns: nothing
/// where a filter is not applied, and otherwise the value that is looked for,
/// which is NULL where it is nothing.
pub type Filters = spec_fn(Seq<char>) -> Option<Option<int>>;

/// What the arguments of a query hold, by the way they are written.
pub type Env = spec_fn(Seq<char>) -> Option<int>;

/// Whether the parameters hold what the arguments hold, each the one at its
/// place.
pub open spec fn bound_to(args: Args, texts: Seq<Seq<char>>, env: Env) -> bool {
    forall|i: int| 0 <= i < texts.len() ==> args((i + 1) as nat) == env(#[trigger] texts[i])
}

/// Whether the arguments hold what the filter by a column is set to. With a
/// column that is an `Option` a flag tells whether the filter is applied.
pub open spec fn tells_filter(env: Env, c: Column, filter: Option<Option<int>>) -> bool {
    let local = "filter_"@ + c.name@;
    if c.optional() {
        &&& env("apply_"@ + c.name@ + " as bool"@) == Some(
            if filter is Some {
                1int
            } else {
                0
            },
        )
        &&& filter matches Some(value) ==> env(local + " as "@ + c.opts.ty.text@) == value
    } else {
        &&& filter matches Some(value) ==> value is Some
        &&& env(local + " as Option<"@ + c.opts.ty.text@ + ">"@) == (match filter {
            Some(value) => value,
            None => None,
        })
    }
}

/// Whether the arguments hold what the filters are set to.
pub open spec fn tells_filters(env: Env, cols: Seq<Column>, filters: Filters) -> bool {
    forall|i: int|
        0 <= i < cols.len() ==> tells_filter(env, #[trigger] cols[i], filters(cols[i].name@))
}

/// Whether a row has the value that the filter by a column looks for.
pub open spec fn meets_filter(c: Column, filter: Option<Option<int>>, row: Record) -> bool {
    filter matches Some(value) ==> (row.fields)(c.name@) == value
}

/// Whether a row has the values that all the filters look for.
pub open spec fn meets_filters(cols: Seq<Column>, filters: Filters, row: Record) -> bool {
    forall|i: int|
        0 <= i < cols.len() ==> meets_filter(#[trigger] cols[i], filters(cols[i].name@), row)
}

/// The state of the filter by a column.
pub open spec fn state_for(c: Column, filter: Option<Option<int>>) -> FilterState {
    match filter {
        None => FilterState::Absent,
        Some(value) => if !c.optional() {
            FilterState::Present
        } else if value is None {
            FilterState::PresentNull
        } else {
            FilterState::PresentValue
        },
    }
}

/// Conditions that bind parameters, and the next parameter.
type Binding = (Seq<Expr>, nat);

spec fn any_state_expr(c: Column, n: nat) -> Expr {
    let name = c.name@;
    if c.optional() {
        Expr::Brackets(
            Box::new(
                Expr::Either(
                    Box::new(Expr::Not(Box::new(Expr::Flag(n)))),
                    Box::new(Expr::NotDistinct(name, n + 1)),
                ),
            ),
        )
    } else {
        Expr::Coalesce(
            Box::new(Expr::Equal(name, n)),
            Box::new(Expr::ParamNull(n, true)),
        )
    }
}

spec fn any_state_exprs(cols: Seq<Column>, start: Binding) -> Binding
    decreases cols.len(),
{
    if cols.len() == 0 {
        start
    } else {
        let front = any_state_exprs(cols.drop_last(), start);
        (
            front.0.push(any_state_expr(cols.last(), front.1)),
            if cols.last().optional() {
                front.1 + 2
            } else {
                front.1 + 1
            },
        )
    }
}

spec fn binds(b: Bound, e: Binding) -> bool {
    b.0 == written(e.0) && b.2 == e.1 && b.1.len() + 1 == b.2
}

proof fn written_one_more(a: Seq<Expr>, e: Expr)
    ensures
        written(a.push(e)) == written(a).push(e.text()),
{
    assert(written(a.push(e)) =~= written(a).push(e.text()));
}

proof fn any_state_is_written(c: Column, n: nat, b: Bound)
    requires
        b.2 == n,
    ensures
        any_state_expr(c, n).text() == crate::filters_struct::with_any_state(c, b).0.last(),
{
    reveal_with_fuel(Expr::text, 4);
    reveal_strlit("(NOT ");
    reveal_strlit("(");
    reveal_strlit("NOT ");
    reveal_strlit(" IS NULL");
    reveal_strlit(" IS NULL)");
    reveal_strlit(")");
    assert("(NOT "@ =~= "("@ + "NOT "@);
    assert(" IS NULL)"@ =~= " IS NULL"@ + ")"@);
    assert(any_state_expr(c, n).text() =~= crate::filters_struct::with_any_state(c, b).0.last());
}

proof fn any_states_are_written(cols: Seq<Column>, b: Bound, e: Binding)
    requires
        binds(b, e),
    ensures
        binds(with_any_states(cols, b), any_state_exprs(cols, e)),
    decreases cols.len(),
{
    if cols.len() > 0 {
        let front = any_state_exprs(cols.drop_last(), e);
        let bound = with_any_states(cols.drop_last(), b);
        any_states_are_written(cols.drop_last(), b, e);
        any_state_is_written(cols.last(), front.1, bound);
        written_one_more(front.0, any_state_expr(cols.last(), front.1));
        let next = with_any_states(cols, b);
        assert(next.0 == bound.0.push(next.0.last()));
    }
}

proof fn bound_to_front(args: Args, a: Seq<Seq<char>>, b: Seq<Seq<char>>, env: Env)
    requires
        bound_to(args, a + b, env),
    ensures
        bound_to(args, a, env),
        forall|i: int| 0 <= i < b.len() ==> args((a.len() + i + 1) as nat) == env(#[trigger] b[i]),
{
    assert forall|i: int| 0 <= i < a.len() implies args((i + 1) as nat) == env(
        #[trigger] a[i],
    ) by {
        assert((a + b)[i] == a[i]);
    }
    assert forall|i: int| 0 <= i < b.len() implies args((a.len() + i + 1) as nat) == env(
        #[trigger] b[i],
    ) by {
        assert((a + b)[a.len() + i] == b[i]);
    }
}

proof fn tells_front(env: Env, cols: Seq<Column>, filters: Filters)
    requires
        tells_filters(env, cols, filters),
        cols.len() > 0,
    ensures
        tells_filters(env, cols.drop_last(), filters),
        tells_filter(env, cols.last(), filters(cols.last().name@)),
{
    assert forall|i: int| 0 <= i < cols.len() - 1 implies tells_filter(
        env,
        #[trigger] cols.drop_last()[i],
        filters(cols.drop_last()[i].name@),
    ) by {
        assert(cols.drop_last()[i] == cols[i]);
    }
    assert(cols.last() == cols[cols.len() - 1]);
}

proof fn meets_front(cols: Seq<Column>, filters: Filters, row: Record)
    requires
        cols.len() > 0,
    ensures
        meets_filters(cols, filters, row) <==> meets_filters(cols.drop_last(), filters, row)
            && meets_filter(cols.last(), filters(cols.last().name@), row),
{
    let front = cols.drop_last();
    if meets_filters(cols, filters, row) {
        assert forall|i: int| 0 <= i < front.len() implies meets_filter(
            #[trigger] front[i],
            filters(front[i].name@),
            row,
        ) by {
            assert(front[i] == cols[i]);
        }
        assert(cols.last() == cols[cols.len() - 1]);
    }
    if meets_filters(front, filters, row) && meets_filter(
        cols.last(),
        filters(cols.last().name@),
        row,
    ) {
        assert forall|i: int| 0 <= i < cols.len() implies meets_filter(
            #[trigger] cols[i],
            filters(cols[i].name@),
            row,
        ) by {
            if i < front.len() {
                assert(front[i] == cols[i]);
            }
        }
    }
}

proof fn any_states_are_meant(
    cols: Seq<Column>,
    b: Bound,
    e: Binding,
    filters: Filters,
    env: Env,
    row: Record,
    args: Args,
)
    requires
        binds(b, e),
        tells_filters(env, cols, filters),
        bound_to(args, with_any_states(cols, b).1, env),
    ensures
        bound_to(args, b.1, env),
        all_hold(any_state_exprs(cols, e).0, row, args) <==> all_hold(e.0, row, args)
            && meets_filters(cols, filters, row),
    decreases cols.len(),
{
    if cols.len() > 0 {
        let c = cols.last();
        let front = any_state_exprs(cols.drop_last(), e);
        let bound = with_any_states(cols.drop_last(), b);
        any_states_are_written(cols.drop_last(), b, e);
        bound_to_front(args, bound.1, crate::filters_struct::filter_args(c), env);
        tells_front(env, cols, filters);
        any_states_are_meant(cols.drop_last(), b, e, filters, env, row, args);
        meets_front(cols, filters, row);
        let expr = any_state_expr(c, front.1);
        one_more_holds(front.0, expr, row, args);
        let texts = crate::filters_struct::filter_args(c);
        assert(args(front.1) == env(texts[0]));
        if c.optional() {
            assert(args((front.1 + 1) as nat) == env(texts[1]));
        }
        any_state_is_meant(c, front.1, filters(c.name@), env, row, args);
    }
}

proof fn any_state_is_meant(
    c: Column,
    n: nat,
    filter: Option<Option<int>>,
    env: Env,
    row: Record,
    args: Args,
)
    requires
        tells_filter(env, c, filter),
        args(n) == env(crate::filters_struct::filter_args(c)[0]),
        c.optional() ==> args(n + 1) == env(crate::filters_struct::filter_args(c)[1]),
    ensures
        any_state_expr(c, n).truth(row, args) == Some(true) <==> meets_filter(c, filter, row),
{
    reveal_with_fuel(Expr::truth, 4);
}

spec fn state_expr(c: Column, state: FilterState, n: nat) -> Expr {
    if state == FilterState::PresentNull {
        Expr::Null(c.name@, true)
    } else {
        Expr::Equal(c.name@, n)
    }
}

spec fn combo_exprs(cols: Seq<Column>, combo: Seq<FilterState>, start: Binding) -> Binding
    decreases cols.len(),
{
    if cols.len() == 0 {
        start
    } else {
        let front = combo_exprs(cols.drop_last(), combo.drop_last(), start);
        let state = combo.last();
        if state == FilterState::Absent {
            front
        } else {
            (
                front.0.push(state_expr(cols.last(), state, front.1)),
                if state == FilterState::PresentNull {
                    front.1
                } else {
                    front.1 + 1
                },
            )
        }
    }
}

/// Whether the states are those of the filters.
pub open spec fn states_for(cols: Seq<Column>, combo: Seq<FilterState>, filters: Filters) -> bool {
    &&& combo.len() == cols.len()
    &&& forall|i: int|
        0 <= i < cols.len() ==> #[trigger] combo[i] == state_for(cols[i], filters(cols[i].name@))
}

proof fn states_front(cols: Seq<Column>, combo: Seq<FilterState>, filters: Filters)
    requires
        states_for(cols, combo, filters),
        cols.len() > 0,
    ensures
        states_for(cols.drop_last(), combo.drop_last(), filters),
        combo.last() == state_for(cols.last(), filters(cols.last().name@)),
{
    assert forall|i: int| 0 <= i < cols.len() - 1 implies #[trigger] combo.drop_last()[i]
        == state_for(cols.drop_last()[i], filters(cols.drop_last()[i].name@)) by {
        assert(combo.drop_last()[i] == combo[i]);
    }
    assert(combo.last() == combo[cols.len() - 1]);
}

proof fn combo_is_written(
    cols: Seq<Column>,
    combo: Seq<FilterState>,
    filters: Filters,
    b: Bound,
    e: Binding,
)
    requires
        binds(b, e),
        states_for(cols, combo, filters),
    ensures
        binds(with_filters(cols, combo, b), combo_exprs(cols, combo, e)),
    decreases cols.len(),
{
    if cols.len() > 0 {
        let c = cols.last();
        let front = combo_exprs(cols.drop_last(), combo.drop_last(), e);
        states_front(cols, combo, filters);
        combo_is_written(cols.drop_last(), combo.drop_last(), filters, b, e);
        let expr = state_expr(c, combo.last(), front.1);
        written_one_more(front.0, expr);
    }
}

proof fn combo_is_meant(
    cols: Seq<Column>,
    combo: Seq<FilterState>,
    b: Bound,
    e: Binding,
    filters: Filters,
    env: Env,
    row: Record,
    args: Args,
)
    requires
        binds(b, e),
        states_for(cols, combo, filters),
        tells_filters(env, cols, filters),
        bound_to(args, with_filters(cols, combo, b).1, env),
    ensures
        bound_to(args, b.1, env),
        all_hold(combo_exprs(cols, combo, e).0, row, args) <==> all_hold(e.0, row, args)
            && meets_filters(cols, filters, row),
    decreases cols.len(),
{
    if cols.len() > 0 {
        let c = cols.last();
        let state = combo.last();
        let front = combo_exprs(cols.drop_last(), combo.drop_last(), e);
        let bound = with_filters(cols.drop_last(), combo.drop_last(), b);
        states_front(cols, combo, filters);
        combo_is_written(cols.drop_last(), combo.drop_last(), filters, b, e);
        let now = with_filters(cols, combo, b);
        let more = now.1.skip(bound.1.len() as int);
        assert(now.1 =~= bound.1 + more);
        bound_to_front(args, bound.1, more, env);
        tells_front(env, cols, filters);
        combo_is_meant(
            cols.drop_last(),
            combo.drop_last(),
            b,
            e,
            filters,
            env,
            row,
            args,
        );
        meets_front(cols, filters, row);
        if state != FilterState::Absent {
            let expr = state_expr(c, state, front.1);
            one_more_holds(front.0, expr, row, args);
            if state != FilterState::PresentNull {
                assert(args(front.1) == env(more[0]));
            }
            assert(expr.truth(row, args) == Some(true) <==> meets_filter(
                c,
                filters(c.name@),
                row,
            ));
        }
    }
}

/// Whether a row is as the filter by a condition asks: the condition is true of
/// it, or false.
pub open spec fn meets_flag(c: Column, state: VirtualState, row: Record) -> bool {
    match state {
        VirtualState::Absent => true,
        VirtualState::True => (row.meets)(c.virtual_text(), None) == Some(true),
        VirtualState::False => (row.meets)(c.virtual_text(), None) == Some(false),
    }
}

/// Whether a row is as all the filters by conditions ask.
pub open spec fn meets_flags(cols: Seq<Column>, states: Seq<VirtualState>, row: Record) -> bool {
    forall|i: int| 0 <= i < cols.len() ==> meets_flag(#[trigger] cols[i], states[i], row)
}

/// Whether a condition is true of a row, with the value that the filter by it is
/// set to.
pub open spec fn meets_value(c: Column, state: ValueVirtualState, env: Env, row: Record) -> bool {
    state == ValueVirtualState::Present ==> (row.meets)(
        c.virtual_text(),
        env("filter_"@ + c.name@ + " as Option<"@ + c.opts.ty.text@ + ">"@),
    ) == Some(true)
}

/// Whether all the conditions that are filtered by with a value are true of a
/// row.
pub open spec fn meets_values(
    cols: Seq<Column>,
    states: Seq<ValueVirtualState>,
    env: Env,
    row: Record,
) -> bool {
    forall|i: int| 0 <= i < cols.len() ==> meets_value(#[trigger] cols[i], states[i], env, row)
}

spec fn flag_expr(c: Column, state: VirtualState) -> Expr {
    let condition = Expr::Brackets(Box::new(Expr::Written(c.virtual_text())));
    if state == VirtualState::True {
        condition
    } else {
        Expr::Not(Box::new(condition))
    }
}

spec fn flag_exprs(cols: Seq<Column>, combo: Seq<VirtualState>) -> Seq<Expr>
    decreases cols.len(),
{
    if cols.len() == 0 {
        Seq::empty()
    } else {
        let front = flag_exprs(cols.drop_last(), combo.drop_last());
        if combo.last() == VirtualState::Absent {
            front
        } else {
            front.push(flag_expr(cols.last(), combo.last()))
        }
    }
}

proof fn flags_are_written(cols: Seq<Column>, combo: Seq<VirtualState>)
    ensures
        written(flag_exprs(cols, combo)) == virtual_conditions(cols, combo),
    decreases cols.len(),
{
    if cols.len() == 0 {
        assert(written(flag_exprs(cols, combo)) =~= virtual_conditions(cols, combo));
    } else {
        flags_are_written(cols.drop_last(), combo.drop_last());
        let front = flag_exprs(cols.drop_last(), combo.drop_last());
        let expr = flag_expr(cols.last(), combo.last());
        written_one_more(front, expr);
        reveal_with_fuel(Expr::text, 3);
        reveal_strlit("NOT (");
        reveal_strlit("NOT ");
        reveal_strlit("(");
        assert("NOT ("@ =~= "NOT "@ + "("@);
        let text = cols.last().virtual_text();
        assert("NOT ("@ + text + ")"@ =~= "NOT "@ + ("("@ + text + ")"@));
    }
}

proof fn flags_are_meant(cols: Seq<Column>, combo: Seq<VirtualState>, row: Record, args: Args)
    requires
        cols.len() == combo.len(),
    ensures
        all_hold(flag_exprs(cols, combo), row, args) <==> meets_flags(cols, combo, row),
    decreases cols.len(),
{
    if cols.len() > 0 {
        let front = cols.drop_last();
        let states = combo.drop_last();
        flags_are_meant(front, states, row, args);
        reveal_with_fuel(Expr::truth, 3);
        let expr = flag_expr(cols.last(), combo.last());
        one_more_holds(flag_exprs(front, states), expr, row, args);
        assert(combo.last() != VirtualState::Absent ==> (expr.truth(row, args) == Some(true)
            <==> meets_flag(cols.last(), combo.last(), row)));
        if meets_flags(cols, combo, row) {
            assert forall|i: int| 0 <= i < front.len() implies meets_flag(
                #[trigger] front[i],
                states[i],
                row,
            ) by {
                assert(front[i] == cols[i]);
            }
            assert(meets_flag(cols[cols.len() - 1], combo[cols.len() - 1], row));
        }
        if meets_flags(front, states, row) && meets_flag(cols.last(), combo.last(), row) {
            assert forall|i: int| 0 <= i < cols.len() implies meets_flag(
                #[trigger] cols[i],
                combo[i],
                row,
            ) by {
                if i < front.len() {
                    assert(front[i] == cols[i]);
                }
            }
        }
    }
}

spec fn value_exprs(cols: Seq<Column>, combo: Seq<ValueVirtualState>, start: Binding) -> Binding
    decreases cols.len(),
{
    if cols.len() == 0 {
        start
    } else {
        let front = value_exprs(cols.drop_last(), combo.drop_last(), start);
        if combo.last() == ValueVirtualState::Absent {
            front
        } else {
            (
                front.0.push(
                    Expr::Brackets(Box::new(Expr::Filled(cols.last().virtual_text(), front.1))),
                ),
                front.1 + 1,
            )
        }
    }
}

proof fn values_are_written(
    cols: Seq<Column>,
    combo: Seq<ValueVirtualState>,
    b: Bound,
    e: Binding,
)
    requires
        binds(b, e),
    ensures
        binds(with_values(cols, combo, b), value_exprs(cols, combo, e)),
    decreases cols.len(),
{
    if cols.len() > 0 {
        values_are_written(cols.drop_last(), combo.drop_last(), b, e);
        let front = value_exprs(cols.drop_last(), combo.drop_last(), e);
        let expr = Expr::Brackets(Box::new(Expr::Filled(cols.last().virtual_text(), front.1)));
        written_one_more(front.0, expr);
        reveal_with_fuel(Expr::text, 2);
    }
}

proof fn values_are_meant(
    cols: Seq<Column>,
    combo: Seq<ValueVirtualState>,
    b: Bound,
    e: Binding,
    env: Env,
    row: Record,
    args: Args,
)
    requires
        cols.len() == combo.len(),
        binds(b, e),
        bound_to(args, with_values(cols, combo, b).1, env),
    ensures
        bound_to(args, b.1, env),
        all_hold(value_exprs(cols, combo, e).0, row, args) <==> all_hold(e.0, row, args)
            && meets_values(cols, combo, env, row),
    decreases cols.len(),
{
    if cols.len() > 0 {
        let c = cols.last();
        let front = cols.drop_last();
        let states = combo.drop_last();
        let before = value_exprs(front, states, e);
        let bound = with_values(front, states, b);
        values_are_written(front, states, b, e);
        let now = with_values(cols, combo, b);
        let more = now.1.skip(bound.1.len() as int);
        assert(now.1 =~= bound.1 + more);
        bound_to_front(args, bound.1, more, env);
        values_are_meant(front, states, b, e, env, row, args);
        let expr = Expr::Brackets(Box::new(Expr::Filled(c.virtual_text(), before.1)));
        if combo.last() == ValueVirtualState::Present {
            one_more_holds(before.0, expr, row, args);
            reveal_with_fuel(Expr::truth, 2);
            assert(args(before.1) == env(more[0]));
            assert(expr.truth(row, args) == Some(true) <==> meets_value(
                c,
                combo.last(),
                env,
                row,
            ));
        }
        if meets_values(cols, combo, env, row) {
            assert forall|i: int| 0 <= i < front.len() implies meets_value(
                #[trigger] front[i],
                states[i],
                env,
                row,
            ) by {
                assert(front[i] == cols[i]);
            }
            assert(meets_value(cols[cols.len() - 1], combo[cols.len() - 1], env, row));
        }
        if meets_values(front, states, env, row) && meets_value(c, combo.last(), env, row) {
            assert forall|i: int| 0 <= i < cols.len() implies meets_value(
                #[trigger] cols[i],
                combo[i],
                env,
                row,
            ) by {
                if i < front.len() {
                    assert(front[i] == cols[i]);
                }
            }
        }
    }
}

/// What a query binds for the filters by columns: those of a combination of
/// their states, or those of all states.
pub open spec fn filters_bound(
    f: &ListForFiltersFn,
    scope: Option<&ScopeCol>,
    combo: Option<Seq<FilterState>>,
) -> Bound {
    match combo {
        Some(combo) => with_filters(f.fcols(), combo, scope_bound(scope)),
        None => with_any_states(f.fcols(), scope_bound(scope)),
    }
}

/// Whether a list holds a row: it is one of the scope and not left out as
/// deleted, it has the values that the filters look for, and it is as the
/// filters by conditions ask.
pub open spec fn is_listed(
    f: &ListForFiltersFn,
    with_deleted: bool,
    scope: Option<&ScopeCol>,
    filters: Filters,
    virtuals: Seq<VirtualState>,
    values: Seq<ValueVirtualState>,
    env: Env,
    row: Record,
) -> bool {
    &&& lives(f.delete, with_deleted, row)
    &&& scope matches Some(col) ==> {
        let value = env("__scope_val as &"@ + col.column_ty@);
        value is Some && (row.fields)(col.column_name@) == value
    }
    &&& meets_filters(f.fcols(), filters, row)
    &&& meets_flags(f.bcols(), virtuals, row)
    &&& meets_values(f.vcols(), values, env, row)
}

/// The list for any combination of filters holds, page by page, the rows of the
/// scope that meet all the filters that are applied and are not deleted, and the
/// deleted ones too where its name says so. So does the query for a combination
/// of the filters' states, where it is that of the filters, and the query for
/// all states.
pub proof fn list_for_filters_holds(
    f: &ListForFiltersFn,
    by: &Column,
    with_deleted: bool,
    scope: Option<&ScopeCol>,
    ascending: bool,
    combo: Option<Seq<FilterState>>,
    virtuals: Seq<VirtualState>,
    values: Seq<ValueVirtualState>,
    example: Filters,
) -> (q: PageQuery)
    requires
        virtuals.len() == f.bcols().len(),
        values.len() == f.vcols().len(),
        combo matches Some(combo) ==> states_for(f.fcols(), combo, example),
    ensures
        ({
            let case = QueryCase { by, variant: variant_of(with_deleted), scope, ascending };
            let front = filters_bound(f, scope, combo);
            let bound = f.rest_bound(case, front, virtuals, values);
            let id: nat = bound.1.len() + 2;
            &&& f.query(case, front, virtuals, values) == q.text()
            &&& q.table == f.table_name@
            &&& q.limit == bound.1.len() + 1
            &&& is_ordered(q, *by, ascending)
            &&& forall|filters: Filters, env: Env, row: Record, args: Args|
                (combo matches Some(combo) ==> states_for(f.fcols(), combo, filters))
                    && #[trigger] tells_filters(env, f.fcols(), filters) && bound_to(
                    args,
                    bound.1,
                    env,
                ) && stored(*by, row) && is_cursor(*by, cursor_in(args, id)) ==> (
                #[trigger] q.finds(row, args) <==> is_listed(
                    f,
                    with_deleted,
                    scope,
                    filters,
                    virtuals,
                    values,
                    env,
                    row,
                ) && follows(*by, ascending, row, cursor_in(args, id)))
        }),
{
    let case = QueryCase { by, variant: variant_of(with_deleted), scope, ascending };
    let front = filters_bound(f, scope, combo);
    let bound = f.rest_bound(case, front, virtuals, values);
    let owned = match scope {
        Some(col) => Some(*col),
        None => None,
    };
    let start_bound = scope_bound(scope);
    let start: Binding = (scope_exprs(owned, 1), start_bound.2);
    scope_is_written(owned, 1);
    assert(binds(start_bound, start));
    let first: Binding = match combo {
        Some(combo) => combo_exprs(f.fcols(), combo, start),
        None => any_state_exprs(f.fcols(), start),
    };
    match combo {
        Some(combo) => {
            combo_is_written(f.fcols(), combo, example, start_bound, start);
        },
        None => {
            any_states_are_written(f.fcols(), start_bound, start);
        },
    }
    assert(binds(front, first));
    let live = live_exprs(f.delete, with_deleted);
    let flags = flag_exprs(f.bcols(), virtuals);
    live_is_written(f.delete, with_deleted);
    flags_are_written(f.bcols(), virtuals);
    let rest: Bound = (
        crate::list_by_fn::not_deleted(case.variant, f.delete) + virtual_conditions(
            f.bcols(),
            virtuals,
        ),
        front.1,
        front.2,
    );
    assert(written(live + flags) =~= rest.0);
    let second: Binding = (live + flags, first.1);
    values_are_written(f.vcols(), values, rest, second);
    let last = value_exprs(f.vcols(), values, second);
    let offset = (bound.2 - 1) as nat;
    let cursor = f.cursor_spec(*by);
    let q = page_is_meant(
        &cursor,
        cursor.selected(None),
        f.table_name@,
        first.0,
        last.0,
        offset,
        ascending,
    );
    let id: nat = bound.1.len() + 2;
    assert forall|filters: Filters, env: Env, row: Record, args: Args|
        (combo matches Some(combo) ==> states_for(f.fcols(), combo, filters))
            && #[trigger] tells_filters(env, f.fcols(), filters) && bound_to(args, bound.1, env)
            && stored(*by, row) && is_cursor(*by, cursor_in(args, id)) implies (#[trigger] q.finds(
        row,
        args,
    ) <==> is_listed(f, with_deleted, scope, filters, virtuals, values, env, row) && follows(
        *by,
        ascending,
        row,
        cursor_in(args, id),
    )) by {
        values_are_meant(f.vcols(), values, rest, second, env, row, args);
        both_hold(live, flags, row, args);
        live_is_meant(f.delete, with_deleted, row, args);
        flags_are_meant(f.bcols(), virtuals, row, args);
        match combo {
            Some(combo) => {
                combo_is_meant(f.fcols(), combo, start_bound, start, filters, env, row, args);
            },
            None => {
                any_states_are_meant(f.fcols(), start_bound, start, filters, env, row, args);
            },
        }
        scope_is_meant(owned, 1, row, args);
        if let Some(col) = scope {
            assert(args((0int + 1) as nat) == env(start_bound.1[0]));
        }
        let given = given_conditions(first.0, last.0);
        assert(given(row, args) <==> is_listed(
            f,
            with_deleted,
            scope,
            filters,
            virtuals,
            values,
            env,
            row,
        ));
    }
    q
}

/// What tells the state of the filter by a column: whether it is applied, and
/// with a column that is an `Option` whether it looks for a value.
pub open spec fn told_by(c: Column, filter: Option<Option<int>>) -> Seq<bool> {
    if c.optional() {
        seq![filter is Some, filter matches Some(Some(_))]
    } else {
        seq![filter is Some]
    }
}

/// Of the states of the filter by a column just the one that it is in has the
/// patterns that match what tells its state.
pub proof fn state_is_told(c: Column, filter: Option<Option<int>>, state: FilterState)
    requires
        states_of(c).contains(state),
        !c.optional() ==> filter != Some(None::<int>),
    ensures
        states_of(c).contains(state_for(c, filter)),
        matches_pattern(filter_patterns(c, state), told_by(c, filter)) <==> state == state_for(
            c,
            filter,
        ),
        filter_scrutinee(c) == (if c.optional() {
            seq!["apply_"@ + c.name@, "filter_"@ + c.name@ + ".is_some()"@]
        } else {
            seq!["filter_"@ + c.name@ + ".is_some()"@]
        }),
{
    let states = states_of(c);
    let told = told_by(c, filter);
    reveal_strlit("true");
    reveal_strlit("false");
    reveal_strlit("_");
    assert("true"@.len() == 4 && "false"@.len() == 5 && "_"@.len() == 1);
    assert(states[0] == FilterState::Absent);
    let p = filter_patterns(c, state);
    if c.optional() {
        assert(states[1] == FilterState::PresentValue);
        assert(states[2] == FilterState::PresentNull);
        assert(p.len() == 2);
        if matches_pattern(p, told) {
            assert(p[0] == "_"@ || p[0] == (if told[0] {
                "true"@
            } else {
                "false"@
            }));
            assert(p[1] == "_"@ || p[1] == (if told[1] {
                "true"@
            } else {
                "false"@
            }));
        }
    } else {
        assert(states[1] == FilterState::Present);
        assert(p.len() == 1);
        if matches_pattern(p, told) {
            assert(p[0] == "_"@ || p[0] == (if told[0] {
                "true"@
            } else {
                "false"@
            }));
        }
    }
}

} // verus!
