//! What the conditions and the order of a query mean: which rows a page holds,
//! and in what order.

use vstd::prelude::*;
use vstd::string::*;

use crate::filters_struct::substituted;
use crate::keyset::{beyond, comes_before, possible, sql_and, sql_or, Row};
use crate::list_by_fn::{
    branch_conditions, cursor_gate, cursor_row_condition, cursor_states, in_brackets, page_branches,
    selects, union_select, CursorState, CursorStruct,
};
use crate::options::column::Column;
use crate::text::{joined, param};

verus! {

/// A row of the table of entities. Numbers stand for values, in the order that
/// the database has for them, and nothing stands for NULL.
pub struct Record {
    /// The value of each column.
    pub fields: spec_fn(Seq<char>) -> Option<int>,
    pub deleted: bool,
    /// What a condition is of the row that the options write out, with the value
    /// that it takes.
    pub meets: spec_fn(Seq<char>, Option<int>) -> Option<bool>,
}

/// The values of the parameters. A flag is true where its value is one.
pub type Args = spec_fn(nat) -> Option<int>;

/// A condition of SQL.
pub enum Expr {
    /// A column equals a parameter.
    Equal(Seq<char>, nat),
    /// A column and a parameter are the same, NULL being the same as NULL.
    NotDistinct(Seq<char>, nat),
    /// A column is NULL, or is not.
    Null(Seq<char>, bool),
    /// A parameter is NULL, or is not.
    ParamNull(nat, bool),
    /// A parameter that is a flag.
    Flag(nat),
    /// The id is above a parameter, or below it.
    IdBeyond(bool, nat),
    /// A column and the id are above two parameters, or below them.
    RowBeyond(Seq<char>, bool, nat, nat),
    /// The row is not marked as deleted.
    Live,
    /// A condition that the options write out.
    Written(Seq<char>),
    /// A condition that the options write out, with a parameter for its value.
    Filled(Seq<char>, nat),
    Not(Box<Expr>),
    Either(Box<Expr>, Box<Expr>),
    Both(Box<Expr>, Box<Expr>),
    /// The first of two that is not NULL.
    Coalesce(Box<Expr>, Box<Expr>),
    Brackets(Box<Expr>),
}

/// Whether two values are equal, in SQL.
pub open spec fn sql_equal(a: Option<int>, b: Option<int>) -> Option<bool> {
    match (a, b) {
        (Some(x), Some(y)) => Some(x == y),
        _ => None,
    }
}

/// Whether a value is above another one, or below it, in SQL.
pub open spec fn sql_beyond(above: bool, a: Option<int>, b: Option<int>) -> Option<bool> {
    match (a, b) {
        (Some(x), Some(y)) => Some(beyond(above, x, y)),
        _ => None,
    }
}

impl Expr {
    /// The condition as it is written.
    pub open spec fn text(self) -> Seq<char>
        decreases self,
    {
        match self {
            Expr::Equal(column, n) => column + " = "@ + param(n),
            Expr::NotDistinct(column, n) => column + " IS NOT DISTINCT FROM "@ + param(n),
            Expr::Null(column, is) => if is {
                column + " IS NULL"@
            } else {
                column + " IS NOT NULL"@
            },
            Expr::ParamNull(n, is) => if is {
                param(n) + " IS NULL"@
            } else {
                param(n) + " IS NOT NULL"@
            },
            Expr::Flag(n) => param(n),
            Expr::IdBeyond(above, n) => if above {
                "id > "@ + param(n)
            } else {
                "id < "@ + param(n)
            },
            Expr::RowBeyond(column, above, value, id) => "("@ + column + (if above {
                ", id) > ("@
            } else {
                ", id) < ("@
            }) + param(value) + ", "@ + param(id) + ")"@,
            Expr::Live => "deleted = FALSE"@,
            Expr::Written(text) => text,
            Expr::Filled(text, n) => substituted(text, param(n)),
            Expr::Not(a) => "NOT "@ + a.text(),
            Expr::Either(a, b) => a.text() + " OR "@ + b.text(),
            Expr::Both(a, b) => a.text() + " AND "@ + b.text(),
            Expr::Coalesce(a, b) => "COALESCE("@ + a.text() + ", "@ + b.text() + ")"@,
            Expr::Brackets(a) => "("@ + a.text() + ")"@,
        }
    }

    /// What the condition is of a row: true, false, or NULL.
    pub open spec fn truth(self, row: Record, args: Args) -> Option<bool>
        decreases self,
    {
        match self {
            Expr::Equal(column, n) => sql_equal((row.fields)(column), args(n)),
            Expr::NotDistinct(column, n) => Some((row.fields)(column) == args(n)),
            Expr::Null(column, is) => Some(((row.fields)(column) is None) == is),
            Expr::ParamNull(n, is) => Some((args(n) is None) == is),
            Expr::Flag(n) => sql_equal(args(n), Some(1)),
            Expr::IdBeyond(above, n) => sql_beyond(above, (row.fields)("id"@), args(n)),
            Expr::RowBeyond(column, above, value, id) => match ((row.fields)(column), args(value)) {
                (Some(x), Some(y)) => if x == y {
                    sql_beyond(above, (row.fields)("id"@), args(id))
                } else {
                    Some(beyond(above, x, y))
                },
                _ => None,
            },
            Expr::Live => Some(!row.deleted),
            Expr::Written(text) => (row.meets)(text, None),
            Expr::Filled(text, n) => (row.meets)(text, args(n)),
            Expr::Not(a) => match a.truth(row, args) {
                Some(b) => Some(!b),
                None => None,
            },
            Expr::Either(a, b) => sql_or(a.truth(row, args), b.truth(row, args)),
            Expr::Both(a, b) => sql_and(a.truth(row, args), b.truth(row, args)),
            Expr::Coalesce(a, b) => match a.truth(row, args) {
                Some(x) => Some(x),
                None => b.truth(row, args),
            },
            Expr::Brackets(a) => a.truth(row, args),
        }
    }
}

/// The conditions as they are written.
pub open spec fn written(conditions: Seq<Expr>) -> Seq<Seq<char>> {
    Seq::new(conditions.len(), |i: int| conditions[i].text())
}

/// Whether all the conditions are true of a row.
pub open spec fn all_hold(conditions: Seq<Expr>, row: Record, args: Args) -> bool {
    forall|i: int|
        0 <= i < conditions.len() ==> (#[trigger] conditions[i]).truth(row, args) == Some(true)
}

/// A column that rows are sorted by, and where rows without a value of it come,
/// where that is said.
pub struct Key {
    pub column: Seq<char>,
    pub ascending: bool,
    pub nulls_first: Option<bool>,
}

impl Key {
    /// The key as it is written.
    pub open spec fn text(self) -> Seq<char> {
        self.column + (if self.ascending {
            " ASC"@
        } else {
            " DESC"@
        }) + (match self.nulls_first {
            Some(true) => " NULLS FIRST"@,
            Some(false) => " NULLS LAST"@,
            None => ""@,
        })
    }

    /// Whether the key puts a row before another one. Where it is not said, a row
    /// without a value counts as the greatest.
    pub open spec fn precedes(self, a: Record, b: Record) -> bool {
        let nulls_first = match self.nulls_first {
            Some(first) => first,
            None => !self.ascending,
        };
        match ((a.fields)(self.column), (b.fields)(self.column)) {
            (Some(x), Some(y)) => beyond(self.ascending, y, x),
            (None, Some(_)) => nulls_first,
            (Some(_), None) => !nulls_first,
            (None, None) => false,
        }
    }
}

/// Whether the keys put a row before another one: the first that tells them
/// apart.
pub open spec fn sorted_before(keys: Seq<Key>, a: Record, b: Record) -> bool
    decreases keys.len(),
{
    keys.len() > 0 && (keys[0].precedes(a, b) || (!keys[0].precedes(b, a) && sorted_before(
        keys.drop_first(),
        a,
        b,
    )))
}

/// The keys as they are written.
pub open spec fn written_keys(keys: Seq<Key>) -> Seq<char> {
    joined(Seq::new(keys.len(), |i: int| keys[i].text()), ", "@)
}

/// A query for a page: the rows that meet all conditions of one of its branches.
pub struct PageQuery {
    pub columns: Seq<char>,
    pub table: Seq<char>,
    pub branches: Seq<Seq<Expr>>,
    pub order: Seq<Key>,
    /// The parameter with the number of rows.
    pub limit: nat,
}

impl PageQuery {
    /// The branches as they are written.
    pub open spec fn branch_texts(self) -> Seq<Seq<char>> {
        Seq::new(
            self.branches.len(),
            |i: int|
                "(SELECT "@ + self.columns + " FROM "@ + self.table + " WHERE "@ + joined(
                    written(self.branches[i]),
                    " AND "@,
                ) + " ORDER BY "@ + written_keys(self.order) + " LIMIT "@ + param(self.limit)
                    + ")"@,
        )
    }

    /// The query as it is written.
    pub open spec fn text(self) -> Seq<char> {
        joined(self.branch_texts(), " UNION ALL "@) + " ORDER BY "@ + written_keys(self.order)
            + " LIMIT "@ + param(self.limit)
    }

    /// Whether a branch finds a row.
    pub open spec fn finds_in(self, i: int, row: Record, args: Args) -> bool {
        0 <= i < self.branches.len() && all_hold(self.branches[i], row, args)
    }

    /// Whether the query finds a row.
    pub open spec fn finds(self, row: Record, args: Args) -> bool {
        exists|i: int| self.finds_in(i, row, args)
    }
}

/// What the place of a row in a sorted list depends on.
pub open spec fn row_of(c: Column, row: Record) -> Row {
    Row {
        value: (row.fields)(c.name@),
        id: match (row.fields)("id"@) {
            Some(id) => id,
            None => 0,
        },
    }
}

/// Whether the table can hold the row: it has an id, and a value of a column that
/// cannot be NULL.
pub open spec fn stored(c: Column, row: Record) -> bool {
    (row.fields)("id"@) is Some && possible(c, row_of(c, row))
}

/// The cursor, where the parameters `id` and `id + 1` are its id and its value.
pub open spec fn cursor_in(args: Args, id: nat) -> Option<Row> {
    match args(id) {
        Some(x) => Some(Row { value: args(id + 1), id: x }),
        None => None,
    }
}

/// Whether the row belongs behind the cursor.
pub open spec fn follows(c: Column, ascending: bool, row: Record, after: Option<Row>) -> bool {
    match after {
        Some(after) => comes_before(c, ascending, after, row_of(c, row)),
        None => true,
    }
}

/// Whether the cursor can be one of the list.
pub open spec fn is_cursor(c: Column, after: Option<Row>) -> bool {
    after matches Some(after) ==> possible(c, after)
}

spec fn boxed(e: Expr) -> Expr {
    Expr::Brackets(Box::new(e))
}

spec fn gate_expr(c: Column, state: CursorState, id: nat) -> Expr {
    let some = Box::new(Expr::ParamNull(id, false));
    match state {
        CursorState::First => Expr::ParamNull(id, true),
        CursorState::After => if !c.opts.is_id && c.null_allowed() {
            Expr::Both(some, Box::new(Expr::ParamNull(id + 1, false)))
        } else {
            *some
        },
        CursorState::AfterNull => Expr::Both(some, Box::new(Expr::ParamNull(id + 1, true))),
    }
}

spec fn rows_expr(c: Column, state: CursorState, id: nat, ascending: bool) -> Option<Expr> {
    let name = c.name@;
    match state {
        CursorState::First => None,
        CursorState::After => Some(
            if c.opts.is_id {
                Expr::IdBeyond(ascending, id)
            } else if c.null_allowed() && !ascending {
                boxed(
                    Expr::Either(
                        Box::new(Expr::Null(name, true)),
                        Box::new(Expr::RowBeyond(name, false, id + 1, id)),
                    ),
                )
            } else {
                Expr::RowBeyond(name, ascending, id + 1, id)
            },
        ),
        CursorState::AfterNull => Some(
            boxed(
                if ascending {
                    Expr::Either(
                        Box::new(Expr::Null(name, false)),
                        Box::new(Expr::IdBeyond(true, id)),
                    )
                } else {
                    Expr::Both(
                        Box::new(Expr::Null(name, true)),
                        Box::new(Expr::IdBeyond(false, id)),
                    )
                },
            ),
        ),
    }
}

/// The conditions that select the rows behind the cursor in one of its states.
spec fn state_exprs(c: Column, state: CursorState, id: nat, ascending: bool) -> Seq<Expr> {
    let gate = boxed(gate_expr(c, state, id));
    match rows_expr(c, state, id, ascending) {
        Some(rows) => seq![boxed(rows), gate],
        None => seq![gate],
    }
}

proof fn gate_is_written(c: Column, state: CursorState, id: nat)
    ensures
        gate_expr(c, state, id).text() == cursor_gate(c, state, id, id + 1),
{
    reveal_with_fuel(Expr::text, 2);
    reveal_strlit(" IS NOT NULL");
    reveal_strlit(" AND ");
    reveal_strlit(" IS NOT NULL AND ");
    assert(" IS NOT NULL AND "@ =~= " IS NOT NULL"@ + " AND "@);
    assert(gate_expr(c, state, id).text() =~= cursor_gate(c, state, id, id + 1));
}

proof fn after_is_written(c: Column, id: nat, ascending: bool)
    ensures
        Some(rows_expr(c, CursorState::After, id, ascending)->0.text()) == cursor_row_condition(
            c,
            CursorState::After,
            id,
            id + 1,
            ascending,
        ),
{
    let name = c.name@;
    let state = CursorState::After;
    let e = rows_expr(c, state, id, ascending)->0;
    let t = cursor_row_condition(c, state, id, id + 1, ascending)->0;
    let row = Expr::RowBeyond(name, ascending, id + 1, id);
    reveal_strlit(">");
    reveal_strlit("<");
    if c.opts.is_id {
        reveal_with_fuel(Expr::text, 1);
        reveal_strlit("id ");
        reveal_strlit(" ");
        reveal_strlit("id > ");
        reveal_strlit("id < ");
        assert("id > "@ =~= "id "@ + ">"@ + " "@);
        assert("id < "@ =~= "id "@ + "<"@ + " "@);
        assert(e.text() =~= t);
    } else {
        reveal_strlit(", id) ");
        reveal_strlit(" (");
        reveal_strlit(", id) > (");
        reveal_strlit(", id) < (");
        assert(", id) > ("@ =~= ", id) "@ + ">"@ + " ("@);
        assert(", id) < ("@ =~= ", id) "@ + "<"@ + " ("@);
        if c.null_allowed() && !ascending {
            reveal_with_fuel(Expr::text, 3);
            let low = Expr::RowBeyond(name, false, id + 1, id);
            let none = Expr::Null(name, true);
            let either = Expr::Either(Box::new(none), Box::new(low));
            assert(e == boxed(either));
            assert(e.text() == "("@ + either.text() + ")"@);
            assert(either.text() == none.text() + " OR "@ + low.text());
            reveal_strlit(" IS NULL");
            reveal_strlit(" OR ");
            reveal_strlit("(");
            reveal_strlit(")");
            reveal_strlit("))");
            reveal_strlit(" IS NULL OR (");
            assert(" IS NULL OR ("@ =~= " IS NULL"@ + " OR "@ + "("@);
            assert("))"@ =~= ")"@ + ")"@);
            assert(e.text() =~= t);
        } else {
            reveal_with_fuel(Expr::text, 1);
            assert(e == row);
            assert(e.text() =~= t);
        }
    }
}

proof fn after_null_is_written(c: Column, id: nat, ascending: bool)
    ensures
        Some(rows_expr(c, CursorState::AfterNull, id, ascending)->0.text())
            == cursor_row_condition(c, CursorState::AfterNull, id, id + 1, ascending),
{
    reveal_with_fuel(Expr::text, 3);
    let state = CursorState::AfterNull;
    let e = rows_expr(c, state, id, ascending)->0;
    let t = cursor_row_condition(c, state, id, id + 1, ascending)->0;
    if ascending {
        reveal_strlit(" IS NOT NULL");
        reveal_strlit(" OR ");
        reveal_strlit("id > ");
        reveal_strlit(" IS NOT NULL OR id > ");
        assert(" IS NOT NULL OR id > "@ =~= " IS NOT NULL"@ + " OR "@ + "id > "@);
        assert(e.text() =~= t);
    } else {
        reveal_strlit(" IS NULL");
        reveal_strlit(" AND ");
        reveal_strlit("id < ");
        reveal_strlit(" IS NULL AND id < ");
        assert(" IS NULL AND id < "@ =~= " IS NULL"@ + " AND "@ + "id < "@);
        assert(e.text() =~= t);
    }
}

/// Whether the query holds the wanted rows behind the cursor, each of them once
/// and in the order of the list. The parameter behind `$offset` is the number of
/// rows, and the cursor those behind that.
pub open spec fn holds_page(
    q: PageQuery,
    c: Column,
    ascending: bool,
    offset: nat,
    wanted: spec_fn(Record, Args) -> bool,
) -> bool {
    &&& q.limit == offset + 1
    &&& forall|row: Record, args: Args|
        stored(c, row) && is_cursor(c, cursor_in(args, offset + 2)) ==> (#[trigger] q.finds(
            row,
            args,
        ) <==> wanted(row, args) && follows(c, ascending, row, cursor_in(args, offset + 2)))
    &&& is_ordered(q, c, ascending)
}

/// Whether the query finds no row twice, and has the rows in the order of the
/// list.
pub open spec fn is_ordered(q: PageQuery, c: Column, ascending: bool) -> bool {
    &&& forall|i: int, j: int, row: Record, args: Args|
        #[trigger] q.finds_in(i, row, args) && #[trigger] q.finds_in(j, row, args) ==> i == j
    &&& forall|a: Record, b: Record|
        stored(c, a) && stored(c, b) ==> #[trigger] sorted_before(q.order, a, b) == comes_before(
            c,
            ascending,
            row_of(c, a),
            row_of(c, b),
        )
}

spec fn order_keys(c: Column, ascending: bool) -> Seq<Key> {
    let id = Key { column: "id"@, ascending, nulls_first: None };
    if c.opts.is_id {
        seq![id]
    } else {
        seq![
            Key {
                column: c.name@,
                ascending,
                nulls_first: if c.null_allowed() {
                    Some(ascending)
                } else {
                    None
                },
            },
            id,
        ]
    }
}

proof fn order_is_written(cursor: &CursorStruct, ascending: bool)
    ensures
        written_keys(order_keys(*cursor.column, ascending)) == cursor.ordered(ascending),
{
    let keys = order_keys(*cursor.column, ascending);
    let parts = Seq::new(keys.len(), |i: int| keys[i].text());
    reveal_with_fuel(joined, 3);
    reveal_strlit("id ");
    reveal_strlit("id");
    reveal_strlit(" ");
    reveal_strlit("ASC");
    reveal_strlit("DESC");
    reveal_strlit(" ASC");
    reveal_strlit(" DESC");
    reveal_strlit("FIRST");
    reveal_strlit("LAST");
    reveal_strlit(" NULLS ");
    reveal_strlit(" NULLS FIRST");
    reveal_strlit(" NULLS LAST");
    reveal_strlit(", ");
    reveal_strlit(", id ");
    reveal_strlit("");
    assert("id "@ =~= "id"@ + " "@);
    assert(" ASC"@ =~= " "@ + "ASC"@);
    assert(" DESC"@ =~= " "@ + "DESC"@);
    assert(" NULLS FIRST"@ =~= " NULLS "@ + "FIRST"@);
    assert(" NULLS LAST"@ =~= " NULLS "@ + "LAST"@);
    assert(", id "@ =~= ", "@ + "id"@ + " "@);
    if keys.len() == 1 {
        assert(parts[0] =~= cursor.ordered(ascending));
    } else {
        assert(parts.drop_last() =~= seq![parts[0]]);
        assert(joined(parts, ", "@) == parts[0] + ", "@ + parts[1]);
        assert(parts[0] + ", "@ + parts[1] =~= cursor.ordered(ascending));
    }
}

proof fn order_is_meant(c: Column, ascending: bool, a: Record, b: Record)
    requires
        stored(c, a),
        stored(c, b),
    ensures
        sorted_before(order_keys(c, ascending), a, b) == comes_before(
            c,
            ascending,
            row_of(c, a),
            row_of(c, b),
        ),
{
    reveal_with_fuel(sorted_before, 3);
    let keys = order_keys(c, ascending);
    if keys.len() == 2 {
        assert(keys.drop_first() =~= seq![keys[1]]);
    }
}

proof fn states_are_meant(c: Column, id: nat, ascending: bool, row: Record, args: Args)
    requires
        stored(c, row),
        is_cursor(c, cursor_in(args, id)),
    ensures
        (exists|i: int|
            0 <= i < cursor_states(c).len() && all_hold(
                state_exprs(c, #[trigger] cursor_states(c)[i], id, ascending),
                row,
                args,
            )) <==> follows(c, ascending, row, cursor_in(args, id)),
{
    let states = cursor_states(c);
    assert forall|i: int| 0 <= i < states.len() implies #[trigger] all_hold(
        state_exprs(c, states[i], id, ascending),
        row,
        args,
    ) == state_holds(c, states[i], id, ascending, row, args) by {
        state_is_meant(c, states[i], id, ascending, row, args);
    }
    let after = cursor_in(args, id);
    if after is None {
        assert(state_holds(c, states[states.len() - 1], id, ascending, row, args));
    } else if !c.opts.is_id && c.null_allowed() && args(id + 1) is None {
        assert(state_holds(c, states[1], id, ascending, row, args) == follows(
            c,
            ascending,
            row,
            after,
        ));
    } else {
        assert(state_holds(c, states[0], id, ascending, row, args) == follows(
            c,
            ascending,
            row,
            after,
        ));
    }
}

spec fn state_applies(c: Column, state: CursorState, id: nat, args: Args) -> bool {
    state.applies(!c.opts.is_id && c.null_allowed(), args(id) is None, args(id + 1) is None)
}

spec fn state_holds(
    c: Column,
    state: CursorState,
    id: nat,
    ascending: bool,
    row: Record,
    args: Args,
) -> bool {
    state_applies(c, state, id, args) && follows(c, ascending, row, cursor_in(args, id))
}

proof fn gate_is_meant(c: Column, state: CursorState, id: nat, row: Record, args: Args)
    requires
        cursor_states(c).contains(state),
    ensures
        (gate_expr(c, state, id).truth(row, args) == Some(true)) == state_applies(
            c,
            state,
            id,
            args,
        ),
{
    reveal_with_fuel(Expr::truth, 2);
}

proof fn state_is_meant(
    c: Column,
    state: CursorState,
    id: nat,
    ascending: bool,
    row: Record,
    args: Args,
)
    requires
        stored(c, row),
        is_cursor(c, cursor_in(args, id)),
        cursor_states(c).contains(state),
    ensures
        all_hold(state_exprs(c, state, id, ascending), row, args) == state_holds(
            c,
            state,
            id,
            ascending,
            row,
            args,
        ),
{
    reveal_with_fuel(Expr::truth, 5);
    gate_is_meant(c, state, id, row, args);
    let exprs = state_exprs(c, state, id, ascending);
    let gate = boxed(gate_expr(c, state, id));
    assert(gate.truth(row, args) == gate_expr(c, state, id).truth(row, args));
    match rows_expr(c, state, id, ascending) {
        None => {
            assert(exprs[0] == gate);
        },
        Some(rows) => {
            assert(exprs[0] == boxed(rows));
            assert(exprs[1] == gate);
            assert(boxed(rows).truth(row, args) == rows.truth(row, args));
            if state_applies(c, state, id, args) {
                assert((rows.truth(row, args) == Some(true)) == follows(
                    c,
                    ascending,
                    row,
                    cursor_in(args, id),
                ));
            }
        },
    }
}

proof fn conditions_are_written(
    c: Column,
    leading: Seq<Expr>,
    trailing: Seq<Expr>,
    offset: nat,
    ascending: bool,
    i: int,
)
    requires
        0 <= i < cursor_states(c).len(),
    ensures
        branch_conditions(
            written(leading),
            page_branches(c, offset, ascending)[i],
            written(trailing),
        ) == written(
            leading + state_exprs(c, cursor_states(c)[i], offset + 2, ascending) + trailing,
        ),
{
    reveal_with_fuel(Expr::text, 1);
    let state = cursor_states(c)[i];
    let id = offset + 2;
    let branch = page_branches(c, offset, ascending)[i];
    gate_is_written(c, state, id);
    let gate = boxed(gate_expr(c, state, id));
    assert(gate.text() == in_brackets(branch.0));
    match state {
        CursorState::First => {},
        CursorState::After => {
            after_is_written(c, id, ascending);
        },
        CursorState::AfterNull => {
            after_null_is_written(c, id, ascending);
        },
    }
    if let Some(rows) = rows_expr(c, state, id, ascending) {
        assert(boxed(rows).text() == in_brackets(branch.1->0));
    }
    assert(branch_conditions(written(leading), branch, written(trailing)) =~= written(
        leading + state_exprs(c, state, id, ascending) + trailing,
    ));
}

proof fn all_of_three(a: Seq<Expr>, b: Seq<Expr>, c: Seq<Expr>, row: Record, args: Args)
    ensures
        all_hold(a + b + c, row, args) <==> all_hold(a, row, args) && all_hold(b, row, args)
            && all_hold(c, row, args),
{
    let all = a + b + c;
    if all_hold(all, row, args) {
        assert forall|i: int| 0 <= i < a.len() implies (#[trigger] a[i]).truth(row, args) == Some(
            true,
        ) by {
            assert(all[i] == a[i]);
        }
        assert forall|i: int| 0 <= i < b.len() implies (#[trigger] b[i]).truth(row, args) == Some(
            true,
        ) by {
            assert(all[a.len() + i] == b[i]);
        }
        assert forall|i: int| 0 <= i < c.len() implies (#[trigger] c[i]).truth(row, args) == Some(
            true,
        ) by {
            assert(all[a.len() + b.len() + i] == c[i]);
        }
    }
}

/// Whether all the leading and the trailing conditions are true of a row.
pub open spec fn given_conditions(leading: Seq<Expr>, trailing: Seq<Expr>) -> spec_fn(
    Record,
    Args,
) -> bool {
    |row: Record, args: Args| all_hold(leading, row, args) && all_hold(trailing, row, args)
}

/// The query for a page holds the rows that meet the conditions that are given
/// for it and come behind the cursor, each of them once and in the order of the
/// list.
pub proof fn page_is_meant(
    cursor: &CursorStruct,
    columns: Seq<char>,
    table: Seq<char>,
    leading: Seq<Expr>,
    trailing: Seq<Expr>,
    offset: nat,
    ascending: bool,
) -> (q: PageQuery)
    ensures
        union_select(
            columns,
            table,
            written(leading),
            page_branches(*cursor.column, offset, ascending),
            written(trailing),
            cursor.ordered(ascending),
            offset + 1,
        ) == q.text(),
        q.columns == columns,
        q.table == table,
        holds_page(
            q,
            *cursor.column,
            ascending,
            offset,
            given_conditions(leading, trailing),
        ),
{
    let c = *cursor.column;
    let id = offset + 2;
    let states = cursor_states(c);
    let q = PageQuery {
        columns,
        table,
        branches: Seq::new(
            states.len(),
            |i: int| leading + state_exprs(c, states[i], id, ascending) + trailing,
        ),
        order: order_keys(c, ascending),
        limit: offset + 1,
    };
    order_is_written(cursor, ascending);
    let branches = page_branches(c, offset, ascending);
    let all = selects(
        columns,
        table,
        written(leading),
        branches,
        written(trailing),
        cursor.ordered(ascending),
        offset + 1,
    );
    assert forall|i: int| 0 <= i < all.len() implies #[trigger] all[i] == q.branch_texts()[i] by {
        conditions_are_written(c, leading, trailing, offset, ascending, i);
    }
    assert(all =~= q.branch_texts());
    let wanted = given_conditions(leading, trailing);
    assert forall|row: Record, args: Args|
        stored(c, row) && is_cursor(c, cursor_in(args, id)) implies (#[trigger] q.finds(row, args)
        <==> wanted(row, args) && follows(c, ascending, row, cursor_in(args, id))) by {
        states_are_meant(c, id, ascending, row, args);
        assert forall|i: int| 0 <= i < states.len() implies (#[trigger] q.finds_in(i, row, args)
            <==> wanted(row, args) && all_hold(
            state_exprs(c, states[i], id, ascending),
            row,
            args,
        )) by {
            all_of_three(leading, state_exprs(c, states[i], id, ascending), trailing, row, args);
        }
        if wanted(row, args) && follows(c, ascending, row, cursor_in(args, id)) {
            let i = choose|i: int|
                0 <= i < states.len() && all_hold(
                    state_exprs(c, #[trigger] states[i], id, ascending),
                    row,
                    args,
                );
            assert(q.finds_in(i, row, args));
        }
    }
    assert forall|i: int, j: int, row: Record, args: Args|
        #[trigger] q.finds_in(i, row, args) && #[trigger] q.finds_in(j, row, args) implies i
        == j by {
        applies_where_found(c, leading, states[i], trailing, id, ascending, row, args);
        applies_where_found(c, leading, states[j], trailing, id, ascending, row, args);
    }
    assert forall|a: Record, b: Record|
        stored(c, a) && stored(c, b) implies #[trigger] sorted_before(
        q.order,
        a,
        b,
    ) == comes_before(c, ascending, row_of(c, a), row_of(c, b)) by {
        order_is_meant(c, ascending, a, b);
    }
    q
}

proof fn applies_where_found(
    c: Column,
    leading: Seq<Expr>,
    state: CursorState,
    trailing: Seq<Expr>,
    id: nat,
    ascending: bool,
    row: Record,
    args: Args,
)
    requires
        cursor_states(c).contains(state),
        all_hold(leading + state_exprs(c, state, id, ascending) + trailing, row, args),
    ensures
        state_applies(c, state, id, args),
{
    reveal_with_fuel(Expr::truth, 1);
    let exprs = state_exprs(c, state, id, ascending);
    let all = leading + exprs + trailing;
    let last = exprs.len() - 1;
    assert(all[leading.len() + last] == exprs[last]);
    assert(exprs[last] == boxed(gate_expr(c, state, id)));
    gate_is_meant(c, state, id, row, args);
    assert(boxed(gate_expr(c, state, id)).truth(row, args) == gate_expr(c, state, id).truth(
        row,
        args,
    )) by {
        reveal_with_fuel(Expr::truth, 2);
    }
}

} // verus!
