//! Pages of a sorted list: what the conditions of their queries mean, and that
//! a page holds the rows behind its cursor.

use vstd::prelude::*;
use vstd::string::*;

use crate::list_by_fn::{
    branch_conditions, comparison, cursor_gate, cursor_row_condition, cursor_states, in_brackets,
    merge_branches_code, page_branches, select_branch_code, selects, union_select, Branch,
    CursorState,
};
use crate::options::column::Column;
use crate::placeholders::{
    apart, first_mentioned_in, inert, joined_at, joined_before, joined_mentions,
    mentioned_around, mentioned_before, mentioned_behind, mentions, param_mentions,
    plain_is_not_mentioning,
};
use crate::text::{joined, param};

verus! {

/// What a page depends on of a row: its value of the column that the list is
/// sorted by, which is nothing where it is NULL, and its id. Numbers stand for
/// values and ids in the order that the database has for them.
pub struct Row {
    pub value: Option<int>,
    pub id: int,
}

/// A condition on the parameters of the cursor: whether its id is NULL, and
/// whether its value is, where that is asked.
pub struct Gate {
    pub id_is_null: bool,
    pub value_is_null: Option<bool>,
}

/// What is asked of a parameter.
pub open spec fn null_test(is_null: bool) -> Seq<char> {
    if is_null {
        " IS NULL"@
    } else {
        " IS NOT NULL"@
    }
}

impl Gate {
    /// The condition as SQL, where the id is the parameter `id` and the value
    /// the parameter `value`.
    pub open spec fn text(self, id: nat, value: nat) -> Seq<char> {
        let front = param(id) + null_test(self.id_is_null);
        match self.value_is_null {
            Some(b) => front + " AND "@ + param(value) + null_test(b),
            None => front,
        }
    }

    /// Whether the condition holds of a cursor.
    pub open spec fn holds(self, after: Option<Row>) -> bool {
        match after {
            Some(row) => !self.id_is_null && (self.value_is_null matches Some(b) ==> b == (
            row.value is None)),
            None => self.id_is_null && (self.value_is_null matches Some(b) ==> b),
        }
    }
}

/// A condition on the rows of a page.
pub enum Condition {
    /// The id is beyond that of the cursor, in ascending or descending order.
    IdBeyond(bool),
    /// The value and the id are beyond those of the cursor.
    RowBeyond(bool),
    /// The value is NULL, or it is not.
    ValueIsNull(bool),
    Either(Box<Condition>, Box<Condition>),
    Both(Box<Condition>, Box<Condition>),
}

/// Whether a number is beyond another one.
pub open spec fn beyond(ascending: bool, a: int, b: int) -> bool {
    if ascending {
        a > b
    } else {
        a < b
    }
}

/// `OR` of SQL: nothing stands for NULL.
pub open spec fn sql_or(a: Option<bool>, b: Option<bool>) -> Option<bool> {
    if a == Some(true) || b == Some(true) {
        Some(true)
    } else if a is None || b is None {
        None
    } else {
        Some(false)
    }
}

/// `AND` of SQL.
pub open spec fn sql_and(a: Option<bool>, b: Option<bool>) -> Option<bool> {
    if a == Some(false) || b == Some(false) {
        Some(false)
    } else if a is None || b is None {
        None
    } else {
        Some(true)
    }
}

impl Condition {
    /// The condition as SQL, on the column `name`.
    pub open spec fn text(self, name: Seq<char>, id: nat, value: nat) -> Seq<char>
        decreases self,
    {
        match self {
            Condition::IdBeyond(ascending) => "id "@ + comparison(ascending) + " "@ + param(id),
            Condition::RowBeyond(ascending) => "("@ + name + ", id) "@ + comparison(ascending)
                + " ("@ + param(value) + ", "@ + param(id) + ")"@,
            Condition::ValueIsNull(b) => name + null_test(b),
            Condition::Either(a, b) => "("@ + a.text(name, id, value) + " OR "@ + b.text(
                name,
                id,
                value,
            ) + ")"@,
            Condition::Both(a, b) => "("@ + a.text(name, id, value) + " AND "@ + b.text(
                name,
                id,
                value,
            ) + ")"@,
        }
    }

    /// What the condition is of a row and a cursor: true, false, or NULL. To
    /// compare with NULL is NULL.
    pub open spec fn truth(self, row: Row, after: Row) -> Option<bool>
        decreases self,
    {
        match self {
            Condition::IdBeyond(ascending) => Some(beyond(ascending, row.id, after.id)),
            Condition::RowBeyond(ascending) => match (row.value, after.value) {
                (Some(x), Some(y)) => Some(
                    beyond(ascending, x, y) || x == y && beyond(ascending, row.id, after.id),
                ),
                _ => None,
            },
            Condition::ValueIsNull(b) => Some(b == (row.value is None)),
            Condition::Either(a, b) => sql_or(a.truth(row, after), b.truth(row, after)),
            Condition::Both(a, b) => sql_and(a.truth(row, after), b.truth(row, after)),
        }
    }
}

/// Whether the list distinguishes rows without a value.
pub open spec fn holds_null(c: Column) -> bool {
    !c.opts.is_id && c.null_allowed()
}

/// The condition on the parameters for a state of the cursor.
pub open spec fn state_gate(c: Column, state: CursorState) -> Gate {
    match state {
        CursorState::First => Gate { id_is_null: true, value_is_null: None },
        CursorState::After => Gate {
            id_is_null: false,
            value_is_null: if holds_null(c) {
                Some(false)
            } else {
                None
            },
        },
        CursorState::AfterNull => Gate { id_is_null: false, value_is_null: Some(true) },
    }
}

/// The condition on the rows for a state of the cursor.
pub open spec fn state_condition(c: Column, state: CursorState, ascending: bool) -> Option<
    Condition,
> {
    match state {
        CursorState::First => None,
        CursorState::After => Some(
            if c.opts.is_id {
                Condition::IdBeyond(ascending)
            } else if c.null_allowed() && !ascending {
                Condition::Either(
                    Box::new(Condition::ValueIsNull(true)),
                    Box::new(Condition::RowBeyond(false)),
                )
            } else {
                Condition::RowBeyond(ascending)
            },
        ),
        CursorState::AfterNull => Some(
            if ascending {
                Condition::Either(
                    Box::new(Condition::ValueIsNull(false)),
                    Box::new(Condition::IdBeyond(true)),
                )
            } else {
                Condition::Both(
                    Box::new(Condition::ValueIsNull(true)),
                    Box::new(Condition::IdBeyond(false)),
                )
            },
        ),
    }
}

/// Whether a branch of the query selects a row.
pub open spec fn branch_selects(
    c: Column,
    state: CursorState,
    ascending: bool,
    after: Option<Row>,
    row: Row,
) -> bool {
    &&& state_gate(c, state).holds(after)
    &&& match (state_condition(c, state, ascending), after) {
        (Some(condition), Some(after)) => condition.truth(row, after) == Some(true),
        (Some(_), None) => false,
        (None, _) => true,
    }
}

/// Whether a row is less than another one: by its value, and by its id where
/// the values are the same. Nothing is less than any value.
pub open spec fn less(c: Column, a: Row, b: Row) -> bool {
    if c.opts.is_id {
        a.id < b.id
    } else {
        match (a.value, b.value) {
            (None, None) => a.id < b.id,
            (None, Some(_)) => true,
            (Some(_), None) => false,
            (Some(x), Some(y)) => x < y || x == y && a.id < b.id,
        }
    }
}

/// Whether a row comes before another one in the list.
pub open spec fn comes_before(c: Column, ascending: bool, a: Row, b: Row) -> bool {
    if ascending {
        less(c, a, b)
    } else {
        less(c, b, a)
    }
}

/// Whether the table can hold the row: a column that cannot be NULL has a value.
pub open spec fn possible(c: Column, row: Row) -> bool {
    c.opts.is_id || c.null_allowed() || row.value is Some
}

proof fn gate_is_written(c: Column, state: CursorState, id: nat, value: nat)
    ensures
        cursor_gate(c, state, id, value) == state_gate(c, state).text(id, value),
{
    reveal_strlit(" IS NULL");
    reveal_strlit(" IS NOT NULL");
    reveal_strlit(" AND ");
    reveal_strlit(" IS NOT NULL AND ");
    assert(" IS NOT NULL AND "@ =~= " IS NOT NULL"@ + " AND "@);
    assert(cursor_gate(c, state, id, value) =~= state_gate(c, state).text(id, value));
}

proof fn condition_is_written(
    c: Column,
    state: CursorState,
    id: nat,
    value: nat,
    ascending: bool,
)
    ensures
        cursor_row_condition(c, state, id, value, ascending) == (match state_condition(
            c,
            state,
            ascending,
        ) {
            Some(condition) => Some(condition.text(c.name@, id, value)),
            None => None,
        }),
{
    reveal_with_fuel(Condition::text, 2);
    match (state_condition(c, state, ascending), cursor_row_condition(
        c,
        state,
        id,
        value,
        ascending,
    )) {
        (Some(condition), Some(written)) => {
            reveal_strlit(" IS NULL");
            reveal_strlit(" IS NOT NULL");
            reveal_strlit(" OR ");
            reveal_strlit(" AND ");
            reveal_strlit("(");
            reveal_strlit(")");
            reveal_strlit("))");
            reveal_strlit(" ");
            reveal_strlit(">");
            reveal_strlit("<");
            reveal_strlit("id ");
            reveal_strlit(" (");
            reveal_strlit(", id) ");
            reveal_strlit(" IS NULL OR (");
            reveal_strlit(", id) < (");
            reveal_strlit(" IS NOT NULL OR id > ");
            reveal_strlit(" IS NULL AND id < ");
            assert(" IS NULL OR ("@ =~= " IS NULL"@ + " OR "@ + "("@);
            assert(", id) < ("@ =~= ", id) "@ + "<"@ + " ("@);
            assert("))"@ =~= ")"@ + ")"@);
            assert(" IS NOT NULL OR id > "@ =~= " IS NOT NULL"@ + " OR "@ + "id "@ + ">"@ + " "@);
            assert(" IS NULL AND id < "@ =~= " IS NULL"@ + " AND "@ + "id "@ + "<"@ + " "@);
            assert(written =~= condition.text(c.name@, id, value));
        },
        _ => {},
    }
}

/// The branches of the query are written as their conditions say: the cursor's
/// id is the parameter two behind the offset, and its value the one behind it.
pub proof fn branches_are_written(c: Column, offset: nat, ascending: bool, i: int)
    requires
        0 <= i < cursor_states(c).len(),
    ensures
        page_branches(c, offset, ascending)[i].0 == state_gate(c, cursor_states(c)[i]).text(
            offset + 2,
            offset + 3,
        ),
        page_branches(c, offset, ascending)[i].1 == (match state_condition(
            c,
            cursor_states(c)[i],
            ascending,
        ) {
            Some(condition) => Some(condition.text(c.name@, offset + 2, offset + 3)),
            None => None,
        }),
{
    gate_is_written(c, cursor_states(c)[i], offset + 2, offset + 3);
    condition_is_written(c, cursor_states(c)[i], offset + 2, offset + 3, ascending);
}

/// A row is selected by a branch of the query just where it comes behind the
/// cursor, and every row where there is no cursor.
pub proof fn page_holds_what_follows(c: Column, ascending: bool, after: Option<Row>, row: Row)
    requires
        possible(c, row),
        after matches Some(a) ==> possible(c, a),
    ensures
        (exists|i: int|
            0 <= i < cursor_states(c).len() && branch_selects(
                c,
                #[trigger] cursor_states(c)[i],
                ascending,
                after,
                row,
            )) == (match after {
            Some(a) => comes_before(c, ascending, a, row),
            None => true,
        }),
{
    reveal_with_fuel(Condition::truth, 2);
    let states = cursor_states(c);
    let last = states.len() - 1;
    match after {
        None => {
            assert(branch_selects(c, states[last], ascending, after, row));
        },
        Some(a) => {
            assert(!state_gate(c, CursorState::First).holds(after));
            if holds_null(c) {
                assert(states[1] == CursorState::AfterNull);
            }
            assert(states[0] == CursorState::After);
            assert(branch_selects(c, states[0], ascending, after, row) || (holds_null(c)
                && branch_selects(c, states[1], ascending, after, row)) || !comes_before(
                c,
                ascending,
                a,
                row,
            ));
        },
    }
}

/// No row is selected by two branches.
pub proof fn rows_are_selected_once(
    c: Column,
    ascending: bool,
    after: Option<Row>,
    row: Row,
    i: int,
    j: int,
)
    requires
        0 <= i < j < cursor_states(c).len(),
    ensures
        !(branch_selects(c, cursor_states(c)[i], ascending, after, row) && branch_selects(
            c,
            cursor_states(c)[j],
            ascending,
            after,
            row,
        )),
{
}

/// Of two rows with different ids one comes before the other, and only one; what
/// comes before a row comes before all that follow it. So the page behind the
/// last row of a page neither repeats a row nor leaves one out.
pub proof fn rows_are_ordered(c: Column, ascending: bool, x: Row, y: Row, z: Row)
    ensures
        !comes_before(c, ascending, x, x),
        x.id != y.id ==> comes_before(c, ascending, x, y) != comes_before(c, ascending, y, x),
        comes_before(c, ascending, x, y) && comes_before(c, ascending, y, z) ==> comes_before(
            c,
            ascending,
            x,
            z,
        ),
{
}

/// The comparison of the rows with the cursor: of the id, or of the value and
/// the id.
pub open spec fn compared(c: Column, ascending: bool) -> Condition {
    if c.opts.is_id {
        Condition::IdBeyond(ascending)
    } else {
        Condition::RowBeyond(ascending)
    }
}

/// The comparison mentions the cursor's id, and its value where that counts.
proof fn compared_mentions(c: Column, ascending: bool, id: nat, value: nat, n: nat)
    requires
        !mentions(c.name@, n),
    ensures
        mentions(compared(c, ascending).text(c.name@, id, value), n) <==> n == id || (
        !c.opts.is_id && n == value),
{
    broadcast use {
        mentioned_around,
        mentioned_before,
        mentioned_behind,
        param_mentions,
        plain_is_not_mentioning,
    };

    reveal_with_fuel(Condition::text, 2);
    reveal_strlit("id ");
    reveal_strlit(" ");
    reveal_strlit(">");
    reveal_strlit("<");
    reveal_strlit("(");
    reveal_strlit(", id) ");
    reveal_strlit(" (");
    reveal_strlit(", ");
    reveal_strlit(")");
    assert(inert("id "@) && inert(" "@) && inert(">"@) && inert("<"@) && inert("("@));
    assert(inert(", id) "@) && inert(" ("@) && inert(", "@) && inert(")"@));
    let op = comparison(ascending);
    assert(inert(op));
    let name = c.name@;
    if c.opts.is_id {
        assert(!mentions("id "@ + op, n));
    } else {
        let front = "("@ + name + ", id) "@ + op;
        assert(!mentions(front, n));
        let value_part = front + " ("@ + param(value);
        assert(mentions(value_part, n) <==> n == value);
        let both = value_part + ", "@ + param(id);
        assert(mentions(both, n) <==> n == value || n == id);
    }
}

/// The condition on the rows behind a cursor with a value ends with the
/// comparison, but for brackets.
proof fn condition_compares(c: Column, ascending: bool, id: nat, value: nat, n: nat) -> (parts: (
    Seq<char>,
    Seq<char>,
))
    requires
        !mentions(c.name@, n),
    ensures
        cursor_row_condition(c, CursorState::After, id, value, ascending) == Some(
            parts.0 + compared(c, ascending).text(c.name@, id, value) + parts.1,
        ),
        !mentions(parts.0, n),
        parts.0.len() == 0 || parts.0.last() == ' ',
{
    reveal_with_fuel(Condition::text, 2);
    condition_is_written(c, CursorState::After, id, value, ascending);
    let text = compared(c, ascending).text(c.name@, id, value);
    if !c.opts.is_id && c.null_allowed() && !ascending {
        reveal_strlit("(");
        reveal_strlit(" OR ");
        reveal_strlit(" IS NULL");
        let front = "("@ + (c.name@ + " IS NULL"@) + " OR "@;
        assert(front.last() == ' ');
        assert(inert("("@) && inert(" OR "@) && inert(" IS NULL"@));
        mentioned_before(c.name@, " IS NULL"@, n);
        mentioned_behind("("@, c.name@ + " IS NULL"@, n);
        mentioned_before("("@ + (c.name@ + " IS NULL"@), " OR "@, n);
        assert(cursor_row_condition(c, CursorState::After, id, value, ascending)->0 =~= front
            + text + ")"@);
        (front, ")"@)
    } else {
        let none = Seq::<char>::empty();
        plain_is_not_mentioning(none, n);
        assert(text =~= none + text + none);
        (none, none)
    }
}

/// A branch of the query with its conditions in two parts.
proof fn select_opens(
    select_columns: Seq<char>,
    table: Seq<char>,
    lead: Seq<char>,
    rest: Seq<char>,
    order_by: Seq<char>,
    limit: Seq<char>,
)
    ensures
        select_branch_code(select_columns, table, lead + rest, order_by, limit) == ("(SELECT "@
            + select_columns + " FROM "@ + table + " WHERE "@ + lead) + rest + (" ORDER BY "@
            + order_by + " LIMIT "@ + limit + ")"@),
{
    assert(select_branch_code(select_columns, table, lead + rest, order_by, limit) =~= ("(SELECT "@
        + select_columns + " FROM "@ + table + " WHERE "@ + lead) + rest + (" ORDER BY "@ + order_by
        + " LIMIT "@ + limit + ")"@));
}

proof fn regrouped(
    head: Seq<char>,
    opening: Seq<char>,
    text: Seq<char>,
    closing: Seq<char>,
    rest: Seq<char>,
    tail: Seq<char>,
    more: Seq<char>,
    end: Seq<char>,
)
    ensures
        head + (in_brackets(opening + text + closing) + rest) + tail + more + end == (head + "("@
            + opening) + text + (closing + ")"@ + rest + tail + more + end),
{
    assert(in_brackets(opening + text + closing) =~= "("@ + opening + (text + (closing + ")"@)));
    assert(head + ("("@ + opening + (text + (closing + ")"@)) + rest) + tail + more + end =~= (head
        + "("@ + opening) + text + (closing + ")"@ + rest + tail + more + end));
}

/// What stands in the query for a page before the first condition on the rows.
pub open spec fn page_opening(
    select_columns: Seq<char>,
    table: Seq<char>,
    leading: Seq<Seq<char>>,
) -> Seq<char> {
    "(SELECT "@ + select_columns + " FROM "@ + table + " WHERE "@ + joined_before(
        leading,
        " AND "@,
    )
}

proof fn opening_mentions(
    select_columns: Seq<char>,
    table: Seq<char>,
    leading: Seq<Seq<char>>,
    more: Seq<char>,
    n: nat,
)
    requires
        !mentions(select_columns, n),
        !mentions(table, n),
        forall|i: int| 0 <= i < leading.len() ==> !mentions(#[trigger] leading[i], n),
        !mentions(more, n),
    ensures
        !mentions(page_opening(select_columns, table, leading) + "("@ + more, n),
{
    broadcast use {mentioned_around, mentioned_before, mentioned_behind};

    reveal_strlit(" AND ");
    reveal_strlit("(SELECT ");
    reveal_strlit(" FROM ");
    reveal_strlit(" WHERE ");
    reveal_strlit("(");
    assert(inert(" AND "@) && inert("(SELECT "@) && inert(" FROM "@) && inert(" WHERE "@));
    assert(inert("("@));
    let lead = joined_before(leading, " AND "@);
    joined_mentions(leading, " AND "@, n);
    if leading.len() == 0 {
        plain_is_not_mentioning(lead, n);
    }
    assert(!mentions("(SELECT "@ + select_columns, n));
    assert(!mentions("(SELECT "@ + select_columns + " FROM "@ + table, n));
}

/// The first branch of a query comes first.
proof fn query_opens(
    select_columns: Seq<char>,
    table: Seq<char>,
    leading: Seq<Seq<char>>,
    branches: Seq<Branch>,
    trailing: Seq<Seq<char>>,
    order_by: Seq<char>,
    limit: nat,
    opening: Seq<char>,
    text: Seq<char>,
    closing: Seq<char>,
) -> (after: Seq<char>)
    requires
        branches.len() > 0,
        branches[0].1 == Some(opening + text + closing),
    ensures
        union_select(select_columns, table, leading, branches, trailing, order_by, limit) == (
        page_opening(select_columns, table, leading) + "("@ + opening) + text + after,
{
    let row = opening + text + closing;
    let sep = " AND "@;
    let conditions = branch_conditions(leading, branches[0], trailing);
    assert(conditions[leading.len() as int] == in_brackets(row));
    let rest = joined_at(conditions, sep, leading.len() as int);
    let lead = joined_before(leading, sep);
    assert(conditions.take(leading.len() as int) =~= leading);
    assert(lead + in_brackets(row) + rest =~= lead + (in_brackets(row) + rest));
    select_opens(select_columns, table, lead, in_brackets(row) + rest, order_by, param(limit));
    let all = selects(select_columns, table, leading, branches, trailing, order_by, limit);
    let merged = joined(all, " UNION ALL "@);
    let more = joined_at(all, " UNION ALL "@, 0);
    assert(joined_before(all.take(0), " UNION ALL "@) =~= Seq::<char>::empty());
    assert(merged =~= all[0] + more);
    let head = page_opening(select_columns, table, leading);
    let tail = " ORDER BY "@ + order_by + " LIMIT "@ + param(limit) + ")"@;
    let end = " ORDER BY "@ + order_by + " LIMIT "@ + param(limit);
    assert(all[0] == head + (in_brackets(row) + rest) + tail);
    assert(merge_branches_code(merged, order_by, param(limit)) =~= merged + end);
    regrouped(head, opening, text, closing, rest, tail, more, end);
    closing + ")"@ + rest + tail + more + end
}

/// In the query for a page the first mention of each parameter of the cursor is
/// in a comparison with columns of the rows, never in a test for NULL, so that
/// the comparison tells the type of the parameter. The rest of the query is
/// given not to mention them before the conditions on the rows.
pub proof fn cursor_is_compared_first(
    c: Column,
    select_columns: Seq<char>,
    table: Seq<char>,
    leading: Seq<Seq<char>>,
    trailing: Seq<Seq<char>>,
    order_by: Seq<char>,
    offset: nat,
    ascending: bool,
    n: nat,
)
    requires
        !mentions(c.name@, n),
        n == offset + 2 || (!c.opts.is_id && n == offset + 3),
        !mentions(select_columns, n),
        !mentions(table, n),
        forall|i: int| 0 <= i < leading.len() ==> !mentions(#[trigger] leading[i], n),
    ensures
        first_mentioned_in(
            union_select(
                select_columns,
                table,
                leading,
                page_branches(c, offset, ascending),
                trailing,
                order_by,
                offset + 1,
            ),
            compared(c, ascending).text(c.name@, offset + 2, offset + 3),
            n,
        ),
{
    let branches = page_branches(c, offset, ascending);
    let text = compared(c, ascending).text(c.name@, offset + 2, offset + 3);
    compared_mentions(c, ascending, offset + 2, offset + 3, n);
    assert(cursor_states(c)[0] == CursorState::After);
    let (opening, closing) = condition_compares(c, ascending, offset + 2, offset + 3, n);
    let after = query_opens(
        select_columns,
        table,
        leading,
        branches,
        trailing,
        order_by,
        offset + 1,
        opening,
        text,
        closing,
    );
    let before = page_opening(select_columns, table, leading) + "("@ + opening;
    opening_mentions(select_columns, table, leading, opening, n);
    assert(apart(before, text + after)) by {
        reveal_strlit("(");
        if opening.len() > 0 {
            assert(before.last() == opening.last());
        } else {
            assert(before.last() == '(');
        }
    }
}

/// In a list that is sorted by the id the cursor has no value.
pub proof fn id_cursor_has_no_value(
    c: Column,
    select_columns: Seq<char>,
    table: Seq<char>,
    leading: Seq<Seq<char>>,
    trailing: Seq<Seq<char>>,
    order_by: Seq<char>,
    offset: nat,
    ascending: bool,
)
    requires
        c.opts.is_id,
        !mentions(c.name@, offset + 3),
        !mentions(select_columns, offset + 3),
        !mentions(table, offset + 3),
        !mentions(order_by, offset + 3),
        forall|i: int| 0 <= i < leading.len() ==> !mentions(#[trigger] leading[i], offset + 3),
        forall|i: int| 0 <= i < trailing.len() ==> !mentions(#[trigger] trailing[i], offset + 3),
    ensures
        !mentions(
            union_select(
                select_columns,
                table,
                leading,
                page_branches(c, offset, ascending),
                trailing,
                order_by,
                offset + 1,
            ),
            offset + 3,
        ),
{
    broadcast use {mentioned_around, mentioned_before, mentioned_behind, param_mentions};

    let n: nat = offset + 3;
    let branches = page_branches(c, offset, ascending);
    let all = selects(select_columns, table, leading, branches, trailing, order_by, offset + 1);
    reveal_strlit("(");
    reveal_strlit(")");
    reveal_strlit(" AND ");
    reveal_strlit(" UNION ALL ");
    reveal_strlit(" ORDER BY ");
    reveal_strlit(" LIMIT ");
    reveal_strlit("(SELECT ");
    reveal_strlit(" FROM ");
    reveal_strlit(" WHERE ");
    reveal_strlit(" IS NULL");
    reveal_strlit(" IS NOT NULL");
    assert(inert("("@) && inert(")"@) && inert(" AND "@) && inert(" UNION ALL "@));
    assert(inert(" ORDER BY "@) && inert(" LIMIT "@) && inert("(SELECT "@) && inert(" FROM "@));
    assert(inert(" WHERE "@) && inert(" IS NULL"@) && inert(" IS NOT NULL"@));
    assert forall|i: int| 0 <= i < all.len() implies !mentions(#[trigger] all[i], n) by {
        let branch = branches[i];
        let conditions = branch_conditions(leading, branch, trailing);
        assert(!mentions(in_brackets(branch.0), n));
        match branch.1 {
            Some(row) => {
                compared_mentions(c, ascending, offset + 2, offset + 3, n);
                condition_is_written(c, cursor_states(c)[i], offset + 2, offset + 3, ascending);
                assert(!mentions(in_brackets(row), n));
            },
            None => {},
        }
        let front = match branch.1 {
            Some(row) => leading.push(in_brackets(row)),
            None => leading,
        };
        assert forall|k: int| 0 <= k < conditions.len() implies !mentions(
            #[trigger] conditions[k],
            n,
        ) by {
            if k < leading.len() {
                assert(conditions[k] == leading[k]);
            } else if k > front.len() {
                assert(conditions[k] == trailing[k - front.len() - 1]);
            }
        }
        joined_mentions(conditions, " AND "@, n);
        let joined_conditions = joined(conditions, " AND "@);
        assert(all[i] == select_branch_code(
            select_columns,
            table,
            joined_conditions,
            order_by,
            param(offset + 1),
        ));
        assert(!mentions("(SELECT "@ + select_columns, n));
        assert(!mentions("(SELECT "@ + select_columns + " FROM "@ + table, n));
    }
    joined_mentions(all, " UNION ALL "@, n);
}

} // verus!
