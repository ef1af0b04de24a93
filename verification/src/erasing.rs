//! What the statements that delete and forget do to the rows of a table.

use vstd::prelude::*;
use vstd::string::*;

use crate::delete_fn::DeleteFn;
use crate::forget_fn::{set_null, ForgetFn};
use crate::hydrate_nested::{null_columns, CascadeDelete};
use crate::options::column::Column;
use crate::options::columns::{bound, delete_set_parts};
use crate::queries::{joined_two, params_are_written, starts_with};
use crate::sql::{all_hold, written, Args, Expr, Record};
use crate::text::{
    ended, in_order, joined, joined_holds, literal, occurs, occurs_extended, occurs_itself, param,
};

verus! {

/// What a statement sets.
pub enum Setting {
    /// A column takes the value of a parameter.
    Value(Seq<char>, nat),
    /// A column becomes NULL.
    Null(Seq<char>),
    /// The row is marked as deleted.
    Mark,
}

impl Setting {
    /// The assignment as it is written.
    pub open spec fn text(self) -> Seq<char> {
        match self {
            Setting::Value(column, n) => column + " = "@ + param(n),
            Setting::Null(column) => column + " = NULL"@,
            Setting::Mark => "deleted = TRUE"@,
        }
    }

    /// Whether it is there in a row after the statement.
    pub open spec fn done(self, row: Record, args: Args) -> bool {
        match self {
            Setting::Value(column, n) => (row.fields)(column) == args(n),
            Setting::Null(column) => (row.fields)(column) is None,
            Setting::Mark => row.deleted,
        }
    }

    /// Whether it sets the column.
    pub open spec fn sets(self, name: Seq<char>) -> bool {
        match self {
            Setting::Value(column, _) => column == name,
            Setting::Null(column) => column == name,
            Setting::Mark => false,
        }
    }
}

/// A statement that changes the rows that meet its conditions.
pub struct Change {
    pub table: Seq<char>,
    pub settings: Seq<Setting>,
    pub conditions: Seq<Expr>,
}

/// The settings as they are written.
pub open spec fn settings_written(settings: Seq<Setting>) -> Seq<Seq<char>> {
    Seq::new(settings.len(), |i: int| settings[i].text())
}

impl Change {
    /// The statement as it is written.
    pub open spec fn text(self) -> Seq<char> {
        "UPDATE "@ + self.table + " SET "@ + joined(settings_written(self.settings), ", "@)
            + " WHERE "@ + joined(written(self.conditions), " AND "@)
    }

    /// Whether the statement may make the row `new` out of `row`.
    pub open spec fn makes(self, row: Record, args: Args, new: Record) -> bool {
        if all_hold(self.conditions, row, args) {
            &&& forall|i: int|
                0 <= i < self.settings.len() ==> (#[trigger] self.settings[i]).done(new, args)
            &&& forall|name: Seq<char>|
                (forall|i: int|
                    0 <= i < self.settings.len() ==> !(#[trigger] self.settings[i]).sets(name))
                    ==> #[trigger] (new.fields)(name) == (row.fields)(name)
            &&& !self.settings.contains(Setting::Mark) ==> new.deleted == row.deleted
        } else {
            new == row
        }
    }
}

/// Whether a row is the same but that the columns are NULL.
pub open spec fn emptied(row: Record, new: Record, names: Seq<Seq<char>>) -> bool {
    forall|name: Seq<char>| #[trigger]
        (new.fields)(name) == (if names.contains(name) {
            None
        } else {
            (row.fields)(name)
        })
}

/// The columns, each set to NULL.
pub open spec fn nulled(names: Seq<Seq<char>>) -> Seq<Setting> {
    Seq::new(names.len(), |i: int| Setting::Null(names[i]))
}

/// The statement that marks the nested entities of a parent.
pub open spec fn marking(c: &CascadeDelete) -> Change {
    Change {
        table: c.table_name@,
        settings: seq![Setting::Mark] + nulled(
            if c.forgettable_table_name is Some {
                c.forgettable_columns.deep_view()
            } else {
                Seq::empty()
            },
        ),
        conditions: seq![Expr::Equal(c.column.name@, 1), Expr::Live],
    }
}

proof fn marked_then_nulled(names: Seq<Seq<char>>)
    ensures
        joined(settings_written(seq![Setting::Mark] + nulled(names)), ", "@) == "deleted = TRUE"@
            + ended(null_columns(names), ""@),
    decreases names.len(),
{
    let all = settings_written(seq![Setting::Mark] + nulled(names));
    reveal_strlit("");
    if names.len() > 0 {
        let front = names.drop_last();
        marked_then_nulled(front);
        assert(all.drop_last() =~= settings_written(seq![Setting::Mark] + nulled(front)));
        assert(null_columns(names).drop_last() =~= null_columns(front));
        let last = names.last();
        assert(all.last() == last + " = NULL"@);
        assert(null_columns(names).last() == ", "@ + last + " = NULL"@);
        assert(joined(all, ", "@) =~= "deleted = TRUE"@ + ended(null_columns(names), ""@));
    } else {
        assert(all =~= seq!["deleted = TRUE"@]);
        assert(joined(all, ", "@) =~= "deleted = TRUE"@ + ended(null_columns(names), ""@));
    }
}

/// The statements run the one that marks, behind the one for the payloads where
/// there is one.
proof fn marking_is_run(c: &CascadeDelete)
    ensures
        c.statements() == (match c.forgettable_table_name {
            Some(payloads) => crate::hydrate_nested::run_for_parent_code(
                literal(
                    crate::hydrate_nested::child_payload_query_code(
                        payloads@,
                        c.table_name@,
                        c.column.name@,
                    ),
                ),
                c.column.opts.ty.text@,
                c.executor@,
            ) + "\n"@,
            None => Seq::empty(),
        }) + crate::hydrate_nested::run_for_parent_code(
            literal(marking(c).text()),
            c.column.opts.ty.text@,
            c.executor@,
        ),
{
    let names = if c.forgettable_table_name is Some {
        c.forgettable_columns.deep_view()
    } else {
        Seq::empty()
    };
    let nulls = ended(null_columns(names), ""@);
    let text = marking(c).text();
    let query = crate::hydrate_nested::child_delete_query_code(
        c.table_name@,
        nulls,
        c.column.name@,
    );
    marked_then_nulled(names);
    params_are_written();
    assert(query == text) by {
        let conditions = written(marking(c).conditions);
        assert(conditions =~= seq![c.column.name@ + " = "@ + param(1), "deleted = FALSE"@]);
        joined_two(c.column.name@ + " = "@ + param(1), "deleted = FALSE"@, " AND "@);
        reveal_strlit(" SET deleted = TRUE");
        reveal_strlit(" SET ");
        reveal_strlit("deleted = TRUE");
        reveal_strlit(" = $1 AND deleted = FALSE");
        reveal_strlit(" = ");
        reveal_strlit("$");
        reveal_strlit("1");
        reveal_strlit(" AND ");
        reveal_strlit("deleted = FALSE");
        assert(" SET deleted = TRUE"@ =~= " SET "@ + "deleted = TRUE"@);
        assert(" = $1 AND deleted = FALSE"@ =~= " = "@ + ("$"@ + "1"@) + " AND "@
            + "deleted = FALSE"@);
        assert(query =~= text);
    }
    reveal_strlit("");
    if c.forgettable_table_name is None {
        assert(null_columns(names) =~= Seq::<Seq<char>>::empty());
        assert(nulls =~= ""@);
    }
    let run = crate::hydrate_nested::run_for_parent_code(
        literal(text),
        c.column.opts.ty.text@,
        c.executor@,
    );
    assert(Seq::<char>::empty() + run =~= run);
}

proof fn marking_is_written(c: &CascadeDelete)
    ensures
        occurs(c.statements(), literal(marking(c).text())),
{
    marking_is_run(c);
    let mark = literal(marking(c).text());
    let run = crate::hydrate_nested::run_for_parent_code(
        mark,
        c.column.opts.ty.text@,
        c.executor@,
    );
    assert(occurs(run, mark)) by {
        broadcast use occurs_extended;

    }
    broadcast use crate::text::occurs_behind;

}

/// Deleting an entity marks each nested entity of its that is not deleted yet,
/// and, where payloads can be forgotten, sets its forgettable columns to NULL. It
/// leaves all other rows as they are.
pub proof fn nested_are_marked(c: &CascadeDelete) -> (change: Change)
    ensures
        occurs(c.statements(), literal(change.text())),
        change.table == c.table_name@,
        forall|row: Record, args: Args, new: Record| #[trigger]
            change.makes(row, args, new) ==> if args(1) is Some && (row.fields)(c.column.name@)
                == args(1) && !row.deleted {
                new.deleted && emptied(
                    row,
                    new,
                    if c.forgettable_table_name is Some {
                        c.forgettable_columns.deep_view()
                    } else {
                        Seq::empty()
                    },
                )
            } else {
                new == row
            },
{
    let change = marking(c);
    marking_is_written(c);
    let names = if c.forgettable_table_name is Some {
        c.forgettable_columns.deep_view()
    } else {
        Seq::empty()
    };
    assert forall|row: Record, args: Args, new: Record| #[trigger]
        change.makes(row, args, new) implies if args(1) is Some && (row.fields)(c.column.name@)
        == args(1) && !row.deleted {
        new.deleted && emptied(row, new, names)
    } else {
        new == row
    } by {
        assert(change.conditions[0].truth(row, args) == crate::sql::sql_equal(
            (row.fields)(c.column.name@),
            args(1),
        ));
        assert(change.conditions[1].truth(row, args) == Some(!row.deleted));
        if all_hold(change.conditions, row, args) {
            assert(change.settings[0].done(new, args));
            nulling_empties(change, 1, names, row, args, new);
        }
    }
    change
}

proof fn nulling_empties(
    change: Change,
    at: int,
    names: Seq<Seq<char>>,
    row: Record,
    args: Args,
    new: Record,
)
    requires
        change.makes(row, args, new),
        all_hold(change.conditions, row, args),
        0 <= at,
        change.settings.len() == at + names.len(),
        forall|i: int|
            0 <= i < at ==> #[trigger] change.settings[i] == Setting::Mark,
        forall|i: int|
            at <= i < change.settings.len() ==> #[trigger] change.settings[i] == Setting::Null(
                names[i - at],
            ),
    ensures
        emptied(row, new, names),
{
    assert forall|name: Seq<char>| #[trigger]
        (new.fields)(name) == (if names.contains(name) {
            None
        } else {
            (row.fields)(name)
        }) by {
        if names.contains(name) {
            let i = choose|i: int| 0 <= i < names.len() && names[i] == name;
            assert(change.settings[i + at].done(new, args));
        } else {
            assert forall|i: int| 0 <= i < change.settings.len() implies !(
            #[trigger] change.settings[i]).sets(name) by {
                if i >= at {
                    assert(change.settings[i] == Setting::Null(names[i - at]));
                    assert(names.contains(names[i - at]));
                }
            }
        }
    }
}

/// The statement that forgets the columns of an entity.
pub open spec fn forgetting(f: &ForgetFn) -> Change {
    Change {
        table: f.table_name@,
        settings: nulled(f.forgettable_columns.deep_view()),
        conditions: seq![Expr::Equal("id"@, 1)],
    }
}

/// Forgetting sets the forgettable columns of the entity to NULL, and changes
/// nothing else in the table: neither another column nor another row.
pub proof fn columns_are_forgotten(f: &ForgetFn) -> (change: Change)
    ensures
        starts_with(f.combined(), "WITH updated AS ("@ + change.text() + " RETURNING id) "@),
        change.table == f.table_name@,
        forall|row: Record, args: Args, new: Record| #[trigger]
            change.makes(row, args, new) ==> if args(1) is Some && (row.fields)("id"@) == args(1) {
                new.deleted == row.deleted && emptied(row, new, f.forgettable_columns.deep_view())
            } else {
                new == row
            },
{
    let change = forgetting(f);
    let names = f.forgettable_columns.deep_view();
    params_are_written();
    assert(settings_written(change.settings) =~= set_null(names));
    let wrapped = "WITH updated AS ("@ + change.text() + " RETURNING id) "@;
    assert(written(change.conditions) =~= seq!["id"@ + " = "@ + param(1)]);
    let insert = f.insert().statement(&f.source(), 2, 4);
    assert(f.combined() =~= wrapped + insert) by {
        reveal_strlit("WITH updated AS (UPDATE ");
        reveal_strlit("WITH updated AS (");
        reveal_strlit("UPDATE ");
        reveal_strlit(" WHERE id = $1 RETURNING id) ");
        reveal_strlit(" WHERE ");
        reveal_strlit("id");
        reveal_strlit(" = ");
        reveal_strlit("$");
        reveal_strlit("1");
        reveal_strlit(" RETURNING id) ");
        assert("WITH updated AS (UPDATE "@ =~= "WITH updated AS ("@ + "UPDATE "@);
        assert(" WHERE id = $1 RETURNING id) "@ =~= " WHERE "@ + ("id"@ + " = "@ + ("$"@ + "1"@))
            + " RETURNING id) "@);
    }
    assert forall|row: Record, args: Args, new: Record| #[trigger]
        change.makes(row, args, new) implies if args(1) is Some && (row.fields)("id"@) == args(1) {
        new.deleted == row.deleted && emptied(row, new, names)
    } else {
        new == row
    } by {
        assert(change.conditions[0].truth(row, args) == crate::sql::sql_equal(
            (row.fields)("id"@),
            args(1),
        ));
        if all_hold(change.conditions, row, args) {
            nulling_empties(change, 0, names, row, args, new);
            assert(!change.settings.contains(Setting::Mark));
        }
    }
    change
}

/// What a soft delete sets the columns to.
pub open spec fn last_values(cols: Seq<Column>) -> Seq<Setting> {
    Seq::new(
        cols.len(),
        |i: int|
            if cols[i].opts.forgettable {
                Setting::Null(cols[i].name@)
            } else {
                Setting::Value(cols[i].name@, bound(cols.take(i)) + 2)
            },
    )
}

/// The statement that marks an entity as deleted.
pub open spec fn deleting(f: &DeleteFn) -> Change {
    Change {
        table: f.table_name@,
        settings: last_values(f.columns.set_columns()) + seq![Setting::Mark],
        conditions: seq![Expr::Equal("id"@, 1)],
    }
}

proof fn deleting_is_written(f: &DeleteFn)
    requires
        f.columns.all.len() > 0,
    ensures
        starts_with(f.query(), "WITH updated AS ("@ + deleting(f).text() + " RETURNING id) "@),
{
    let change = deleting(f);
    let cols = f.columns.set_columns();
    let parts = delete_set_parts(cols);
    let all = settings_written(change.settings);
    params_are_written();
    assert(settings_written(last_values(cols)) =~= parts);
    assert(all.drop_last() =~= parts);
    assert(all.last() == "deleted = TRUE"@);
    let comma = if f.updates().len() == 0 {
        ""@
    } else {
        ", "@
    };
    reveal_strlit("");
    assert(joined(all, ", "@) == f.updates() + comma + "deleted = TRUE"@) by {
        if parts.len() > 0 {
            joined_holds(parts, ", "@, 0);
            reveal_strlit(" = NULL");
            reveal_strlit(" = ");
            assert(parts[0].len() > 0);
        } else {
            assert(all =~= seq!["deleted = TRUE"@]);
            assert(joined(all, ", "@) =~= f.updates() + comma + "deleted = TRUE"@);
        }
    }
    let wrapped = "WITH updated AS ("@ + change.text() + " RETURNING id) "@;
    assert(written(change.conditions) =~= seq!["id"@ + " = "@ + param(1)]);
    let events = f.insert().statement(&f.source(), f.now_param(), f.now_param() + 2);
    assert(f.query() =~= wrapped + events) by {
        reveal_strlit("WITH updated AS (UPDATE ");
        reveal_strlit("WITH updated AS (");
        reveal_strlit("UPDATE ");
        reveal_strlit("deleted = TRUE WHERE id = $1 RETURNING id) ");
        reveal_strlit("deleted = TRUE");
        reveal_strlit(" WHERE ");
        reveal_strlit("id");
        reveal_strlit(" = ");
        reveal_strlit("$");
        reveal_strlit("1");
        reveal_strlit(" RETURNING id) ");
        assert("WITH updated AS (UPDATE "@ =~= "WITH updated AS ("@ + "UPDATE "@);
        assert("deleted = TRUE WHERE id = $1 RETURNING id) "@ =~= "deleted = TRUE"@ + " WHERE "@
            + ("id"@ + " = "@ + ("$"@ + "1"@)) + " RETURNING id) "@);
    }
}

/// Deleting marks the entity as deleted, sets those of its columns that can be
/// forgotten to NULL, and changes no other row and no column that is not written
/// on updates.
pub proof fn entity_is_marked(f: &DeleteFn) -> (change: Change)
    requires
        f.columns.all.len() > 0,
    ensures
        starts_with(f.query(), "WITH updated AS ("@ + change.text() + " RETURNING id) "@),
        change.table == f.table_name@,
        forall|row: Record, args: Args, new: Record| #[trigger]
            change.makes(row, args, new) ==> if args(1) is Some && (row.fields)("id"@) == args(1) {
                &&& new.deleted
                &&& forall|i: int|
                    0 <= i < f.columns.set_columns().len()
                        && (#[trigger] f.columns.set_columns()[i]).opts.forgettable ==> (
                    new.fields)(f.columns.set_columns()[i].name@) is None
                &&& forall|name: Seq<char>|
                    (forall|i: int|
                        0 <= i < f.columns.set_columns().len() ==> (
                        #[trigger] f.columns.set_columns()[i]).name@ != name)
                        ==> #[trigger] (new.fields)(name) == (row.fields)(name)
            } else {
                new == row
            },
{
    let change = deleting(f);
    let cols = f.columns.set_columns();
    deleting_is_written(f);
    assert forall|row: Record, args: Args, new: Record| #[trigger]
        change.makes(row, args, new) implies if args(1) is Some && (row.fields)("id"@) == args(1) {
        &&& new.deleted
        &&& forall|i: int|
            0 <= i < cols.len() && (#[trigger] cols[i]).opts.forgettable ==> (new.fields)(
                cols[i].name@,
            ) is None
        &&& forall|name: Seq<char>|
            (forall|i: int| 0 <= i < cols.len() ==> (#[trigger] cols[i]).name@ != name)
                ==> #[trigger] (new.fields)(name) == (row.fields)(name)
    } else {
        new == row
    } by {
        assert(change.conditions[0].truth(row, args) == crate::sql::sql_equal(
            (row.fields)("id"@),
            args(1),
        ));
        if all_hold(change.conditions, row, args) {
            assert(change.settings[cols.len() as int] == Setting::Mark);
            assert(change.settings[cols.len() as int].done(new, args));
            assert forall|i: int|
                0 <= i < cols.len() && (#[trigger] cols[i]).opts.forgettable implies (new.fields)(
                cols[i].name@,
            ) is None by {
                assert(change.settings[i] == Setting::Null(cols[i].name@));
                assert(change.settings[i].done(new, args));
            }
            assert forall|name: Seq<char>|
                (forall|i: int| 0 <= i < cols.len() ==> (#[trigger] cols[i]).name@ != name) implies
                #[trigger] (new.fields)(name) == (row.fields)(name) by {
                assert forall|i: int| 0 <= i < change.settings.len() implies !(
                #[trigger] change.settings[i]).sets(name) by {
                    if i < cols.len() {
                        assert(cols[i].name@ != name);
                    }
                }
            }
        }
    }
    change
}

/// The payloads of an entity, as a statement that deletes them names them.
pub open spec fn payloads_of(table: Seq<char>) -> Seq<char> {
    "DELETE FROM "@ + table + " WHERE entity_id = $1"@
}

/// Forgetting writes the staged events first, sets the columns to NULL where
/// there are any, and deletes all payloads of the entity.
pub proof fn payloads_are_forgotten(f: &ForgetFn)
    ensures
        occurs(
            f.forget_code(),
            literal(payloads_of(f.forgettable_table_name@)) + ",\n            id as &"@ + f.id@,
        ),
        in_order(
            f.forget_code(),
            f.persist(),
            literal(payloads_of(f.forgettable_table_name@)),
        ),
        f.forgettable_columns.len() > 0 ==> occurs(
            f.persist(),
            literal(f.combined()) + ",\n        id as &"@ + f.id@,
        ),
{
    crate::forget_fn::forget_order(f);
    let lit = literal(payloads_of(f.forgettable_table_name@));
    let part = lit + ",\n            id as &"@ + f.id@;
    assert(occurs(f.forget_code(), part)) by {
        assert forall|t: Seq<char>| #[trigger]
            (t + lit + ",\n            id as &"@ + f.id@) == t + part by {
            assert(t + lit + ",\n            id as &"@ + f.id@ =~= t + part);
        }
        broadcast use occurs_extended;

    }
    if f.forgettable_columns.len() > 0 {
        let query = literal(f.combined());
        let run = query + ",\n        id as &"@ + f.id@;
        assert(occurs(f.persist(), run)) by {
            assert forall|t: Seq<char>| #[trigger]
                (t + query + ",\n        id as &"@ + f.id@) == t + run by {
                assert(t + query + ",\n        id as &"@ + f.id@ =~= t + run);
            }
            broadcast use occurs_extended;

        }
    }
}

/// Deleting an entity deletes its payloads where payloads can be forgotten, and
/// then marks it. Where entities are not marked as deleted nothing is emitted.
pub proof fn payloads_are_deleted(f: &DeleteFn)
    ensures
        f.delete_option !is Soft && f.delete_option !is SoftWithoutQueries ==> f.code()
            == Seq::<char>::empty(),
        f.delete_option is Soft || f.delete_option is SoftWithoutQueries ==> occurs(
            f.code(),
            literal(f.query()),
        ),
        (f.delete_option is Soft || f.delete_option is SoftWithoutQueries)
            && f.forgettable_table_name is Some ==> in_order(
            f.code(),
            literal(payloads_of(f.forgettable_table_name->0@)) + ",\n    id as &"@ + f.id@,
            literal(f.query()),
        ),
{
    reveal(DeleteFn::code);
    if f.delete_option is Soft || f.delete_option is SoftWithoutQueries {
        deletion_is_run(f);
    }
}

proof fn deletion_is_run(f: &DeleteFn)
    requires
        f.delete_option is Soft || f.delete_option is SoftWithoutQueries,
    ensures
        occurs(f.code(), literal(f.query())),
        f.forgettable_table_name is Some ==> in_order(
            f.code(),
            literal(payloads_of(f.forgettable_table_name->0@)) + ",\n    id as &"@ + f.id@,
            literal(f.query()),
        ),
{
    let query = literal(f.query());
    stored_comes_first(f);
    if f.forgettable_table_name is Some {
        let stored = f.stored_payloads();
        let lit = literal(payloads_of(f.forgettable_table_name->0@));
        let part = lit + ",\n    id as &"@ + f.id@;
        assert(occurs(stored, part)) by {
            assert forall|t: Seq<char>| #[trigger]
                (t + lit + ",\n    id as &"@ + f.id@) == t + part by {
                assert(t + lit + ",\n    id as &"@ + f.id@ =~= t + part);
            }
            broadcast use occurs_extended;

        }
        occurs_itself(query);
        crate::text::in_order_within(f.code(), stored, query, part, query);
    }
}

proof fn stored_comes_first(f: &DeleteFn)
    requires
        f.delete_option is Soft || f.delete_option is SoftWithoutQueries,
    ensures
        occurs(f.code(), literal(f.query())),
        in_order(f.code(), f.stored_payloads(), literal(f.query())),
{
    reveal(DeleteFn::code);
    broadcast use {crate::text::in_order_extended, occurs_extended};

}

/// Deleting the nested entities of a parent deletes their payloads first where
/// payloads can be forgotten: those of all nested entities of the parent.
pub proof fn nested_payloads_are_deleted(c: &CascadeDelete)
    requires
        c.forgettable_table_name is Some,
    ensures
        in_order(
            c.statements(),
            literal(
                "DELETE FROM "@ + c.forgettable_table_name->0@
                    + " WHERE entity_id IN (SELECT id FROM "@ + c.table_name@ + " WHERE "@
                    + c.column.name@ + " = $1)"@,
            ) + ",\n    parent_id as &"@ + c.column.opts.ty.text@,
            literal(marking(c).text()),
        ),
{
    let ty = c.column.opts.ty.text@;
    let lit = literal(
        "DELETE FROM "@ + c.forgettable_table_name->0@ + " WHERE entity_id IN (SELECT id FROM "@
            + c.table_name@ + " WHERE "@ + c.column.name@ + " = $1)"@,
    );
    let part = lit + ",\n    parent_id as &"@ + ty;
    let first = crate::hydrate_nested::run_for_parent_code(lit, ty, c.executor@);
    let mark = literal(marking(c).text());
    let second = crate::hydrate_nested::run_for_parent_code(mark, ty, c.executor@);
    marking_is_run(c);
    assert(c.statements() == first + "\n"@ + second);
    assert(occurs(first, part)) by {
        assert forall|t: Seq<char>| #[trigger]
            (t + lit + ",\n    parent_id as &"@ + ty) == t + part by {
            assert(t + lit + ",\n    parent_id as &"@ + ty =~= t + part);
        }
        broadcast use occurs_extended;

    }
    assert(occurs(second, mark)) by {
        broadcast use occurs_extended;

    }
    occurs_extended(first, "\n"@, part);
    crate::text::in_order_joined(first + "\n"@, second, part, mark);
}

/// Checking that an entity was forgotten counts its payloads, and notes every
/// forgettable column that still holds a value.
pub proof fn remnants_are_noted(f: &ForgetFn, i: int)
    requires
        0 <= i < f.forgettable_columns.len(),
    ensures
        occurs(
            f.verify_code(),
            literal(
                "SELECT COUNT(*) AS \"count!\" FROM "@ + f.forgettable_table_name@
                    + " WHERE entity_id = $1"@,
            ),
        ),
        occurs(f.verify_code(), f.columns_check()),
        exists|selects: Seq<char>|
            occurs(
                selects,
                f.forgettable_columns@[i]@ + " IS NOT NULL AS \""@ + f.forgettable_columns@[i]@
                    + "!\""@,
            ) && #[trigger] occurs(
                f.columns_check(),
                literal("SELECT "@ + selects + " FROM "@ + f.table_name@ + " WHERE id = $1"@),
            ),
        occurs(
            f.columns_check(),
            "if row."@ + f.forgettable_columns@[i]@
                + " {\n    remnants.live_index_columns.push("@ + literal(
                f.forgettable_columns@[i]@,
            ) + ");\n}"@,
        ),
{
    let names = f.forgettable_columns.deep_view();
    let selects = joined(crate::forget_fn::not_null_selects(names), ", "@);
    let checks = ended(crate::forget_fn::column_checks(names), "\n"@);
    joined_holds(crate::forget_fn::not_null_selects(names), ", "@, i);
    crate::text::ended_holds(crate::forget_fn::column_checks(names), "\n"@, i);
    assert(occurs(f.columns_check(), checks) && occurs(
        f.columns_check(),
        literal("SELECT "@ + selects + " FROM "@ + f.table_name@ + " WHERE id = $1"@),
    )) by {
        broadcast use occurs_extended;

    }
    crate::text::occurs_within(
        f.columns_check(),
        checks,
        crate::forget_fn::column_checks(names)[i],
    );
    verify_has_parts(f);
}

proof fn verify_has_parts(f: &ForgetFn)
    ensures
        occurs(
            f.verify_code(),
            literal(
                "SELECT COUNT(*) AS \"count!\" FROM "@ + f.forgettable_table_name@
                    + " WHERE entity_id = $1"@,
            ),
        ),
        occurs(f.verify_code(), f.columns_check()),
{
    broadcast use occurs_extended;

}

} // verus!
