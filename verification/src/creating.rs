//! How new entities are written: that each column takes the value of the entity
//! that belongs there.

use vstd::prelude::*;
use vstd::string::*;

use crate::choosing::names_of;
use crate::create_all_fn::CreateAllFn;
use crate::create_fn::CreateFn;
use crate::options::column::{access, Column};
use crate::options::columns::{Pick, Piece};
use crate::queries::starts_with;
use crate::text::{
    in_order, in_order_extended, in_order_inside, in_order_within, joined, joined_holds, literal,
    occurs, occurs_extended, occurs_itself, occurs_within, param,
};

verus! {

/// The statement that takes the value of a column out of a new entity.
pub open spec fn takes_value(c: Column) -> Seq<char> {
    if c.opts.forgettable {
        "let "@ + c.name@ + " = &Some(new_entity."@ + c.name@ + ".clone());"@
    } else {
        "let "@ + c.name@ + " = &new_entity."@ + access(c.opts.create_access(), c.name@) + ";"@
    }
}

/// The statement that hands the value of a column on as the next argument.
pub open spec fn adds_value(c: Column) -> Seq<char> {
    "__query_args.add("@ + c.name@ + " as &"@ + c.opts.ty.text@
        + ").map_err(sqlx::Error::Encode)?;"@
}

/// The statement that hands the values of a column on as the next argument.
pub open spec fn adds_values(c: Column) -> Seq<char> {
    "__query_args.add("@ + c.name@ + "_collection).map_err(sqlx::Error::Encode)?;"@
}

/// The parameters from a number on.
pub open spec fn numbered(from: nat, count: nat) -> Seq<Seq<char>> {
    Seq::new(count, |i: int| param((from + i) as nat))
}

/// Creating an entity inserts one row: the columns that are written on creation in
/// their order, each with the parameter of its place, and the time. Each value is
/// taken out of the entity first, and the arguments are added in the same order,
/// before the statement is run.
pub proof fn new_row_is_inserted(f: &CreateFn)
    ensures
        ({
            let cols = f.columns.picks(Pick::Create);
            &&& starts_with(
                f.query(),
                "WITH new_row AS (INSERT INTO "@ + f.table_name@ + " ("@ + joined(
                    names_of(cols),
                    ", "@,
                ) + ", created_at) VALUES ("@ + joined(numbered(1, cols.len()), ", "@)
                    + ", COALESCE("@ + param(cols.len() + 1) + ", NOW())) RETURNING id) "@,
            )
            &&& forall|i: int|
                0 <= i < cols.len() ==> in_order(
                    f.code(),
                    takes_value(#[trigger] cols[i]),
                    adds_value(cols[i]),
                ) && in_order(f.code(), adds_value(cols[i]), literal(f.query()))
            &&& forall|i: int, j: int|
                0 <= i < j < cols.len() ==> in_order(
                    f.code(),
                    adds_value(#[trigger] cols[i]),
                    adds_value(#[trigger] cols[j]),
                )
        }),
{
    let cols = f.columns.picks(Pick::Create);
    let n = cols.len();
    let taken = f.columns.emitted(Pick::Create, Piece::CreateBinding, "new_entity"@);
    let added = f.columns.emitted(Pick::Create, Piece::ArgAdd, ""@);
    assert(f.columns.names(Pick::Create) =~= names_of(cols));
    assert(crate::options::columns::params_from(1, n) =~= numbered(1, n));
    let front = "WITH new_row AS (INSERT INTO "@ + f.table_name@ + " ("@ + joined(
        names_of(cols),
        ", "@,
    ) + ", created_at) VALUES ("@ + joined(numbered(1, n), ", "@) + ", COALESCE("@ + param(n + 1)
        + ", NOW())) RETURNING id) "@;
    assert(f.query() == front + f.insert().statement(&CreateFn::source(), n + 1, n + 2));
    assert forall|i: int| 0 <= i < n implies taken[i] == takes_value(#[trigger] cols[i])
        && added[i] == adds_value(cols[i]) by {
        let c = cols[i];
        reveal_strlit(" = &Some(new_entity.");
        reveal_strlit(" = &Some(");
        reveal_strlit(" = &new_entity.");
        reveal_strlit(" = &");
        reveal_strlit("new_entity");
        reveal_strlit(".");
        assert(" = &Some(new_entity."@ =~= " = &Some("@ + "new_entity"@ + "."@);
        assert(" = &new_entity."@ =~= " = &"@ + "new_entity"@ + "."@);
        assert(c.create_binding("new_entity"@) =~= takes_value(c));
    }
    create_in_order(f);
    let all_taken = joined(taken, "\n"@);
    let all_added = joined(added, "\n"@);
    let query = literal(f.query());
    assert forall|i: int| 0 <= i < n implies in_order(
        f.code(),
        takes_value(#[trigger] cols[i]),
        adds_value(cols[i]),
    ) && in_order(f.code(), adds_value(cols[i]), query) by {
        joined_holds(taken, "\n"@, i);
        joined_holds(added, "\n"@, i);
        occurs_itself(query);
        in_order_within(f.code(), all_taken, all_added, taken[i], added[i]);
        in_order_within(f.code(), all_added, query, added[i], query);
    }
    assert forall|i: int, j: int| 0 <= i < j < n implies in_order(
        f.code(),
        adds_value(#[trigger] cols[i]),
        adds_value(#[trigger] cols[j]),
    ) by {
        joined_holds(added, "\n"@, i);
        assert(in_order(all_added, added[i], added[j]));
        in_order_inside(f.code(), all_added, added[i], added[j]);
    }
}

proof fn create_in_order(f: &CreateFn)
    ensures
        ({
            let taken = joined(
                f.columns.emitted(Pick::Create, Piece::CreateBinding, "new_entity"@),
                "\n"@,
            );
            let added = joined(f.columns.emitted(Pick::Create, Piece::ArgAdd, ""@), "\n"@);
            &&& in_order(f.code(), taken, added)
            &&& in_order(f.code(), added, literal(f.query()))
            &&& occurs(f.code(), added)
        }),
{
    reveal(CreateFn::code);
    broadcast use {in_order_extended, occurs_extended};

}

/// The columns of the rows that are read.
pub open spec fn from_rows(names: Seq<Seq<char>>) -> Seq<Seq<char>> {
    Seq::new(names.len(), |i: int| "unnested."@ + names[i])
}

proof fn rows_are_selected(names: Seq<Seq<char>>)
    requires
        names.len() > 0,
    ensures
        "unnested."@ + joined(names, ", unnested."@) == joined(from_rows(names), ", "@),
    decreases names.len(),
{
    reveal_strlit(", unnested.");
    reveal_strlit("unnested.");
    reveal_strlit(", ");
    assert(", unnested."@ =~= ", "@ + "unnested."@);
    assert(from_rows(names).drop_last() =~= from_rows(names.drop_last()));
    if names.len() > 1 {
        rows_are_selected(names.drop_last());
        assert("unnested."@ + joined(names, ", unnested."@) =~= joined(from_rows(names), ", "@));
    }
}

/// Creating several entities inserts one row for each: the time, and the columns
/// that are written on creation in their order, each out of the array of its
/// place. The arrays are filled from the entities, and added in the same order,
/// before the statement is run.
pub proof fn new_rows_are_inserted(f: &CreateAllFn)
    requires
        f.columns.picks(Pick::Create).len() > 0,
    ensures
        ({
            let cols = f.columns.picks(Pick::Create);
            &&& starts_with(
                f.query(),
                "WITH new_rows AS (INSERT INTO "@ + f.table_name@ + " (created_at, "@ + joined(
                    names_of(cols),
                    ", "@,
                ) + ") SELECT COALESCE($1, NOW()), "@ + joined(from_rows(names_of(cols)), ", "@)
                    + " FROM UNNEST("@ + joined(numbered(2, cols.len()), ", "@) + ") AS unnested("@
                    + joined(names_of(cols), ", "@) + ") RETURNING id) "@,
            )
            &&& forall|i: int|
                0 <= i < cols.len() ==> in_order(
                    f.code(),
                    (#[trigger] cols[i]).name@ + "_collection.push("@ + cols[i].name@ + ");"@,
                    adds_values(cols[i]),
                ) && in_order(f.code(), adds_values(cols[i]), literal(f.query()))
            &&& forall|i: int, j: int|
                0 <= i < j < cols.len() ==> in_order(
                    f.code(),
                    adds_values(#[trigger] cols[i]),
                    adds_values(#[trigger] cols[j]),
                )
        }),
{
    let cols = f.columns.picks(Pick::Create);
    let n = cols.len();
    let pushed = f.columns.emitted(Pick::Create, Piece::PushToCollection, "new_entity"@);
    let added = f.columns.emitted(Pick::Create, Piece::AddCollection, "new_entity"@);
    let names = names_of(cols);
    assert(f.columns.names(Pick::Create) =~= names);
    assert(crate::options::columns::params_from(2, n) =~= numbered(2, n));
    rows_are_selected(names);
    rows_text(
        f.table_name@,
        names,
        joined(numbered(2, n), ", "@),
        f.insert().statement(&CreateAllFn::source(), 1, n + 2),
    );
    assert forall|i: int| 0 <= i < n implies pushed[i] == (#[trigger] cols[i]).name@
        + "_collection.push("@ + cols[i].name@ + ");"@ && added[i] == adds_values(cols[i]) by {
        let c = cols[i];
        reveal_strlit("_collection.push(");
        reveal_strlit("_collection");
        reveal_strlit(".push(");
        reveal_strlit("_collection).map_err(sqlx::Error::Encode)?;");
        reveal_strlit(").map_err(sqlx::Error::Encode)?;");
        assert("_collection.push("@ =~= "_collection"@ + ".push("@);
        assert("_collection).map_err(sqlx::Error::Encode)?;"@ =~= "_collection"@
            + ").map_err(sqlx::Error::Encode)?;"@);
        assert(pushed[i] =~= c.name@ + "_collection.push("@ + c.name@ + ");"@);
        assert(added[i] =~= adds_values(c));
    }
    create_all_in_order(f);
    let all_pushed = joined(pushed, "\n"@);
    let all_added = joined(added, "\n"@);
    let query = literal(f.query());
    assert forall|i: int| 0 <= i < n implies in_order(
        f.code(),
        (#[trigger] cols[i]).name@ + "_collection.push("@ + cols[i].name@ + ");"@,
        adds_values(cols[i]),
    ) && in_order(f.code(), adds_values(cols[i]), query) by {
        joined_holds(pushed, "\n"@, i);
        joined_holds(added, "\n"@, i);
        occurs_itself(query);
        occurs_within(f.collection(), all_pushed, pushed[i]);
        in_order_within(f.code(), f.collection(), all_added, pushed[i], added[i]);
        in_order_within(f.code(), all_added, query, added[i], query);
    }
    assert forall|i: int, j: int| 0 <= i < j < n implies in_order(
        f.code(),
        adds_values(#[trigger] cols[i]),
        adds_values(#[trigger] cols[j]),
    ) by {
        joined_holds(added, "\n"@, i);
        assert(in_order(all_added, added[i], added[j]));
        in_order_inside(f.code(), all_added, added[i], added[j]);
    }
}

proof fn rows_text(
    table: Seq<char>,
    names: Seq<Seq<char>>,
    params: Seq<char>,
    events: Seq<char>,
)
    requires
        "unnested."@ + joined(names, ", unnested."@) == joined(from_rows(names), ", "@),
    ensures
        starts_with(
            crate::create_all_fn::create_all_query_code(
                table,
                joined(names, ", "@),
                joined(names, ", unnested."@),
                params,
                events,
            ),
            "WITH new_rows AS (INSERT INTO "@ + table + " (created_at, "@ + joined(names, ", "@)
                + ") SELECT COALESCE($1, NOW()), "@ + joined(from_rows(names), ", "@)
                + " FROM UNNEST("@ + params + ") AS unnested("@ + joined(names, ", "@)
                + ") RETURNING id) "@,
        ),
{
    let listed = joined(names, ", "@);
    let selected = joined(names, ", unnested."@);
    let front = "WITH new_rows AS (INSERT INTO "@ + table + " (created_at, "@ + listed
        + ") SELECT COALESCE($1, NOW()), "@ + ("unnested."@ + selected) + " FROM UNNEST("@ + params
        + ") AS unnested("@ + listed + ") RETURNING id) "@;
    reveal_strlit(") SELECT COALESCE($1, NOW()), unnested.");
    reveal_strlit(") SELECT COALESCE($1, NOW()), ");
    reveal_strlit("unnested.");
    assert(") SELECT COALESCE($1, NOW()), unnested."@ =~= ") SELECT COALESCE($1, NOW()), "@
        + "unnested."@);
    assert(crate::create_all_fn::create_all_query_code(table, listed, selected, params, events)
        =~= front + events);
}

proof fn create_all_in_order(f: &CreateAllFn)
    ensures
        ({
            let pushed = joined(
                f.columns.emitted(Pick::Create, Piece::PushToCollection, "new_entity"@),
                "\n"@,
            );
            let added = joined(
                f.columns.emitted(Pick::Create, Piece::AddCollection, "new_entity"@),
                "\n"@,
            );
            &&& occurs(f.collection(), pushed)
            &&& in_order(f.code(), f.collection(), added)
            &&& in_order(f.code(), added, literal(f.query()))
            &&& occurs(f.code(), added)
        }),
{
    assert(occurs(
        f.collection(),
        joined(f.columns.emitted(Pick::Create, Piece::PushToCollection, "new_entity"@), "\n"@),
    )) by {
        broadcast use occurs_extended;

    }
    reveal(CreateAllFn::code);
    broadcast use {in_order_extended, occurs_extended};

}

} // verus!
