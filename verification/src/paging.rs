//! Cursors: that the cursor of an entity is what the next page begins behind.

use vstd::prelude::*;
use vstd::string::*;

use crate::list_by_fn::CursorStruct;
use crate::text::{in_order, in_order_extended, occurs, occurs_extended};

verus! {

/// What a cursor holds of an entity: its id, and its value of the column that the
/// list is sorted by where that is not the id.
pub proof fn cursor_holds_entity(c: &CursorStruct)
    ensures
        in_order(
            c.code(),
            "> for "@ + c.named() + " {\n    fn from(entity: &"@ + c.entity@,
            if c.column.opts.is_id {
                ") -> Self {\n        Self {\n            id: entity.id.clone(),\n            "@
            } else {
                c.column.name@ + ": entity."@ + c.column.opts.update_text(c.column.name@)
                    + ".clone(),"@
            },
        ),
        in_order(
            c.code(),
            "pub struct "@ + c.named() + " {\n    pub id: "@ + c.id@ + ",\n    "@,
            if c.column.opts.is_id {
                "\n}\nimpl From<&"@
            } else {
                "pub "@ + c.column.name@ + ": "@ + c.column.opts.ty.text@ + ","@
            },
        ),
{
    reveal(CursorStruct::code);
    let field = "pub "@ + c.column.name@ + ": "@ + c.column.opts.ty.text@ + ","@;
    let value = c.column.name@ + ": entity."@ + c.column.opts.update_text(c.column.name@)
        + ".clone(),"@;
    let none = Seq::<char>::empty();
    cursor_text(
        c.named(),
        c.id@,
        if c.column.opts.is_id {
            none
        } else {
            field
        },
        c.entity@,
        if c.column.opts.is_id {
            none
        } else {
            value
        },
    );
}

proof fn cursor_text(
    name: Seq<char>,
    id: Seq<char>,
    field: Seq<char>,
    entity: Seq<char>,
    value: Seq<char>,
)
    ensures
        ({
            let code = crate::list_by_fn::cursor_type_code(name, id, field, entity, value);
            let head = "pub struct "@ + name + " {\n    pub id: "@ + id + ",\n    "@;
            let from = "> for "@ + name + " {\n    fn from(entity: &"@ + entity;
            &&& in_order(code, head, field)
            &&& in_order(code, head, "\n}\nimpl From<&"@)
            &&& in_order(code, from, value)
            &&& in_order(
                code,
                from,
                ") -> Self {\n        Self {\n            id: entity.id.clone(),\n            "@,
            )
        }),
{
    let open = "#[derive(Debug, serde::Serialize, serde::Deserialize)]\n"@;
    let whole = "#[derive(Debug, serde::Serialize, serde::Deserialize)]\npub struct "@;
    let head = "pub struct "@ + name + " {\n    pub id: "@ + id + ",\n    "@;
    let from = "> for "@ + name + " {\n    fn from(entity: &"@ + entity;
    assert(occurs(whole + name + " {\n    pub id: "@ + id + ",\n    "@, head)) by {
        reveal_strlit("#[derive(Debug, serde::Serialize, serde::Deserialize)]\npub struct ");
        reveal_strlit("#[derive(Debug, serde::Serialize, serde::Deserialize)]\n");
        reveal_strlit("pub struct ");
        assert(whole =~= open + "pub struct "@);
        assert(whole + name + " {\n    pub id: "@ + id + ",\n    "@ =~= open + head + Seq::<
            char,
        >::empty());
    }
    assert forall|t: Seq<char>| #[trigger]
        (t + "> for "@ + name + " {\n    fn from(entity: &"@ + entity) == t + from by {
        assert(t + "> for "@ + name + " {\n    fn from(entity: &"@ + entity =~= t + from);
    }
    broadcast use {in_order_extended, occurs_extended};

}

/// A cursor is taken apart into what it holds, the values as `Option`s: without a
/// cursor both are `None`, and a value that is an `Option` itself stays what it
/// is. The arguments of the query have these types, the id first, behind the limit
/// that is one above what is asked for.
pub proof fn cursor_is_taken_apart(c: &CursorStruct)
    ensures
        ({
            let name = c.column.name@;
            let ty = c.column.opts.ty.text@;
            let names = if c.column.opts.is_id {
                "id"@
            } else {
                "(id, "@ + name + ")"@
            };
            let there = if c.column.opts.is_id {
                "Some(after.id)"@
            } else if c.column.optional() {
                "(Some(after.id), after."@ + name + ")"@
            } else {
                "(Some(after.id), Some(after."@ + name + "))"@
            };
            let missing = if c.column.opts.is_id {
                "None"@
            } else {
                "(None, None)"@
            };
            let value = if c.column.opts.is_id {
                ""@
            } else if c.column.optional() {
                " "@ + name + " as "@ + ty + ","@
            } else {
                " "@ + name + " as Option<"@ + ty + ">,"@
            };
            &&& c.destructured()
                == "let es_entity::PaginatedQueryArgs { first, after } = cursor;\nlet "@ + names
                + " = if let Some(after) = after {\n    "@ + there + "\n} else {\n    "@ + missing
                + "\n};"@
            &&& c.query_args() == "(first + 1) as i64, id as Option<"@ + c.id@ + ">,"@ + value
        }),
{
    let name = c.column.name@;
    let ty = c.column.opts.ty.text@;
    reveal_strlit("(first + 1) as i64, ");
    reveal_strlit("(first + 1) as i64, id as Option<");
    reveal_strlit("id as Option<");
    reveal_strlit(">, ");
    reveal_strlit(">,");
    reveal_strlit(" ");
    reveal_strlit("");
    assert("(first + 1) as i64, id as Option<"@ =~= "(first + 1) as i64, "@ + "id as Option<"@);
    assert(">, "@ =~= ">,"@ + " "@);
    let front = "(first + 1) as i64, id as Option<"@ + c.id@ + ">,"@;
    if c.column.opts.is_id {
        assert(c.query_args() =~= front + ""@);
    } else if c.column.optional() {
        assert(c.query_args() =~= front + (" "@ + name + " as "@ + ty + ","@));
    } else {
        assert(c.query_args() =~= front + (" "@ + name + " as Option<"@ + ty + ">,"@));
    }
}

} // verus!
