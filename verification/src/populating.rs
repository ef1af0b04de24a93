//! How the nested entities of loaded entities are read.

use vstd::prelude::*;
use vstd::string::*;

use crate::options::delete::DeleteOption;
use crate::options::repository::ParamPart;
use crate::populate_nested::PopulateNested;
use crate::queries::{ends_with, starts_with};
use crate::text::{
    in_order, in_order_extended, in_order_within, literal, occurs, occurs_extended, occurs_itself,
    only_if,
};

verus! {

/// The nested entities of the given parents are read with all their events, in
/// their order: the live ones, and where deleted ones are asked for those too.
/// The functions read what their names say, on all levels.
pub proof fn nested_are_populated(p: &PopulateNested, with_deleted: bool)
    ensures
        starts_with(
            p.query(with_deleted),
            "WITH entities AS (SELECT * FROM "@ + p.table_name@ + " WHERE ("@ + p.column.name@
                + " = ANY($1))"@ + (if !with_deleted && p.delete_option != DeleteOption::No {
                " AND deleted = FALSE"@
            } else {
                ""@
            }) + ") SELECT i.id AS \"entity_id: "@ + p.id@,
        ),
        ends_with(p.query(with_deleted), " ORDER BY e.id, e.sequence"@),
        in_order(
            p.query(with_deleted),
            " FROM entities i JOIN "@ + p.events_table_name@ + " e ON i.id = e.id"@,
            " ORDER BY e.id, e.sequence"@,
        ),
        p.forgettable_table_name is Some ==> in_order(
            p.query(with_deleted),
            "p.payload as \"forgettable_payload?\""@,
            " LEFT JOIN "@ + p.forgettable_table_name->0@
                + " p ON e.id = p.entity_id AND e.sequence = p.sequence"@,
        ),
        starts_with(
            p.function(with_deleted),
            "async fn populate_in_op"@ + (if with_deleted {
                "_include_deleted<"@
            } else {
                "<"@
            }),
        ),
        in_order(
            p.function(with_deleted),
            literal(p.query(with_deleted)),
            "Self::load_all_nested_in_op"@ + (if with_deleted {
                "_include_deleted::<"@
            } else {
                "::<"@
            }),
        ),
{
    populate_query_parts(p, with_deleted);
    populate_fn_parts(p, with_deleted);
}

proof fn populate_query_parts(p: &PopulateNested, with_deleted: bool)
    ensures
        starts_with(
            p.query(with_deleted),
            "WITH entities AS (SELECT * FROM "@ + p.table_name@ + " WHERE ("@ + p.column.name@
                + " = ANY($1))"@ + (if !with_deleted && p.delete_option != DeleteOption::No {
                " AND deleted = FALSE"@
            } else {
                ""@
            }) + ") SELECT i.id AS \"entity_id: "@ + p.id@,
        ),
        ends_with(p.query(with_deleted), " ORDER BY e.id, e.sequence"@),
        in_order(
            p.query(with_deleted),
            " FROM entities i JOIN "@ + p.events_table_name@ + " e ON i.id = e.id"@,
            " ORDER BY e.id, e.sequence"@,
        ),
        p.forgettable_table_name is Some ==> in_order(
            p.query(with_deleted),
            "p.payload as \"forgettable_payload?\""@,
            " LEFT JOIN "@ + p.forgettable_table_name->0@
                + " p ON e.id = p.entity_id AND e.sequence = p.sequence"@,
        ),
{
    let opening = "WITH entities AS (SELECT * FROM "@ + p.table_name@ + " WHERE ("@
        + p.column.name@ + " = ANY($1))"@ + (if !with_deleted && p.delete_option
        != DeleteOption::No {
        " AND deleted = FALSE"@
    } else {
        ""@
    }) + ") SELECT i.id AS \"entity_id: "@ + p.id@;
    assert(starts_with(p.query(with_deleted), opening)) by {
        assert(opening =~= opening + Seq::<char>::empty());
        assert(starts_with(opening, opening));
        broadcast use crate::queries::starts_extended;

    }
    let from = " FROM entities i JOIN "@ + p.events_table_name@ + " e ON i.id = e.id"@;
    assert forall|t: Seq<char>| #[trigger]
        (t + " FROM entities i JOIN "@ + p.events_table_name@ + " e ON i.id = e.id"@) == t
            + from by {
        assert(t + " FROM entities i JOIN "@ + p.events_table_name@ + " e ON i.id = e.id"@ =~= t
            + from);
    }
    broadcast use {in_order_extended, occurs_extended};

}

proof fn populate_fn_parts(p: &PopulateNested, with_deleted: bool)
    ensures
        starts_with(
            p.function(with_deleted),
            "async fn populate_in_op"@ + (if with_deleted {
                "_include_deleted<"@
            } else {
                "<"@
            }),
        ),
        in_order(
            p.function(with_deleted),
            literal(p.query(with_deleted)),
            "Self::load_all_nested_in_op"@ + (if with_deleted {
                "_include_deleted::<"@
            } else {
                "::<"@
            }),
        ),
{
    let name = if with_deleted {
        "populate_in_op_include_deleted"@
    } else {
        "populate_in_op"@
    };
    let load = if with_deleted {
        "load_all_nested_in_op_include_deleted"@
    } else {
        "load_all_nested_in_op"@
    };
    populate_text(
        name,
        p.column.opts.ty.text@,
        p.repo_types_mod@,
        literal(p.query(with_deleted)),
        load,
        p.column.opts.parent_text(p.column.name@),
    );
    reveal_strlit("<");
    reveal_strlit("::<");
    reveal_strlit("Self::");
    reveal_strlit("async fn ");
    reveal_strlit("async fn populate_in_op");
    reveal_strlit("_include_deleted<");
    reveal_strlit("_include_deleted::<");
    reveal_strlit("Self::load_all_nested_in_op");
    reveal_strlit("populate_in_op_include_deleted");
    reveal_strlit("populate_in_op");
    reveal_strlit("load_all_nested_in_op_include_deleted");
    reveal_strlit("load_all_nested_in_op");
    assert("async fn "@ + name + "<"@ =~= "async fn populate_in_op"@ + (if with_deleted {
        "_include_deleted<"@
    } else {
        "<"@
    }));
    assert("Self::"@ + load + "::<"@ =~= "Self::load_all_nested_in_op"@ + (if with_deleted {
        "_include_deleted::<"@
    } else {
        "::<"@
    }));
}

proof fn populate_text(
    name: Seq<char>,
    ty: Seq<char>,
    types: Seq<char>,
    query: Seq<char>,
    load: Seq<char>,
    accessor: Seq<char>,
)
    ensures
        ({
            let code = crate::populate_nested::populate_fn_code(
                name,
                ty,
                types,
                query,
                load,
                accessor,
            );
            &&& starts_with(code, "async fn "@ + name + "<"@)
            &&& in_order(code, query, "Self::"@ + load + "::<"@)
        }),
{
    let code = crate::populate_nested::populate_fn_code(name, ty, types, query, load, accessor);
    let head = "<OP, P, __EsErr>(\n    op: &mut OP,\n    mut lookup: std::collections::HashMap<"@;
    let call_open = "::Repo__Event as EsEvent>::event_context(),\n        ).fetch_all(es_entity::annotate_executor(op.as_executor())).await?\n    };\n    let n = rows.len();\n    let (mut res, _) = es_entity::EntityEvents::load_n::<<Self as EsRepo>::Entity>(rows.into_iter(), n)?;\n    Self::"@;
    let call_end = "::<_, __EsErr>(op, &mut res).await?;\n    for entity in res.into_iter() {\n        let parent = lookup.get_mut(&entity."@;
    assert(starts_with(code, "async fn "@ + name + "<"@)) by {
        reveal_strlit("<OP, P, __EsErr>(\n    op: &mut OP,\n    mut lookup: std::collections::HashMap<");
        reveal_strlit("<");
        let rest = head.skip(1);
        assert(head =~= "<"@ + rest);
        assert("async fn "@ + name + head =~= ("async fn "@ + name + "<"@) + rest);
        assert(starts_with("async fn "@ + name + head, "async fn "@ + name + "<"@));
        broadcast use crate::queries::starts_extended;

    }
    let call = call_open + load + call_end;
    assert(in_order(code, query, call)) by {
        assert forall|t: Seq<char>| #[trigger] (t + call_open + load + call_end) == t + call by {
            assert(t + call_open + load + call_end =~= t + call);
        }
        broadcast use {in_order_extended, occurs_extended};

    }
    assert(occurs(call, "Self::"@ + load + "::<"@)) by {
        reveal_strlit("::Repo__Event as EsEvent>::event_context(),\n        ).fetch_all(es_entity::annotate_executor(op.as_executor())).await?\n    };\n    let n = rows.len();\n    let (mut res, _) = es_entity::EntityEvents::load_n::<<Self as EsRepo>::Entity>(rows.into_iter(), n)?;\n    Self::");
        reveal_strlit("::<_, __EsErr>(op, &mut res).await?;\n    for entity in res.into_iter() {\n        let parent = lookup.get_mut(&entity.");
        reveal_strlit("Self::");
        reveal_strlit("::<");
        let front = call_open.take(call_open.len() - 6);
        let back = call_end.skip(3);
        assert(call_open =~= front + "Self::"@);
        assert(call_end =~= "::<"@ + back);
        assert(call =~= front + ("Self::"@ + load + "::<"@) + back);
    }
    occurs_itself(query);
    in_order_within(code, query, call, query, "Self::"@ + load + "::<"@);
}

/// Both functions are there where deleted entities can be told from live ones, and
/// what deletes the nested entities with their parent too.
pub proof fn populated_code(p: &PopulateNested)
    ensures
        occurs(p.code(), p.function(false)),
        p.delete_option != DeleteOption::No ==> occurs(p.code(), p.function(true)),
        p.delete_option != DeleteOption::No ==> ends_with(p.code(), p.cascade().code()),
{
    reveal(PopulateNested::code);
    let soft = p.delete_option.soft();
    let head = crate::populate_nested::populate_impl_code(
        p.generics.listed(None, ParamPart::ImplDeclaration),
        p.column.opts.ty.text@,
        p.ident@,
        p.generics.listed(None, ParamPart::Name),
        p.generics.where_clause@,
        p.function(false),
        only_if(soft, p.function(true)),
    );
    assert(occurs(head, p.function(false)) && (soft ==> occurs(head, p.function(true)))) by {
        broadcast use occurs_extended;

    }
    let tail = only_if(soft, "\n"@ + p.cascade().code());
    occurs_extended(head, tail, p.function(false));
    if soft {
        occurs_extended(head, tail, p.function(true));
        assert(p.code() =~= (head + "\n"@) + p.cascade().code());
    }
}

} // verus!
