//! Nested entities: that they are created, read and deleted with the entity that
//! they belong to.

use vstd::prelude::*;
use vstd::string::*;

use crate::combo_cursor::ComboCursor;
use crate::create_all_fn::{create_all_nested_calls, CreateAllFn};
use crate::create_fn::{create_nested_calls, CreateFn};
use crate::delete_fn::{delete_nested_calls, DeleteFn};
use crate::es_repo::{load_calls, EsRepo, RepoParts};
use crate::index_catalog::IndexCatalog;
use crate::options::repository::RepositoryOptions;
use crate::text::{
    ended, in_order, in_order_extended, in_order_inside, in_order_joined, in_order_within, joined,
    joined_holds, literal, occurs, occurs_extended, occurs_itself, occurs_within, only_if,
};

verus! {

/// The call by which all new entities get their nested entities of a field.
pub open spec fn creates_for_all(label: Seq<char>) -> Seq<char> {
    "self.create_nested_"@ + label + "_in_op(op, &mut entity_refs).await?;"@
}

/// For every nested repository, with hooks or without, new entities get their
/// nested entities when they are hydrated and before the hooks run, the nested
/// repositories in the order of their fields.
pub proof fn all_get_their_nested(f: &CreateAllFn, opts: &RepositoryOptions, i: int)
    requires
        f.made_from(opts),
        0 <= i < opts.nested().len(),
    ensures
        ({
            let code = f.code();
            let call = creates_for_all(opts.nested()[i].label());
            let error = opts.entity_ident@ + "CreateError"@;
            &&& in_order(code, literal(f.query()), call)
            &&& in_order(code, "let entity = Self::hydrate_entity(events)?;"@, call)
            &&& in_order(code, "entities.push(entity);"@, call)
            &&& in_order(
                code,
                "let mut entity_refs: Vec<&mut "@ + opts.entity_ident@
                    + "> = entities.iter_mut().collect();"@,
                call,
            )
            &&& opts.hydrate_error() is Some ==> in_order(
                code,
                call,
                "self.execute_post_hydrate_hook(&entity).map_err("@ + error
                    + "::PostHydrateError)?;"@,
            )
            &&& opts.persist_error() is Some ==> in_order(
                code,
                call,
                "self.execute_post_persist_hook(op, &entity, entity.events().last_persisted(n_events)).await.map_err("@
                    + error + "::PostPersistHookError)?;"@,
            )
            &&& in_order(code, call, "Ok(entities)"@)
            &&& forall|j: int|
                i < j < opts.nested().len() ==> in_order(
                    code,
                    call,
                    creates_for_all((#[trigger] opts.nested()[j]).label()),
                )
        }),
{
    let nested = opts.nested();
    let label = nested[i].label();
    let call = creates_for_all(label);
    let names = f.nested_fn_names.deep_view();
    let calls = create_all_nested_calls(names);
    let all = joined(calls, "\n"@);
    assert(names.len() == f.nested_fn_names.len());
    assert forall|j: int| 0 <= j < nested.len() implies #[trigger] calls[j] == creates_for_all(
        nested[j].label(),
    ) by {
        call_for_all(nested[j].label());
    }
    joined_holds(calls, "\n"@, i);
    let refs = "let mut entity_refs: Vec<&mut "@ + opts.entity_ident@
        + "> = entities.iter_mut().collect();"@;
    let part = f.nested_part();
    assert(in_order(part, refs, all) && occurs(part, all)) by {
        broadcast use {in_order_extended, occurs_extended};

        reveal_strlit("> = entities.iter_mut().collect();\n");
        reveal_strlit("> = entities.iter_mut().collect();");
        reveal_strlit("\n");
        assert("> = entities.iter_mut().collect();\n"@ =~= "> = entities.iter_mut().collect();"@
            + "\n"@);
        assert(part =~= refs + "\n"@ + all + "\ndrop(entity_refs);"@);
        occurs_itself(refs);
    }
    occurs_within(part, all, call);
    let hydrate = "let entity = Self::hydrate_entity(events)?;"@;
    let push = "entities.push(entity);"@;
    let last = f.final_part();
    hydrated_first(f);
    occurs_itself(refs);
    in_order_within(part, refs, all, refs, call);
    occurs_itself(hydrate);
    occurs_itself(push);
    in_order_within(last, hydrate, part, hydrate, call);
    in_order_within(last, push, part, push, call);
    in_order_inside(last, part, refs, call);
    occurs_within(last, part, call);
    let code = f.code();
    let end = "\n        Ok(entities)\n    }.await;\n    "@;
    assert(in_order(code, literal(f.query()), last) && in_order(code, last, end) && occurs(
        code,
        last,
    )) by {
        reveal(CreateAllFn::code);
        broadcast use {in_order_extended, occurs_extended};

    }
    occurs_itself(literal(f.query()));
    in_order_within(code, literal(f.query()), last, literal(f.query()), call);
    in_order_inside(code, last, hydrate, call);
    in_order_inside(code, last, push, call);
    in_order_inside(code, last, refs, call);
    assert(occurs(end, "Ok(entities)"@)) by {
        reveal_strlit("\n        Ok(entities)\n    }.await;\n    ");
        reveal_strlit("\n        ");
        reveal_strlit("Ok(entities)");
        reveal_strlit("\n    }.await;\n    ");
        assert(end =~= "\n        "@ + "Ok(entities)"@ + "\n    }.await;\n    "@);
    }
    in_order_within(code, last, end, call, "Ok(entities)"@);
    let error = f.create_error@;
    if opts.hydrate_error() is Some {
        let hook = crate::post_hydrate_hook::check_hydrated_code(error);
        assert(in_order(last, part, hook)) by {
            broadcast use {in_order_extended, occurs_extended};

        }
        occurs_itself(hook);
        in_order_within(last, part, hook, call, hook);
        in_order_inside(code, last, call, hook);
    }
    if opts.persist_error() is Some {
        let hook = crate::post_persist_hook::run_persist_hook_code(error);
        assert(in_order(last, part, hook)) by {
            broadcast use {in_order_extended, occurs_extended};

        }
        occurs_itself(hook);
        in_order_within(last, part, hook, call, hook);
        in_order_inside(code, last, call, hook);
    }
    occurs_within(last, part, all);
    occurs_within(code, last, all);
    assert forall|j: int| i < j < nested.len() implies in_order(
        code,
        call,
        creates_for_all((#[trigger] nested[j]).label()),
    ) by {
        assert(in_order(all, calls[i], calls[j]));
        in_order_inside(code, all, calls[i], calls[j]);
    }
}

proof fn call_for_all(label: Seq<char>)
    ensures
        crate::create_all_fn::create_all_nested_code(
            crate::options::repository::NestedFn::Create.name(label),
        ) == creates_for_all(label),
{
    reveal_strlit("self.");
    reveal_strlit("create_nested_");
    reveal_strlit("self.create_nested_");
    reveal_strlit("_in_op");
    reveal_strlit("(op, &mut entity_refs).await?;");
    reveal_strlit("_in_op(op, &mut entity_refs).await?;");
    assert("self.create_nested_"@ =~= "self."@ + "create_nested_"@);
    assert("_in_op(op, &mut entity_refs).await?;"@ =~= "_in_op"@
        + "(op, &mut entity_refs).await?;"@);
    assert(crate::create_all_fn::create_all_nested_code(
        crate::options::repository::NestedFn::Create.name(label),
    ) =~= creates_for_all(label));
}

proof fn hydrated_first(f: &CreateAllFn)
    requires
        f.nested_fn_names.len() > 0,
    ensures
        occurs(f.final_part(), f.nested_part()),
        in_order(
            f.final_part(),
            "let entity = Self::hydrate_entity(events)?;"@,
            f.nested_part(),
        ),
        in_order(f.final_part(), "entities.push(entity);"@, f.nested_part()),
{
    let hydrate = "let entity = Self::hydrate_entity(events)?;"@;
    let push = "entities.push(entity);"@;
    let part = f.nested_part();
    reveal_strlit("let entity = Self::hydrate_entity(events)?;");
    reveal_strlit("entities.push(entity);");
    reveal_strlit("\n    ");
    let hooked = f.post_hydrate_error is Some || f.post_persist_error is Some;
    let front = if hooked {
        "let mut n_events_by_entity: Vec<usize> = Vec::new();\nfor (events, n_events) in all_events.into_iter().zip(n_persisted) {\n    let entity = Self::hydrate_entity(events)?;\n    entities.push(entity);\n    n_events_by_entity.push(n_events);\n}\n"@
    } else {
        "for (events, _n_events) in all_events.into_iter().zip(n_persisted) {\n    let entity = Self::hydrate_entity(events)?;\n    entities.push(entity);\n}\n"@
    };
    let (head, tail) = if hooked {
        (
            "let mut n_events_by_entity: Vec<usize> = Vec::new();\nfor (events, n_events) in all_events.into_iter().zip(n_persisted) {\n    "@,
            "\n    n_events_by_entity.push(n_events);\n}\n"@,
        )
    } else {
        ("for (events, _n_events) in all_events.into_iter().zip(n_persisted) {\n    "@, "\n}\n"@)
    };
    assert(front =~= head + hydrate + "\n    "@ + push + tail) by {
        reveal_strlit(
            "let mut n_events_by_entity: Vec<usize> = Vec::new();\nfor (events, n_events) in all_events.into_iter().zip(n_persisted) {\n    let entity = Self::hydrate_entity(events)?;\n    entities.push(entity);\n    n_events_by_entity.push(n_events);\n}\n",
        );
        reveal_strlit(
            "for (events, _n_events) in all_events.into_iter().zip(n_persisted) {\n    let entity = Self::hydrate_entity(events)?;\n    entities.push(entity);\n}\n",
        );
        reveal_strlit(
            "let mut n_events_by_entity: Vec<usize> = Vec::new();\nfor (events, n_events) in all_events.into_iter().zip(n_persisted) {\n    ",
        );
        reveal_strlit("for (events, _n_events) in all_events.into_iter().zip(n_persisted) {\n    ");
        reveal_strlit("\n    n_events_by_entity.push(n_events);\n}\n");
        reveal_strlit("\n}\n");
    }
    broadcast use {in_order_extended, occurs_extended};

    assert(occurs(front, hydrate));
    assert(occurs(front, push));
    assert(in_order(front + part, hydrate, part));
    assert(in_order(front + part, push, part));
    assert(occurs(front + part, part));
}

/// The call by which a new entity gets its nested entities of a field.
pub open spec fn creates_for_one(label: Seq<char>) -> Seq<char> {
    "self.create_nested_"@ + label + "_in_op(op, &mut [&mut entity]).await?;"@
}

proof fn call_for_one(label: Seq<char>)
    ensures
        crate::create_fn::create_nested_code(
            crate::options::repository::NestedFn::Create.name(label),
        ) == creates_for_one(label),
{
    reveal_strlit("self.");
    reveal_strlit("create_nested_");
    reveal_strlit("self.create_nested_");
    reveal_strlit("_in_op");
    reveal_strlit("(op, &mut [&mut entity]).await?;");
    reveal_strlit("_in_op(op, &mut [&mut entity]).await?;");
    assert("self.create_nested_"@ =~= "self."@ + "create_nested_"@);
    assert("_in_op(op, &mut [&mut entity]).await?;"@ =~= "_in_op"@
        + "(op, &mut [&mut entity]).await?;"@);
    assert(crate::create_fn::create_nested_code(
        crate::options::repository::NestedFn::Create.name(label),
    ) =~= creates_for_one(label));
}

/// For every nested repository a new entity gets its nested entities when it is
/// written and hydrated and before the hooks run, the nested repositories in the
/// order of their fields.
pub proof fn one_gets_its_nested(f: &CreateFn, opts: &RepositoryOptions, i: int)
    requires
        f.made_from(opts),
        0 <= i < opts.nested().len(),
    ensures
        ({
            let code = f.code();
            let call = creates_for_one(opts.nested()[i].label());
            let error = opts.entity_ident@ + "CreateError"@;
            &&& in_order(code, literal(f.query()), call)
            &&& in_order(code, "let mut entity = Self::hydrate_entity(events)?;"@, call)
            &&& opts.hydrate_error() is Some ==> in_order(
                code,
                call,
                "self.execute_post_hydrate_hook(&entity).map_err("@ + error
                    + "::PostHydrateError)?;"@,
            )
            &&& opts.persist_error() is Some ==> in_order(
                code,
                call,
                "self.execute_post_persist_hook(op, &entity, entity.events().last_persisted(n_events)).await.map_err("@
                    + error + "::PostPersistHookError)?;"@,
            )
            &&& forall|j: int|
                i < j < opts.nested().len() ==> in_order(
                    code,
                    call,
                    creates_for_one((#[trigger] opts.nested()[j]).label()),
                )
        }),
{
    let nested = opts.nested();
    let call = creates_for_one(nested[i].label());
    let names = f.nested_fn_names.deep_view();
    let calls = create_nested_calls(names);
    let all = joined(calls, "\n"@);
    assert(names.len() == f.nested_fn_names.len());
    assert forall|j: int| 0 <= j < nested.len() implies #[trigger] calls[j] == creates_for_one(
        nested[j].label(),
    ) by {
        call_for_one(nested[j].label());
    }
    joined_holds(calls, "\n"@, i);
    let code = f.code();
    let error = f.create_error@;
    let check = only_if(
        f.post_hydrate_error is Some,
        crate::post_hydrate_hook::check_hydrated_code(error),
    );
    let run = only_if(
        f.post_persist_error is Some,
        crate::post_persist_hook::run_persist_hook_code(error),
    );
    assert(in_order(code, literal(f.query()), all) && occurs(code, all) && in_order(
        code,
        all,
        check,
    ) && in_order(code, all, run)) by {
        reveal(CreateFn::code);
        broadcast use {in_order_extended, occurs_extended};

    }
    let statement = "let mut entity = Self::hydrate_entity(events)?;"@;
    hydrated_mutably(f);
    occurs_itself(literal(f.query()));
    in_order_within(code, literal(f.query()), all, literal(f.query()), call);
    occurs_itself(statement);
    in_order_within(code, statement, all, statement, call);
    occurs_itself(check);
    occurs_itself(run);
    in_order_within(code, all, check, call, check);
    in_order_within(code, all, run, call, run);
    assert forall|j: int| i < j < nested.len() implies in_order(
        code,
        call,
        creates_for_one((#[trigger] nested[j]).label()),
    ) by {
        assert(in_order(all, calls[i], calls[j]));
        in_order_inside(code, all, calls[i], calls[j]);
    }
}

proof fn hydrated_mutably(f: &CreateFn)
    requires
        f.nested_fn_names.len() > 0,
    ensures
        in_order(
            f.code(),
            "let mut entity = Self::hydrate_entity(events)?;"@,
            joined(create_nested_calls(f.nested_fn_names.deep_view()), "\n"@),
        ),
{
    let code = f.code();
    let all = joined(create_nested_calls(f.nested_fn_names.deep_view()), "\n"@);
    let statement = "let mut entity = Self::hydrate_entity(events)?;"@;
    let hydrated = " = Self::hydrate_entity(events)?;\n        "@;
    reveal_strlit("mut entity");
    reveal_strlit(" = Self::hydrate_entity(events)?;\n        ");
    reveal_strlit("let mut entity = Self::hydrate_entity(events)?;");
    reveal_strlit("\n        ");
    reveal_strlit(
        "\n        let recorded_at = rows\n            .first()\n            .ok_or(sqlx::Error::RowNotFound)\n            .and_then(|row| row.try_get(\"recorded_at\"))?;\n        let n_events = events.mark_new_events_persisted_at(recorded_at);\n        let ",
    );
    reveal_strlit(
        "\n        let recorded_at = rows\n            .first()\n            .ok_or(sqlx::Error::RowNotFound)\n            .and_then(|row| row.try_get(\"recorded_at\"))?;\n        let n_events = events.mark_new_events_persisted_at(recorded_at);\n        ",
    );
    let marked = "\n        let recorded_at = rows\n            .first()\n            .ok_or(sqlx::Error::RowNotFound)\n            .and_then(|row| row.try_get(\"recorded_at\"))?;\n        let n_events = events.mark_new_events_persisted_at(recorded_at);\n        let "@;
    let before = "\n        let recorded_at = rows\n            .first()\n            .ok_or(sqlx::Error::RowNotFound)\n            .and_then(|row| row.try_get(\"recorded_at\"))?;\n        let n_events = events.mark_new_events_persisted_at(recorded_at);\n        "@;
    let written = marked + "mut entity"@ + hydrated;
    assert(written =~= before + statement + "\n        "@);
    assert(occurs(written, statement));
    assert(occurs(code, marked + "mut entity"@ + hydrated + all)) by {
        create_is_split(f);
    }
    occurs_itself(all);
    in_order_joined(written, all, statement, all);
    in_order_inside(code, written + all, statement, all);
}

proof fn create_is_split(f: &CreateFn)
    requires
        f.nested_fn_names.len() > 0,
    ensures
        occurs(
            f.code(),
            "\n        let recorded_at = rows\n            .first()\n            .ok_or(sqlx::Error::RowNotFound)\n            .and_then(|row| row.try_get(\"recorded_at\"))?;\n        let n_events = events.mark_new_events_persisted_at(recorded_at);\n        let "@
                + "mut entity"@ + " = Self::hydrate_entity(events)?;\n        "@ + joined(
                create_nested_calls(f.nested_fn_names.deep_view()),
                "\n"@,
            ),
        ),
{
    reveal(CreateFn::code);
    let a = "\n        let recorded_at = rows\n            .first()\n            .ok_or(sqlx::Error::RowNotFound)\n            .and_then(|row| row.try_get(\"recorded_at\"))?;\n        let n_events = events.mark_new_events_persisted_at(recorded_at);\n        let "@;
    let b = "mut entity"@;
    let c = " = Self::hydrate_entity(events)?;\n        "@;
    let d = joined(create_nested_calls(f.nested_fn_names.deep_view()), "\n"@);
    assert forall|t: Seq<char>| #[trigger] (t + a + b + c + d) == t + (a + b + c + d) by {
        assert(t + a + b + c + d =~= t + (a + b + c + d));
    }
    broadcast use occurs_extended;

}

/// The call by which an entity's nested entities of a field are deleted.
pub open spec fn deletes_nested(label: Seq<char>, error: Seq<char>) -> Seq<char> {
    "Self::delete_nested_"@ + label + "_in_op::<_, _, "@ + error + ">(op, &entity).await?;"@
}

proof fn call_deletes(label: Seq<char>, error: Seq<char>)
    ensures
        crate::delete_fn::delete_nested_code(
            crate::options::repository::NestedFn::Delete.name(label),
            error,
        ) == deletes_nested(label, error),
{
    reveal_strlit("Self::");
    reveal_strlit("delete_nested_");
    reveal_strlit("Self::delete_nested_");
    reveal_strlit("_in_op");
    reveal_strlit("::<_, _, ");
    reveal_strlit("_in_op::<_, _, ");
    assert("Self::delete_nested_"@ =~= "Self::"@ + "delete_nested_"@);
    assert("_in_op::<_, _, "@ =~= "_in_op"@ + "::<_, _, "@);
    assert(crate::delete_fn::delete_nested_code(
        crate::options::repository::NestedFn::Delete.name(label),
        error,
    ) =~= deletes_nested(label, error));
}

/// Where entities are deleted by a flag, an entity's row is marked as deleted,
/// behind the deletion of its nested entities of every nested repository. Nothing
/// is emitted where entities are not deleted.
pub proof fn deleted_with_nested(f: &DeleteFn, opts: &RepositoryOptions)
    requires
        f.made_from(opts),
    ensures
        opts.delete == crate::options::delete::DeleteOption::No ==> f.code()
            == Seq::<char>::empty(),
        opts.delete != crate::options::delete::DeleteOption::No ==> {
            &&& occurs(f.code(), literal(f.query()))
            &&& in_order(
                f.query(),
                "UPDATE "@ + opts.table_text() + " SET "@,
                "deleted = TRUE WHERE id = $1 RETURNING id) "@,
            )
            &&& forall|i: int|
                0 <= i < opts.nested().len() ==> in_order(
                    f.code(),
                    deletes_nested(
                        (#[trigger] opts.nested()[i]).label(),
                        opts.entity_ident@ + "ModifyError"@,
                    ),
                    literal(f.query()),
                )
        },
{
    reveal(DeleteFn::code);
    if opts.delete != crate::options::delete::DeleteOption::No {
        let nested = opts.nested();
        let names = f.nested_delete_fn_names.deep_view();
        let calls = delete_nested_calls(names, f.modify_error@);
        let all = joined(calls, "\n"@);
        let code = f.code();
        let query = literal(f.query());
        assert(in_order(code, all, query) && occurs(code, query)) by {
            broadcast use {in_order_extended, occurs_extended};

        }
        assert forall|i: int| 0 <= i < nested.len() implies in_order(
            code,
            deletes_nested((#[trigger] nested[i]).label(), opts.entity_ident@ + "ModifyError"@),
            query,
        ) by {
            call_deletes(nested[i].label(), f.modify_error@);
            joined_holds(calls, "\n"@, i);
            occurs_itself(query);
            in_order_within(code, all, query, calls[i], query);
        }
        let update = "UPDATE "@ + opts.table_text() + " SET "@;
        let mark = "deleted = TRUE WHERE id = $1 RETURNING id) "@;
        let front = "WITH updated AS (UPDATE "@ + f.table_name@ + " SET "@;
        assert(occurs(front, update)) by {
            reveal_strlit("WITH updated AS (UPDATE ");
            reveal_strlit("WITH updated AS (");
            reveal_strlit("UPDATE ");
            assert("WITH updated AS (UPDATE "@ =~= "WITH updated AS ("@ + "UPDATE "@);
            assert(front =~= "WITH updated AS ("@ + update + Seq::<char>::empty());
        }
        broadcast use {in_order_extended, occurs_extended};

        assert(in_order(f.query(), update, mark));
    }
}

/// The calls by which loaded entities get their nested entities of each field,
/// with deleted ones or without.
pub open spec fn loads_nested(opts: &RepositoryOptions, with_deleted: bool) -> Seq<Seq<char>> {
    Seq::new(
        opts.nested().len(),
        |i: int|
            "Self::find_nested_"@ + opts.nested()[i].label() + (if with_deleted {
                "_include_deleted_in_op"@
            } else {
                "_in_op"@
            }) + "::<_, _, __EsErr>(op, entities).await?;"@,
    )
}

/// Whether the code has a function whose name is followed by `<`, and whose body
/// is the calls and `Ok(())`: no other brace stands between the name and the
/// body.
pub open spec fn has_body(code: Seq<char>, name: Seq<char>, calls: Seq<Seq<char>>) -> bool {
    exists|sig: Seq<char>|
        !sig.contains('{') && occurs(
            code,
            "async fn "@ + name + "<"@ + #[trigger] (sig + "{\n        "@) + ended(calls, "\n"@)
                + "\n        Ok(())\n    }"@,
        )
}

/// Loaded entities get, field by field, the live nested entities, and where
/// deleted ones are asked for the deleted ones too: the functions that load have
/// nothing else for their bodies. The name of the entity holds no brace.
pub proof fn loaded_with_nested(
    repo: &EsRepo,
    opts: &RepositoryOptions,
    cursor: &ComboCursor,
    catalog: IndexCatalog,
    parts: &RepoParts,
)
    requires
        repo.made_from(opts, cursor, catalog, parts),
        !opts.entity_ident@.contains('{'),
    ensures
        occurs(repo.code(), repo.trait_code()),
        has_body(repo.trait_code(), "load_all_nested_in_op"@, loads_nested(opts, false)),
        has_body(
            repo.trait_code(),
            "load_all_nested_in_op_include_deleted"@,
            loads_nested(opts, true),
        ),
{
    assert(occurs(repo.code(), repo.trait_code())) by {
        broadcast use occurs_extended;

    }
    let live = load_calls(repo.nested_fns.deep_view());
    let all = load_calls(repo.nested_include_deleted_fns.deep_view());
    call_loads(opts);
    assert(live =~= loads_nested(opts, false));
    assert(all =~= loads_nested(opts, true));
    let entity = opts.entity_ident@;
    let open = "]\n    ) -> Result<(), __EsErr>\n        where\n            OP: es_entity::AtomicOperation,\n            __EsErr: From<sqlx::Error> + From<es_entity::EntityHydrationError> + Send,\n    {\n        "@;
    let where_part = "]\n    ) -> Result<(), __EsErr>\n        where\n            OP: es_entity::AtomicOperation,\n            __EsErr: From<sqlx::Error> + From<es_entity::EntityHydrationError> + Send,\n    "@;
    let params = "OP, __EsErr>(\n        op: &mut OP, entities: &mut ["@;
    let sig = params + entity + where_part;
    reveal_strlit(
        "]\n    ) -> Result<(), __EsErr>\n        where\n            OP: es_entity::AtomicOperation,\n            __EsErr: From<sqlx::Error> + From<es_entity::EntityHydrationError> + Send,\n    {\n        ",
    );
    reveal_strlit(
        "]\n    ) -> Result<(), __EsErr>\n        where\n            OP: es_entity::AtomicOperation,\n            __EsErr: From<sqlx::Error> + From<es_entity::EntityHydrationError> + Send,\n    ",
    );
    reveal_strlit("{\n        ");
    reveal_strlit("OP, __EsErr>(\n        op: &mut OP, entities: &mut [");
    assert(open =~= where_part + "{\n        "@);
    assert(!params.contains('{'));
    assert(!where_part.contains('{'));
    assert(!sig.contains('{'));
    let brace = "{\n        "@;
    let end = "\n        Ok(())\n    }"@;
    let first = "async fn "@ + "load_all_nested_in_op"@ + "<"@ + (sig + brace) + ended(live, "\n"@)
        + end;
    let second = "async fn "@ + "load_all_nested_in_op_include_deleted"@ + "<"@ + (sig + brace)
        + ended(all, "\n"@) + end;
    trait_is_split(repo, entity, params, open, live, all);
    assert(first =~= "async fn "@ + "load_all_nested_in_op"@ + "<"@ + params + entity + open
        + ended(live, "\n"@) + end);
    assert(second =~= "async fn "@ + "load_all_nested_in_op_include_deleted"@ + "<"@ + params
        + entity + open + ended(all, "\n"@) + end);
}

#[verifier::spinoff_prover]
#[verifier::rlimit(40)]
proof fn trait_is_split(
    repo: &EsRepo,
    entity: Seq<char>,
    params: Seq<char>,
    open: Seq<char>,
    live: Seq<Seq<char>>,
    all: Seq<Seq<char>>,
)
    requires
        entity == repo.opts.entity_ident@,
        params == "OP, __EsErr>(\n        op: &mut OP, entities: &mut ["@,
        open
            == "]\n    ) -> Result<(), __EsErr>\n        where\n            OP: es_entity::AtomicOperation,\n            __EsErr: From<sqlx::Error> + From<es_entity::EntityHydrationError> + Send,\n    {\n        "@,
        live == load_calls(repo.nested_fns.deep_view()),
        all == load_calls(repo.nested_include_deleted_fns.deep_view()),
    ensures
        occurs(
            repo.trait_code(),
            "async fn "@ + "load_all_nested_in_op"@ + "<"@ + params + entity + open + ended(
                live,
                "\n"@,
            ) + "\n        Ok(())\n    }"@,
        ),
        occurs(
            repo.trait_code(),
            "async fn "@ + "load_all_nested_in_op_include_deleted"@ + "<"@ + params + entity + open
                + ended(all, "\n"@) + "\n        Ok(())\n    }"@,
        ),
{
    reveal(EsRepo::trait_code);
    let code = repo.trait_code();
    let end = "\n        Ok(())\n    }"@;
    let l = ended(live, "\n"@);
    let r = ended(all, "\n"@);
    let a = ";\n    #[inline(always)]\n    async fn load_all_nested_in_op<OP, __EsErr>(\n        op: &mut OP, entities: &mut ["@;
    let b = "\n        Ok(())\n    }\n    #[inline(always)]\n    async fn load_all_nested_in_op_include_deleted<OP, __EsErr>(\n        op: &mut OP, entities: &mut ["@;
    let c = "\n        Ok(())\n    }\n}"@;
    let a0 = ";\n    #[inline(always)]\n    "@;
    let b0 = "\n    #[inline(always)]\n    "@;
    let one = "async fn "@ + "load_all_nested_in_op"@ + "<"@ + params;
    let two = "async fn "@ + "load_all_nested_in_op_include_deleted"@ + "<"@ + params;
    assert(a =~= a0 + one && b =~= end + b0 + two && c =~= end + "\n}"@) by {
        reveal_strlit("OP, __EsErr>(\n        op: &mut OP, entities: &mut [");
        reveal_strlit(
            ";\n    #[inline(always)]\n    async fn load_all_nested_in_op<OP, __EsErr>(\n        op: &mut OP, entities: &mut [",
        );
        reveal_strlit(
            "\n        Ok(())\n    }\n    #[inline(always)]\n    async fn load_all_nested_in_op_include_deleted<OP, __EsErr>(\n        op: &mut OP, entities: &mut [",
        );
        reveal_strlit("\n        Ok(())\n    }\n}");
        reveal_strlit("\n        Ok(())\n    }");
        reveal_strlit("\n}");
        reveal_strlit(";\n    #[inline(always)]\n    ");
        reveal_strlit("\n    #[inline(always)]\n    ");
        reveal_strlit("async fn ");
        reveal_strlit("load_all_nested_in_op");
        reveal_strlit("load_all_nested_in_op_include_deleted");
        reveal_strlit("<");
    }
    let first = a + entity + open + l + b;
    let second = b + entity + open + r + c;
    let text_one = one + entity + open + l + end;
    let text_two = two + entity + open + r + end;
    assert(first =~= a0 + text_one + (b0 + two));
    assert(second =~= (end + b0) + text_two + "\n}"@);
    assert forall|t: Seq<char>| #[trigger] (t + a + entity + open + l + b) == t + first by {
        assert(t + a + entity + open + l + b =~= t + first);
    }
    assert forall|t: Seq<char>| #[trigger] (t + b + entity + open + r + c) == t + second by {
        assert(t + b + entity + open + r + c =~= t + second);
    }
    assert(occurs(code, first) && occurs(code, second)) by {
        broadcast use occurs_extended;

    }
    occurs_within(code, first, text_one);
    occurs_within(code, second, text_two);
}

proof fn call_loads(opts: &RepositoryOptions)
    ensures
        forall|i: int, with_deleted: bool|
            0 <= i < opts.nested().len() ==> (#[trigger] loads_nested(opts, with_deleted)[i])
                == crate::es_repo::load_nested_code(
                if with_deleted {
                    crate::options::repository::NestedFn::FindIncludeDeleted.name(
                        opts.nested()[i].label(),
                    )
                } else {
                    crate::options::repository::NestedFn::Find.name(opts.nested()[i].label())
                },
            ),
{
    reveal_strlit("Self::");
    reveal_strlit("find_nested_");
    reveal_strlit("Self::find_nested_");
    assert("Self::find_nested_"@ =~= "Self::"@ + "find_nested_"@);
    assert forall|i: int, with_deleted: bool| 0 <= i < opts.nested().len() implies (
    #[trigger] loads_nested(opts, with_deleted)[i]) == crate::es_repo::load_nested_code(
        if with_deleted {
            crate::options::repository::NestedFn::FindIncludeDeleted.name(opts.nested()[i].label())
        } else {
            crate::options::repository::NestedFn::Find.name(opts.nested()[i].label())
        },
    ) by {
        assert(loads_nested(opts, with_deleted)[i] =~= crate::es_repo::load_nested_code(
            if with_deleted {
                crate::options::repository::NestedFn::FindIncludeDeleted.name(
                    opts.nested()[i].label(),
                )
            } else {
                crate::options::repository::NestedFn::Find.name(opts.nested()[i].label())
            },
        ));
    }
}

} // verus!
