//! Which column an error names, and what the hooks run.

use vstd::prelude::*;
use vstd::string::*;

use crate::create_all_fn::CreateAllFn;
use crate::create_fn::CreateFn;
use crate::delete_fn::DeleteFn;
use crate::emitting::picked_are_found;
use crate::error_types::ErrorTypes;
use crate::forget_fn::ForgetFn;
use crate::naming::{cased, NameCase};
use crate::options::columns::Pick;
use crate::options::delete::DeleteOption;
use crate::options::repository::RepositoryOptions;
use crate::post_hydrate_hook::PostHydrateHook;
use crate::post_persist_hook::PostPersistHook;
use crate::queries::ends_with;
use crate::text::{
    ended, ended_holds, in_order, in_order_extended, in_order_inside, in_order_within, literal,
    occurs, occurs_extended, occurs_itself, occurs_within, only_if,
};

verus! {

/// Whether the error for a violated constraint names the column.
pub open spec fn names_column(
    e: &ErrorTypes,
    constraint: Seq<char>,
    column: Seq<char>,
) -> bool {
    occurs(
        e.map_constraint_code(),
        "Some("@ + literal(constraint) + ") => Some("@ + e.entity@ + "Column::"@ + cased(
            column,
            NameCase::UpperCamel,
        ) + "),"@,
    )
}

proof fn arm_is_there(e: &ErrorTypes, j: int, k: int)
    requires
        0 <= j < e.column_variants.len(),
        0 <= k < e.column_variants@[j].constraint_names.len(),
    ensures
        occurs(
            e.map_constraint_code(),
            "Some("@ + literal(e.column_variants@[j].constraint_names@[k]@) + ") => Some("@
                + e.column_enum@ + "::"@ + e.column_variants@[j].variant_name@ + "),"@,
        ),
{
    let v = e.column_variants@[j];
    let arms = Seq::new(
        v.constraint_names.len() as nat,
        |i: int|
            crate::error_types::constraint_arm_code(
                literal(v.constraint_names@[i]@),
                e.column_enum@,
                v.variant_name@,
            ),
    );
    let all = ended(e.constraint_arms(), ""@);
    ended_holds(arms, "\n"@, k);
    ended_holds(e.constraint_arms(), ""@, j);
    assert(e.constraint_arms()[j] == ended(arms, "\n"@));
    occurs_within(all, e.constraint_arms()[j], arms[k]);
    assert(occurs(e.map_constraint_code(), all)) by {
        broadcast use occurs_extended;

    }
    occurs_within(e.map_constraint_code(), all, arms[k]);
}

/// The error for a violated constraint names the column that the constraint is
/// about: the one that is named in the options, the one that the database names
/// after the column, and, for the id, the primary key. No constraint is told for
/// filters by conditions and for the time of creation.
pub proof fn constraints_are_told(e: &ErrorTypes, opts: &RepositoryOptions, i: int)
    requires
        e.made_from(opts),
        0 <= i < opts.columns.all.len(),
        opts.columns.all@[i].name@ != "created_at"@,
        opts.columns.all@[i].opts.virtual_sql is None,
    ensures
        ({
            let c = opts.columns.all@[i];
            let table = opts.table_text();
            &&& names_column(e, table + "_"@ + c.name@ + "_key"@, c.name@)
            &&& c.opts.is_id ==> names_column(e, table + "_pkey"@, c.name@)
            &&& c.opts.constraint matches Some(custom) ==> names_column(e, custom@, c.name@)
        }),
{
    let c = opts.columns.all@[i];
    let table = opts.table_text();
    let picks = opts.columns.picks(Pick::ColumnEnum);
    picked_are_found(opts.columns.all@, Pick::ColumnEnum, i);
    let j = choose|j: int| 0 <= j < picks.len() && picks[j] == c;
    let v = e.column_variants@[j];
    assert(v.stands_for(picks[j], table));
    let names = v.constraint_names.deep_view();
    assert(names.len() == v.constraint_names.len());
    reveal_strlit("Column::");
    reveal_strlit("Column");
    reveal_strlit("::");
    assert("Column::"@ =~= "Column"@ + "::"@);
    assert forall|k: int| 0 <= k < names.len() implies names_column(
        e,
        #[trigger] names[k],
        c.name@,
    ) by {
        arm_is_there(e, j, k);
        assert(v.constraint_names@[k]@ == names[k]);
        assert("Some("@ + literal(names[k]) + ") => Some("@ + e.column_enum@ + "::"@
            + v.variant_name@ + "),"@ =~= "Some("@ + literal(names[k]) + ") => Some("@ + e.entity@
            + "Column::"@ + cased(c.name@, NameCase::UpperCamel) + "),"@);
    }
    assert(names[0] == table + "_"@ + c.name@ + "_key"@);
    if c.opts.is_id {
        assert(names[1] == table + "_pkey"@);
    }
    if let Some(custom) = c.opts.constraint {
        assert(names[names.len() - 1] == custom@);
    }
}

/// The function for events that were written calls the method of the hook with the
/// entity and its new events, and succeeds without a hook.
pub proof fn persist_hook_is_called(h: &PostPersistHook, opts: &RepositoryOptions)
    requires
        h.made_from(opts),
    ensures
        ends_with(
            h.code(),
            (match opts.post_persist_hook {
                Some(config) => "{\n    self."@ + config.method@
                    + "(&mut op, entity, new_events).await?;\nOk(())\n}"@,
                None => "{\n    Ok(())\n}"@,
            }),
        ),
{
    reveal(PostPersistHook::code);
    let open = ">\n) -> Result<(), "@;
    let ty = match opts.post_persist_hook {
        Some(config) => config.error@,
        None => "sqlx::Error"@,
    };
    let bound = ">\n    where\n        OP: es_entity::AtomicOperation + ?Sized\n{\n    "@;
    reveal_strlit(">\n    where\n        OP: es_entity::AtomicOperation + ?Sized\n{\n    ");
    reveal_strlit(">\n    where\n        OP: es_entity::AtomicOperation + ?Sized\n");
    reveal_strlit("{\n    ");
    reveal_strlit("\n}");
    reveal_strlit("Ok(())");
    reveal_strlit("{\n    Ok(())\n}");
    reveal_strlit("self.");
    reveal_strlit("{\n    self.");
    reveal_strlit("(&mut op, entity, new_events).await?;\nOk(())");
    reveal_strlit("(&mut op, entity, new_events).await?;\nOk(())\n}");
    let front = ">\n    where\n        OP: es_entity::AtomicOperation + ?Sized\n"@;
    assert(bound =~= front + "{\n    "@);
    let op = match opts.post_persist_hook {
        Some(_) => "mut op: &mut OP"@,
        None => "op: &mut OP"@,
    };
    let hook = match opts.post_persist_hook {
        Some(config) => crate::post_persist_hook::call_hook_code(config.method@),
        None => "Ok(())"@,
    };
    let whole = crate::post_persist_hook::persist_hook_fn_code(op, h.entity@, h.event@, ty, hook);
    let before = "#[inline(always)]\nasync fn execute_post_persist_hook<OP>(\n    &self,\n    "@ + op
        + ",\n    entity: &"@ + h.entity@ + ",\n    new_events: es_entity::LastPersisted<'_, "@
        + h.event@ + open + ty;
    assert(whole == before + bound + hook + "\n}"@);
    assert(before + bound + hook + "\n}"@ =~= (before + front) + ("{\n    "@ + hook + "\n}"@));
    match opts.post_persist_hook {
        Some(config) => {
            assert("{\n    "@ + hook + "\n}"@ =~= "{\n    self."@ + config.method@
                + "(&mut op, entity, new_events).await?;\nOk(())\n}"@);
        },
        None => {
            assert("{\n    "@ + hook + "\n}"@ =~= "{\n    Ok(())\n}"@);
        },
    }
}

/// The function for entities that were read calls the method of the hook with the
/// entity, and succeeds without a hook.
pub proof fn hydrate_hook_is_called(h: &PostHydrateHook, opts: &RepositoryOptions)
    requires
        h.made_from(opts),
    ensures
        ends_with(
            h.code(),
            (match opts.post_hydrate_hook {
                Some(config) => config.error@ + "> {\n    self."@ + config.method@
                    + "(entity)\n}"@,
                None => "> {\n    Ok(())\n}"@,
            }),
        ),
{
    reveal(PostHydrateHook::code);
    reveal_strlit("> {\n    ");
    reveal_strlit("\n}");
    reveal_strlit("Ok(())");
    reveal_strlit("> {\n    Ok(())\n}");
    reveal_strlit("self.");
    reveal_strlit("> {\n    self.");
    reveal_strlit("(entity)");
    reveal_strlit("(entity)\n}");
    let before = "#[inline(always)]\nfn execute_post_hydrate_hook(\n    &self,\n    entity: &"@
        + h.entity@ + ",\n) -> Result<(), "@;
    match opts.post_hydrate_hook {
        Some(config) => {
            assert(h.code() =~= before + (config.error@ + "> {\n    self."@ + config.method@
                + "(entity)\n}"@));
        },
        None => {
            assert(h.code() =~= (before + "std::convert::Infallible"@) + "> {\n    Ok(())\n}"@);
        },
    }
}

/// The call of the hook for an entity that was read.
pub open spec fn hydrate_call(error: Seq<char>) -> Seq<char> {
    "self.execute_post_hydrate_hook(&entity).map_err("@ + error + "::PostHydrateError)?;"@
}

/// The call of the hook for the events of an entity that were written.
pub open spec fn persist_call(error: Seq<char>) -> Seq<char> {
    "self.execute_post_persist_hook(op, &entity, entity.events().last_persisted(n_events)).await.map_err("@
        + error + "::PostPersistHookError)?;"@
}

/// Whether code runs the hooks that there are when the statement was run: first
/// the one for entities that were read, then the one for events that were written.
pub open spec fn runs_hooks(
    code: Seq<char>,
    statement: Seq<char>,
    error: Seq<char>,
    hydrate: bool,
    persist: bool,
) -> bool {
    &&& hydrate ==> in_order(code, statement, hydrate_call(error))
    &&& persist ==> in_order(code, statement, persist_call(error))
    &&& hydrate && persist ==> in_order(code, hydrate_call(error), persist_call(error))
}

/// Creating an entity runs both hooks where they are there.
pub proof fn create_runs_hooks(f: &CreateFn, opts: &RepositoryOptions)
    requires
        f.made_from(opts),
    ensures
        runs_hooks(
            f.code(),
            literal(f.query()),
            opts.entity_ident@ + "CreateError"@,
            opts.hydrate_error() is Some,
            opts.persist_error() is Some,
        ),
{
    reveal(CreateFn::code);
    broadcast use {in_order_extended, occurs_extended};

}

/// Creating several entities runs both hooks for each where they are there.
pub proof fn create_all_runs_hooks(f: &CreateAllFn, opts: &RepositoryOptions)
    requires
        f.made_from(opts),
    ensures
        runs_hooks(
            f.code(),
            literal(f.query()),
            opts.entity_ident@ + "CreateError"@,
            opts.hydrate_error() is Some,
            opts.persist_error() is Some,
        ),
        opts.hydrate_error() is Some || opts.persist_error() is Some ==> occurs(
            f.code(),
            "\nfor (entity, n_events) in entities.iter().zip(n_events_by_entity) {\n    "@ + (
            if opts.hydrate_error() is Some {
                hydrate_call(opts.entity_ident@ + "CreateError"@)
            } else {
                ""@
            }) + "\n    "@ + (if opts.persist_error() is Some {
                persist_call(opts.entity_ident@ + "CreateError"@)
            } else {
                ""@
            }) + "\n}"@,
        ),
{
    let error = opts.entity_ident@ + "CreateError"@;
    let hydrate = opts.hydrate_error() is Some;
    let persist = opts.persist_error() is Some;
    let last = f.final_part();
    let query = literal(f.query());
    written_then_finished(f);
    if hydrate || persist {
        let open = "\nfor (entity, n_events) in entities.iter().zip(n_events_by_entity) {\n    "@;
        let a = if hydrate {
            hydrate_call(error)
        } else {
            ""@
        };
        let b = if persist {
            persist_call(error)
        } else {
            ""@
        };
        let part = open + a + "\n    "@ + b + "\n}"@;
        reveal_strlit("");
        assert(a =~= only_if(hydrate, hydrate_call(error)));
        assert(b =~= only_if(persist, persist_call(error)));
        phase_ends(f.nested_part(), a, b);
        occurs_within(f.code(), last, part);
        occurs_itself(query);
        if hydrate {
            occurs_within(last, part, a);
            in_order_within(f.code(), query, last, query, a);
        }
        if persist {
            occurs_within(last, part, b);
            in_order_within(f.code(), query, last, query, b);
        }
        if hydrate && persist {
            in_order_inside(last, part, a, b);
            in_order_inside(f.code(), last, a, b);
        }
    }
}

proof fn phase_ends(nested: Seq<char>, a: Seq<char>, b: Seq<char>)
    ensures
        ({
            let part = "\nfor (entity, n_events) in entities.iter().zip(n_events_by_entity) {\n    "@
                + a + "\n    "@ + b + "\n}"@;
            &&& occurs(crate::create_all_fn::hooked_phase_code(nested, a, b), part)
            &&& occurs(part, a)
            &&& occurs(part, b)
            &&& in_order(part, a, b)
        }),
{
    let code = crate::create_all_fn::hooked_phase_code(nested, a, b);
    let open = "\nfor (entity, n_events) in entities.iter().zip(n_events_by_entity) {\n    "@;
    let part = open + a + "\n    "@ + b + "\n}"@;
    assert(occurs(part, a) && occurs(part, b) && in_order(part, a, b)) by {
        broadcast use {in_order_extended, occurs_extended};

    }
    assert(occurs(code, part)) by {
        assert forall|t: Seq<char>| #[trigger]
            (t + open + a + "\n    "@ + b + "\n}"@) == t + part by {
            assert(t + open + a + "\n    "@ + b + "\n}"@ =~= t + part);
        }
        broadcast use occurs_extended;

    }
}

proof fn written_then_finished(f: &CreateAllFn)
    ensures
        in_order(f.code(), literal(f.query()), f.final_part()),
        occurs(f.code(), f.final_part()),
{
    reveal(CreateAllFn::code);
    broadcast use {in_order_extended, occurs_extended};

}

/// Deleting an entity runs the hook for the events that it writes.
pub proof fn delete_runs_hooks(f: &DeleteFn, opts: &RepositoryOptions)
    requires
        f.made_from(opts),
        f.delete_option != DeleteOption::No,
    ensures
        runs_hooks(
            f.code(),
            literal(f.query()),
            opts.entity_ident@ + "ModifyError"@,
            false,
            opts.persist_error() is Some,
        ),
{
    reveal(DeleteFn::code);
    broadcast use {in_order_extended, occurs_extended};

}

/// Forgetting an entity runs the hook for the staged events that it writes, when
/// the entity is there again.
pub proof fn forget_runs_hooks(f: &ForgetFn, opts: &RepositoryOptions)
    requires
        f.made_from(opts),
    ensures
        opts.persist_error() is Some ==> in_order(
            f.forget_code(),
            "es_entity::TryFromEvents::try_from_events(events)?"@,
            "if n_events > 0 {\n    self.execute_post_persist_hook(\n        op,\n        &entity,\n        entity.events().last_persisted(n_events)\n    ).await.map_err("@
                + (opts.entity_ident@ + "ForgetError"@) + "::PostPersistHookError)?;\n}"@,
        ),
{
    crate::forget_fn::forget_order(f);
}

} // verus!
