//! The functions that delete an entity by a flag.

use vstd::prelude::*;
use vstd::string::*;

use crate::error_classifier::write_error_classifier;
use crate::events_write::{EventSource, EventsInsert, ForgettablePayloads};
use crate::instrument::{span_attr, span_attribute, trace, traced, ERROR_RECORDING};
use crate::options::columns::{delete_set_parts, Columns, Pick, Piece};
use crate::options::delete::DeleteOption;
use crate::options::repository::{NestedFn, RepositoryOptions};
use crate::post_persist_hook::run_persist_hook;
use crate::text::{
    end_each, ended, given, in_order, in_order_extended, join, joined, last_component, literal,
    occurs_extended, only_if, quote,
};
use crate::types::{opt_str, opt_text};

verus! {

/// The functions that delete an entity by a flag.
pub struct DeleteFn<'a> {
    pub id: &'a str,
    pub event: &'a str,
    pub modify_error: String,
    pub entity: &'a str,
    pub table_name: &'a str,
    pub events_table_name: &'a str,
    pub event_ctx: bool,
    pub columns: &'a Columns,
    pub delete_option: DeleteOption,
    pub nested_delete_fn_names: Vec<String>,
    pub post_persist_error: Option<&'a str>,
    pub forgettable_table_name: Option<&'a str>,
    /// The repository's name in the spans, where functions are traced.
    pub repo_name_snake: Option<String>,
}

/// The statement that sets the flag and inserts the events.
pub open spec fn delete_query_code(
    table: Seq<char>,
    updates: Seq<char>,
    comma: Seq<char>,
    events: Seq<char>,
) -> Seq<char> {
    "WITH updated AS (UPDATE "@ + table + " SET "@ + updates + comma + "deleted = TRUE WHERE id = $1 RETURNING id) "@ + events
}

/// The statement that sets the flag and inserts the events.
fn delete_query(table: &str, updates: &str, comma: &str, events: &str) -> (res: String)
    ensures
        res@ == delete_query_code(table@, updates@, comma@, events@),
{
    "WITH updated AS (UPDATE ".to_string().concat(table).concat(" SET ").concat(updates).concat(comma).concat("deleted = TRUE WHERE id = $1 RETURNING id) ").concat(events)
}

/// The call that deletes nested entities.
pub open spec fn delete_nested_code(f: Seq<char>, modify_error: Seq<char>) -> Seq<char> {
    "Self::"@ + f + "::<_, _, "@ + modify_error + ">(op, &entity).await?;"@
}

/// The call that deletes nested entities.
fn delete_nested(f: &str, modify_error: &str) -> (res: String)
    ensures
        res@ == delete_nested_code(f@, modify_error@),
{
    "Self::".to_string().concat(f).concat("::<_, _, ").concat(modify_error).concat(">(op, &entity).await?;")
}

/// The query that deletes an entity's payloads.
pub open spec fn payload_delete_query_code(table: Seq<char>) -> Seq<char> {
    "DELETE FROM "@ + table + " WHERE entity_id = $1"@
}

/// The query that deletes an entity's payloads.
pub fn payload_delete_query(table: &str) -> (res: String)
    ensures
        res@ == payload_delete_query_code(table@),
{
    "DELETE FROM ".to_string().concat(table).concat(" WHERE entity_id = $1")
}

/// The deletion of an entity's payloads.
pub open spec fn delete_payloads_code(query: Seq<char>, id_type: Seq<char>) -> Seq<char> {
    "sqlx::query!(
    "@ + query + ",
    id as &"@ + id_type + "
)
.execute(op.as_executor())
.await?;"@
}

/// The deletion of an entity's payloads.
fn delete_payloads(query: &str, id_type: &str) -> (res: String)
    ensures
        res@ == delete_payloads_code(query@, id_type@),
{
    "sqlx::query!(
    ".to_string().concat(query).concat(",
    id as &").concat(id_type).concat("
)
.execute(op.as_executor())
.await?;")
}

/// Records the id of the entity.
pub const RECORD_DELETED_ID: &'static str = "tracing::Span::current().record(\"id\", tracing::field::debug(&entity.id));";

/// The functions.
pub open spec fn delete_fns_code(
    entity: Seq<char>,
    modify_error: Seq<char>,
    instrument_attr: Seq<char>,
    nested_deletes: Seq<char>,
    assignments: Seq<char>,
    record_id: Seq<char>,
    forget_payloads: Seq<char>,
    gather: Seq<char>,
    query: Seq<char>,
    args: Seq<char>,
    event_args: Seq<char>,
    classifier: Seq<char>,
    staged_payload_insert: Seq<char>,
    post_persist_check: Seq<char>,
    error_recording: Seq<char>,
) -> Seq<char> {
    "pub async fn delete(
    &self,
    entity: "@ + entity + "
) -> Result<(), "@ + modify_error + "> {
    let mut op = self.begin_op().await?;
    let res = self.delete_in_op(&mut op, entity).await?;
    op.commit().await?;
    Ok(res)
}
"@ + instrument_attr + "
pub async fn delete_in_op<OP>(&self,
    op: &mut OP,
    mut entity: "@ + entity + "
) -> Result<(), "@ + modify_error + ">
where
    OP: es_entity::AtomicOperation
{
    let __result: Result<(), "@ + modify_error + "> = async {
        "@ + nested_deletes + "
        "@ + assignments + "
        "@ + record_id + "
        "@ + forget_payloads + "
        let new_events = entity.events().any_new();
        "@ + gather + "
        let rows = sqlx::query!(
            "@ + query + ",
            "@ + args + "
            "@ + event_args + "
        )
            .fetch_all(op.as_executor())
            .await
            .map_err("@ + classifier + ")?;
        "@ + staged_payload_insert + "
        if new_events {
            let recorded_at = rows
                .first()
                .map(|row| row.recorded_at)
                .ok_or("@ + modify_error + "::ConcurrentModification)?;
            let n_events = Self::extract_events(&mut entity)
                .mark_new_events_persisted_at(recorded_at);
            "@ + post_persist_check + "
        }
        Ok(())
    }.await;
    "@ + error_recording + "
    __result
}"@
}

/// The functions.
fn delete_fns(
    entity: &str,
    modify_error: &str,
    instrument_attr: &str,
    nested_deletes: &str,
    assignments: &str,
    record_id: &str,
    forget_payloads: &str,
    gather: &str,
    query: &str,
    args: &str,
    event_args: &str,
    classifier: &str,
    staged_payload_insert: &str,
    post_persist_check: &str,
    error_recording: &str,
) -> (res: String)
    ensures
        res@ == delete_fns_code(
            entity@,
            modify_error@,
            instrument_attr@,
            nested_deletes@,
            assignments@,
            record_id@,
            forget_payloads@,
            gather@,
            query@,
            args@,
            event_args@,
            classifier@,
            staged_payload_insert@,
            post_persist_check@,
            error_recording@,
        ),
{
    "pub async fn delete(
    &self,
    entity: ".to_string().concat(entity).concat("
) -> Result<(), ").concat(modify_error).concat("> {
    let mut op = self.begin_op().await?;
    let res = self.delete_in_op(&mut op, entity).await?;
    op.commit().await?;
    Ok(res)
}
").concat(instrument_attr).concat("
pub async fn delete_in_op<OP>(&self,
    op: &mut OP,
    mut entity: ").concat(entity).concat("
) -> Result<(), ").concat(modify_error).concat(">
where
    OP: es_entity::AtomicOperation
{
    let __result: Result<(), ").concat(modify_error).concat("> = async {
        ").concat(nested_deletes).concat("
        ").concat(assignments).concat("
        ").concat(record_id).concat("
        ").concat(forget_payloads).concat("
        let new_events = entity.events().any_new();
        ").concat(gather).concat("
        let rows = sqlx::query!(
            ").concat(query).concat(",
            ").concat(args).concat("
            ").concat(event_args).concat("
        )
            .fetch_all(op.as_executor())
            .await
            .map_err(").concat(classifier).concat(")?;
        ").concat(staged_payload_insert).concat("
        if new_events {
            let recorded_at = rows
                .first()
                .map(|row| row.recorded_at)
                .ok_or(").concat(modify_error).concat("::ConcurrentModification)?;
            let n_events = Self::extract_events(&mut entity)
                .mark_new_events_persisted_at(recorded_at);
            ").concat(post_persist_check).concat("
        }
        Ok(())
    }.await;
    ").concat(error_recording).concat("
    __result
}")
}

/// The calls that delete the nested entities.
pub open spec fn delete_nested_calls(names: Seq<Seq<char>>, error: Seq<char>) -> Seq<Seq<char>> {
    Seq::new(names.len(), |i: int| delete_nested_code(names[i], error))
}

impl<'a> DeleteFn<'a> {
    pub open spec fn insert(&self) -> EventsInsert<'a> {
        EventsInsert { events_table: self.events_table_name, event_ctx: self.event_ctx }
    }

    /// The parameter of the time: the one behind those of the columns.
    pub open spec fn now_param(&self) -> nat {
        self.columns.picks(Pick::DeleteArgs).len() + 1
    }

    /// The events belong to the row that the statement updates, and follow
    /// those that were written before.
    pub open spec fn source(&self) -> EventSource<'static> {
        EventSource::PerEntityCte {
            cte: "updated",
            offset_param: Some((self.now_param() + 1) as usize),
        }
    }

    pub open spec fn updates(&self) -> Seq<char> {
        if self.columns.all.len() == 0 {
            Seq::empty()
        } else {
            joined(delete_set_parts(self.columns.set_columns()), ", "@)
        }
    }

    /// The statement: the columns take the first parameters, the time and the
    /// offset the next two, and the events those behind them.
    pub open spec fn query(&self) -> Seq<char> {
        delete_query_code(
            self.table_name@,
            self.updates(),
            if self.updates().len() == 0 {
                ""@
            } else {
                ", "@
            },
            self.insert().statement(&self.source(), self.now_param(), self.now_param() + 2),
        )
    }

    /// The functions; none where entities are not deleted by a flag.
    #[verifier::opaque]
    pub open spec fn code(&self) -> Seq<char> {
        if !self.delete_option.soft() {
            Seq::empty()
        } else {
            delete_fns_code(
                self.entity@,
                self.modify_error@,
                span_attr(
                    opt_text(self.repo_name_snake),
                    "delete"@,
                    self.entity@,
                    "id = tracing::field::Empty,"@,
                ),
                joined(
                    delete_nested_calls(
                        self.nested_delete_fn_names.deep_view(),
                        self.modify_error@,
                    ),
                    "\n"@,
                ),
                joined(
                    self.columns.emitted(Pick::DeleteArgs, Piece::UpdateBinding, "entity"@),
                    "\n"@,
                ),
                traced(opt_text(self.repo_name_snake), RECORD_DELETED_ID@),
                self.stored_payloads(),
                crate::events_write::gather_events_code(
                    "entity.events()"@,
                    only_if(
                        self.event_ctx,
                        crate::events_write::bind_contexts_code("entity.events()"@),
                    ),
                ),
                literal(self.query()),
                ended(self.columns.emitted(Pick::DeleteArgs, Piece::Arg, ""@), ", "@),
                joined(self.insert().args(&self.source()), ", "@),
                "|e| "@ + crate::error_classifier::write_error_match_code(
                    literal(last_component(self.events_table_name@)),
                    self.modify_error@,
                ),
                self.staged_payloads(),
                only_if(
                    self.post_persist_error is Some,
                    crate::post_persist_hook::run_persist_hook_code(self.modify_error@),
                ),
                traced(opt_text(self.repo_name_snake), ERROR_RECORDING@),
            )
        }
    }

    /// Whether this is what the options of a repository ask for.
    pub open spec fn made_from(&self, opts: &RepositoryOptions) -> bool {
        &&& self.entity@ == opts.entity_ident@
        &&& self.id@ == opts.id_text()
        &&& self.event@ == opts.event_text()
        &&& self.table_name@ == opts.table_text()
        &&& self.events_table_name@ == opts.events_table_text()
        &&& self.event_ctx == opts.writes_contexts()
        &&& opt_str(self.forgettable_table_name) == opts.forgettable_table()
        &&& *self.columns == opts.columns
        &&& self.delete_option == opts.delete
        &&& self.modify_error@ == opts.entity_ident@ + "ModifyError"@
        &&& self.nested_delete_fn_names.deep_view() == opts.nested_names(NestedFn::Delete)
        &&& opt_str(self.post_persist_error) == opts.persist_error()
        &&& opt_text(self.repo_name_snake) == opts.span_prefix()
    }

    /// The functions for a repository.
    pub fn from(opts: &'a RepositoryOptions) -> (res: Self)
        requires
            opts.ready(),
            opts.is_struct(),
        ensures
            res.made_from(opts),
    {
        DeleteFn {
            id: opts.id(),
            event: opts.event(),
            entity: opts.entity(),
            modify_error: opts.modify_error(),
            columns: &opts.columns,
            table_name: opts.table_name(),
            events_table_name: opts.events_table_name(),
            event_ctx: opts.event_context_enabled(),
            delete_option: opts.delete,
            nested_delete_fn_names: opts.nested_fn_names(NestedFn::Delete),
            post_persist_error: opts.post_persist_error(),
            forgettable_table_name: opts.forgettable_table_name(),
            repo_name_snake: opts.instrumented_as(),
        }
    }

    fn nested_calls(&self) -> (res: String)
        ensures
            res@ == joined(
                delete_nested_calls(self.nested_delete_fn_names.deep_view(), self.modify_error@),
                "\n"@,
            ),
    {
        let mut calls: Vec<String> = Vec::new();
        let mut i: usize = 0;
        while i < self.nested_delete_fn_names.len()
            invariant
                i <= self.nested_delete_fn_names.len(),
                calls.len() == i,
                forall|j: int|
                    0 <= j < i ==> (#[trigger] calls@[j])@ == delete_nested_code(
                        self.nested_delete_fn_names@[j]@,
                        self.modify_error@,
                    ),
            decreases self.nested_delete_fn_names.len() - i,
        {
            calls.push(
                delete_nested(
                    self.nested_delete_fn_names[i].as_str(),
                    self.modify_error.as_str(),
                ),
            );
            i = i + 1;
        }
        assert(calls.deep_view() =~= delete_nested_calls(
            self.nested_delete_fn_names.deep_view(),
            self.modify_error@,
        ));
        join(&calls, "\n")
    }

    fn events_source(&self) -> (res: (EventSource<'static>, usize))
        requires
            self.columns.all.len() + 16 <= usize::MAX,
        ensures
            res.0 == self.source(),
            res.1 == self.now_param(),
            res.1 + 8 <= usize::MAX,
    {
        let args = self.columns.update_query_args_for_delete();
        proof {
            crate::options::columns::picked_len(self.columns.all@, Pick::DeleteArgs);
            assert(args.deep_view().len() == args.len());
        }
        let now_p: usize = args.len() + 1;
        (EventSource::PerEntityCte { cte: "updated", offset_param: Some(now_p + 1) }, now_p)
    }

    fn query_text(&self) -> (res: String)
        requires
            self.columns.all.len() + 16 <= usize::MAX,
        ensures
            res@ == self.query(),
    {
        let column_updates = self.columns.sql_updates_for_delete();
        assert(column_updates@ =~= self.updates());
        let (source, now_p) = self.events_source();
        let events_insert = EventsInsert::new(self.events_table_name, self.event_ctx);
        let comma = if column_updates.as_str().is_empty() {
            ""
        } else {
            ", "
        };
        delete_query(
            self.table_name,
            column_updates.as_str(),
            comma,
            events_insert.sql(&source, now_p, now_p + 2).as_str(),
        )
    }

    /// The deletion of the payloads that are stored.
    pub open spec fn stored_payloads(&self) -> Seq<char> {
        match self.forgettable_table_name {
            Some(table) => delete_payloads_code(
                literal(payload_delete_query_code(table@)),
                self.id@,
            ),
            None => Seq::empty(),
        }
    }

    /// The insert of the payloads of the events that are written.
    pub open spec fn staged_payloads(&self) -> Seq<char> {
        match self.forgettable_table_name {
            Some(table) => (ForgettablePayloads {
                table,
                id_type: self.id,
                event_type: self.event,
            }).per_entity("entity.events()"@, self.modify_error@, None),
            None => Seq::empty(),
        }
    }

    fn payload_texts(&self) -> (res: (String, String))
        ensures
            res.0@ == self.stored_payloads(),
            res.1@ == self.staged_payloads(),
    {
        match self.forgettable_table_name {
            Some(table) => {
                let forget_query = payload_delete_query(table);
                let payloads = ForgettablePayloads {
                    table,
                    id_type: self.id,
                    event_type: self.event,
                };
                (
                    delete_payloads(quote(forget_query.as_str()).as_str(), self.id),
                    payloads.insert_per_entity(
                        "entity.events()",
                        self.modify_error.as_str(),
                        None,
                    ),
                )
            },
            None => (String::new(), String::new()),
        }
    }

    /// Appends the functions. The payloads are deleted before the statement
    /// that inserts the events, so those of events that are still to be
    /// written stay.
    pub fn to_tokens(&self, tokens: &mut String)
        requires
            self.columns.all.len() + 16 <= usize::MAX,
        ensures
            final(tokens)@ == old(tokens)@ + self.code(),
    {
        proof {
            reveal(DeleteFn::code);
        }
        if !self.delete_option.is_soft() {
            assert(old(tokens)@ + self.code() =~= old(tokens)@);
            return;
        }
        let modify_error = self.modify_error.as_str();
        let assignments = self.columns.variable_assignments_for_delete("entity");
        let args = self.columns.update_query_args_for_delete();
        let events_insert = EventsInsert::new(self.events_table_name, self.event_ctx);
        let (source, _now_p) = self.events_source();
        let query = self.query_text();
        let (forget_payloads, staged_payload_insert) = self.payload_texts();
        let code = delete_fns(
            self.entity,
            modify_error,
            span_attribute(
                &self.repo_name_snake,
                "delete",
                self.entity,
                "id = tracing::field::Empty,",
            ).as_str(),
            self.nested_calls().as_str(),
            assignments.as_str(),
            trace(&self.repo_name_snake, RECORD_DELETED_ID).as_str(),
            forget_payloads.as_str(),
            events_insert.gather_per_entity("entity.events()").as_str(),
            quote(query.as_str()).as_str(),
            end_each(&args, ", ").as_str(),
            join(&events_insert.arg_exprs(&source), ", ").as_str(),
            write_error_classifier(modify_error, self.events_table_name).as_str(),
            staged_payload_insert.as_str(),
            given(
                self.post_persist_error.is_some(),
                run_persist_hook(modify_error).as_str(),
            ).as_str(),
            trace(&self.repo_name_snake, ERROR_RECORDING).as_str(),
        );
        tokens.append(code.as_str());
    }
}

/// In the code that deletes, the nested entities are deleted before the
/// payloads, the payloads before the entity's own row, and what was staged of
/// the payloads is written behind that; the hook runs last.
pub proof fn delete_order(f: &DeleteFn)
    requires
        f.delete_option.soft(),
    ensures
        in_order(
            f.code(),
            joined(
                delete_nested_calls(f.nested_delete_fn_names.deep_view(), f.modify_error@),
                "\n"@,
            ),
            f.stored_payloads(),
        ),
        in_order(f.code(), f.stored_payloads(), literal(f.query())),
        in_order(f.code(), literal(f.query()), f.staged_payloads()),
        in_order(
            f.code(),
            f.staged_payloads(),
            only_if(
                f.post_persist_error is Some,
                crate::post_persist_hook::run_persist_hook_code(f.modify_error@),
            ),
        ),
{
    reveal(DeleteFn::code);
    broadcast use {in_order_extended, occurs_extended};

}

} // verus!
