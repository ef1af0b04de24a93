//! The functions that create several entities.

use vstd::prelude::*;
use vstd::string::*;

use crate::events_write::{
    EventSource, EventsInsert, ForgettablePayloads,
};
use crate::instrument::{span_attr, span_attribute, trace, traced, ERROR_RECORDING};
use crate::options::columns::{params_from, Columns, Pick, Piece};
use crate::options::repository::{NestedFn, RepositoryOptions};
use crate::post_hydrate_hook::check_hydrated;
use crate::post_persist_hook::run_persist_hook;
use crate::text::{given, join, joined, literal, only_if, quote};
use crate::types::{opt_str, opt_text};

verus! {

/// The functions that create several entities.
pub struct CreateAllFn<'a> {
    pub entity: &'a str,
    pub id: &'a str,
    pub event: &'a str,
    pub table_name: &'a str,
    pub events_table_name: &'a str,
    pub event_ctx: bool,
    pub forgettable_table_name: Option<&'a str>,
    pub columns: &'a Columns,
    pub create_error: String,
    pub nested_fn_names: Vec<String>,
    pub post_hydrate_error: Option<&'a str>,
    pub post_persist_error: Option<&'a str>,
    /// The repository's name in the spans, where functions are traced.
    pub repo_name_snake: Option<String>,
}

/// The statement that inserts the index rows and the events of new entities.
pub open spec fn create_all_query_code(
    table: Seq<char>,
    names: Seq<char>,
    selected: Seq<char>,
    placeholders: Seq<char>,
    events: Seq<char>,
) -> Seq<char> {
    "WITH new_rows AS (INSERT INTO "@ + table + " (created_at, "@ + names + ") SELECT COALESCE($1, NOW()), unnested."@ + selected + " FROM UNNEST("@ + placeholders + ") AS unnested("@ + names + ") RETURNING id) "@ + events
}

/// The statement that inserts the index rows and the events of new entities.
fn create_all_query(
    table: &str,
    names: &str,
    selected: &str,
    placeholders: &str,
    events: &str,
) -> (res: String)
    ensures
        res@ == create_all_query_code(table@, names@, selected@, placeholders@, events@),
{
    "WITH new_rows AS (INSERT INTO ".to_string().concat(table).concat(" (created_at, ").concat(names).concat(") SELECT COALESCE($1, NOW()), unnested.").concat(selected).concat(" FROM UNNEST(").concat(placeholders).concat(") AS unnested(").concat(names).concat(") RETURNING id) ").concat(events)
}

/// The call that creates nested entities of all the new ones.
pub open spec fn create_all_nested_code(f: Seq<char>) -> Seq<char> {
    "self."@ + f + "(op, &mut entity_refs).await?;"@
}

/// The call that creates nested entities of all the new ones.
fn create_all_nested(f: &str) -> (res: String)
    ensures
        res@ == create_all_nested_code(f@),
{
    "self.".to_string().concat(f).concat("(op, &mut entity_refs).await?;")
}

/// The creation of the nested entities of all the new ones.
pub open spec fn nested_phase_code(entity: Seq<char>, nested: Seq<char>) -> Seq<char> {
    "let mut entity_refs: Vec<&mut "@ + entity + "> = entities.iter_mut().collect();
"@ + nested + "
drop(entity_refs);"@
}

/// The creation of the nested entities of all the new ones.
fn nested_phase(entity: &str, nested: &str) -> (res: String)
    ensures
        res@ == nested_phase_code(entity@, nested@),
{
    "let mut entity_refs: Vec<&mut ".to_string().concat(entity).concat("> = entities.iter_mut().collect();
").concat(nested).concat("
drop(entity_refs);")
}

/// What happens to the new entities where a hook is to run for each.
pub open spec fn hooked_phase_code(
    nested_phase: Seq<char>,
    post_hydrate_check: Seq<char>,
    post_persist_check: Seq<char>,
) -> Seq<char> {
    "let mut n_events_by_entity: Vec<usize> = Vec::new();
for (events, n_events) in all_events.into_iter().zip(n_persisted) {
    let entity = Self::hydrate_entity(events)?;
    entities.push(entity);
    n_events_by_entity.push(n_events);
}
"@ + nested_phase + "
for (entity, n_events) in entities.iter().zip(n_events_by_entity) {
    "@ + post_hydrate_check + "
    "@ + post_persist_check + "
}"@
}

/// What happens to the new entities where a hook is to run for each.
fn hooked_phase(
    nested_phase: &str,
    post_hydrate_check: &str,
    post_persist_check: &str,
) -> (res: String)
    ensures
        res@ == hooked_phase_code(nested_phase@, post_hydrate_check@, post_persist_check@),
{
    "let mut n_events_by_entity: Vec<usize> = Vec::new();
for (events, n_events) in all_events.into_iter().zip(n_persisted) {
    let entity = Self::hydrate_entity(events)?;
    entities.push(entity);
    n_events_by_entity.push(n_events);
}
".to_string().concat(nested_phase).concat("
for (entity, n_events) in entities.iter().zip(n_events_by_entity) {
    ").concat(post_hydrate_check).concat("
    ").concat(post_persist_check).concat("
}")
}

/// What happens to the new entities where no hook is to run.
pub open spec fn plain_phase_code(nested_phase: Seq<char>) -> Seq<char> {
    "for (events, _n_events) in all_events.into_iter().zip(n_persisted) {
    let entity = Self::hydrate_entity(events)?;
    entities.push(entity);
}
"@ + nested_phase
}

/// What happens to the new entities where no hook is to run.
fn plain_phase(nested_phase: &str) -> (res: String)
    ensures
        res@ == plain_phase_code(nested_phase@),
{
    "for (events, _n_events) in all_events.into_iter().zip(n_persisted) {
    let entity = Self::hydrate_entity(events)?;
    entities.push(entity);
}
".to_string().concat(nested_phase)
}

/// The functions.
pub open spec fn create_all_fns_code(
    entity: Seq<char>,
    create_error: Seq<char>,
    instrument_attr: Seq<char>,
    arg_collection: Seq<char>,
    arg_adds: Seq<char>,
    batch_declarations: Seq<char>,
    forgettable_vars: Seq<char>,
    gather: Seq<char>,
    forgettable_extract: Seq<char>,
    event_arg_adds: Seq<char>,
    query: Seq<char>,
    forgettable_insert: Seq<char>,
    post_checks_phase: Seq<char>,
    error_recording: Seq<char>,
) -> Seq<char> {
    "pub async fn create_all(
    &self,
    new_entities: Vec<<"@ + entity + " as es_entity::EsEntity>::New>
) -> Result<Vec<"@ + entity + ">, "@ + create_error + "> {
    let mut op = self.begin_op().await?;
    let res = self.create_all_in_op(&mut op, new_entities).await?;
    op.commit().await?;
    Ok(res)
}
"@ + instrument_attr + "
pub async fn create_all_in_op<OP>(
    &self,
    op: &mut OP,
    new_entities: Vec<<"@ + entity + " as es_entity::EsEntity>::New>
) -> Result<Vec<"@ + entity + ">, "@ + create_error + ">
where
    OP: es_entity::AtomicOperation
{
    let __result: Result<Vec<"@ + entity + ">, "@ + create_error + "> = async {
        use es_entity::prelude::sqlx::{Arguments, Row};
        let mut entities = Vec::new();
        if new_entities.is_empty() {
            return Ok(entities);
        }
        let mut __query_args = sqlx::postgres::PgArguments::default();
        __query_args.add(op.maybe_now()).map_err(sqlx::Error::Encode)?;
        "@ + arg_collection + "
        "@ + arg_adds + "
        let mut all_events: Vec<es_entity::EntityEvents<<"@ + entity + " as es_entity::EsEntity>::Event>> = new_entities.into_iter().map(Self::convert_new).collect();
        "@ + batch_declarations + "
        let mut n_persisted: Vec<usize> = Vec::new();
        "@ + forgettable_vars + "
        for events in all_events.iter() {
            let id = events.id();
            "@ + gather + "
            "@ + forgettable_extract + "
            n_persisted.push(n_new);
        }
        "@ + event_arg_adds + "
        let expected_events = all_ids.len();
        let rows = sqlx::query_with("@ + query + ", __query_args)
            .fetch_all(op.as_executor())
            .await
            .map_err(Self::classify_create_error)?;
        "@ + forgettable_insert + "
        if expected_events > 0 {
            if rows.len() != expected_events {
                return Err("@ + create_error + "::ConcurrentModification);
            }
            let recorded_at = rows
                .first()
                .ok_or(sqlx::Error::RowNotFound)
                .and_then(|row| row.try_get(\"recorded_at\"))?;
            for events in all_events.iter_mut() {
                events.mark_new_events_persisted_at(recorded_at);
            }
        }
        "@ + post_checks_phase + "
        Ok(entities)
    }.await;
    "@ + error_recording + "
    __result
}"@
}

/// The functions.
fn create_all_fns(
    entity: &str,
    create_error: &str,
    instrument_attr: &str,
    arg_collection: &str,
    arg_adds: &str,
    batch_declarations: &str,
    forgettable_vars: &str,
    gather: &str,
    forgettable_extract: &str,
    event_arg_adds: &str,
    query: &str,
    forgettable_insert: &str,
    post_checks_phase: &str,
    error_recording: &str,
) -> (res: String)
    ensures
        res@ == create_all_fns_code(
            entity@,
            create_error@,
            instrument_attr@,
            arg_collection@,
            arg_adds@,
            batch_declarations@,
            forgettable_vars@,
            gather@,
            forgettable_extract@,
            event_arg_adds@,
            query@,
            forgettable_insert@,
            post_checks_phase@,
            error_recording@,
        ),
{
    "pub async fn create_all(
    &self,
    new_entities: Vec<<".to_string().concat(entity).concat(" as es_entity::EsEntity>::New>
) -> Result<Vec<").concat(entity).concat(">, ").concat(create_error).concat("> {
    let mut op = self.begin_op().await?;
    let res = self.create_all_in_op(&mut op, new_entities).await?;
    op.commit().await?;
    Ok(res)
}
").concat(instrument_attr).concat("
pub async fn create_all_in_op<OP>(
    &self,
    op: &mut OP,
    new_entities: Vec<<").concat(entity).concat(" as es_entity::EsEntity>::New>
) -> Result<Vec<").concat(entity).concat(">, ").concat(create_error).concat(">
where
    OP: es_entity::AtomicOperation
{
    let __result: Result<Vec<").concat(entity).concat(">, ").concat(create_error).concat("> = async {
        use es_entity::prelude::sqlx::{Arguments, Row};
        let mut entities = Vec::new();
        if new_entities.is_empty() {
            return Ok(entities);
        }
        let mut __query_args = sqlx::postgres::PgArguments::default();
        __query_args.add(op.maybe_now()).map_err(sqlx::Error::Encode)?;
        ").concat(arg_collection).concat("
        ").concat(arg_adds).concat("
        let mut all_events: Vec<es_entity::EntityEvents<<").concat(entity).concat(" as es_entity::EsEntity>::Event>> = new_entities.into_iter().map(Self::convert_new).collect();
        ").concat(batch_declarations).concat("
        let mut n_persisted: Vec<usize> = Vec::new();
        ").concat(forgettable_vars).concat("
        for events in all_events.iter() {
            let id = events.id();
            ").concat(gather).concat("
            ").concat(forgettable_extract).concat("
            n_persisted.push(n_new);
        }
        ").concat(event_arg_adds).concat("
        let expected_events = all_ids.len();
        let rows = sqlx::query_with(").concat(query).concat(", __query_args)
            .fetch_all(op.as_executor())
            .await
            .map_err(Self::classify_create_error)?;
        ").concat(forgettable_insert).concat("
        if expected_events > 0 {
            if rows.len() != expected_events {
                return Err(").concat(create_error).concat("::ConcurrentModification);
            }
            let recorded_at = rows
                .first()
                .ok_or(sqlx::Error::RowNotFound)
                .and_then(|row| row.try_get(\"recorded_at\"))?;
            for events in all_events.iter_mut() {
                events.mark_new_events_persisted_at(recorded_at);
            }
        }
        ").concat(post_checks_phase).concat("
        Ok(entities)
    }.await;
    ").concat(error_recording).concat("
    __result
}")
}

/// The calls that create the nested entities.
pub open spec fn create_all_nested_calls(names: Seq<Seq<char>>) -> Seq<Seq<char>> {
    Seq::new(names.len(), |i: int| create_all_nested_code(names[i]))
}

impl<'a> CreateAllFn<'a> {
    pub open spec fn insert(&self) -> EventsInsert<'a> {
        EventsInsert { events_table: self.events_table_name, event_ctx: self.event_ctx }
    }

    /// The events are joined with the rows that the statement inserts.
    pub open spec fn source() -> EventSource<'static> {
        EventSource::BatchCte { cte: "new_rows" }
    }

    /// The statement: `$1` is the time, the next parameters are the columns,
    /// and the events those behind them.
    pub open spec fn query(&self) -> Seq<char> {
        let names = self.columns.names(Pick::Create);
        let n = self.columns.picks(Pick::Create).len();
        create_all_query_code(
            self.table_name@,
            joined(names, ", "@),
            joined(names, ", unnested."@),
            joined(params_from(2, n), ", "@),
            self.insert().statement(&Self::source(), 1, n + 2),
        )
    }

    /// The statements that collect the columns of the new entities.
    pub open spec fn collection(&self) -> Seq<char> {
        joined(self.columns.emitted(Pick::Create, Piece::NewCollection, "new_entity"@), "\n"@)
            + "\nfor "@ + "new_entity"@ + " in new_entities.iter() {\n"@ + joined(
            self.columns.emitted(Pick::Create, Piece::CreateAllBinding, "new_entity"@),
            "\n"@,
        ) + "\n"@ + joined(
            self.columns.emitted(Pick::Create, Piece::PushToCollection, "new_entity"@),
            "\n"@,
        ) + "\n}"@
    }

    /// The creation of the nested entities, once for all the new ones.
    pub open spec fn nested_part(&self) -> Seq<char> {
        if self.nested_fn_names.len() == 0 {
            Seq::empty()
        } else {
            nested_phase_code(
                self.entity@,
                joined(create_all_nested_calls(self.nested_fn_names.deep_view()), "\n"@),
            )
        }
    }

    /// What happens to the new entities when they were written.
    pub open spec fn final_part(&self) -> Seq<char> {
        if self.post_hydrate_error is Some || self.post_persist_error is Some {
            hooked_phase_code(
                self.nested_part(),
                only_if(
                    self.post_hydrate_error is Some,
                    crate::post_hydrate_hook::check_hydrated_code(self.create_error@),
                ),
                only_if(
                    self.post_persist_error is Some,
                    crate::post_persist_hook::run_persist_hook_code(self.create_error@),
                ),
            )
        } else {
            plain_phase_code(self.nested_part())
        }
    }

    /// The functions.
    #[verifier::opaque]
    pub open spec fn code(&self) -> Seq<char> {
        create_all_fns_code(
            self.entity@,
            self.create_error@,
            span_attr(
                opt_text(self.repo_name_snake),
                "create_all"@,
                self.entity@,
                "count = new_entities.len(),"@,
            ),
            self.collection(),
            joined(
                self.columns.emitted(Pick::Create, Piece::AddCollection, "new_entity"@),
                "\n"@,
            ),
            crate::events_write::declare_batch_code(
                self.id@,
                only_if(self.event_ctx, crate::events_write::DECLARE_CONTEXTS@),
            ),
            match self.forgettable_table_name {
                Some(_) => crate::events_write::declare_payloads_code(self.id@),
                None => Seq::empty(),
            },
            crate::events_write::extend_batch_code(
                "events"@,
                "id"@,
                only_if(
                    self.event_ctx,
                    crate::events_write::extend_contexts_code("events"@),
                ),
            ),
            match self.forgettable_table_name {
                Some(_) => crate::events_write::extend_payloads_code("events"@, self.event@, "id"@),
                None => Seq::empty(),
            },
            self.insert().added_args(&Self::source()),
            literal(self.query()),
            match self.forgettable_table_name {
                Some(table) => crate::events_write::insert_payload_batch_code(
                    literal(crate::events_write::batch_payload_query_code(table@)),
                    self.create_error@,
                ),
                None => Seq::empty(),
            },
            self.final_part(),
            traced(opt_text(self.repo_name_snake), ERROR_RECORDING@),
        )
    }

    /// Whether this is what the options of a repository ask for.
    pub open spec fn made_from(&self, opts: &RepositoryOptions) -> bool {
        &&& self.entity@ == opts.entity_ident@
        &&& self.id@ == opts.id_text()
        &&& self.event@ == opts.event_text()
        &&& self.table_name@ == opts.table_text()
        &&& self.events_table_name@ == opts.events_table_text()
        &&& self.event_ctx == opts.writes_contexts()
        &&& opt_str(self.forgettable_table_name) == opts.forgettable_table()
        &&& *self.columns == opts.columns
        &&& self.create_error@ == opts.entity_ident@ + "CreateError"@
        &&& self.nested_fn_names.deep_view() == opts.nested_names(NestedFn::Create)
        &&& opt_str(self.post_hydrate_error) == opts.hydrate_error()
        &&& opt_str(self.post_persist_error) == opts.persist_error()
        &&& opt_text(self.repo_name_snake) == opts.span_prefix()
    }

    /// The functions for a repository.
    pub fn from(opts: &'a RepositoryOptions) -> (res: Self)
        requires
            opts.ready(),
            opts.is_struct(),
        ensures
            res.made_from(opts),
    {
        CreateAllFn {
            table_name: opts.table_name(),
            entity: opts.entity(),
            id: opts.id(),
            event: opts.event(),
            events_table_name: opts.events_table_name(),
            event_ctx: opts.event_context_enabled(),
            forgettable_table_name: opts.forgettable_table_name(),
            create_error: opts.create_error(),
            nested_fn_names: opts.nested_fn_names(NestedFn::Create),
            columns: &opts.columns,
            post_hydrate_error: opts.post_hydrate_error(),
            post_persist_error: opts.post_persist_error(),
            repo_name_snake: opts.instrumented_as(),
        }
    }

    fn nested_code(&self) -> (res: String)
        ensures
            res@ == self.nested_part(),
    {
        if self.nested_fn_names.len() == 0 {
            return String::new();
        }
        let mut calls: Vec<String> = Vec::new();
        let mut i: usize = 0;
        while i < self.nested_fn_names.len()
            invariant
                i <= self.nested_fn_names.len(),
                calls.len() == i,
                forall|j: int|
                    0 <= j < i ==> (#[trigger] calls@[j])@ == create_all_nested_code(
                        self.nested_fn_names@[j]@,
                    ),
            decreases self.nested_fn_names.len() - i,
        {
            calls.push(create_all_nested(self.nested_fn_names[i].as_str()));
            i = i + 1;
        }
        assert(calls.deep_view() =~= create_all_nested_calls(self.nested_fn_names.deep_view()));
        nested_phase(self.entity, join(&calls, "\n").as_str())
    }

    fn query_text(&self) -> (res: String)
        requires
            self.columns.all.len() + 16 <= usize::MAX,
        ensures
            res@ == self.query(),
    {
        proof {
            crate::options::columns::picked_len(self.columns.all@, Pick::Create);
        }
        let column_names = self.columns.insert_column_names();
        assert(column_names.deep_view().len() == column_names.len());
        let placeholders = self.columns.insert_placeholders(1);
        let events_insert = EventsInsert::new(self.events_table_name, self.event_ctx);
        let source = EventSource::BatchCte { cte: "new_rows" };
        create_all_query(
            self.table_name,
            join(&column_names, ", ").as_str(),
            join(&column_names, ", unnested.").as_str(),
            placeholders.as_str(),
            events_insert.sql(&source, 1, column_names.len() + 2).as_str(),
        )
    }

    fn final_code(&self) -> (res: String)
        ensures
            res@ == self.final_part(),
    {
        let create_error = self.create_error.as_str();
        let nested = self.nested_code();
        if self.post_hydrate_error.is_some() || self.post_persist_error.is_some() {
            hooked_phase(
                nested.as_str(),
                given(
                    self.post_hydrate_error.is_some(),
                    check_hydrated(create_error).as_str(),
                ).as_str(),
                given(
                    self.post_persist_error.is_some(),
                    run_persist_hook(create_error).as_str(),
                ).as_str(),
            )
        } else {
            plain_phase(nested.as_str())
        }
    }

    /// Appends the functions.
    pub fn to_tokens(&self, tokens: &mut String)
        requires
            self.columns.all.len() + 16 <= usize::MAX,
        ensures
            final(tokens)@ == old(tokens)@ + self.code(),
    {
        proof {
            reveal(CreateAllFn::code);
        }
        let create_error = self.create_error.as_str();
        let (arg_collection, arg_adds) = self.columns.create_all_arg_collection("new_entity");
        let events_insert = EventsInsert::new(self.events_table_name, self.event_ctx);
        let source = EventSource::BatchCte { cte: "new_rows" };
        let (forgettable_vars, forgettable_extract, forgettable_insert) =
            match self.forgettable_table_name {
            Some(table) => {
                let payloads = ForgettablePayloads {
                    table,
                    id_type: self.id,
                    event_type: self.event,
                };
                (
                    payloads.batch_declarations(),
                    payloads.gather_batch("events", "id"),
                    payloads.insert_batch(create_error),
                )
            },
            None => (String::new(), String::new(), String::new()),
        };
        let code = create_all_fns(
            self.entity,
            create_error,
            span_attribute(
                &self.repo_name_snake,
                "create_all",
                self.entity,
                "count = new_entities.len(),",
            ).as_str(),
            arg_collection.as_str(),
            join(&arg_adds, "\n").as_str(),
            events_insert.batch_declarations(self.id).as_str(),
            forgettable_vars.as_str(),
            events_insert.gather_batch("events", "id").as_str(),
            forgettable_extract.as_str(),
            events_insert.arg_adds(&source).as_str(),
            quote(self.query_text().as_str()).as_str(),
            forgettable_insert.as_str(),
            self.final_code().as_str(),
            trace(&self.repo_name_snake, ERROR_RECORDING).as_str(),
        );
        tokens.append(code.as_str());
    }
}

} // verus!
