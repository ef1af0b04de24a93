//! The functions that create an entity.

use vstd::prelude::*;
use vstd::string::*;

use crate::events_write::{EventSource, EventsInsert, ForgettablePayloads};
use crate::instrument::{span_attr, span_attribute, trace, traced, ERROR_RECORDING};
use crate::options::columns::{Columns, Pick, Piece, params_from};
use crate::options::repository::{NestedFn, RepositoryOptions};
use crate::post_hydrate_hook::check_hydrated;
use crate::post_persist_hook::run_persist_hook;
use crate::text::{
    given, in_order, in_order_extended, join, joined, literal, occurs_extended, only_if, param,
    param_text, quote,
};
use crate::types::{opt_str, opt_text};

verus! {

/// The functions that create an entity.
pub struct CreateFn<'a> {
    pub entity: &'a str,
    pub id: &'a str,
    pub event: &'a str,
    pub table_name: &'a str,
    pub events_table_name: &'a str,
    pub event_ctx: bool,
    pub forgettable_table_name: Option<&'a str>,
    pub columns: &'a Columns,
    pub create_error: String,
    pub nested_fn_names: Vec<String>,
    pub post_hydrate_error: Option<&'a str>,
    pub post_persist_error: Option<&'a str>,
    /// The repository's name in the spans, where functions are traced.
    pub repo_name_snake: Option<String>,
}

/// The statement that inserts the index row and the events of a new entity.
pub open spec fn create_query_code(
    table: Seq<char>,
    names: Seq<char>,
    placeholders: Seq<char>,
    now: Seq<char>,
    events: Seq<char>,
) -> Seq<char> {
    "WITH new_row AS (INSERT INTO "@ + table + " ("@ + names + ", created_at) VALUES ("@ + placeholders + ", COALESCE("@ + now + ", NOW())) RETURNING id) "@ + events
}

/// The statement that inserts the index row and the events of a new entity.
fn create_query(
    table: &str,
    names: &str,
    placeholders: &str,
    now: &str,
    events: &str,
) -> (res: String)
    ensures
        res@ == create_query_code(table@, names@, placeholders@, now@, events@),
{
    "WITH new_row AS (INSERT INTO ".to_string().concat(table).concat(" (").concat(names).concat(", created_at) VALUES (").concat(placeholders).concat(", COALESCE(").concat(now).concat(", NOW())) RETURNING id) ").concat(events)
}

/// The insert of the payloads of a new entity.
pub open spec fn create_payloads_code(payloads: Seq<char>) -> Seq<char> {
    "let offset = events.len_persisted();
let id = events.id();
"@ + payloads
}

/// The insert of the payloads of a new entity.
fn create_payloads(payloads: &str) -> (res: String)
    ensures
        res@ == create_payloads_code(payloads@),
{
    "let offset = events.len_persisted();
let id = events.id();
".to_string().concat(payloads)
}

/// The call that creates nested entities.
pub open spec fn create_nested_code(f: Seq<char>) -> Seq<char> {
    "self."@ + f + "(op, &mut [&mut entity]).await?;"@
}

/// The call that creates nested entities.
fn create_nested(f: &str) -> (res: String)
    ensures
        res@ == create_nested_code(f@),
{
    "self.".to_string().concat(f).concat("(op, &mut [&mut entity]).await?;")
}

/// Records the id of the new entity.
pub const RECORD_NEW_ID: &'static str = "tracing::Span::current().record(\"id\", tracing::field::debug(&id));";

/// The functions.
pub open spec fn create_fns_code(
    entity: Seq<char>,
    create_error: Seq<char>,
    instrument_attr: Seq<char>,
    assignments: Seq<char>,
    record_id: Seq<char>,
    arg_adds: Seq<char>,
    ctx_var: Seq<char>,
    event_arg_adds: Seq<char>,
    query: Seq<char>,
    forgettable_code: Seq<char>,
    maybe_mut_entity: Seq<char>,
    nested: Seq<char>,
    post_hydrate_check: Seq<char>,
    post_persist_check: Seq<char>,
    error_recording: Seq<char>,
) -> Seq<char> {
    "#[inline(always)]
fn convert_new<Entity, Event>(item: Entity) -> es_entity::EntityEvents<Event>
where
    Entity: es_entity::IntoEvents<Event>,
    Event: es_entity::EsEvent,
{
    item.into_events()
}
#[inline(always)]
fn hydrate_entity<Entity, Event>(events: es_entity::EntityEvents<Event>) -> Result<Entity, es_entity::EntityHydrationError>
where
    Entity: es_entity::TryFromEvents<Event>,
    Event: es_entity::EsEvent,
{
    Entity::try_from_events(events)
}
pub async fn create(
    &self,
    new_entity: <"@ + entity + " as es_entity::EsEntity>::New
) -> Result<"@ + entity + ", "@ + create_error + "> {
    let mut op = self.begin_op().await?;
    let res = self.create_in_op(&mut op, new_entity).await?;
    op.commit().await?;
    Ok(res)
}
"@ + instrument_attr + "
pub async fn create_in_op<OP>(
    &self,
    op: &mut OP,
    new_entity: <"@ + entity + " as es_entity::EsEntity>::New
) -> Result<"@ + entity + ", "@ + create_error + ">
where
    OP: es_entity::AtomicOperation
{
    let __result: Result<"@ + entity + ", "@ + create_error + "> = async {
        use es_entity::prelude::sqlx::{Arguments, Row};
        "@ + assignments + "
        "@ + record_id + "
        let mut __query_args = sqlx::postgres::PgArguments::default();
        "@ + arg_adds + "
        __query_args.add(op.maybe_now()).map_err(sqlx::Error::Encode)?;
        let mut events = Self::convert_new(new_entity);
        let events_types = events.new_event_types();
        let serialized_events = events.serialize_new_events();
        "@ + ctx_var + "
        "@ + event_arg_adds + "
        let rows = sqlx::query_with("@ + query + ", __query_args)
            .fetch_all(op.as_executor())
            .await
            .map_err(Self::classify_create_error)?;
        "@ + forgettable_code + "
        let recorded_at = rows
            .first()
            .ok_or(sqlx::Error::RowNotFound)
            .and_then(|row| row.try_get(\"recorded_at\"))?;
        let n_events = events.mark_new_events_persisted_at(recorded_at);
        let "@ + maybe_mut_entity + " = Self::hydrate_entity(events)?;
        "@ + nested + "
        "@ + post_hydrate_check + "
        "@ + post_persist_check + "
        Ok(entity)
    }.await;
    "@ + error_recording + "
    __result
}"@
}

/// The functions.
fn create_fns(
    entity: &str,
    create_error: &str,
    instrument_attr: &str,
    assignments: &str,
    record_id: &str,
    arg_adds: &str,
    ctx_var: &str,
    event_arg_adds: &str,
    query: &str,
    forgettable_code: &str,
    maybe_mut_entity: &str,
    nested: &str,
    post_hydrate_check: &str,
    post_persist_check: &str,
    error_recording: &str,
) -> (res: String)
    ensures
        res@ == create_fns_code(
            entity@,
            create_error@,
            instrument_attr@,
            assignments@,
            record_id@,
            arg_adds@,
            ctx_var@,
            event_arg_adds@,
            query@,
            forgettable_code@,
            maybe_mut_entity@,
            nested@,
            post_hydrate_check@,
            post_persist_check@,
            error_recording@,
        ),
{
    "#[inline(always)]
fn convert_new<Entity, Event>(item: Entity) -> es_entity::EntityEvents<Event>
where
    Entity: es_entity::IntoEvents<Event>,
    Event: es_entity::EsEvent,
{
    item.into_events()
}
#[inline(always)]
fn hydrate_entity<Entity, Event>(events: es_entity::EntityEvents<Event>) -> Result<Entity, es_entity::EntityHydrationError>
where
    Entity: es_entity::TryFromEvents<Event>,
    Event: es_entity::EsEvent,
{
    Entity::try_from_events(events)
}
pub async fn create(
    &self,
    new_entity: <".to_string().concat(entity).concat(" as es_entity::EsEntity>::New
) -> Result<").concat(entity).concat(", ").concat(create_error).concat("> {
    let mut op = self.begin_op().await?;
    let res = self.create_in_op(&mut op, new_entity).await?;
    op.commit().await?;
    Ok(res)
}
").concat(instrument_attr).concat("
pub async fn create_in_op<OP>(
    &self,
    op: &mut OP,
    new_entity: <").concat(entity).concat(" as es_entity::EsEntity>::New
) -> Result<").concat(entity).concat(", ").concat(create_error).concat(">
where
    OP: es_entity::AtomicOperation
{
    let __result: Result<").concat(entity).concat(", ").concat(create_error).concat("> = async {
        use es_entity::prelude::sqlx::{Arguments, Row};
        ").concat(assignments).concat("
        ").concat(record_id).concat("
        let mut __query_args = sqlx::postgres::PgArguments::default();
        ").concat(arg_adds).concat("
        __query_args.add(op.maybe_now()).map_err(sqlx::Error::Encode)?;
        let mut events = Self::convert_new(new_entity);
        let events_types = events.new_event_types();
        let serialized_events = events.serialize_new_events();
        ").concat(ctx_var).concat("
        ").concat(event_arg_adds).concat("
        let rows = sqlx::query_with(").concat(query).concat(", __query_args)
            .fetch_all(op.as_executor())
            .await
            .map_err(Self::classify_create_error)?;
        ").concat(forgettable_code).concat("
        let recorded_at = rows
            .first()
            .ok_or(sqlx::Error::RowNotFound)
            .and_then(|row| row.try_get(\"recorded_at\"))?;
        let n_events = events.mark_new_events_persisted_at(recorded_at);
        let ").concat(maybe_mut_entity).concat(" = Self::hydrate_entity(events)?;
        ").concat(nested).concat("
        ").concat(post_hydrate_check).concat("
        ").concat(post_persist_check).concat("
        Ok(entity)
    }.await;
    ").concat(error_recording).concat("
    __result
}")
}

/// The calls that create the nested entities.
pub open spec fn create_nested_calls(names: Seq<Seq<char>>) -> Seq<Seq<char>> {
    Seq::new(names.len(), |i: int| create_nested_code(names[i]))
}

impl<'a> CreateFn<'a> {
    pub open spec fn insert(&self) -> EventsInsert<'a> {
        EventsInsert { events_table: self.events_table_name, event_ctx: self.event_ctx }
    }

    /// The events belong to the row that the statement inserts, and their
    /// sequences start at one.
    pub open spec fn source() -> EventSource<'static> {
        EventSource::PerEntityCte { cte: "new_row", offset_param: None }
    }

    /// The statement: the columns take the first parameters, the time the next
    /// one, and the events those behind it.
    pub open spec fn query(&self) -> Seq<char> {
        let n = self.columns.picks(Pick::Create).len();
        create_query_code(
            self.table_name@,
            joined(self.columns.names(Pick::Create), ", "@),
            joined(params_from(1, n), ", "@),
            param(n + 1),
            self.insert().statement(&Self::source(), n + 1, n + 2),
        )
    }

    /// The insert of the payloads.
    pub open spec fn payloads(&self) -> Seq<char> {
        match self.forgettable_table_name {
            Some(table) => create_payloads_code(
                (ForgettablePayloads {
                    table,
                    id_type: self.id,
                    event_type: self.event,
                }).per_entity("events"@, self.create_error@, None),
            ),
            None => Seq::empty(),
        }
    }

    /// The functions.
    #[verifier::opaque]
    pub open spec fn code(&self) -> Seq<char> {
        create_fns_code(
            self.entity@,
            self.create_error@,
            span_attr(
                opt_text(self.repo_name_snake),
                "create"@,
                self.entity@,
                "id = tracing::field::Empty,"@,
            ),
            joined(
                self.columns.emitted(Pick::Create, Piece::CreateBinding, "new_entity"@),
                "\n"@,
            ),
            traced(opt_text(self.repo_name_snake), RECORD_NEW_ID@),
            joined(self.columns.emitted(Pick::Create, Piece::ArgAdd, ""@), "\n"@),
            only_if(
                self.event_ctx,
                "let contexts = events.serialize_new_event_contexts();"@,
            ),
            self.insert().added_args(&Self::source()),
            literal(self.query()),
            self.payloads(),
            if self.nested_fn_names.len() == 0 {
                "entity"@
            } else {
                "mut entity"@
            },
            joined(create_nested_calls(self.nested_fn_names.deep_view()), "\n"@),
            only_if(
                self.post_hydrate_error is Some,
                crate::post_hydrate_hook::check_hydrated_code(self.create_error@),
            ),
            only_if(
                self.post_persist_error is Some,
                crate::post_persist_hook::run_persist_hook_code(self.create_error@),
            ),
            traced(opt_text(self.repo_name_snake), ERROR_RECORDING@),
        )
    }

    /// Whether this is what the options of a repository ask for.
    pub open spec fn made_from(&self, opts: &RepositoryOptions) -> bool {
        &&& self.entity@ == opts.entity_ident@
        &&& self.id@ == opts.id_text()
        &&& self.event@ == opts.event_text()
        &&& self.table_name@ == opts.table_text()
        &&& self.events_table_name@ == opts.events_table_text()
        &&& self.event_ctx == opts.writes_contexts()
        &&& opt_str(self.forgettable_table_name) == opts.forgettable_table()
        &&& *self.columns == opts.columns
        &&& self.create_error@ == opts.entity_ident@ + "CreateError"@
        &&& self.nested_fn_names.deep_view() == opts.nested_names(NestedFn::Create)
        &&& opt_str(self.post_hydrate_error) == opts.hydrate_error()
        &&& opt_str(self.post_persist_error) == opts.persist_error()
        &&& opt_text(self.repo_name_snake) == opts.span_prefix()
    }

    /// The functions for a repository.
    pub fn from(opts: &'a RepositoryOptions) -> (res: Self)
        requires
            opts.ready(),
            opts.is_struct(),
        ensures
            res.made_from(opts),
    {
        CreateFn {
            table_name: opts.table_name(),
            entity: opts.entity(),
            id: opts.id(),
            event: opts.event(),
            events_table_name: opts.events_table_name(),
            event_ctx: opts.event_context_enabled(),
            forgettable_table_name: opts.forgettable_table_name(),
            create_error: opts.create_error(),
            nested_fn_names: opts.nested_fn_names(NestedFn::Create),
            columns: &opts.columns,
            post_hydrate_error: opts.post_hydrate_error(),
            post_persist_error: opts.post_persist_error(),
            repo_name_snake: opts.instrumented_as(),
        }
    }

    fn nested_calls(&self) -> (res: String)
        ensures
            res@ == joined(create_nested_calls(self.nested_fn_names.deep_view()), "\n"@),
    {
        let mut calls: Vec<String> = Vec::new();
        let mut i: usize = 0;
        while i < self.nested_fn_names.len()
            invariant
                i <= self.nested_fn_names.len(),
                calls.len() == i,
                forall|j: int|
                    0 <= j < i ==> (#[trigger] calls@[j])@ == create_nested_code(
                        self.nested_fn_names@[j]@,
                    ),
            decreases self.nested_fn_names.len() - i,
        {
            calls.push(create_nested(self.nested_fn_names[i].as_str()));
            i = i + 1;
        }
        assert(calls.deep_view() =~= create_nested_calls(self.nested_fn_names.deep_view()));
        join(&calls, "\n")
    }

    fn payload_code(&self) -> (res: String)
        ensures
            res@ == self.payloads(),
    {
        match self.forgettable_table_name {
            Some(table) => {
                let payloads = ForgettablePayloads {
                    table,
                    id_type: self.id,
                    event_type: self.event,
                };
                let insert = payloads.insert_per_entity("events", self.create_error.as_str(), None);
                create_payloads(insert.as_str())
            },
            None => String::new(),
        }
    }

    fn query_text(&self) -> (res: String)
        requires
            self.columns.all.len() + 16 <= usize::MAX,
        ensures
            res@ == self.query(),
    {
        proof {
            crate::options::columns::picked_len(self.columns.all@, Pick::Create);
        }
        let column_names = self.columns.insert_column_names();
        assert(column_names.deep_view().len() == column_names.len());
        let placeholders = self.columns.insert_placeholders(0);
        let now_p: usize = column_names.len() + 1;
        let events_insert = EventsInsert::new(self.events_table_name, self.event_ctx);
        let source = EventSource::PerEntityCte { cte: "new_row", offset_param: None };
        create_query(
            self.table_name,
            join(&column_names, ", ").as_str(),
            placeholders.as_str(),
            param_text(now_p).as_str(),
            events_insert.sql(&source, now_p, now_p + 1).as_str(),
        )
    }

    /// Appends the functions.
    pub fn to_tokens(&self, tokens: &mut String)
        requires
            self.columns.all.len() + 16 <= usize::MAX,
        ensures
            final(tokens)@ == old(tokens)@ + self.code(),
    {
        proof {
            reveal(CreateFn::code);
        }
        let create_error = self.create_error.as_str();
        let maybe_mut_entity = if self.nested_fn_names.len() == 0 {
            "entity"
        } else {
            "mut entity"
        };
        let events_insert = EventsInsert::new(self.events_table_name, self.event_ctx);
        let source = EventSource::PerEntityCte { cte: "new_row", offset_param: None };
        let code = create_fns(
            self.entity,
            create_error,
            span_attribute(
                &self.repo_name_snake,
                "create",
                self.entity,
                "id = tracing::field::Empty,",
            ).as_str(),
            self.columns.variable_assignments_for_create("new_entity").as_str(),
            trace(&self.repo_name_snake, RECORD_NEW_ID).as_str(),
            join(&self.columns.create_query_arg_adds(), "\n").as_str(),
            given(
                self.event_ctx,
                "let contexts = events.serialize_new_event_contexts();",
            ).as_str(),
            events_insert.arg_adds(&source).as_str(),
            quote(self.query_text().as_str()).as_str(),
            self.payload_code().as_str(),
            maybe_mut_entity,
            self.nested_calls().as_str(),
            given(
                self.post_hydrate_error.is_some(),
                check_hydrated(create_error).as_str(),
            ).as_str(),
            given(
                self.post_persist_error.is_some(),
                run_persist_hook(create_error).as_str(),
            ).as_str(),
            trace(&self.repo_name_snake, ERROR_RECORDING).as_str(),
        );
        tokens.append(code.as_str());
    }
}

/// In the code that creates, the payloads are written behind the entity's row
/// and its events, then the nested entities are created, and the hooks run
/// last.
pub proof fn create_order(f: &CreateFn)
    ensures
        in_order(f.code(), literal(f.query()), f.payloads()),
        in_order(
            f.code(),
            f.payloads(),
            joined(create_nested_calls(f.nested_fn_names.deep_view()), "\n"@),
        ),
        in_order(
            f.code(),
            joined(create_nested_calls(f.nested_fn_names.deep_view()), "\n"@),
            only_if(
                f.post_hydrate_error is Some,
                crate::post_hydrate_hook::check_hydrated_code(f.create_error@),
            ),
        ),
        in_order(
            f.code(),
            only_if(
                f.post_hydrate_error is Some,
                crate::post_hydrate_hook::check_hydrated_code(f.create_error@),
            ),
            only_if(
                f.post_persist_error is Some,
                crate::post_persist_hook::run_persist_hook_code(f.create_error@),
            ),
        ),
{
    reveal(CreateFn::code);
    broadcast use {in_order_extended, occurs_extended};

}

} // verus!
