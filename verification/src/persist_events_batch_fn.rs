//! The function that writes the new events of several entities.

use vstd::prelude::*;
use vstd::string::*;

use crate::options::repository::RepositoryOptions;
use crate::text::{given, literal, only_if, quote};

verus! {

/// The function that writes the new events of several entities.
pub struct PersistEventsBatchFn<'a> {
    pub id: &'a str,
    pub event: &'a str,
    pub error: String,
    pub events_table_name: &'a str,
    pub event_ctx: bool,
}

/// The statement that inserts the events: `$1` is the time, the others are
/// arrays.
pub open spec fn batch_query_code(
    table: Seq<char>,
    context: Seq<char>,
    unnested_context: Seq<char>,
    context_param: Seq<char>,
) -> Seq<char> {
    "INSERT INTO "@ + table + " (id, recorded_at, sequence, event_type, event"@ + context + ") SELECT unnested.id, COALESCE($1, NOW()), unnested.sequence, unnested.event_type, unnested.event"@ + unnested_context + " FROM UNNEST($2, $3::INT[], $4::TEXT[], $5::JSONB[]"@ + context_param + ") AS unnested(id, sequence, event_type, event"@ + context + ") RETURNING recorded_at"@
}

/// The statement that inserts the events: `$1` is the time, the others are
/// arrays.
fn batch_query(
    table: &str,
    context: &str,
    unnested_context: &str,
    context_param: &str,
) -> (res: String)
    ensures
        res@ == batch_query_code(table@, context@, unnested_context@, context_param@),
{
    "INSERT INTO ".to_string().concat(table).concat(" (id, recorded_at, sequence, event_type, event").concat(context).concat(") SELECT unnested.id, COALESCE($1, NOW()), unnested.sequence, unnested.event_type, unnested.event").concat(unnested_context).concat(" FROM UNNEST($2, $3::INT[], $4::TEXT[], $5::JSONB[]").concat(context_param).concat(") AS unnested(id, sequence, event_type, event").concat(context).concat(") RETURNING recorded_at")
}

/// Declares the array of the contexts.
pub const DECLARE_ALL_CONTEXTS: &'static str = "let mut all_contexts: Vec<es_entity::ContextData> = Vec::new();";

/// Adds the contexts of one entity's events.
pub const EXTEND_ALL_CONTEXTS: &'static str = "let contexts = events.serialize_new_event_contexts();
if let Some(contexts) = contexts {
    all_contexts.extend(contexts);
}";

/// Binds the contexts.
pub const BIND_ALL_CONTEXTS: &'static str = ".bind(&if all_contexts.is_empty() {
    None
} else {
     Some(all_contexts)
})";

/// The function.
pub open spec fn persist_events_batch_code(
    event_type: Seq<char>,
    id_type: Seq<char>,
    error: Seq<char>,
    ctx_var: Seq<char>,
    ctx_extend: Seq<char>,
    query: Seq<char>,
    ctx_bind: Seq<char>,
) -> Seq<char> {
    "async fn persist_events_batch<OP>(
    &self,
    op: &mut OP,
    all_events: &mut [es_entity::EntityEvents<"@ + event_type + ">]
) -> Result<std::collections::HashMap<"@ + id_type + ", usize>, "@ + error + ">
where
    OP: es_entity::AtomicOperation
{
    use es_entity::prelude::sqlx::Row;
    let mut all_serialized = Vec::new();
    "@ + ctx_var + "
    let mut all_types = Vec::new();
    let mut all_ids: Vec<&"@ + id_type + "> = Vec::new();
    let mut all_sequences = Vec::new();
    let now = op.maybe_now();
    let mut n_events_map = std::collections::HashMap::new();
    for events in all_events.iter_mut() {
        let id = events.id();
        let offset = events.len_persisted() + 1;
        let serialized = events.serialize_new_events();
        "@ + ctx_extend + "
        let types = serialized.iter()
            .map(|e| e.get(\"type\")
                .and_then(es_entity::prelude::serde_json::Value::as_str)
                .expect(\"Could not read event type\")
                .to_owned())
            .collect::<Vec<_>>();
        let n_events = serialized.len();
        all_serialized.extend(serialized);
        all_types.extend(types);
        all_ids.extend(std::iter::repeat(id).take(n_events));
        all_sequences.extend((offset..).take(n_events).map(|i| i as i32));
        n_events_map.insert(id.clone(), n_events);
    }
    let rows = Self::extract_concurrent_modification(
        sqlx::query("@ + query + ")
            .bind(now)
            .bind(&all_ids)
            .bind(&all_sequences)
            .bind(&all_types)
            .bind(&all_serialized)
            "@ + ctx_bind + "
            .fetch_all(op.as_executor())
            .await
    )?;
    let recorded_at = rows[0].try_get(\"recorded_at\").expect(\"no recorded at\");
    for events in all_events.iter_mut() {
        events.mark_new_events_persisted_at(recorded_at);
    }
    Ok(n_events_map)
}"@
}

/// The function.
pub fn persist_events_batch(
    event_type: &str,
    id_type: &str,
    error: &str,
    ctx_var: &str,
    ctx_extend: &str,
    query: &str,
    ctx_bind: &str,
) -> (res: String)
    ensures
        res@ == persist_events_batch_code(
            event_type@,
            id_type@,
            error@,
            ctx_var@,
            ctx_extend@,
            query@,
            ctx_bind@,
        ),
{
    "async fn persist_events_batch<OP>(
    &self,
    op: &mut OP,
    all_events: &mut [es_entity::EntityEvents<".to_string().concat(event_type).concat(">]
) -> Result<std::collections::HashMap<").concat(id_type).concat(", usize>, ").concat(error).concat(">
where
    OP: es_entity::AtomicOperation
{
    use es_entity::prelude::sqlx::Row;
    let mut all_serialized = Vec::new();
    ").concat(ctx_var).concat("
    let mut all_types = Vec::new();
    let mut all_ids: Vec<&").concat(id_type).concat("> = Vec::new();
    let mut all_sequences = Vec::new();
    let now = op.maybe_now();
    let mut n_events_map = std::collections::HashMap::new();
    for events in all_events.iter_mut() {
        let id = events.id();
        let offset = events.len_persisted() + 1;
        let serialized = events.serialize_new_events();
        ").concat(ctx_extend).concat("
        let types = serialized.iter()
            .map(|e| e.get(\"type\")
                .and_then(es_entity::prelude::serde_json::Value::as_str)
                .expect(\"Could not read event type\")
                .to_owned())
            .collect::<Vec<_>>();
        let n_events = serialized.len();
        all_serialized.extend(serialized);
        all_types.extend(types);
        all_ids.extend(std::iter::repeat(id).take(n_events));
        all_sequences.extend((offset..).take(n_events).map(|i| i as i32));
        n_events_map.insert(id.clone(), n_events);
    }
    let rows = Self::extract_concurrent_modification(
        sqlx::query(").concat(query).concat(")
            .bind(now)
            .bind(&all_ids)
            .bind(&all_sequences)
            .bind(&all_types)
            .bind(&all_serialized)
            ").concat(ctx_bind).concat("
            .fetch_all(op.as_executor())
            .await
    )?;
    let recorded_at = rows[0].try_get(\"recorded_at\").expect(\"no recorded at\");
    for events in all_events.iter_mut() {
        events.mark_new_events_persisted_at(recorded_at);
    }
    Ok(n_events_map)
}")
}

impl<'a> PersistEventsBatchFn<'a> {
    /// The statement.
    pub open spec fn query(&self) -> Seq<char> {
        batch_query_code(
            self.events_table_name@,
            only_if(self.event_ctx, ", context"@),
            only_if(self.event_ctx, ", unnested.context"@),
            only_if(self.event_ctx, ", $6::JSONB[]"@),
        )
    }

    /// The function.
    #[verifier::opaque]
    pub open spec fn code(&self) -> Seq<char> {
        persist_events_batch_code(
            self.event@,
            self.id@,
            self.error@,
            only_if(self.event_ctx, DECLARE_ALL_CONTEXTS@),
            only_if(self.event_ctx, EXTEND_ALL_CONTEXTS@),
            literal(self.query()),
            only_if(self.event_ctx, BIND_ALL_CONTEXTS@),
        )
    }

    /// Whether this is what the options of a repository ask for.
    pub open spec fn made_from(&self, opts: &RepositoryOptions) -> bool {
        &&& self.id@ == opts.id_text()
        &&& self.event@ == opts.event_text()
        &&& self.error@ == opts.entity_ident@ + "ModifyError"@
        &&& self.events_table_name@ == opts.events_table_text()
        &&& self.event_ctx == opts.writes_contexts()
    }

    pub fn from(opts: &'a RepositoryOptions) -> (res: Self)
        requires
            opts.ready(),
        ensures
            res.made_from(opts),
    {
        PersistEventsBatchFn {
            id: opts.id(),
            event: opts.event(),
            error: opts.modify_error(),
            events_table_name: opts.events_table_name(),
            event_ctx: opts.event_context_enabled(),
        }
    }

    /// Appends the function.
    pub fn to_tokens(&self, tokens: &mut String)
        ensures
            final(tokens)@ == old(tokens)@ + self.code(),
    {
        proof {
            reveal(PersistEventsBatchFn::code);
        }
        let query = batch_query(
            self.events_table_name,
            given(self.event_ctx, ", context").as_str(),
            given(self.event_ctx, ", unnested.context").as_str(),
            given(self.event_ctx, ", $6::JSONB[]").as_str(),
        );
        let code = persist_events_batch(
            self.event,
            self.id,
            self.error.as_str(),
            given(self.event_ctx, DECLARE_ALL_CONTEXTS).as_str(),
            given(self.event_ctx, EXTEND_ALL_CONTEXTS).as_str(),
            quote(query.as_str()).as_str(),
            given(self.event_ctx, BIND_ALL_CONTEXTS).as_str(),
        );
        tokens.append(code.as_str());
    }
}

} // verus!
