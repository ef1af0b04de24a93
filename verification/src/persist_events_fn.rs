//! The function that writes the new events of an entity.

use vstd::prelude::*;
use vstd::string::*;

use crate::options::repository::RepositoryOptions;
use crate::text::{literal, quote};

verus! {

/// The function that writes the new events of an entity.
pub struct PersistEventsFn<'a> {
    pub id: &'a str,
    pub event: &'a str,
    pub error: String,
    pub events_table_name: &'a str,
    pub event_ctx: bool,
}

/// The statement that copies events into their table.
pub open spec fn copy_query_code(table: Seq<char>, context: Seq<char>) -> Seq<char> {
    "COPY "@ + table + " (id, sequence, event_type, event"@ + context + ", recorded_at) FROM STDIN WITH (FORMAT text)"@
}

/// The statement that copies events into their table.
fn copy_query(table: &str, context: &str) -> (res: String)
    ensures
        res@ == copy_query_code(table@, context@),
{
    "COPY ".to_string().concat(table).concat(" (id, sequence, event_type, event").concat(context).concat(", recorded_at) FROM STDIN WITH (FORMAT text)")
}

/// Sends a row for each event.
pub const SEND_EVENTS: &'static str = "for (idx, event) in serialized_events.into_iter().enumerate() {
    let event_type = event
        .get(\"type\")
        .and_then(es_entity::prelude::serde_json::Value::as_str)
        .expect(\"Could not read event type\")
        .to_owned();
    let row = format!(
        \"{}\\t{}\\t{}\\t{}\\t{}\\n\",
        id,
        offset + idx,
        event_type,
        es_entity::prelude::serde_json::to_string(&event).expect(\"event to string\"),
        es_entity::prelude::chrono::Utc::now(),
    );
    copy.send(row.as_bytes()).await?;
}";

/// Sends a row for each event and its context.
pub const SEND_EVENTS_WITH_CONTEXTS: &'static str = "let contexts = events.serialize_new_event_contexts();
for (idx, (event, context)) in serialized_events.into_iter().zip(contexts.unwrap_or_default().into_iter()).enumerate() {
    let event_type = event
        .get(\"type\")
        .and_then(es_entity::prelude::serde_json::Value::as_str)
        .expect(\"Could not read event type\");
    let row = format!(
        \"{}\\t{}\\t{}\\t{}\\t{}\\t{}\\n\",
        id,
        offset + idx,
        event_type,
        es_entity::prelude::serde_json::to_string(&event).expect(\"event to string\"),
        es_entity::prelude::serde_json::to_string(&context).expect(\"context to string\"),
        es_entity::prelude::chrono::Utc::now(),
    );
    copy.send(row.as_bytes()).await?;
}";

/// The functions.
pub open spec fn persist_events_fns_code(
    error: Seq<char>,
    event_type: Seq<char>,
    copy_query: Seq<char>,
    send_events: Seq<char>,
) -> Seq<char> {
    "fn extract_concurrent_modification<T>(res: Result<T, sqlx::Error>) -> Result<T, "@ + error + "> {
    match res {
        Ok(entity) => Ok(entity),
        Err(sqlx::Error::Database(db_error)) if db_error.is_unique_violation() => {
            Err("@ + error + "::from(es_entity::EsEntityError::ConcurrentModification))
        }
        Err(err) => Err("@ + error + "::from(err)),
    }
}
async fn persist_events<OP>(
    &self,
    op: &mut OP,
    events: &mut es_entity::EntityEvents<"@ + event_type + ">
) -> Result<usize, "@ + error + ">
where
    OP: es_entity::AtomicOperation
{
    if events.serialize_new_events().is_empty() {
        return Ok(0);
    }
    let id = events.id();
    let offset = events.len_persisted();
    let serialized_events = events.serialize_new_events();
    let rows_copied = Self::extract_concurrent_modification({
        let mut copy = op
            .as_executor()
            .copy_in_raw("@ + copy_query + ")
            .await?;
        "@ + send_events + "
        copy.finish().await
    })?;
    let recorded_at = es_entity::prelude::chrono::Utc::now();
    let n_events = events.mark_new_events_persisted_at(recorded_at);
    Ok(n_events)
}"@
}

/// The functions.
pub fn persist_events_fns(
    error: &str,
    event_type: &str,
    copy_query: &str,
    send_events: &str,
) -> (res: String)
    ensures
        res@ == persist_events_fns_code(error@, event_type@, copy_query@, send_events@),
{
    "fn extract_concurrent_modification<T>(res: Result<T, sqlx::Error>) -> Result<T, ".to_string().concat(error).concat("> {
    match res {
        Ok(entity) => Ok(entity),
        Err(sqlx::Error::Database(db_error)) if db_error.is_unique_violation() => {
            Err(").concat(error).concat("::from(es_entity::EsEntityError::ConcurrentModification))
        }
        Err(err) => Err(").concat(error).concat("::from(err)),
    }
}
async fn persist_events<OP>(
    &self,
    op: &mut OP,
    events: &mut es_entity::EntityEvents<").concat(event_type).concat(">
) -> Result<usize, ").concat(error).concat(">
where
    OP: es_entity::AtomicOperation
{
    if events.serialize_new_events().is_empty() {
        return Ok(0);
    }
    let id = events.id();
    let offset = events.len_persisted();
    let serialized_events = events.serialize_new_events();
    let rows_copied = Self::extract_concurrent_modification({
        let mut copy = op
            .as_executor()
            .copy_in_raw(").concat(copy_query).concat(")
            .await?;
        ").concat(send_events).concat("
        copy.finish().await
    })?;
    let recorded_at = es_entity::prelude::chrono::Utc::now();
    let n_events = events.mark_new_events_persisted_at(recorded_at);
    Ok(n_events)
}")
}

impl<'a> PersistEventsFn<'a> {
    /// The function, and the one that tells concurrent modifications from other
    /// errors.
    #[verifier::opaque]
    pub open spec fn code(&self) -> Seq<char> {
        persist_events_fns_code(
            self.error@,
            self.event@,
            literal(
                copy_query_code(
                    self.events_table_name@,
                    if self.event_ctx {
                        ", context"@
                    } else {
                        ""@
                    },
                ),
            ),
            if self.event_ctx {
                SEND_EVENTS_WITH_CONTEXTS@
            } else {
                SEND_EVENTS@
            },
        )
    }

    /// Whether this is what the options of a repository ask for.
    pub open spec fn made_from(&self, opts: &RepositoryOptions) -> bool {
        &&& self.id@ == opts.id_text()
        &&& self.event@ == opts.event_text()
        &&& self.error@ == opts.entity_ident@ + "ModifyError"@
        &&& self.events_table_name@ == opts.events_table_text()
        &&& self.event_ctx == opts.writes_contexts()
    }

    pub fn from(opts: &'a RepositoryOptions) -> (res: Self)
        requires
            opts.ready(),
        ensures
            res.made_from(opts),
    {
        PersistEventsFn {
            id: opts.id(),
            event: opts.event(),
            error: opts.modify_error(),
            events_table_name: opts.events_table_name(),
            event_ctx: opts.event_context_enabled(),
        }
    }

    /// Appends the functions.
    pub fn to_tokens(&self, tokens: &mut String)
        ensures
            final(tokens)@ == old(tokens)@ + self.code(),
    {
        proof {
            reveal(PersistEventsFn::code);
        }
        let context = if self.event_ctx {
            ", context"
        } else {
            ""
        };
        let query = copy_query(self.events_table_name, context);
        let code = persist_events_fns(
            self.error.as_str(),
            self.event,
            quote(query.as_str()).as_str(),
            if self.event_ctx {
                SEND_EVENTS_WITH_CONTEXTS
            } else {
                SEND_EVENTS
            },
        );
        tokens.append(code.as_str());
    }
}

} // verus!
