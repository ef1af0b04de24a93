//! The functions that forget what can be forgotten of an entity, and those that
//! check that it was.

use vstd::prelude::*;
use vstd::string::*;

use crate::delete_fn::payload_delete_query;
use crate::error_classifier::concurrent_modification_classifier;
use crate::events_write::{EventSource, EventsInsert};
use crate::options::columns::Pick;
use crate::options::repository::{NestedFn, RepositoryOptions};
use crate::text::{
    end_each, ended, given, in_order, in_order_extended, join, joined, last_component, literal,
    occurs_extended, only_if, quote,
};
use crate::types::opt_str;

verus! {

/// The functions that forget what can be forgotten of an entity.
pub struct ForgetFn<'a> {
    pub id: &'a str,
    pub entity: &'a str,
    pub event: &'a str,
    pub error: String,
    pub table_name: &'a str,
    pub events_table_name: &'a str,
    pub event_ctx: bool,
    pub forgettable_table_name: &'a str,
    pub forgettable_columns: Vec<String>,
    /// The functions that forget what can be forgotten of the nested entities,
    /// which the repository has beside what is emitted.
    pub nested_forget_fn_names: Vec<String>,
    pub post_persist_error: Option<&'a str>,
}

/// The call that forgets what can be forgotten of the nested entities.
pub open spec fn forget_nested_code(f: Seq<char>, error: Seq<char>) -> Seq<char> {
    "Self::"@ + f + "::<_, _, "@ + error + ">(op, &entity).await?;"@
}

/// The call that forgets what can be forgotten of the nested entities.
fn forget_nested(f: &str, error: &str) -> (res: String)
    ensures
        res@ == forget_nested_code(f@, error@),
{
    "Self::".to_string().concat(f).concat("::<_, _, ").concat(error).concat(">(op, &entity).await?;")
}

/// Writes the staged events.
pub open spec fn persist_staged_code(error: Seq<char>) -> Seq<char> {
    "if entity.events().any_new() {
    Self::extract_concurrent_modification(
        self.persist_events(op, entity.events_mut()).await,
        "@ + error + "::ConcurrentModification,
    )?;
}"@
}

/// Writes the staged events.
fn persist_staged(error: &str) -> (res: String)
    ensures
        res@ == persist_staged_code(error@),
{
    "if entity.events().any_new() {
    Self::extract_concurrent_modification(
        self.persist_events(op, entity.events_mut()).await,
        ".to_string().concat(error).concat("::ConcurrentModification,
    )?;
}")
}

/// Writes the staged events, and counts them.
pub open spec fn persist_counted_code(error: Seq<char>) -> Seq<char> {
    "let n_events = if entity.events().any_new() {
    Self::extract_concurrent_modification(
        self.persist_events(op, entity.events_mut()).await,
        "@ + error + "::ConcurrentModification,
    )?
} else {
    0
};"@
}

/// Writes the staged events, and counts them.
fn persist_counted(error: &str) -> (res: String)
    ensures
        res@ == persist_counted_code(error@),
{
    "let n_events = if entity.events().any_new() {
    Self::extract_concurrent_modification(
        self.persist_events(op, entity.events_mut()).await,
        ".to_string().concat(error).concat("::ConcurrentModification,
    )?
} else {
    0
};")
}

/// The statement that sets the forgettable columns to NULL and writes the
/// staged events.
pub open spec fn combined_query_code(
    table: Seq<char>,
    set_clause: Seq<char>,
    insert: Seq<char>,
) -> Seq<char> {
    "WITH updated AS (UPDATE "@ + table + " SET "@ + set_clause + " WHERE id = $1 RETURNING id) "@ + insert
}

/// The statement that sets the forgettable columns to NULL and writes the
/// staged events.
fn combined_query(table: &str, set_clause: &str, insert: &str) -> (res: String)
    ensures
        res@ == combined_query_code(table@, set_clause@, insert@),
{
    "WITH updated AS (UPDATE ".to_string().concat(table).concat(" SET ").concat(set_clause).concat(" WHERE id = $1 RETURNING id) ").concat(insert)
}

/// Sets the forgettable columns to NULL and writes the staged events.
pub open spec fn persist_combined_code(
    gather: Seq<char>,
    query: Seq<char>,
    id_type: Seq<char>,
    event_args: Seq<char>,
    classifier: Seq<char>,
) -> Seq<char> {
    "let has_new_events = entity.events().any_new();
"@ + gather + "
let rows = {
    let id = &entity.id;
    sqlx::query!(
        "@ + query + ",
        id as &"@ + id_type + ",
        "@ + event_args + "
    )
    .fetch_all(op.as_executor())
    .await
    .map_err("@ + classifier + ")?
};"@
}

/// Sets the forgettable columns to NULL and writes the staged events.
fn persist_combined(
    gather: &str,
    query: &str,
    id_type: &str,
    event_args: &str,
    classifier: &str,
) -> (res: String)
    ensures
        res@ == persist_combined_code(gather@, query@, id_type@, event_args@, classifier@),
{
    "let has_new_events = entity.events().any_new();
".to_string().concat(gather).concat("
let rows = {
    let id = &entity.id;
    sqlx::query!(
        ").concat(query).concat(",
        id as &").concat(id_type).concat(",
        ").concat(event_args).concat("
    )
    .fetch_all(op.as_executor())
    .await
    .map_err(").concat(classifier).concat(")?
};")
}

/// The time at which the events were written. Without a row the entity is
/// gone.
pub open spec fn recorded_at_code(error: Seq<char>) -> Seq<char> {
    "let recorded_at = rows
    .first()
    .map(|row| row.recorded_at)
    .ok_or("@ + error + "::ConcurrentModification)?;"@
}

/// The time at which the events were written. Without a row the entity is
/// gone.
fn recorded_at(error: &str) -> (res: String)
    ensures
        res@ == recorded_at_code(error@),
{
    "let recorded_at = rows
    .first()
    .map(|row| row.recorded_at)
    .ok_or(".to_string().concat(error).concat("::ConcurrentModification)?;")
}

/// Marks the events as written, and counts them.
pub open spec fn mark_counted_code(recorded_at: Seq<char>) -> Seq<char> {
    "let n_events = if has_new_events {
    "@ + recorded_at + "
    entity.events_mut().mark_new_events_persisted_at(recorded_at)
} else {
    0
};"@
}

/// Marks the events as written, and counts them.
fn mark_counted(recorded_at: &str) -> (res: String)
    ensures
        res@ == mark_counted_code(recorded_at@),
{
    "let n_events = if has_new_events {
    ".to_string().concat(recorded_at).concat("
    entity.events_mut().mark_new_events_persisted_at(recorded_at)
} else {
    0
};")
}

/// Marks the events as written.
pub open spec fn mark_persisted_code(recorded_at: Seq<char>) -> Seq<char> {
    "if has_new_events {
    "@ + recorded_at + "
    entity.events_mut().mark_new_events_persisted_at(recorded_at);
}"@
}

/// Marks the events as written.
fn mark_persisted(recorded_at: &str) -> (res: String)
    ensures
        res@ == mark_persisted_code(recorded_at@),
{
    "if has_new_events {
    ".to_string().concat(recorded_at).concat("
    entity.events_mut().mark_new_events_persisted_at(recorded_at);
}")
}

/// Runs the hook for the events that were written.
pub open spec fn forget_hook_code(error: Seq<char>) -> Seq<char> {
    "if n_events > 0 {
    self.execute_post_persist_hook(
        op,
        &entity,
        entity.events().last_persisted(n_events)
    ).await.map_err("@ + error + "::PostPersistHookError)?;
}"@
}

/// Runs the hook for the events that were written.
fn forget_hook(error: &str) -> (res: String)
    ensures
        res@ == forget_hook_code(error@),
{
    "if n_events > 0 {
    self.execute_post_persist_hook(
        op,
        &entity,
        entity.events().last_persisted(n_events)
    ).await.map_err(".to_string().concat(error).concat("::PostPersistHookError)?;
}")
}

/// What makes the entity anew of its events.
pub const REBUILD: &'static str = "es_entity::TryFromEvents::try_from_events(events)?";

/// The functions that forget.
pub open spec fn forget_fns_code(
    entity_type: Seq<char>,
    error: Seq<char>,
    persist_staged: Seq<char>,
    nested_forgets: Seq<char>,
    query: Seq<char>,
    id_type: Seq<char>,
    count_persisted: Seq<char>,
    event_type: Seq<char>,
    rebuild: Seq<char>,
    post_persist_check: Seq<char>,
) -> Seq<char> {
    "/// Permanently forgets the entity's forgettable data. Consumes the
/// entity and returns the rebuilt (forgotten) entity. On any error
/// the potentially-inconsistent copy is dropped — reload and retry.
pub async fn forget(
    &self,
    entity: "@ + entity_type + "
) -> Result<"@ + entity_type + ", "@ + error + "> {
    let mut op = self.begin_op().await?;
    let entity = self.forget_in_op(&mut op, entity).await?;
    op.commit().await?;
    Ok(entity)
}
/// Permanently forgets the entity's forgettable data — all in one
/// transaction: persists any staged (unpersisted) events, deletes
/// all payload rows, NULLs forgettable index columns, and rebuilds
/// the entity from the drained events.
///
/// Descends into every nested field's direct children too,
/// mirroring `delete`'s own cascade: each child's forgettable
/// payloads and index columns are scrubbed by parent id, the same
/// way `delete` cascades its soft-delete flag. This does **not**
/// replay or persist a child's own staged events — only `update`
/// does that — so a child event staged before calling `forget` on
/// its parent is left unpersisted, exactly as it would be if
/// `forget` were never called.
///
/// Consumes the entity by value and returns the rebuilt (forgotten)
/// entity; on any error the consumed copy is dropped, so no
/// half-mutated entity can survive a failed erasure.
///
/// Staged events are persisted **before** the payload delete:
/// payload rows their persistence inserts are hard-deleted in the
/// same transaction, so a staged event can never smuggle a raw
/// forgettable value past the erasure. Persisting them also
/// consumes sequence numbers — the concurrency fence. By
/// convention, stage a domain erasure event (e.g. an empty
/// `Forgot {}`) before calling `forget`: stale copies that
/// `update()` afterwards then fail with `ConcurrentModification`,
/// and the erasure is recorded in the event stream. **Without a
/// staged event no sequence is consumed and a stale writer can
/// re-persist the forgotten data** — see the book chapter.
///
/// `forget` itself can fail with `ConcurrentModification` if
/// another writer got there first — reload and re-forget (repeat
/// forgets are legitimate).
///
/// If the repository configures a `post_persist_hook`, it runs for
/// the staged events persisted by this call — exactly once, after
/// the payload delete and entity rebuild, so the hook observes the
/// forgotten representation (never the raw payloads being erased)
/// while still running inside the erasure transaction. When no
/// staged events are persisted the hook is not invoked, matching
/// `update`'s no-op semantics.
pub async fn forget_in_op<OP>(
    &self,
    op: &mut OP,
    mut entity: "@ + entity_type + "
) -> Result<"@ + entity_type + ", "@ + error + ">
where
    OP: es_entity::AtomicOperation
{
    "@ + persist_staged + "
    "@ + nested_forgets + "
    {
        let id = &entity.id;
        sqlx::query!(
            "@ + query + ",
            id as &"@ + id_type + "
        )
        .execute(op.as_executor())
        .await?;
    }
    "@ + count_persisted + "
    let events = entity.events_mut().forget_and_take(
        "@ + event_type + "::forget_forgettable_payloads
    );
    let entity: "@ + entity_type + " = "@ + rebuild + ";
    "@ + post_persist_check + "
    Ok(entity)
}"@
}

/// The functions that forget.
pub fn forget_fns(
    entity_type: &str,
    error: &str,
    persist_staged: &str,
    nested_forgets: &str,
    query: &str,
    id_type: &str,
    count_persisted: &str,
    event_type: &str,
    rebuild: &str,
    post_persist_check: &str,
) -> (res: String)
    ensures
        res@ == forget_fns_code(
            entity_type@,
            error@,
            persist_staged@,
            nested_forgets@,
            query@,
            id_type@,
            count_persisted@,
            event_type@,
            rebuild@,
            post_persist_check@,
        ),
{
    "/// Permanently forgets the entity's forgettable data. Consumes the
/// entity and returns the rebuilt (forgotten) entity. On any error
/// the potentially-inconsistent copy is dropped — reload and retry.
pub async fn forget(
    &self,
    entity: ".to_string().concat(entity_type).concat("
) -> Result<").concat(entity_type).concat(", ").concat(error).concat("> {
    let mut op = self.begin_op().await?;
    let entity = self.forget_in_op(&mut op, entity).await?;
    op.commit().await?;
    Ok(entity)
}
/// Permanently forgets the entity's forgettable data — all in one
/// transaction: persists any staged (unpersisted) events, deletes
/// all payload rows, NULLs forgettable index columns, and rebuilds
/// the entity from the drained events.
///
/// Descends into every nested field's direct children too,
/// mirroring `delete`'s own cascade: each child's forgettable
/// payloads and index columns are scrubbed by parent id, the same
/// way `delete` cascades its soft-delete flag. This does **not**
/// replay or persist a child's own staged events — only `update`
/// does that — so a child event staged before calling `forget` on
/// its parent is left unpersisted, exactly as it would be if
/// `forget` were never called.
///
/// Consumes the entity by value and returns the rebuilt (forgotten)
/// entity; on any error the consumed copy is dropped, so no
/// half-mutated entity can survive a failed erasure.
///
/// Staged events are persisted **before** the payload delete:
/// payload rows their persistence inserts are hard-deleted in the
/// same transaction, so a staged event can never smuggle a raw
/// forgettable value past the erasure. Persisting them also
/// consumes sequence numbers — the concurrency fence. By
/// convention, stage a domain erasure event (e.g. an empty
/// `Forgot {}`) before calling `forget`: stale copies that
/// `update()` afterwards then fail with `ConcurrentModification`,
/// and the erasure is recorded in the event stream. **Without a
/// staged event no sequence is consumed and a stale writer can
/// re-persist the forgotten data** — see the book chapter.
///
/// `forget` itself can fail with `ConcurrentModification` if
/// another writer got there first — reload and re-forget (repeat
/// forgets are legitimate).
///
/// If the repository configures a `post_persist_hook`, it runs for
/// the staged events persisted by this call — exactly once, after
/// the payload delete and entity rebuild, so the hook observes the
/// forgotten representation (never the raw payloads being erased)
/// while still running inside the erasure transaction. When no
/// staged events are persisted the hook is not invoked, matching
/// `update`'s no-op semantics.
pub async fn forget_in_op<OP>(
    &self,
    op: &mut OP,
    mut entity: ").concat(entity_type).concat("
) -> Result<").concat(entity_type).concat(", ").concat(error).concat(">
where
    OP: es_entity::AtomicOperation
{
    ").concat(persist_staged).concat("
    ").concat(nested_forgets).concat("
    {
        let id = &entity.id;
        sqlx::query!(
            ").concat(query).concat(",
            id as &").concat(id_type).concat("
        )
        .execute(op.as_executor())
        .await?;
    }
    ").concat(count_persisted).concat("
    let events = entity.events_mut().forget_and_take(
        ").concat(event_type).concat("::forget_forgettable_payloads
    );
    let entity: ").concat(entity_type).concat(" = ").concat(rebuild).concat(";
    ").concat(post_persist_check).concat("
    Ok(entity)
}")
}

/// The query for the number of payloads.
pub open spec fn payload_count_query_code(table: Seq<char>) -> Seq<char> {
    "SELECT COUNT(*) AS \"count!\" FROM "@ + table + " WHERE entity_id = $1"@
}

/// The query for the number of payloads.
fn payload_count_query(table: &str) -> (res: String)
    ensures
        res@ == payload_count_query_code(table@),
{
    "SELECT COUNT(*) AS \"count!\" FROM ".to_string().concat(table).concat(" WHERE entity_id = $1")
}

/// The query for the fields of events that can be forgotten and hold a value.
pub open spec fn event_fields_query_code(table: Seq<char>) -> Seq<char> {
    "SELECT DISTINCT e.event_type AS \"event_type!\", f.field AS \"field!\" FROM "@ + table + " e JOIN (SELECT UNNEST($2::text[]) AS event_type, UNNEST($3::text[]) AS field) f ON e.event_type = f.event_type WHERE e.id = $1 AND e.event -> f.field IS NOT NULL AND e.event -> f.field != 'null'::jsonb"@
}

/// The query for the fields of events that can be forgotten and hold a value.
fn event_fields_query(table: &str) -> (res: String)
    ensures
        res@ == event_fields_query_code(table@),
{
    "SELECT DISTINCT e.event_type AS \"event_type!\", f.field AS \"field!\" FROM ".to_string().concat(table).concat(" e JOIN (SELECT UNNEST($2::text[]) AS event_type, UNNEST($3::text[]) AS field) f ON e.event_type = f.event_type WHERE e.id = $1 AND e.event -> f.field IS NOT NULL AND e.event -> f.field != 'null'::jsonb")
}

/// The query for the columns that hold a value.
pub open spec fn columns_query_code(selects: Seq<char>, table: Seq<char>) -> Seq<char> {
    "SELECT "@ + selects + " FROM "@ + table + " WHERE id = $1"@
}

/// The query for the columns that hold a value.
fn columns_query(selects: &str, table: &str) -> (res: String)
    ensures
        res@ == columns_query_code(selects@, table@),
{
    "SELECT ".to_string().concat(selects).concat(" FROM ").concat(table).concat(" WHERE id = $1")
}

/// Notes a column that holds a value.
pub open spec fn column_check_code(c: Seq<char>, name: Seq<char>) -> Seq<char> {
    "if row."@ + c + " {
    remnants.live_index_columns.push("@ + name + ");
}"@
}

/// Notes a column that holds a value.
fn column_check(c: &str, name: &str) -> (res: String)
    ensures
        res@ == column_check_code(c@, name@),
{
    "if row.".to_string().concat(c).concat(" {
    remnants.live_index_columns.push(").concat(name).concat(");
}")
}

/// Notes the columns that hold a value.
pub open spec fn check_columns_code(
    query: Seq<char>,
    id_type: Seq<char>,
    column_checks: Seq<char>,
) -> Seq<char> {
    "if let Some(row) = sqlx::query!(
    "@ + query + ",
    id as &"@ + id_type + "
)
.fetch_optional(op.as_executor())
.await?
{
    "@ + column_checks + "
}"@
}

/// Notes the columns that hold a value.
fn check_columns(query: &str, id_type: &str, column_checks: &str) -> (res: String)
    ensures
        res@ == check_columns_code(query@, id_type@, column_checks@),
{
    "if let Some(row) = sqlx::query!(
    ".to_string().concat(query).concat(",
    id as &").concat(id_type).concat("
)
.fetch_optional(op.as_executor())
.await?
{
    ").concat(column_checks).concat("
}")
}

/// The functions that check that an entity was forgotten.
pub open spec fn verify_fns_code(
    id_type: Seq<char>,
    error: Seq<char>,
    payload_count_query: Seq<char>,
    check_columns: Seq<char>,
    event_type: Seq<char>,
    event_fields_query: Seq<char>,
) -> Seq<char> {
    "/// Verifies at the **storage level** that all configured
/// forgettable data for `id` is physically absent — i.e. that
/// `forget()` has fully taken effect. Unlike inspecting a hydrated
/// entity (which merely reads back as forgotten), this checks the
/// database directly:
///
/// 1. no rows remain in the forgettable payloads table,
/// 2. all `Forgettable<..>` index columns are NULL, and
/// 3. no forgettable field holds a non-null value in the durable
///    event JSON (defense-in-depth: the framework always writes
///    `null` there, so a hit indicates out-of-band writes).
///
/// Returns `Err(NotForgotten(remnants))` describing anything still
/// present. An entity that was never persisted verifies trivially.
pub async fn verify_forgotten(
    &self,
    id: impl std::borrow::Borrow<"@ + id_type + ">
) -> Result<(), "@ + error + "> {
    let mut op = self.begin_op().await?;
    let res = self.verify_forgotten_in_op(&mut op, id).await?;
    op.commit().await?;
    Ok(res)
}
/// Same as [`Self::verify_forgotten`] but runs on an existing
/// operation, so the check can share the erasure (or a follow-up)
/// transaction.
pub async fn verify_forgotten_in_op<OP>(
    &self,
    op: &mut OP,
    id: impl std::borrow::Borrow<"@ + id_type + ">
) -> Result<(), "@ + error + ">
where
    OP: es_entity::AtomicOperation
{
    let id = id.borrow();
    let mut remnants = es_entity::ForgettableRemnants::default();
    let payload_rows = sqlx::query!(
        "@ + payload_count_query + ",
        id as &"@ + id_type + "
    )
    .fetch_one(op.as_executor())
    .await?
    .count;
    remnants.payload_rows = payload_rows as usize;
    "@ + check_columns + "
    let event_types: Vec<String> = "@ + event_type + "::FORGETTABLE_JSON_FIELDS
        .iter()
        .map(|(t, _)| t.to_string())
        .collect();
    let fields: Vec<String> = "@ + event_type + "::FORGETTABLE_JSON_FIELDS
        .iter()
        .map(|(_, f)| f.to_string())
        .collect();
    let rows = sqlx::query!(
        "@ + event_fields_query + ",
        id as &"@ + id_type + ",
        &event_types[..],
        &fields[..]
    )
    .fetch_all(op.as_executor())
    .await?;
    remnants.event_fields = rows
        .into_iter()
        .map(|r| (r.event_type, r.field))
        .collect();
    if remnants.is_empty() {
        Ok(())
    } else {
        Err("@ + error + "::NotForgotten(remnants))
    }
}"@
}

/// The functions that check that an entity was forgotten.
pub fn verify_fns(
    id_type: &str,
    error: &str,
    payload_count_query: &str,
    check_columns: &str,
    event_type: &str,
    event_fields_query: &str,
) -> (res: String)
    ensures
        res@ == verify_fns_code(
            id_type@,
            error@,
            payload_count_query@,
            check_columns@,
            event_type@,
            event_fields_query@,
        ),
{
    "/// Verifies at the **storage level** that all configured
/// forgettable data for `id` is physically absent — i.e. that
/// `forget()` has fully taken effect. Unlike inspecting a hydrated
/// entity (which merely reads back as forgotten), this checks the
/// database directly:
///
/// 1. no rows remain in the forgettable payloads table,
/// 2. all `Forgettable<..>` index columns are NULL, and
/// 3. no forgettable field holds a non-null value in the durable
///    event JSON (defense-in-depth: the framework always writes
///    `null` there, so a hit indicates out-of-band writes).
///
/// Returns `Err(NotForgotten(remnants))` describing anything still
/// present. An entity that was never persisted verifies trivially.
pub async fn verify_forgotten(
    &self,
    id: impl std::borrow::Borrow<".to_string().concat(id_type).concat(">
) -> Result<(), ").concat(error).concat("> {
    let mut op = self.begin_op().await?;
    let res = self.verify_forgotten_in_op(&mut op, id).await?;
    op.commit().await?;
    Ok(res)
}
/// Same as [`Self::verify_forgotten`] but runs on an existing
/// operation, so the check can share the erasure (or a follow-up)
/// transaction.
pub async fn verify_forgotten_in_op<OP>(
    &self,
    op: &mut OP,
    id: impl std::borrow::Borrow<").concat(id_type).concat(">
) -> Result<(), ").concat(error).concat(">
where
    OP: es_entity::AtomicOperation
{
    let id = id.borrow();
    let mut remnants = es_entity::ForgettableRemnants::default();
    let payload_rows = sqlx::query!(
        ").concat(payload_count_query).concat(",
        id as &").concat(id_type).concat("
    )
    .fetch_one(op.as_executor())
    .await?
    .count;
    remnants.payload_rows = payload_rows as usize;
    ").concat(check_columns).concat("
    let event_types: Vec<String> = ").concat(event_type).concat("::FORGETTABLE_JSON_FIELDS
        .iter()
        .map(|(t, _)| t.to_string())
        .collect();
    let fields: Vec<String> = ").concat(event_type).concat("::FORGETTABLE_JSON_FIELDS
        .iter()
        .map(|(_, f)| f.to_string())
        .collect();
    let rows = sqlx::query!(
        ").concat(event_fields_query).concat(",
        id as &").concat(id_type).concat(",
        &event_types[..],
        &fields[..]
    )
    .fetch_all(op.as_executor())
    .await?;
    remnants.event_fields = rows
        .into_iter()
        .map(|r| (r.event_type, r.field))
        .collect();
    if remnants.is_empty() {
        Ok(())
    } else {
        Err(").concat(error).concat("::NotForgotten(remnants))
    }
}")
}

/// The calls that forget what can be forgotten of the nested entities.
pub open spec fn forget_nested_calls(names: Seq<Seq<char>>, error: Seq<char>) -> Seq<Seq<char>> {
    Seq::new(names.len(), |i: int| forget_nested_code(names[i], error))
}

/// The columns, each set to NULL.
pub open spec fn set_null(names: Seq<Seq<char>>) -> Seq<Seq<char>> {
    Seq::new(names.len(), |i: int| names[i] + " = NULL"@)
}

/// The columns, each asked whether it holds a value.
pub open spec fn not_null_selects(names: Seq<Seq<char>>) -> Seq<Seq<char>> {
    Seq::new(names.len(), |i: int| names[i] + " IS NOT NULL AS \""@ + names[i] + "!\""@)
}

/// What notes each of the columns.
pub open spec fn column_checks(names: Seq<Seq<char>>) -> Seq<Seq<char>> {
    Seq::new(names.len(), |i: int| column_check_code(names[i], literal(names[i])))
}

impl<'a> ForgetFn<'a> {
    pub open spec fn insert(&self) -> EventsInsert<'a> {
        EventsInsert { events_table: self.events_table_name, event_ctx: self.event_ctx }
    }

    /// The events belong to the row that the statement updates, and follow
    /// those that were written before.
    pub open spec fn source(&self) -> EventSource<'static> {
        EventSource::PerEntityCte { cte: "updated", offset_param: Some(3) }
    }

    /// The statement that sets the forgettable columns to NULL and writes the
    /// staged events.
    pub open spec fn combined(&self) -> Seq<char> {
        combined_query_code(
            self.table_name@,
            joined(set_null(self.forgettable_columns.deep_view()), ", "@),
            self.insert().statement(&self.source(), 2, 4),
        )
    }

    /// What writes the staged events.
    pub open spec fn persist(&self) -> Seq<char> {
        if self.forgettable_columns.len() == 0 {
            if self.post_persist_error is Some {
                persist_counted_code(self.error@)
            } else {
                persist_staged_code(self.error@)
            }
        } else {
            persist_combined_code(
                crate::events_write::gather_events_code(
                    "entity.events()"@,
                    only_if(
                        self.event_ctx,
                        crate::events_write::bind_contexts_code("entity.events()"@),
                    ),
                ),
                literal(self.combined()),
                self.id@,
                joined(self.insert().args(&self.source()), ", "@),
                crate::error_classifier::concurrent_modification_match_code(
                    literal(last_component(self.events_table_name@)),
                    self.error@,
                ),
            )
        }
    }

    /// What marks the events as written, where writing them did not.
    pub open spec fn mark(&self) -> Seq<char> {
        if self.forgettable_columns.len() == 0 {
            Seq::empty()
        } else if self.post_persist_error is Some {
            mark_counted_code(recorded_at_code(self.error@))
        } else {
            mark_persisted_code(recorded_at_code(self.error@))
        }
    }

    /// What forgets what can be forgotten of the nested entities.
    pub open spec fn nested(&self) -> Seq<char> {
        ended(
            forget_nested_calls(self.nested_forget_fn_names.deep_view(), self.error@),
            "\n"@,
        )
    }

    /// What runs the hook.
    pub open spec fn hook(&self) -> Seq<char> {
        only_if(self.post_persist_error is Some, forget_hook_code(self.error@))
    }

    /// The functions that forget.
    pub open spec fn forget_code(&self) -> Seq<char> {
        forget_fns_code(
            self.entity@,
            self.error@,
            self.persist(),
            self.nested(),
            literal(crate::delete_fn::payload_delete_query_code(self.forgettable_table_name@)),
            self.id@,
            self.mark(),
            self.event@,
            REBUILD@,
            self.hook(),
        )
    }

    /// What notes the columns that hold a value.
    pub open spec fn columns_check(&self) -> Seq<char> {
        only_if(
            self.forgettable_columns.len() > 0,
            check_columns_code(
                literal(
                    columns_query_code(
                        joined(not_null_selects(self.forgettable_columns.deep_view()), ", "@),
                        self.table_name@,
                    ),
                ),
                self.id@,
                ended(column_checks(self.forgettable_columns.deep_view()), "\n"@),
            ),
        )
    }

    /// The functions that check that an entity was forgotten.
    pub open spec fn verify_code(&self) -> Seq<char> {
        verify_fns_code(
            self.id@,
            self.error@,
            literal(payload_count_query_code(self.forgettable_table_name@)),
            self.columns_check(),
            self.event@,
            literal(event_fields_query_code(self.events_table_name@)),
        )
    }

    /// The functions.
    #[verifier::opaque]
    pub open spec fn code(&self) -> Seq<char> {
        self.forget_code() + "\n"@ + self.verify_code()
    }

    /// Whether this is what the options of a repository ask for.
    pub open spec fn made_from(&self, opts: &RepositoryOptions) -> bool {
        &&& self.id@ == opts.id_text()
        &&& self.entity@ == opts.entity_ident@
        &&& self.event@ == opts.event_text()
        &&& self.error@ == opts.entity_ident@ + "ForgetError"@
        &&& self.table_name@ == opts.table_text()
        &&& self.events_table_name@ == opts.events_table_text()
        &&& self.event_ctx == opts.writes_contexts()
        &&& Some(self.forgettable_table_name@) == opts.forgettable_table()
        &&& self.forgettable_columns.deep_view() == opts.columns.names(Pick::Forgettable)
        &&& self.nested_forget_fn_names.deep_view() == opts.nested_names(NestedFn::Forget)
        &&& opt_str(self.post_persist_error) == opts.persist_error()
    }

    /// The functions for a repository whose payloads can be forgotten.
    pub fn from(opts: &'a RepositoryOptions) -> (res: Self)
        requires
            opts.ready(),
            opts.is_struct(),
            opts.forgettable,
        ensures
            res.made_from(opts),
    {
        ForgetFn {
            id: opts.id(),
            entity: opts.entity(),
            event: opts.event(),
            error: opts.forget_error(),
            table_name: opts.table_name(),
            events_table_name: opts.events_table_name(),
            event_ctx: opts.event_context_enabled(),
            forgettable_table_name: match opts.forgettable_table_name() {
                Some(table) => table,
                None => "",
            },
            forgettable_columns: opts.columns.forgettable_column_names(),
            nested_forget_fn_names: opts.nested_fn_names(NestedFn::Forget),
            post_persist_error: opts.post_persist_error(),
        }
    }

    fn nested_text(&self) -> (res: String)
        ensures
            res@ == self.nested(),
    {
        let mut calls: Vec<String> = Vec::new();
        let mut i: usize = 0;
        while i < self.nested_forget_fn_names.len()
            invariant
                i <= self.nested_forget_fn_names.len(),
                calls.len() == i,
                forall|j: int|
                    0 <= j < i ==> (#[trigger] calls@[j])@ == forget_nested_code(
                        self.nested_forget_fn_names@[j]@,
                        self.error@,
                    ),
            decreases self.nested_forget_fn_names.len() - i,
        {
            calls.push(
                forget_nested(self.nested_forget_fn_names[i].as_str(), self.error.as_str()),
            );
            i = i + 1;
        }
        assert(calls.deep_view() =~= forget_nested_calls(
            self.nested_forget_fn_names.deep_view(),
            self.error@,
        ));
        end_each(&calls, "\n")
    }

    fn combined_text(&self) -> (res: String)
        ensures
            res@ == self.combined(),
    {
        let mut nulls: Vec<String> = Vec::new();
        let mut i: usize = 0;
        while i < self.forgettable_columns.len()
            invariant
                i <= self.forgettable_columns.len(),
                nulls.len() == i,
                forall|j: int|
                    0 <= j < i ==> (#[trigger] nulls@[j])@ == self.forgettable_columns@[j]@
                        + " = NULL"@,
            decreases self.forgettable_columns.len() - i,
        {
            nulls.push(self.forgettable_columns[i].clone().concat(" = NULL"));
            i = i + 1;
        }
        assert(nulls.deep_view() =~= set_null(self.forgettable_columns.deep_view()));
        let insert = EventsInsert::new(self.events_table_name, self.event_ctx);
        let source = EventSource::PerEntityCte { cte: "updated", offset_param: Some(3) };
        combined_query(
            self.table_name,
            join(&nulls, ", ").as_str(),
            insert.sql(&source, 2, 4).as_str(),
        )
    }

    fn persist_text(&self) -> (res: String)
        ensures
            res@ == self.persist(),
    {
        let error = self.error.as_str();
        if self.forgettable_columns.len() == 0 {
            if self.post_persist_error.is_some() {
                persist_counted(error)
            } else {
                persist_staged(error)
            }
        } else {
            let insert = EventsInsert::new(self.events_table_name, self.event_ctx);
            let source = EventSource::PerEntityCte { cte: "updated", offset_param: Some(3) };
            persist_combined(
                insert.gather_per_entity("entity.events()").as_str(),
                quote(self.combined_text().as_str()).as_str(),
                self.id,
                join(&insert.arg_exprs(&source), ", ").as_str(),
                concurrent_modification_classifier(error, self.events_table_name).as_str(),
            )
        }
    }

    fn mark_text(&self) -> (res: String)
        ensures
            res@ == self.mark(),
    {
        if self.forgettable_columns.len() == 0 {
            return String::new();
        }
        let recorded = recorded_at(self.error.as_str());
        if self.post_persist_error.is_some() {
            mark_counted(recorded.as_str())
        } else {
            mark_persisted(recorded.as_str())
        }
    }

    fn columns_check_text(&self) -> (res: String)
        ensures
            res@ == self.columns_check(),
    {
        if self.forgettable_columns.len() == 0 {
            return String::new();
        }
        let mut selects: Vec<String> = Vec::new();
        let mut checks: Vec<String> = Vec::new();
        let mut i: usize = 0;
        while i < self.forgettable_columns.len()
            invariant
                i <= self.forgettable_columns.len(),
                selects.len() == i,
                checks.len() == i,
                forall|j: int|
                    0 <= j < i ==> (#[trigger] selects@[j])@ == not_null_selects(
                        self.forgettable_columns.deep_view(),
                    )[j],
                forall|j: int|
                    0 <= j < i ==> (#[trigger] checks@[j])@ == column_checks(
                        self.forgettable_columns.deep_view(),
                    )[j],
            decreases self.forgettable_columns.len() - i,
        {
            let c = self.forgettable_columns[i].as_str();
            assert(self.forgettable_columns.deep_view()[i as int] == c@);
            selects.push(c.to_string().concat(" IS NOT NULL AS \"").concat(c).concat("!\""));
            checks.push(column_check(c, quote(c).as_str()));
            i = i + 1;
        }
        assert(selects.deep_view() =~= not_null_selects(self.forgettable_columns.deep_view()));
        assert(checks.deep_view() =~= column_checks(self.forgettable_columns.deep_view()));
        let query = columns_query(join(&selects, ", ").as_str(), self.table_name);
        check_columns(
            quote(query.as_str()).as_str(),
            self.id,
            end_each(&checks, "\n").as_str(),
        )
    }

    /// Appends the functions that check that an entity was forgotten.
    pub fn verify_forgotten_tokens(&self, tokens: &mut String)
        ensures
            final(tokens)@ == old(tokens)@ + self.verify_code(),
    {
        let payload_count = payload_count_query(self.forgettable_table_name);
        let event_fields = event_fields_query(self.events_table_name);
        let code = verify_fns(
            self.id,
            self.error.as_str(),
            quote(payload_count.as_str()).as_str(),
            self.columns_check_text().as_str(),
            self.event,
            quote(event_fields.as_str()).as_str(),
        );
        tokens.append(code.as_str());
    }

    /// Appends the functions.
    pub fn to_tokens(&self, tokens: &mut String)
        ensures
            final(tokens)@ == old(tokens)@ + self.code(),
    {
        proof {
            reveal(ForgetFn::code);
        }
        let hook = forget_hook(self.error.as_str());
        let forget = forget_fns(
            self.entity,
            self.error.as_str(),
            self.persist_text().as_str(),
            self.nested_text().as_str(),
            quote(payload_delete_query(self.forgettable_table_name).as_str()).as_str(),
            self.id,
            self.mark_text().as_str(),
            self.event,
            REBUILD,
            given(self.post_persist_error.is_some(), hook.as_str()).as_str(),
        );
        let ghost before = tokens@;
        tokens.append(forget.as_str());
        tokens.append("\n");
        self.verify_forgotten_tokens(tokens);
        assert(tokens@ =~= before + self.code());
    }
}

/// In the code that forgets, the staged events are written and the nested
/// entities are forgotten before the payloads are deleted; the payloads are
/// deleted before the events are marked as written; and the hook runs after
/// the entity was made anew.
pub proof fn forget_order(f: &ForgetFn)
    ensures
        in_order(f.forget_code(), f.persist(), f.nested()),
        in_order(
            f.forget_code(),
            f.persist(),
            literal(crate::delete_fn::payload_delete_query_code(f.forgettable_table_name@)),
        ),
        in_order(
            f.forget_code(),
            f.nested(),
            literal(crate::delete_fn::payload_delete_query_code(f.forgettable_table_name@)),
        ),
        in_order(
            f.forget_code(),
            literal(crate::delete_fn::payload_delete_query_code(f.forgettable_table_name@)),
            f.mark(),
        ),
        in_order(f.forget_code(), f.mark(), REBUILD@),
        in_order(f.forget_code(), REBUILD@, f.hook()),
{
    broadcast use {in_order_extended, occurs_extended};

}

} // verus!
