//! The part of a write statement that inserts events, and what goes with it:
//! the gathering of the events, the payloads that can be forgotten, and the
//! snapshot.

use vstd::prelude::*;
use vstd::string::*;

use crate::placeholders::{
    inert, inert_before, inert_behind, inert_between, param_mentions_itself, placeholders,
    plain_mentions_none, unnumbered, unnumbered_mentions_none,
};
use crate::text::{
    join, joined, literal, occurs, occurs_behind, occurs_extended, only_if, param, param_text,
    quote,
};

verus! {

/// Where the ids and the sequences of the event rows come from.
#[allow(inconsistent_fields)]
pub enum EventSource<'a> {
    /// One entity whose id is a parameter.
    PerEntityStandalone { id_param: usize, offset_param: usize },
    /// One entity whose id comes from a common table expression of the same
    /// statement. Without an offset the sequences start at one.
    PerEntityCte { cte: &'a str, offset_param: Option<usize> },
    /// Several entities, whose ids and sequences are arrays.
    BatchStandalone,
    /// Several entities, joined with a common table expression of the same
    /// statement.
    BatchCte { cte: &'a str },
}

impl<'a> EventSource<'a> {
    pub open spec fn batch(&self) -> bool {
        self is BatchStandalone || self is BatchCte
    }

    /// The parameter of the sequence that the new events follow.
    pub open spec fn offset(&self) -> Option<nat> {
        match self {
            EventSource::PerEntityStandalone { offset_param, .. } => Some(*offset_param as nat),
            EventSource::PerEntityCte { offset_param, .. } => match offset_param {
                Some(p) => Some(*p as nat),
                None => None,
            },
            _ => None,
        }
    }

    /// The expression for the id of an event row.
    pub open spec fn id_expr(&self) -> Seq<char> {
        match self {
            EventSource::PerEntityStandalone { id_param, .. } => param(*id_param as nat),
            EventSource::PerEntityCte { cte, .. } => cte@ + ".id"@,
            _ => "unnested.id"@,
        }
    }

    /// The expression for the sequence of an event row.
    pub open spec fn sequence_expr(&self) -> Seq<char> {
        if self.batch() {
            "unnested.sequence"@
        } else {
            match self.offset() {
                Some(p) => "ROW_NUMBER() OVER () + "@ + param(p),
                None => "ROW_NUMBER() OVER ()"@,
            }
        }
    }

    /// Whether the events of several entities are written.
    pub fn is_batch(&self) -> (res: bool)
        ensures
            res == self.batch(),
    {
        match self {
            EventSource::BatchStandalone | EventSource::BatchCte { .. } => true,
            _ => false,
        }
    }
}

/// The insert of events into the table `events_table`.
pub struct EventsInsert<'a> {
    pub events_table: &'a str,
    /// Whether each event is written with its context.
    pub event_ctx: bool,
}

/// The statement that inserts the rows of `from_clause` into the events table.
pub open spec fn insert_events_code(
    table: Seq<char>,
    ctx_col: Seq<char>,
    id_expr: Seq<char>,
    now: Seq<char>,
    sequence_expr: Seq<char>,
    ctx_sel: Seq<char>,
    from_clause: Seq<char>,
) -> Seq<char> {
    "INSERT INTO "@ + table + " (id, recorded_at, sequence, event_type, event"@ + ctx_col + ") SELECT "@ + id_expr + ", COALESCE("@ + now + ", NOW()), "@ + sequence_expr + ", unnested.event_type, unnested.event"@ + ctx_sel + " "@ + from_clause + " RETURNING recorded_at"@
}

/// The statement that inserts the rows of `from_clause` into the events table.
fn insert_events(
    table: &str,
    ctx_col: &str,
    id_expr: &str,
    now: &str,
    sequence_expr: &str,
    ctx_sel: &str,
    from_clause: &str,
) -> (res: String)
    ensures
        res@ == insert_events_code(
            table@,
            ctx_col@,
            id_expr@,
            now@,
            sequence_expr@,
            ctx_sel@,
            from_clause@,
        ),
{
    "INSERT INTO ".to_string().concat(table).concat(" (id, recorded_at, sequence, event_type, event").concat(ctx_col).concat(") SELECT ").concat(id_expr).concat(", COALESCE(").concat(now).concat(", NOW()), ").concat(sequence_expr).concat(", unnested.event_type, unnested.event").concat(ctx_sel).concat(" ").concat(from_clause).concat(" RETURNING recorded_at")
}

/// The rows of one entity's events.
pub open spec fn unnest_events_code(
    source: Seq<char>,
    types: Seq<char>,
    events: Seq<char>,
    ctx_unnest: Seq<char>,
    ctx_col: Seq<char>,
) -> Seq<char> {
    "FROM "@ + source + "UNNEST("@ + types + "::TEXT[], "@ + events + "::JSONB[]"@ + ctx_unnest + ") AS unnested(event_type, event"@ + ctx_col + ")"@
}

/// The rows of one entity's events.
fn unnest_events(
    source: &str,
    types: &str,
    events: &str,
    ctx_unnest: &str,
    ctx_col: &str,
) -> (res: String)
    ensures
        res@ == unnest_events_code(source@, types@, events@, ctx_unnest@, ctx_col@),
{
    "FROM ".to_string().concat(source).concat("UNNEST(").concat(types).concat("::TEXT[], ").concat(events).concat("::JSONB[]").concat(ctx_unnest).concat(") AS unnested(event_type, event").concat(ctx_col).concat(")")
}

/// The rows of several entities' events.
pub open spec fn unnest_batch_code(
    ids: Seq<char>,
    sequences: Seq<char>,
    types: Seq<char>,
    events: Seq<char>,
    ctx_unnest: Seq<char>,
    ctx_col: Seq<char>,
    join: Seq<char>,
) -> Seq<char> {
    "FROM UNNEST("@ + ids + ", "@ + sequences + "::INT[], "@ + types + "::TEXT[], "@ + events + "::JSONB[]"@ + ctx_unnest + ") AS unnested(id, sequence, event_type, event"@ + ctx_col + ")"@ + join
}

/// The rows of several entities' events.
fn unnest_batch(
    ids: &str,
    sequences: &str,
    types: &str,
    events: &str,
    ctx_unnest: &str,
    ctx_col: &str,
    join: &str,
) -> (res: String)
    ensures
        res@ == unnest_batch_code(
            ids@,
            sequences@,
            types@,
            events@,
            ctx_unnest@,
            ctx_col@,
            join@,
        ),
{
    "FROM UNNEST(".to_string().concat(ids).concat(", ").concat(sequences).concat("::INT[], ").concat(types).concat("::TEXT[], ").concat(events).concat("::JSONB[]").concat(ctx_unnest).concat(") AS unnested(id, sequence, event_type, event").concat(ctx_col).concat(")").concat(join)
}

/// The bindings of one entity's new events.
pub open spec fn gather_events_code(events: Seq<char>, ctx_var: Seq<char>) -> Seq<char> {
    "let offset = "@ + events + ".len_persisted();
let events_types = "@ + events + ".new_event_types();
let serialized_events = "@ + events + ".serialize_new_events();
"@ + ctx_var
}

/// The bindings of one entity's new events.
fn gather_events(events: &str, ctx_var: &str) -> (res: String)
    ensures
        res@ == gather_events_code(events@, ctx_var@),
{
    "let offset = ".to_string().concat(events).concat(".len_persisted();
let events_types = ").concat(events).concat(".new_event_types();
let serialized_events = ").concat(events).concat(".serialize_new_events();
").concat(ctx_var)
}

/// The declarations of the arrays for several entities' new events.
pub open spec fn declare_batch_code(id_type: Seq<char>, ctx_var: Seq<char>) -> Seq<char> {
    "let mut all_ids: Vec<&"@ + id_type + "> = Vec::new();
let mut all_sequences: Vec<i32> = Vec::new();
let mut all_types = Vec::new();
let mut all_serialized = Vec::new();
"@ + ctx_var
}

/// The declarations of the arrays for several entities' new events.
fn declare_batch(id_type: &str, ctx_var: &str) -> (res: String)
    ensures
        res@ == declare_batch_code(id_type@, ctx_var@),
{
    "let mut all_ids: Vec<&".to_string().concat(id_type).concat("> = Vec::new();
let mut all_sequences: Vec<i32> = Vec::new();
let mut all_types = Vec::new();
let mut all_serialized = Vec::new();
").concat(ctx_var)
}

/// The statements that add one entity's new events to the arrays.
pub open spec fn extend_batch_code(
    events: Seq<char>,
    id: Seq<char>,
    ctx_extend: Seq<char>,
) -> Seq<char> {
    "let offset = "@ + events + ".len_persisted() + 1;
let types = "@ + events + ".new_event_types();
let serialized = "@ + events + ".serialize_new_events();
"@ + ctx_extend + "
let n_new = serialized.len();
all_types.extend(types);
all_serialized.extend(serialized);
all_ids.extend(std::iter::repeat("@ + id + ").take(n_new));
all_sequences.extend((offset..).take(n_new).map(|i| i as i32));"@
}

/// The statements that add one entity's new events to the arrays.
fn extend_batch(events: &str, id: &str, ctx_extend: &str) -> (res: String)
    ensures
        res@ == extend_batch_code(events@, id@, ctx_extend@),
{
    "let offset = ".to_string().concat(events).concat(".len_persisted() + 1;
let types = ").concat(events).concat(".new_event_types();
let serialized = ").concat(events).concat(".serialize_new_events();
").concat(ctx_extend).concat("
let n_new = serialized.len();
all_types.extend(types);
all_serialized.extend(serialized);
all_ids.extend(std::iter::repeat(").concat(id).concat(").take(n_new));
all_sequences.extend((offset..).take(n_new).map(|i| i as i32));")
}

/// The binding of the contexts of one entity's new events.
pub open spec fn bind_contexts_code(events: Seq<char>) -> Seq<char> {
    "let contexts = "@ + events + ".serialize_new_event_contexts();"@
}

/// The binding of the contexts of one entity's new events.
fn bind_contexts(events: &str) -> (res: String)
    ensures
        res@ == bind_contexts_code(events@),
{
    "let contexts = ".to_string().concat(events).concat(".serialize_new_event_contexts();")
}

/// The statement that adds the contexts of one entity's new events.
pub open spec fn extend_contexts_code(events: Seq<char>) -> Seq<char> {
    "if let Some(contexts) = "@ + events + ".serialize_new_event_contexts() {
    all_contexts.extend(contexts);
}"@
}

/// The statement that adds the contexts of one entity's new events.
fn extend_contexts(events: &str) -> (res: String)
    ensures
        res@ == extend_contexts_code(events@),
{
    "if let Some(contexts) = ".to_string().concat(events).concat(".serialize_new_event_contexts() {
    all_contexts.extend(contexts);
}")
}

/// The declaration of the array for several entities' contexts.
pub const DECLARE_CONTEXTS: &'static str = "let mut all_contexts: Vec<es_entity::ContextData> = Vec::new();";

/// The argument for several entities' contexts.
pub const BATCH_CONTEXTS_ARG: &'static str = "&if all_contexts.is_empty() {
    None
} else {
    Some(all_contexts)
}";

/// The argument for one entity's contexts.
pub const CONTEXTS_ARG: &'static str = "contexts.as_deref() as Option<&[es_entity::ContextData]>";

impl<'a> EventsInsert<'a> {
    pub open spec fn ctx_column(&self) -> Seq<char> {
        only_if(self.event_ctx, ", context"@)
    }

    /// The rows of one entity's events, the arrays from `$p` on.
    pub open spec fn per_entity_from(&self, p: nat, cte: Option<Seq<char>>) -> Seq<char> {
        unnest_events_code(
            match cte {
                Some(cte) => cte + " CROSS JOIN "@,
                None => Seq::empty(),
            },
            param(p),
            param(p + 1),
            only_if(self.event_ctx, ", "@ + param(p + 2) + "::JSONB[]"@),
            self.ctx_column(),
        )
    }

    /// The rows of several entities' events, the arrays from `$p` on.
    pub open spec fn batch_from(&self, p: nat, cte: Option<Seq<char>>) -> Seq<char> {
        unnest_batch_code(
            param(p),
            param(p + 1),
            param(p + 2),
            param(p + 3),
            only_if(self.event_ctx, ", "@ + param(p + 4) + "::JSONB[]"@),
            self.ctx_column(),
            match cte {
                Some(cte) => " JOIN "@ + cte + " ON "@ + cte + ".id = unnested.id"@,
                None => Seq::empty(),
            },
        )
    }

    /// The rows that are inserted, the arrays from `$p` on.
    pub open spec fn from_clause(&self, source: &EventSource, p: nat) -> Seq<char> {
        match source {
            EventSource::PerEntityStandalone { .. } => self.per_entity_from(p, None),
            EventSource::PerEntityCte { cte, .. } => self.per_entity_from(p, Some(cte@)),
            EventSource::BatchStandalone => self.batch_from(p, None),
            EventSource::BatchCte { cte } => self.batch_from(p, Some(cte@)),
        }
    }

    /// The insert of the events.
    pub open spec fn statement(&self, source: &EventSource, now: nat, p: nat) -> Seq<char> {
        insert_events_code(
            self.events_table@,
            self.ctx_column(),
            source.id_expr(),
            param(now),
            source.sequence_expr(),
            only_if(self.event_ctx, ", unnested.context"@),
            self.from_clause(source, p),
        )
    }

    /// The arguments of the insert, in the order of their parameters.
    pub open spec fn args(&self, source: &EventSource) -> Seq<Seq<char>> {
        let now = seq!["op.maybe_now()"@];
        if source.batch() {
            let arrays = now.push("&all_ids"@).push("&all_sequences"@).push("&all_types"@).push(
                "&all_serialized"@,
            );
            if self.event_ctx {
                arrays.push(BATCH_CONTEXTS_ARG@)
            } else {
                arrays
            }
        } else {
            let offset = if source.offset() is Some {
                now.push("offset as i32"@)
            } else {
                now
            };
            let arrays = offset.push("&events_types"@).push("&serialized_events"@);
            if self.event_ctx {
                arrays.push(CONTEXTS_ARG@)
            } else {
                arrays
            }
        }
    }

    /// The parameters that the arguments of the insert belong to.
    pub open spec fn arg_params(&self, source: &EventSource, now: nat, p: nat) -> Seq<nat> {
        let offset = match source.offset() {
            Some(o) => seq![now, o],
            None => seq![now],
        };
        let arrays = if source.batch() {
            offset.push(p).push(p + 1).push(p + 2).push(p + 3)
        } else {
            offset.push(p).push(p + 1)
        };
        if self.event_ctx {
            arrays.push(
                if source.batch() {
                    p + 4
                } else {
                    p + 2
                },
            )
        } else {
            arrays
        }
    }

    /// The insert of events into the table `events_table`.
    pub fn new(events_table: &'a str, event_ctx: bool) -> (res: Self)
        ensures
            res.events_table@ == events_table@,
            res.event_ctx == event_ctx,
    {
        EventsInsert { events_table, event_ctx }
    }

    fn ctx_col(&self) -> (res: &'static str)
        ensures
            res@ == self.ctx_column(),
    {
        if self.event_ctx {
            ", context"
        } else {
            assert(""@ =~= Seq::<char>::empty()) by {
                reveal_strlit("");
            }
            ""
        }
    }

    /// The statement that inserts the events. The parameter `$now_param` is
    /// the time, and the arrays are the parameters from `$first_array_param`
    /// on.
    pub fn sql(
        &self,
        source: &EventSource<'_>,
        now_param: usize,
        first_array_param: usize,
    ) -> (res: String)
        requires
            first_array_param + (if source.batch() {
                4int
            } else {
                2
            }) <= usize::MAX,
        ensures
            res@ == self.statement(source, now_param as nat, first_array_param as nat),
    {
        let p = first_array_param;
        let (id_expr, sequence_expr, from_clause) = match source {
            EventSource::PerEntityStandalone { id_param, offset_param } => (
                param_text(*id_param),
                "ROW_NUMBER() OVER () + ".to_string().concat(param_text(*offset_param).as_str()),
                self.per_entity_unnest(p, None),
            ),
            EventSource::PerEntityCte { cte, offset_param } => {
                let sequence_expr = match offset_param {
                    Some(offset) => "ROW_NUMBER() OVER () + ".to_string().concat(
                        param_text(*offset).as_str(),
                    ),
                    None => "ROW_NUMBER() OVER ()".to_string(),
                };
                (
                    (*cte).to_string().concat(".id"),
                    sequence_expr,
                    self.per_entity_unnest(p, Some(*cte)),
                )
            },
            EventSource::BatchStandalone => (
                "unnested.id".to_string(),
                "unnested.sequence".to_string(),
                self.batch_unnest(p, None),
            ),
            EventSource::BatchCte { cte } => (
                "unnested.id".to_string(),
                "unnested.sequence".to_string(),
                self.batch_unnest(p, Some(*cte)),
            ),
        };
        let ctx_sel = if self.event_ctx {
            ", unnested.context".to_string()
        } else {
            String::new()
        };
        insert_events(
            self.events_table,
            self.ctx_col(),
            id_expr.as_str(),
            param_text(now_param).as_str(),
            sequence_expr.as_str(),
            ctx_sel.as_str(),
            from_clause.as_str(),
        )
    }

    /// The rows of one entity's events, crossed with the row of `cte`.
    pub fn per_entity_unnest(&self, p: usize, cte: Option<&str>) -> (res: String)
        requires
            p + 2 <= usize::MAX,
        ensures
            res@ == self.per_entity_from(
                p as nat,
                match cte {
                    Some(cte) => Some(cte@),
                    None => None,
                },
            ),
    {
        let ctx_unnest = if self.event_ctx {
            ", ".to_string().concat(param_text(p + 2).as_str()).concat("::JSONB[]")
        } else {
            String::new()
        };
        let cross_join = match cte {
            Some(cte) => cte.to_string().concat(" CROSS JOIN "),
            None => String::new(),
        };
        unnest_events(
            cross_join.as_str(),
            param_text(p).as_str(),
            param_text(p + 1).as_str(),
            ctx_unnest.as_str(),
            self.ctx_col(),
        )
    }

    /// The rows of several entities' events, joined with `cte`.
    pub fn batch_unnest(&self, p: usize, cte: Option<&str>) -> (res: String)
        requires
            p + 4 <= usize::MAX,
        ensures
            res@ == self.batch_from(
                p as nat,
                match cte {
                    Some(cte) => Some(cte@),
                    None => None,
                },
            ),
    {
        let ctx_unnest = if self.event_ctx {
            ", ".to_string().concat(param_text(p + 4).as_str()).concat("::JSONB[]")
        } else {
            String::new()
        };
        let join = match cte {
            Some(cte) => " JOIN ".to_string().concat(cte).concat(" ON ").concat(cte).concat(
                ".id = unnested.id",
            ),
            None => String::new(),
        };
        unnest_batch(
            param_text(p).as_str(),
            param_text(p + 1).as_str(),
            param_text(p + 2).as_str(),
            param_text(p + 3).as_str(),
            ctx_unnest.as_str(),
            self.ctx_col(),
            join.as_str(),
        )
    }

    /// The statements that gather one entity's new events. `events` is an
    /// expression for the events of the entity.
    pub fn gather_per_entity(&self, events: &str) -> (res: String)
        ensures
            res@ == gather_events_code(
                events@,
                only_if(self.event_ctx, bind_contexts_code(events@)),
            ),
    {
        let ctx_var = if self.event_ctx {
            bind_contexts(events)
        } else {
            String::new()
        };
        gather_events(events, ctx_var.as_str())
    }

    /// The declarations of the arrays for several entities' new events.
    pub fn batch_declarations(&self, id_type: &str) -> (res: String)
        ensures
            res@ == declare_batch_code(id_type@, only_if(self.event_ctx, DECLARE_CONTEXTS@)),
    {
        let ctx_var = if self.event_ctx {
            DECLARE_CONTEXTS.to_string()
        } else {
            String::new()
        };
        declare_batch(id_type, ctx_var.as_str())
    }

    /// The statements that add one entity's new events to the arrays.
    /// `events` is an expression for the events of the entity, and `id` one
    /// for its id.
    pub fn gather_batch(&self, events: &str, id: &str) -> (res: String)
        ensures
            res@ == extend_batch_code(
                events@,
                id@,
                only_if(self.event_ctx, extend_contexts_code(events@)),
            ),
    {
        let ctx_extend = if self.event_ctx {
            extend_contexts(events)
        } else {
            String::new()
        };
        extend_batch(events, id, ctx_extend.as_str())
    }

    /// The arguments of the insert, in the order of their parameters. The
    /// first is the time.
    pub fn arg_exprs(&self, source: &EventSource<'_>) -> (res: Vec<String>)
        ensures
            res.deep_view() == self.args(source),
    {
        let mut args = vec!["op.maybe_now()".to_string()];
        if source.is_batch() {
            args.push("&all_ids".to_string());
            args.push("&all_sequences".to_string());
            args.push("&all_types".to_string());
            args.push("&all_serialized".to_string());
            if self.event_ctx {
                args.push(BATCH_CONTEXTS_ARG.to_string());
            }
        } else {
            let has_offset = match source {
                EventSource::PerEntityCte { offset_param: None, .. } => false,
                _ => true,
            };
            if has_offset {
                args.push("offset as i32".to_string());
            }
            args.push("&events_types".to_string());
            args.push("&serialized_events".to_string());
            if self.event_ctx {
                args.push(CONTEXTS_ARG.to_string());
            }
        }
        assert(args.deep_view() =~= self.args(source));
        args
    }
}

/// The statement that adds an argument to those of a query.
pub open spec fn add_arg_code(expr: Seq<char>) -> Seq<char> {
    "__query_args.add("@ + expr + ").map_err(sqlx::Error::Encode)?;"@
}

/// The statement that adds an argument to those of a query.
fn add_arg(expr: &str) -> (res: String)
    ensures
        res@ == add_arg_code(expr@),
{
    "__query_args.add(".to_string().concat(expr).concat(").map_err(sqlx::Error::Encode)?;")
}

/// The statements that add the arguments to those of a query.
pub open spec fn added(args: Seq<Seq<char>>) -> Seq<Seq<char>> {
    Seq::new(args.len(), |i: int| add_arg_code(args[i]))
}

impl<'a> EventsInsert<'a> {
    /// The statements that add the arguments of the insert behind the time.
    pub open spec fn added_args(&self, source: &EventSource) -> Seq<char> {
        joined(added(self.args(source).skip(1)), "\n"@)
    }

    /// The statements that add the arguments of the insert to those of a
    /// query, but for the time.
    pub fn arg_adds(&self, source: &EventSource<'_>) -> (res: String)
        ensures
            res@ == self.added_args(source),
    {
        let args = self.arg_exprs(source);
        assert(args.deep_view().len() == args.len());
        let mut adds: Vec<String> = Vec::new();
        let mut i: usize = 1;
        while i < args.len()
            invariant
                1 <= i <= args.len(),
                adds.len() == i - 1,
                forall|j: int|
                    0 <= j < i - 1 ==> (#[trigger] adds@[j])@ == add_arg_code(args@[j + 1]@),
            decreases args.len() - i,
        {
            adds.push(add_arg(args[i].as_str()));
            i = i + 1;
        }
        assert(adds.deep_view() =~= added(self.args(source).skip(1)));
        join(&adds, "\n")
    }
}

/// What the statement mentions: what its parts mention.
proof fn insert_mentions(
    table: Seq<char>,
    ctx_col: Seq<char>,
    id_expr: Seq<char>,
    now: Seq<char>,
    sequence_expr: Seq<char>,
    ctx_sel: Seq<char>,
    from_clause: Seq<char>,
)
    ensures
        placeholders(
            insert_events_code(
                table,
                ctx_col,
                id_expr,
                now,
                sequence_expr,
                ctx_sel,
                from_clause,
            ),
        ) == placeholders(table) + placeholders(ctx_col) + placeholders(id_expr) + placeholders(now)
            + placeholders(sequence_expr) + placeholders(ctx_sel) + placeholders(from_clause),
{
    broadcast use {inert_between, inert_behind, inert_before};

    reveal_strlit("INSERT INTO ");
    reveal_strlit(" (id, recorded_at, sequence, event_type, event");
    reveal_strlit(") SELECT ");
    reveal_strlit(", COALESCE(");
    reveal_strlit(", NOW()), ");
    reveal_strlit(", unnested.event_type, unnested.event");
    reveal_strlit(" ");
    reveal_strlit(" RETURNING recorded_at");
    assert(inert("INSERT INTO "@));
    assert(inert(" (id, recorded_at, sequence, event_type, event"@));
    assert(inert(") SELECT "@));
    assert(inert(", COALESCE("@));
    assert(inert(", NOW()), "@));
    assert(inert(", unnested.event_type, unnested.event"@));
    assert(inert(" "@));
    assert(inert(" RETURNING recorded_at"@));
}

/// What the rows of one entity's events mention: what their parts mention.
proof fn unnest_events_mentions(
    source: Seq<char>,
    types: Seq<char>,
    events: Seq<char>,
    ctx_unnest: Seq<char>,
    ctx_col: Seq<char>,
)
    ensures
        placeholders(unnest_events_code(source, types, events, ctx_unnest, ctx_col))
            == placeholders(source) + placeholders(types) + placeholders(events) + placeholders(
            ctx_unnest,
        ) + placeholders(ctx_col),
{
    broadcast use {inert_between, inert_behind, inert_before};

    reveal_strlit("FROM ");
    reveal_strlit("UNNEST(");
    reveal_strlit("::TEXT[], ");
    reveal_strlit("::JSONB[]");
    reveal_strlit(") AS unnested(event_type, event");
    reveal_strlit(")");
    assert(inert("FROM "@));
    assert(inert("UNNEST("@));
    assert(inert("::TEXT[], "@));
    assert(inert("::JSONB[]"@));
    assert(inert(") AS unnested(event_type, event"@));
    assert(inert(")"@));
}

/// What the rows of several entities' events mention: what their parts mention.
proof fn unnest_batch_mentions(
    ids: Seq<char>,
    sequences: Seq<char>,
    types: Seq<char>,
    events: Seq<char>,
    ctx_unnest: Seq<char>,
    ctx_col: Seq<char>,
    join: Seq<char>,
)
    ensures
        placeholders(
            unnest_batch_code(ids, sequences, types, events, ctx_unnest, ctx_col, join),
        ) == placeholders(ids) + placeholders(sequences) + placeholders(types) + placeholders(
            events,
        ) + placeholders(ctx_unnest) + placeholders(ctx_col) + placeholders(join),
{
    broadcast use {inert_between, inert_behind, inert_before};

    reveal_strlit("FROM UNNEST(");
    reveal_strlit(", ");
    reveal_strlit("::INT[], ");
    reveal_strlit("::TEXT[], ");
    reveal_strlit("::JSONB[]");
    reveal_strlit(") AS unnested(id, sequence, event_type, event");
    reveal_strlit(")");
    assert(inert("FROM UNNEST("@));
    assert(inert(", "@));
    assert(inert("::INT[], "@));
    assert(inert("::TEXT[], "@));
    assert(inert("::JSONB[]"@));
    assert(inert(") AS unnested(id, sequence, event_type, event"@));
    assert(inert(")"@));
}

impl<'a> EventSource<'a> {
    /// The parameter of the id, where it is one.
    pub open spec fn id_params(&self) -> Seq<nat> {
        match self {
            EventSource::PerEntityStandalone { id_param, .. } => seq![*id_param as nat],
            _ => Seq::empty(),
        }
    }

    /// Whether the name of the common table expression mentions no parameter.
    pub open spec fn named_without_number(&self) -> bool {
        match self {
            EventSource::PerEntityCte { cte, .. } => unnumbered(cte@),
            EventSource::BatchCte { cte } => unnumbered(cte@),
            _ => true,
        }
    }
}

proof fn id_mentions(source: &EventSource)
    requires
        source.named_without_number(),
    ensures
        placeholders(source.id_expr()) == source.id_params(),
{
    broadcast use {
        inert_behind,
        plain_mentions_none,
        unnumbered_mentions_none,
        param_mentions_itself,
    };

    reveal_strlit(".id");
    reveal_strlit("unnested.id");
    assert(inert(".id"@));
    assert(inert("unnested.id"@));
}

proof fn sequence_mentions(source: &EventSource)
    ensures
        placeholders(source.sequence_expr()) == (match source.offset() {
            Some(o) => seq![o],
            None => Seq::empty(),
        }),
{
    broadcast use {inert_before, plain_mentions_none, param_mentions_itself};

    reveal_strlit("unnested.sequence");
    reveal_strlit("ROW_NUMBER() OVER () + ");
    reveal_strlit("ROW_NUMBER() OVER ()");
    assert(inert("unnested.sequence"@));
    assert(inert("ROW_NUMBER() OVER () + "@));
    assert(inert("ROW_NUMBER() OVER ()"@));
}

impl<'a> EventsInsert<'a> {
    /// The parameters of the arrays.
    pub open spec fn array_params(&self, source: &EventSource, p: nat) -> Seq<nat> {
        let arrays = if source.batch() {
            seq![p, p + 1, p + 2, p + 3]
        } else {
            seq![p, p + 1]
        };
        if self.event_ctx {
            arrays.push(p + arrays.len())
        } else {
            arrays
        }
    }
}

proof fn rows_mention(insert: &EventsInsert, source: &EventSource, p: nat)
    requires
        source.named_without_number(),
    ensures
        placeholders(insert.from_clause(source, p)) == insert.array_params(source, p),
        placeholders(insert.ctx_column()) == Seq::<nat>::empty(),
{
    broadcast use {
        inert_between,
        inert_behind,
        inert_before,
        plain_mentions_none,
        unnumbered_mentions_none,
        param_mentions_itself,
    };

    reveal_strlit(", context");
    reveal_strlit(", ");
    reveal_strlit("::JSONB[]");
    reveal_strlit(" CROSS JOIN ");
    reveal_strlit(" JOIN ");
    reveal_strlit(" ON ");
    reveal_strlit(".id = unnested.id");
    assert(inert(", context"@));
    assert(inert(", "@));
    assert(inert("::JSONB[]"@));
    assert(inert(" CROSS JOIN "@));
    assert(inert(" JOIN "@));
    assert(inert(" ON "@));
    assert(inert(".id = unnested.id"@));
    let n: nat = if source.batch() {
        4
    } else {
        2
    };
    let ctx = only_if(insert.event_ctx, ", "@ + param(p + n) + "::JSONB[]"@);
    assert(placeholders(ctx) == (if insert.event_ctx {
        seq![p + n]
    } else {
        Seq::empty()
    }));
    assert(placeholders(insert.ctx_column()) == Seq::<nat>::empty());
    if source.batch() {
        let join = match source {
            EventSource::BatchCte { cte } => " JOIN "@ + cte@ + " ON "@ + cte@
                + ".id = unnested.id"@,
            _ => Seq::empty(),
        };
        assert(placeholders(join) =~= Seq::<nat>::empty());
        unnest_batch_mentions(
            param(p),
            param(p + 1),
            param(p + 2),
            param(p + 3),
            ctx,
            insert.ctx_column(),
            join,
        );
    } else {
        let table = match source {
            EventSource::PerEntityCte { cte, .. } => cte@ + " CROSS JOIN "@,
            _ => Seq::empty(),
        };
        assert(placeholders(table) =~= Seq::<nat>::empty());
        unnest_events_mentions(table, param(p), param(p + 1), ctx, insert.ctx_column());
    }
    assert(placeholders(insert.from_clause(source, p)) =~= insert.array_params(source, p));
}

/// The statement mentions the parameters of its arguments, each once and in
/// their order, behind the one of the id, where that is a parameter. The first
/// argument is the time, and the last ones are the arrays, from `$p` on; the
/// second is the offset where the statement adds one. The names of the tables are
/// given to mention no parameter themselves.
pub proof fn events_args_are_all(insert: &EventsInsert, source: &EventSource, now: nat, p: nat)
    requires
        unnumbered(insert.events_table@),
        source.named_without_number(),
    ensures
        placeholders(insert.statement(source, now, p)) == source.id_params() + insert.arg_params(
            source,
            now,
            p,
        ),
        placeholders(insert.statement(source, now, p)).len() == insert.args(source).len() + (
        if source is PerEntityStandalone {
            1int
        } else {
            0
        }),
        placeholders(insert.statement(source, now, p)).no_duplicates() ==> placeholders(
            insert.statement(source, now, p),
        ).to_set().len() == insert.args(source).len() + (if source is PerEntityStandalone {
            1int
        } else {
            0
        }),
        insert.args(source)[0] == "op.maybe_now()"@,
        insert.arg_params(source, now, p) == (match source.offset() {
            Some(o) => seq![now, o],
            None => seq![now],
        }) + insert.array_params(source, p),
        source.offset() is Some ==> insert.args(source)[1] == "offset as i32"@,
{
    broadcast use {plain_mentions_none, unnumbered_mentions_none, param_mentions_itself};

    let text = insert.statement(source, now, p);
    let ctx_sel = only_if(insert.event_ctx, ", unnested.context"@);
    reveal_strlit(", unnested.context");
    assert(inert(", unnested.context"@));
    assert(placeholders(ctx_sel) =~= Seq::<nat>::empty());
    id_mentions(source);
    sequence_mentions(source);
    rows_mention(insert, source, p);
    insert_mentions(
        insert.events_table@,
        insert.ctx_column(),
        source.id_expr(),
        param(now),
        source.sequence_expr(),
        ctx_sel,
        insert.from_clause(source, p),
    );
    assert(placeholders(text) =~= source.id_params() + insert.arg_params(source, now, p));
    if placeholders(text).no_duplicates() {
        placeholders(text).unique_seq_to_set();
    }
}

/// Joined with a common table expression, the statement for several entities is
/// the one without, and the join behind its rows.
pub proof fn batch_cte_only_joins(insert: &EventsInsert, cte: &str, now: nat, p: nat)
    ensures
        ({
            let alone = insert.statement(&EventSource::BatchStandalone, now, p);
            let joined = insert.statement(&EventSource::BatchCte { cte }, now, p);
            let front = alone.take(alone.len() - " RETURNING recorded_at"@.len());
            &&& alone == front + " RETURNING recorded_at"@
            &&& joined == front + (" JOIN "@ + cte@ + " ON "@ + cte@ + ".id = unnested.id"@)
                + " RETURNING recorded_at"@
        }),
{
    let alone = insert.statement(&EventSource::BatchStandalone, now, p);
    let joined = insert.statement(&EventSource::BatchCte { cte }, now, p);
    let join = " JOIN "@ + cte@ + " ON "@ + cte@ + ".id = unnested.id"@;
    let front = alone.take(alone.len() - " RETURNING recorded_at"@.len());
    assert(alone =~= front + " RETURNING recorded_at"@);
    assert(insert.batch_from(p, Some(cte@)) =~= insert.batch_from(p, None) + join);
    assert(joined =~= front + join + " RETURNING recorded_at"@);
}

/// With an offset the statement for one entity is the one without, but that the
/// sequences follow the offset.
#[verifier::spinoff_prover]
#[verifier::rlimit(60)]
pub proof fn offset_only_shifts(insert: &EventsInsert, cte: &str, offset: usize, now: nat, p: nat)
    ensures
        exists|front: Seq<char>, back: Seq<char>|
            insert.statement(&EventSource::PerEntityCte { cte, offset_param: None }, now, p)
                == #[trigger] (front + "ROW_NUMBER() OVER ()"@ + back) && insert.statement(
                &EventSource::PerEntityCte { cte, offset_param: Some(offset) },
                now,
                p,
            ) == front + ("ROW_NUMBER() OVER () + "@ + param(offset as nat)) + back,
{
    let plain = EventSource::PerEntityCte { cte, offset_param: None };
    let shifted = EventSource::PerEntityCte { cte, offset_param: Some(offset) };
    let front = "INSERT INTO "@ + insert.events_table@
        + " (id, recorded_at, sequence, event_type, event"@ + insert.ctx_column() + ") SELECT "@
        + plain.id_expr() + ", COALESCE("@ + param(now) + ", NOW()), "@;
    let back = ", unnested.event_type, unnested.event"@ + only_if(
        insert.event_ctx,
        ", unnested.context"@,
    ) + " "@ + insert.from_clause(&plain, p) + " RETURNING recorded_at"@;
    assert(insert.statement(&plain, now, p) =~= front + "ROW_NUMBER() OVER ()"@ + back);
    assert(insert.statement(&shifted, now, p) =~= front + ("ROW_NUMBER() OVER () + "@ + param(
        offset as nat,
    )) + back);
}

/// Each argument of the insert has its parameter. Where the offset stands
/// directly behind the time and the arrays directly behind that, the arguments
/// have the parameters from the time on, in order.
pub proof fn events_args_in_step(
    insert: &EventsInsert,
    source: &EventSource,
    now: nat,
    p: nat,
    i: int,
)
    requires
        0 <= i < insert.args(source).len(),
        source.offset() matches Some(o) ==> o == now + 1 && p == now + 2,
        source.offset() is None ==> p == now + 1,
    ensures
        insert.arg_params(source, now, p).len() == insert.args(source).len(),
        insert.arg_params(source, now, p)[i] == now + i,
{
}

/// The inserts of the payloads that can be forgotten. They are statements of
/// their own, because the payloads stand in a table of their own.
pub struct ForgettablePayloads<'a> {
    pub table: &'a str,
    pub id_type: &'a str,
    pub event_type: &'a str,
}

/// The insert of the payloads of one entity's new events.
pub open spec fn insert_payloads_code(
    snap_push: Seq<char>,
    events: Seq<char>,
    event_type: Seq<char>,
    query: Seq<char>,
    id_type: Seq<char>,
    error: Seq<char>,
    snap_delete: Seq<char>,
) -> Seq<char> {
    "let mut payload_sequences: Vec<i32> = Vec::new();
let mut payload_values: Vec<es_entity::prelude::serde_json::Value> = Vec::new();
"@ + snap_push + "
for (idx, event_with_ctx) in "@ + events + ".iter_new_events().enumerate() {
    if let Some(payload) = "@ + event_type + "::extract_forgettable_payloads(&event_with_ctx.event) {
        payload_sequences.push((offset + 1 + idx) as i32);
        payload_values.push(payload);
    }
}
if !payload_sequences.is_empty() {
    Self::extract_concurrent_modification(
        sqlx::query!(
            "@ + query + ",
            id as &"@ + id_type + ",
            &payload_sequences,
            &payload_values,
        )
        .execute(op.as_executor())
        .await,
        "@ + error + "::ConcurrentModification,
    )?;
}
"@ + snap_delete
}

/// The insert of the payloads of one entity's new events.
fn insert_payloads(
    snap_push: &str,
    events: &str,
    event_type: &str,
    query: &str,
    id_type: &str,
    error: &str,
    snap_delete: &str,
) -> (res: String)
    ensures
        res@ == insert_payloads_code(
            snap_push@,
            events@,
            event_type@,
            query@,
            id_type@,
            error@,
            snap_delete@,
        ),
{
    "let mut payload_sequences: Vec<i32> = Vec::new();
let mut payload_values: Vec<es_entity::prelude::serde_json::Value> = Vec::new();
".to_string().concat(snap_push).concat("
for (idx, event_with_ctx) in ").concat(events).concat(".iter_new_events().enumerate() {
    if let Some(payload) = ").concat(event_type).concat("::extract_forgettable_payloads(&event_with_ctx.event) {
        payload_sequences.push((offset + 1 + idx) as i32);
        payload_values.push(payload);
    }
}
if !payload_sequences.is_empty() {
    Self::extract_concurrent_modification(
        sqlx::query!(
            ").concat(query).concat(",
            id as &").concat(id_type).concat(",
            &payload_sequences,
            &payload_values,
        )
        .execute(op.as_executor())
        .await,
        ").concat(error).concat("::ConcurrentModification,
    )?;
}
").concat(snap_delete)
}

/// The statement that adds the payload of a snapshot.
pub open spec fn push_snapshot_payload_code(expr: Seq<char>) -> Seq<char> {
    "if let Some(payload) = ("@ + expr + ").and_then(es_entity::EsSnapshot::extract_forgettable_payloads) {
    payload_sequences.push(0);
    payload_values.push(payload);
}"@
}

/// The statement that adds the payload of a snapshot.
fn push_snapshot_payload(expr: &str) -> (res: String)
    ensures
        res@ == push_snapshot_payload_code(expr@),
{
    "if let Some(payload) = (".to_string().concat(expr).concat(").and_then(es_entity::EsSnapshot::extract_forgettable_payloads) {
    payload_sequences.push(0);
    payload_values.push(payload);
}")
}

/// The statement that deletes the payload of an earlier snapshot.
pub open spec fn delete_snapshot_payload_code(
    expr: Seq<char>,
    delete_query: Seq<char>,
    id_type: Seq<char>,
) -> Seq<char> {
    "if ("@ + expr + ").is_some()
    && ("@ + expr + ").and_then(es_entity::EsSnapshot::extract_forgettable_payloads).is_none()
{
    sqlx::query!("@ + delete_query + ", id as &"@ + id_type + ")
        .execute(op.as_executor())
        .await?;
}"@
}

/// The statement that deletes the payload of an earlier snapshot.
fn delete_snapshot_payload(expr: &str, delete_query: &str, id_type: &str) -> (res: String)
    ensures
        res@ == delete_snapshot_payload_code(expr@, delete_query@, id_type@),
{
    "if (".to_string().concat(expr).concat(").is_some()
    && (").concat(expr).concat(").and_then(es_entity::EsSnapshot::extract_forgettable_payloads).is_none()
{
    sqlx::query!(").concat(delete_query).concat(", id as &").concat(id_type).concat(")
        .execute(op.as_executor())
        .await?;
}")
}

/// The query that inserts the payloads of one entity.
pub open spec fn payload_query_code(
    table: Seq<char>,
    conflict_clause: Seq<char>,
) -> Seq<char> {
    "INSERT INTO "@ + table + " (entity_id, sequence, payload) SELECT $1, unnested.sequence, unnested.payload FROM UNNEST($2::INT[], $3::JSONB[]) AS unnested(sequence, payload)"@ + conflict_clause
}

/// The query that inserts the payloads of one entity.
fn payload_query(table: &str, conflict_clause: &str) -> (res: String)
    ensures
        res@ == payload_query_code(table@, conflict_clause@),
{
    "INSERT INTO ".to_string().concat(table).concat(" (entity_id, sequence, payload) SELECT $1, unnested.sequence, unnested.payload FROM UNNEST($2::INT[], $3::JSONB[]) AS unnested(sequence, payload)").concat(conflict_clause)
}

/// The query that inserts the payloads of several entities.
pub open spec fn batch_payload_query_code(table: Seq<char>) -> Seq<char> {
    "INSERT INTO "@ + table + " (entity_id, sequence, payload) SELECT unnested.entity_id, unnested.sequence, unnested.payload FROM UNNEST($1, $2::INT[], $3::JSONB[]) AS unnested(entity_id, sequence, payload)"@
}

/// The query that inserts the payloads of several entities.
fn batch_payload_query(table: &str) -> (res: String)
    ensures
        res@ == batch_payload_query_code(table@),
{
    "INSERT INTO ".to_string().concat(table).concat(" (entity_id, sequence, payload) SELECT unnested.entity_id, unnested.sequence, unnested.payload FROM UNNEST($1, $2::INT[], $3::JSONB[]) AS unnested(entity_id, sequence, payload)")
}

/// The query that deletes the payload of a snapshot.
pub open spec fn snapshot_payload_delete_query_code(table: Seq<char>) -> Seq<char> {
    "DELETE FROM "@ + table + " WHERE entity_id = $1 AND sequence = 0"@
}

/// The query that deletes the payload of a snapshot.
fn snapshot_payload_delete_query(table: &str) -> (res: String)
    ensures
        res@ == snapshot_payload_delete_query_code(table@),
{
    "DELETE FROM ".to_string().concat(table).concat(" WHERE entity_id = $1 AND sequence = 0")
}

/// The declarations of the arrays for several entities' payloads.
pub open spec fn declare_payloads_code(id_type: Seq<char>) -> Seq<char> {
    "let mut payload_ids: Vec<&"@ + id_type + "> = Vec::new();
let mut payload_sequences: Vec<i32> = Vec::new();
let mut payload_values: Vec<es_entity::prelude::serde_json::Value> = Vec::new();"@
}

/// The declarations of the arrays for several entities' payloads.
fn declare_payloads(id_type: &str) -> (res: String)
    ensures
        res@ == declare_payloads_code(id_type@),
{
    "let mut payload_ids: Vec<&".to_string().concat(id_type).concat("> = Vec::new();
let mut payload_sequences: Vec<i32> = Vec::new();
let mut payload_values: Vec<es_entity::prelude::serde_json::Value> = Vec::new();")
}

/// The statements that add one entity's payloads to the arrays.
pub open spec fn extend_payloads_code(
    events: Seq<char>,
    event_type: Seq<char>,
    id: Seq<char>,
) -> Seq<char> {
    "for (idx, event_with_ctx) in "@ + events + ".iter_new_events().enumerate() {
    if let Some(payload) = "@ + event_type + "::extract_forgettable_payloads(&event_with_ctx.event) {
        payload_ids.push("@ + id + ");
        payload_sequences.push((offset + idx) as i32);
        payload_values.push(payload);
    }
}"@
}

/// The statements that add one entity's payloads to the arrays.
fn extend_payloads(events: &str, event_type: &str, id: &str) -> (res: String)
    ensures
        res@ == extend_payloads_code(events@, event_type@, id@),
{
    "for (idx, event_with_ctx) in ".to_string().concat(events).concat(".iter_new_events().enumerate() {
    if let Some(payload) = ").concat(event_type).concat("::extract_forgettable_payloads(&event_with_ctx.event) {
        payload_ids.push(").concat(id).concat(");
        payload_sequences.push((offset + idx) as i32);
        payload_values.push(payload);
    }
}")
}

/// The insert of several entities' payloads.
pub open spec fn insert_payload_batch_code(query: Seq<char>, error: Seq<char>) -> Seq<char> {
    "if !payload_sequences.is_empty() {
    Self::extract_concurrent_modification(
        sqlx::query("@ + query + ")
            .bind(&payload_ids)
            .bind(&payload_sequences)
            .bind(&payload_values)
            .execute(op.as_executor())
            .await,
        "@ + error + "::ConcurrentModification,
    )?;
}"@
}

/// The insert of several entities' payloads.
fn insert_payload_batch(query: &str, error: &str) -> (res: String)
    ensures
        res@ == insert_payload_batch_code(query@, error@),
{
    "if !payload_sequences.is_empty() {
    Self::extract_concurrent_modification(
        sqlx::query(".to_string().concat(query).concat(")
            .bind(&payload_ids)
            .bind(&payload_sequences)
            .bind(&payload_values)
            .execute(op.as_executor())
            .await,
        ").concat(error).concat("::ConcurrentModification,
    )?;
}")
}

/// What makes the payload of a snapshot take the place of an earlier one.
pub const PAYLOAD_CONFLICT: &'static str =
    " ON CONFLICT (entity_id, sequence) DO UPDATE SET payload = EXCLUDED.payload";

impl<'a> ForgettablePayloads<'a> {
    /// The query that inserts the payloads of one entity.
    pub open spec fn query(table: Seq<char>, on_conflict: bool) -> Seq<char> {
        payload_query_code(table, only_if(on_conflict, PAYLOAD_CONFLICT@))
    }

    /// The insert of the payloads of one entity's new events.
    pub open spec fn per_entity(
        &self,
        events: Seq<char>,
        error: Seq<char>,
        snapshot: Option<Seq<char>>,
    ) -> Seq<char> {
        insert_payloads_code(
            match snapshot {
                Some(expr) => push_snapshot_payload_code(expr),
                None => Seq::empty(),
            },
            events,
            self.event_type@,
            literal(Self::query(self.table@, snapshot is Some)),
            self.id_type@,
            error,
            match snapshot {
                Some(expr) => delete_snapshot_payload_code(
                    expr,
                    literal(snapshot_payload_delete_query_code(self.table@)),
                    self.id_type@,
                ),
                None => Seq::empty(),
            },
        )
    }

    /// The insert of the payloads of one entity's new events. `snapshot` is an
    /// expression for the entity's snapshot, where its repository has them:
    /// the payload of the snapshot has the sequence zero, and is deleted where
    /// a new snapshot has none.
    pub fn insert_per_entity(&self, events: &str, error: &str, snapshot: Option<&str>) -> (res:
        String)
        ensures
            res@ == self.per_entity(
                events@,
                error@,
                match snapshot {
                    Some(expr) => Some(expr@),
                    None => None,
                },
            ),
    {
        let query = Self::insert_query(self.table, snapshot.is_some());
        let (snap_push, snap_delete) = Self::snapshot_payload_tokens(
            self.table,
            self.id_type,
            snapshot,
        );
        insert_payloads(
            snap_push.as_str(),
            events,
            self.event_type,
            quote(query.as_str()).as_str(),
            self.id_type,
            error,
            snap_delete.as_str(),
        )
    }

    /// What stores the payload of a snapshot, and what deletes the one of an
    /// earlier snapshot; nothing without a snapshot.
    pub fn snapshot_payload_tokens(table: &str, id_type: &str, snapshot: Option<&str>) -> (res: (
        String,
        String,
    ))
        ensures
            snapshot is None ==> res.0@ == Seq::<char>::empty() && res.1@ == Seq::<char>::empty(),
            snapshot matches Some(expr) ==> {
                &&& res.0@ == push_snapshot_payload_code(expr@)
                &&& res.1@ == delete_snapshot_payload_code(
                    expr@,
                    literal(snapshot_payload_delete_query_code(table@)),
                    id_type@,
                )
            },
    {
        match snapshot {
            None => (String::new(), String::new()),
            Some(expr) => {
                let delete_query = snapshot_payload_delete_query(table);
                (
                    push_snapshot_payload(expr),
                    delete_snapshot_payload(expr, quote(delete_query.as_str()).as_str(), id_type),
                )
            },
        }
    }

    /// The query that inserts the payloads of one entity. With `on_conflict`
    /// the payload of a snapshot takes the place of an earlier one.
    pub fn insert_query(table: &str, on_conflict: bool) -> (res: String)
        ensures
            res@ == Self::query(table@, on_conflict),
    {
        let conflict_clause = if on_conflict {
            PAYLOAD_CONFLICT.to_string()
        } else {
            String::new()
        };
        payload_query(table, conflict_clause.as_str())
    }

    /// The declarations of the arrays for several entities' payloads.
    pub fn batch_declarations(&self) -> (res: String)
        ensures
            res@ == declare_payloads_code(self.id_type@),
    {
        declare_payloads(self.id_type)
    }

    /// The statements that add one entity's payloads to the arrays.
    pub fn gather_batch(&self, events: &str, id: &str) -> (res: String)
        ensures
            res@ == extend_payloads_code(events@, self.event_type@, id@),
    {
        extend_payloads(events, self.event_type, id)
    }

    /// The insert of several entities' payloads.
    pub fn insert_batch(&self, error: &str) -> (res: String)
        ensures
            res@ == insert_payload_batch_code(literal(batch_payload_query_code(self.table@)), error@),
    {
        insert_payload_batch(quote(batch_payload_query(self.table).as_str()).as_str(), error)
    }
}

/// Without snapshots the query that inserts payloads is the one with
/// snapshots, less what makes a payload take the place of another.
pub proof fn payload_query_without_snapshot(table: Seq<char>)
    ensures
        ForgettablePayloads::query(table, true) == ForgettablePayloads::query(table, false)
            + PAYLOAD_CONFLICT@,
{
    assert(ForgettablePayloads::query(table, true) =~= ForgettablePayloads::query(table, false)
        + PAYLOAD_CONFLICT@);
}

/// The write of a snapshot into the table `table`, in the statement that
/// writes the events.
pub struct SnapshotUpsert<'a> {
    pub table: &'a str,
}

/// The common table expression that writes one entity's snapshot.
pub open spec fn snapshot_cte_code(
    table: Seq<char>,
    id_expr: Seq<char>,
    head: Seq<char>,
    fp: Seq<char>,
    snap: Seq<char>,
    first: Seq<char>,
    now: Seq<char>,
    from_clause: Seq<char>,
) -> Seq<char> {
    "snap AS (INSERT INTO "@ + table + " (id, sequence, fingerprint, snapshot, first_recorded_at, recorded_at) SELECT "@ + id_expr + ", "@ + head + "::INT, "@ + fp + "::BIGINT, "@ + snap + "::JSONB, COALESCE("@ + first + "::TIMESTAMPTZ, COALESCE("@ + now + ", NOW())), COALESCE("@ + now + ", NOW()) "@ + from_clause + " WHERE "@ + snap + "::JSONB IS NOT NULL ON CONFLICT (id) DO UPDATE SET sequence = EXCLUDED.sequence, fingerprint = EXCLUDED.fingerprint, snapshot = EXCLUDED.snapshot, first_recorded_at = EXCLUDED.first_recorded_at, recorded_at = EXCLUDED.recorded_at WHERE EXCLUDED.sequence > "@ + table + ".sequence)"@
}

/// The common table expression that writes one entity's snapshot.
fn snapshot_cte(
    table: &str,
    id_expr: &str,
    head: &str,
    fp: &str,
    snap: &str,
    first: &str,
    now: &str,
    from_clause: &str,
) -> (res: String)
    ensures
        res@ == snapshot_cte_code(
            table@,
            id_expr@,
            head@,
            fp@,
            snap@,
            first@,
            now@,
            from_clause@,
        ),
{
    "snap AS (INSERT INTO ".to_string().concat(table).concat(" (id, sequence, fingerprint, snapshot, first_recorded_at, recorded_at) SELECT ").concat(id_expr).concat(", ").concat(head).concat("::INT, ").concat(fp).concat("::BIGINT, ").concat(snap).concat("::JSONB, COALESCE(").concat(first).concat("::TIMESTAMPTZ, COALESCE(").concat(now).concat(", NOW())), COALESCE(").concat(now).concat(", NOW()) ").concat(from_clause).concat(" WHERE ").concat(snap).concat("::JSONB IS NOT NULL ON CONFLICT (id) DO UPDATE SET sequence = EXCLUDED.sequence, fingerprint = EXCLUDED.fingerprint, snapshot = EXCLUDED.snapshot, first_recorded_at = EXCLUDED.first_recorded_at, recorded_at = EXCLUDED.recorded_at WHERE EXCLUDED.sequence > ").concat(table).concat(".sequence)")
}

/// The common table expression that writes several entities' snapshots.
pub open spec fn snapshot_batch_cte_code(
    table: Seq<char>,
    fp: Seq<char>,
    now: Seq<char>,
    ids: Seq<char>,
    seqs: Seq<char>,
    snaps: Seq<char>,
    firsts: Seq<char>,
) -> Seq<char> {
    "snap AS (INSERT INTO "@ + table + " (id, sequence, fingerprint, snapshot, first_recorded_at, recorded_at) SELECT u.id, u.sequence, "@ + fp + "::BIGINT, u.snapshot, COALESCE(u.first_recorded_at, COALESCE("@ + now + ", NOW())), COALESCE("@ + now + ", NOW()) FROM UNNEST("@ + ids + ", "@ + seqs + "::INT[], "@ + snaps + "::JSONB[], "@ + firsts + "::TIMESTAMPTZ[]) AS u(id, sequence, snapshot, first_recorded_at) ON CONFLICT (id) DO UPDATE SET sequence = EXCLUDED.sequence, fingerprint = EXCLUDED.fingerprint, snapshot = EXCLUDED.snapshot, first_recorded_at = EXCLUDED.first_recorded_at, recorded_at = EXCLUDED.recorded_at WHERE EXCLUDED.sequence > "@ + table + ".sequence)"@
}

/// The common table expression that writes several entities' snapshots.
fn snapshot_batch_cte(
    table: &str,
    fp: &str,
    now: &str,
    ids: &str,
    seqs: &str,
    snaps: &str,
    firsts: &str,
) -> (res: String)
    ensures
        res@ == snapshot_batch_cte_code(table@, fp@, now@, ids@, seqs@, snaps@, firsts@),
{
    "snap AS (INSERT INTO ".to_string().concat(table).concat(" (id, sequence, fingerprint, snapshot, first_recorded_at, recorded_at) SELECT u.id, u.sequence, ").concat(fp).concat("::BIGINT, u.snapshot, COALESCE(u.first_recorded_at, COALESCE(").concat(now).concat(", NOW())), COALESCE(").concat(now).concat(", NOW()) FROM UNNEST(").concat(ids).concat(", ").concat(seqs).concat("::INT[], ").concat(snaps).concat("::JSONB[], ").concat(firsts).concat("::TIMESTAMPTZ[]) AS u(id, sequence, snapshot, first_recorded_at) ON CONFLICT (id) DO UPDATE SET sequence = EXCLUDED.sequence, fingerprint = EXCLUDED.fingerprint, snapshot = EXCLUDED.snapshot, first_recorded_at = EXCLUDED.first_recorded_at, recorded_at = EXCLUDED.recorded_at WHERE EXCLUDED.sequence > ").concat(table).concat(".sequence)")
}

/// The statements that take one entity's snapshot.
pub open spec fn take_snapshot_code(
    entity_ty: Seq<char>,
    entity: Seq<char>,
    events: Seq<char>,
) -> Seq<char> {
    "let __snapshot = <"@ + entity_ty + " as es_entity::HeadSnapshot>::capture(&*"@ + entity + ");
let __snapshot_json = __snapshot.as_ref().map(|s| {
    es_entity::prelude::serde_json::to_value(s).expect(\"Failed to serialize snapshot\")
});
let __snapshot_head = ("@ + events + ".len_persisted() + "@ + events + ".len_new()) as i32;
let __snapshot_first = "@ + events + ".entity_first_persisted_at();"@
}

/// The statements that take one entity's snapshot.
fn take_snapshot(entity_ty: &str, entity: &str, events: &str) -> (res: String)
    ensures
        res@ == take_snapshot_code(entity_ty@, entity@, events@),
{
    "let __snapshot = <".to_string().concat(entity_ty).concat(" as es_entity::HeadSnapshot>::capture(&*").concat(entity).concat(");
let __snapshot_json = __snapshot.as_ref().map(|s| {
    es_entity::prelude::serde_json::to_value(s).expect(\"Failed to serialize snapshot\")
});
let __snapshot_head = (").concat(events).concat(".len_persisted() + ").concat(events).concat(".len_new()) as i32;
let __snapshot_first = ").concat(events).concat(".entity_first_persisted_at();")
}

/// The statement that compacts one entity's events into its snapshot.
pub open spec fn compact_events_code(events: Seq<char>, recorded_at: Seq<char>) -> Seq<char> {
    "if let Some(s) = __snapshot {
    "@ + events + ".compact_to_snapshot(s, "@ + recorded_at + ", __snapshot_first.unwrap_or("@ + recorded_at + "));
}"@
}

/// The statement that compacts one entity's events into its snapshot.
fn compact_events(events: &str, recorded_at: &str) -> (res: String)
    ensures
        res@ == compact_events_code(events@, recorded_at@),
{
    "if let Some(s) = __snapshot {
    ".to_string().concat(events).concat(".compact_to_snapshot(s, ").concat(recorded_at).concat(", __snapshot_first.unwrap_or(").concat(recorded_at).concat("));
}")
}

/// The variable for the ids of the entities with a snapshot.
pub const SNAP_IDS: &'static str = "__snap_ids";

/// The variable for the sequences of the snapshots.
pub const SNAP_SEQS: &'static str = "__snap_seqs";

/// The variable for the serialized snapshots.
pub const SNAP_JSONS: &'static str = "__snap_jsons";

/// The variable for the times at which the entities were first recorded.
pub const SNAP_FIRSTS: &'static str = "__snap_firsts";

/// The variable for the snapshots that events are compacted into.
pub const SNAPS_TO_COMPACT: &'static str = "__snapshots_to_compact";

/// The declaration of a variable that changes.
pub open spec fn declare_local_code(name: Seq<char>, is: Seq<char>) -> Seq<char> {
    "let mut "@ + name + is + ";"@
}

/// The declaration of a variable that changes.
fn declare_local(name: &str, is: &str) -> (res: String)
    ensures
        res@ == declare_local_code(name@, is@),
{
    "let mut ".to_string().concat(name).concat(is).concat(";")
}

/// The type and the start of an array of references.
pub open spec fn new_refs_code(id_type: Seq<char>) -> Seq<char> {
    ": Vec<&"@ + id_type + "> = Vec::new()"@
}

/// The type and the start of an array of references.
fn new_refs(id_type: &str) -> (res: String)
    ensures
        res@ == new_refs_code(id_type@),
{
    ": Vec<&".to_string().concat(id_type).concat("> = Vec::new()")
}

/// The declarations of the arrays for several entities' snapshots, and of the
/// map that remembers which of them have one.
pub open spec fn declare_snapshots_code(id_type: Seq<char>) -> Seq<char> {
    declare_local_code(SNAP_IDS@, new_refs_code(id_type)) + "\n"@ + declare_local_code(
        SNAP_SEQS@,
        ": Vec<i32> = Vec::new()"@,
    ) + "\n"@ + declare_local_code(
        SNAP_JSONS@,
        ": Vec<es_entity::prelude::serde_json::Value> = Vec::new()"@,
    ) + "\n"@ + declare_local_code(
        SNAP_FIRSTS@,
        ": Vec<Option<es_entity::prelude::chrono::DateTime<es_entity::prelude::chrono::Utc>>> = Vec::new()"@,
    ) + "\n"@ + declare_local_code(
        SNAPS_TO_COMPACT@,
        " = std::collections::HashMap::new()"@,
    )
}

/// The declarations of the arrays for several entities' snapshots, and of the
/// map that remembers which of them have one.
fn declare_snapshots(id_type: &str) -> (res: String)
    ensures
        res@ == declare_snapshots_code(id_type@),
{
    declare_local(SNAP_IDS, new_refs(id_type).as_str()).concat("\n").concat(
        declare_local(SNAP_SEQS, ": Vec<i32> = Vec::new()").as_str(),
    ).concat("\n").concat(
        declare_local(
            SNAP_JSONS,
            ": Vec<es_entity::prelude::serde_json::Value> = Vec::new()",
        ).as_str(),
    ).concat("\n").concat(
        declare_local(
            SNAP_FIRSTS,
            ": Vec<Option<es_entity::prelude::chrono::DateTime<es_entity::prelude::chrono::Utc>>> = Vec::new()",
        ).as_str(),
    ).concat("\n").concat(
        declare_local(SNAPS_TO_COMPACT, " = std::collections::HashMap::new()").as_str(),
    )
}

/// The statements that add one entity's snapshot to the arrays.
pub open spec fn extend_snapshots_in_code(
    snapshot: Seq<char>,
    events: Seq<char>,
    ids: Seq<char>,
    id: Seq<char>,
    seqs: Seq<char>,
    firsts: Seq<char>,
    jsons: Seq<char>,
    to_compact: Seq<char>,
) -> Seq<char> {
    "if let Some(s) = "@ + snapshot + " {
    let __first = "@ + events + ".entity_first_persisted_at();
    let __json = es_entity::prelude::serde_json::to_value(&s).expect(\"Failed to serialize snapshot\");
    "@ + ids + ".push("@ + id + ");
    "@ + seqs + ".push(("@ + events + ".len_persisted() + "@ + events + ".len_new()) as i32);
    "@ + firsts + ".push(__first);
    "@ + jsons + ".push(__json);
    "@ + to_compact + ".insert(("@ + id + ").clone(), (s, __first));
}"@
}

/// The statements that add one entity's snapshot to the arrays.
fn extend_snapshots_in(
    snapshot: &str,
    events: &str,
    ids: &str,
    id: &str,
    seqs: &str,
    firsts: &str,
    jsons: &str,
    to_compact: &str,
) -> (res: String)
    ensures
        res@ == extend_snapshots_in_code(
            snapshot@,
            events@,
            ids@,
            id@,
            seqs@,
            firsts@,
            jsons@,
            to_compact@,
        ),
{
    "if let Some(s) = ".to_string().concat(snapshot).concat(" {
    let __first = ").concat(events).concat(".entity_first_persisted_at();
    let __json = es_entity::prelude::serde_json::to_value(&s).expect(\"Failed to serialize snapshot\");
    ").concat(ids).concat(".push(").concat(id).concat(");
    ").concat(seqs).concat(".push((").concat(events).concat(".len_persisted() + ").concat(events).concat(".len_new()) as i32);
    ").concat(firsts).concat(".push(__first);
    ").concat(jsons).concat(".push(__json);
    ").concat(to_compact).concat(".insert((").concat(id).concat(").clone(), (s, __first));
}")
}

/// The statement that compacts several entities' events.
pub open spec fn compact_all_events_in_code(
    entities: Seq<char>,
    to_compact: Seq<char>,
    recorded_at: Seq<char>,
) -> Seq<char> {
    "for entity in "@ + entities + " {
    if let Some((s, first)) = "@ + to_compact + ".remove(&entity.id) {
        entity.events_mut().compact_to_snapshot(s, "@ + recorded_at + ", first.unwrap_or("@ + recorded_at + "));
    }
}"@
}

/// The statement that compacts several entities' events.
fn compact_all_events_in(entities: &str, to_compact: &str, recorded_at: &str) -> (res: String)
    ensures
        res@ == compact_all_events_in_code(entities@, to_compact@, recorded_at@),
{
    "for entity in ".to_string().concat(entities).concat(" {
    if let Some((s, first)) = ").concat(to_compact).concat(".remove(&entity.id) {
        entity.events_mut().compact_to_snapshot(s, ").concat(recorded_at).concat(", first.unwrap_or(").concat(recorded_at).concat("));
    }
}")
}

/// The statements that add one entity's snapshot to the arrays.
pub open spec fn extend_snapshots_code(
    snapshot: Seq<char>,
    events: Seq<char>,
    id: Seq<char>,
) -> Seq<char> {
    extend_snapshots_in_code(
        snapshot,
        events,
        SNAP_IDS@,
        id,
        SNAP_SEQS@,
        SNAP_FIRSTS@,
        SNAP_JSONS@,
        SNAPS_TO_COMPACT@,
    )
}

/// The statement that compacts several entities' events.
pub open spec fn compact_all_events_code(
    entities: Seq<char>,
    recorded_at: Seq<char>,
) -> Seq<char> {
    compact_all_events_in_code(entities, SNAPS_TO_COMPACT@, recorded_at)
}

impl<'a> SnapshotUpsert<'a> {
    /// The common table expression `snap` that writes the snapshot of one
    /// entity, where there is one. `id_expr` is the id of the entity, and
    /// `from_clause` where it comes from.
    pub fn cte_per_entity(
        &self,
        id_expr: &str,
        from_clause: &str,
        head_p: usize,
        fp_p: usize,
        snap_p: usize,
        first_p: usize,
        now_p: usize,
    ) -> (res: String)
        ensures
            res@ == snapshot_cte_code(
                self.table@,
                id_expr@,
                param(head_p as nat),
                param(fp_p as nat),
                param(snap_p as nat),
                param(first_p as nat),
                param(now_p as nat),
                from_clause@,
            ),
    {
        snapshot_cte(
            self.table,
            id_expr,
            param_text(head_p).as_str(),
            param_text(fp_p).as_str(),
            param_text(snap_p).as_str(),
            param_text(first_p).as_str(),
            param_text(now_p).as_str(),
            from_clause,
        )
    }

    /// The statements that take the snapshot of one entity. They run before
    /// the statement that writes it.
    pub fn gather_per_entity(&self, entity: &str, events: &str, entity_ty: &str) -> (res: String)
        ensures
            res@ == take_snapshot_code(entity_ty@, entity@, events@),
    {
        take_snapshot(entity_ty, entity, events)
    }

    /// The statement that compacts one entity's events into the snapshot that
    /// was written. It runs behind the hook that reads those events.
    pub fn compact_per_entity(&self, events: &str, recorded_at: &str) -> (res: String)
        ensures
            res@ == compact_events_code(events@, recorded_at@),
    {
        compact_events(events, recorded_at)
    }

    /// The common table expression `snap` that writes the snapshots of several
    /// entities.
    pub fn cte_batch(
        &self,
        ids_p: usize,
        seqs_p: usize,
        snaps_p: usize,
        firsts_p: usize,
        fp_p: usize,
        now_p: usize,
    ) -> (res: String)
        ensures
            res@ == snapshot_batch_cte_code(
                self.table@,
                param(fp_p as nat),
                param(now_p as nat),
                param(ids_p as nat),
                param(seqs_p as nat),
                param(snaps_p as nat),
                param(firsts_p as nat),
            ),
    {
        snapshot_batch_cte(
            self.table,
            param_text(fp_p).as_str(),
            param_text(now_p).as_str(),
            param_text(ids_p).as_str(),
            param_text(seqs_p).as_str(),
            param_text(snaps_p).as_str(),
            param_text(firsts_p).as_str(),
        )
    }

    /// The declarations of the arrays for several entities' snapshots, and of
    /// the map that remembers which entities have a snapshot, with its value.
    pub fn batch_declarations(&self, id_type: &str) -> (res: String)
        ensures
            res@ == declare_snapshots_code(id_type@),
    {
        declare_snapshots(id_type)
    }

    /// The statements that add one entity's snapshot to the arrays.
    pub fn gather_batch(&self, snapshot: &str, events: &str, id: &str) -> (res: String)
        ensures
            res@ == extend_snapshots_code(snapshot@, events@, id@),
    {
        extend_snapshots_in(
            snapshot,
            events,
            SNAP_IDS,
            id,
            SNAP_SEQS,
            SNAP_FIRSTS,
            SNAP_JSONS,
            SNAPS_TO_COMPACT,
        )
    }

    /// The statement that compacts the events of every entity whose snapshot
    /// was written.
    pub fn compact_batch(&self, entities: &str, recorded_at: &str) -> (res: String)
        ensures
            res@ == compact_all_events_code(entities@, recorded_at@),
    {
        compact_all_events_in(entities, SNAPS_TO_COMPACT, recorded_at)
    }
}

/// The variables that the statements for several entities' snapshots use.
pub open spec fn snapshot_locals() -> Seq<Seq<char>> {
    seq![SNAP_IDS@, SNAP_SEQS@, SNAP_FIRSTS@, SNAP_JSONS@, SNAPS_TO_COMPACT@]
}

/// A declaration declares its variable.
broadcast proof fn local_is_declared(name: Seq<char>, is: Seq<char>)
    ensures
        #[trigger] occurs(declare_local_code(name, is), "let mut "@ + name),
{
    assert(declare_local_code(name, is) =~= Seq::<char>::empty() + ("let mut "@ + name) + (is
        + ";"@));
}

/// Every variable that the statements which gather several entities' snapshots
/// use is declared, and so is the one that the statement which compacts their
/// events uses.
pub proof fn snapshot_locals_are_declared(
    id_type: Seq<char>,
    snapshot: Seq<char>,
    events: Seq<char>,
    id: Seq<char>,
    entities: Seq<char>,
    recorded_at: Seq<char>,
)
    ensures
        forall|i: int|
            0 <= i < snapshot_locals().len() ==> occurs(
                declare_snapshots_code(id_type),
                "let mut "@ + #[trigger] snapshot_locals()[i],
            ),
        forall|i: int|
            0 <= i < snapshot_locals().len() ==> occurs(
                extend_snapshots_code(snapshot, events, id),
                #[trigger] snapshot_locals()[i],
            ),
        occurs(compact_all_events_code(entities, recorded_at), SNAPS_TO_COMPACT@),
        occurs(declare_snapshots_code(id_type), "let mut "@ + SNAPS_TO_COMPACT@),
{
    broadcast use {occurs_extended, occurs_behind, local_is_declared};

    let declared = declare_snapshots_code(id_type);
    assert(occurs(declared, "let mut "@ + SNAP_IDS@));
    assert(occurs(declared, "let mut "@ + SNAP_SEQS@));
    assert(occurs(declared, "let mut "@ + SNAP_JSONS@));
    assert(occurs(declared, "let mut "@ + SNAP_FIRSTS@));
    assert(occurs(declared, "let mut "@ + SNAPS_TO_COMPACT@));
}

} // verus!
