//! How the events of entities are recorded: which value each column takes.

use vstd::prelude::*;
use vstd::string::*;

use crate::events_write::{EventSource, EventsInsert, BATCH_CONTEXTS_ARG, CONTEXTS_ARG};
use crate::text::{joined, occurs, only_if, param};

verus! {

/// The columns that are written for an event.
pub open spec fn event_columns(with_context: bool) -> Seq<Seq<char>> {
    let columns = seq!["id"@].push("recorded_at"@).push("sequence"@).push("event_type"@).push(
        "event"@,
    );
    if with_context {
        columns.push("context"@)
    } else {
        columns
    }
}

/// What each of the columns takes: the id and the sequence of the source, the time
/// that is given or the current one, and the rest from the arrays.
pub open spec fn event_values(source: &EventSource, now: nat, with_context: bool) -> Seq<
    Seq<char>,
> {
    let values = seq![
        match source {
            EventSource::PerEntityStandalone { id_param, .. } => param(*id_param as nat),
            EventSource::PerEntityCte { cte, .. } => cte@ + ".id"@,
            _ => "unnested.id"@,
        },
    ].push("COALESCE("@ + param(now) + ", NOW())"@).push(
        match source {
            EventSource::PerEntityStandalone { offset_param, .. } => "ROW_NUMBER() OVER () + "@
                + param(*offset_param as nat),
            EventSource::PerEntityCte { offset_param: Some(p), .. } => "ROW_NUMBER() OVER () + "@
                + param(*p as nat),
            EventSource::PerEntityCte { offset_param: None, .. } => "ROW_NUMBER() OVER ()"@,
            _ => "unnested.sequence"@,
        },
    ).push("unnested.event_type"@).push("unnested.event"@);
    if with_context {
        values.push("unnested.context"@)
    } else {
        values
    }
}

/// The columns of the arrays.
pub open spec fn array_columns(batch: bool, with_context: bool) -> Seq<Seq<char>> {
    let columns = if batch {
        seq!["id"@].push("sequence"@).push("event_type"@).push("event"@)
    } else {
        seq!["event_type"@].push("event"@)
    };
    if with_context {
        columns.push("context"@)
    } else {
        columns
    }
}

/// The array that is given for a column.
pub open spec fn array_arg(batch: bool, column: Seq<char>) -> Seq<char> {
    if column == "id"@ {
        "&all_ids"@
    } else if column == "sequence"@ {
        "&all_sequences"@
    } else if column == "event_type"@ {
        if batch {
            "&all_types"@
        } else {
            "&events_types"@
        }
    } else if column == "event"@ {
        if batch {
            "&all_serialized"@
        } else {
            "&serialized_events"@
        }
    } else {
        if batch {
            BATCH_CONTEXTS_ARG@
        } else {
            CONTEXTS_ARG@
        }
    }
}

/// The type of the array for a column; the ids have one that the database infers.
pub open spec fn array_type(column: Seq<char>) -> Seq<char> {
    if column == "id"@ {
        ""@
    } else if column == "sequence"@ {
        "::INT[]"@
    } else if column == "event_type"@ {
        "::TEXT[]"@
    } else {
        "::JSONB[]"@
    }
}

/// The arrays from a parameter on, one for each column.
pub open spec fn arrays(columns: Seq<Seq<char>>, p: nat) -> Seq<Seq<char>> {
    Seq::new(columns.len(), |k: int| param((p + k) as nat) + array_type(columns[k]))
}

proof fn joined_push(parts: Seq<Seq<char>>, last: Seq<char>)
    requires
        parts.len() > 0,
    ensures
        joined(parts.push(last), ", "@) == joined(parts, ", "@) + ", "@ + last,
{
    assert(parts.push(last).drop_last() =~= parts);
}

/// An insert of events writes into each column what belongs there: the columns and
/// the values are in step.
pub proof fn events_are_recorded(insert: &EventsInsert, source: &EventSource, now: nat, p: nat)
    ensures
        insert.statement(source, now, p) == "INSERT INTO "@ + insert.events_table@ + " ("@ + joined(
            event_columns(insert.event_ctx),
            ", "@,
        ) + ") SELECT "@ + joined(event_values(source, now, insert.event_ctx), ", "@) + " "@
            + insert.from_clause(source, p) + " RETURNING recorded_at"@,
        event_columns(insert.event_ctx).len() == event_values(
            source,
            now,
            insert.event_ctx,
        ).len(),
{
    let ctx = insert.event_ctx;
    let columns = joined(event_columns(ctx), ", "@);
    let values = joined(event_values(source, now, ctx), ", "@);
    let v = event_values(source, now, false);
    assert(columns == "id, recorded_at, sequence, event_type, event"@ + insert.ctx_column()) by {
        joined_push(seq!["id"@], "recorded_at"@);
        joined_push(seq!["id"@].push("recorded_at"@), "sequence"@);
        joined_push(seq!["id"@].push("recorded_at"@).push("sequence"@), "event_type"@);
        joined_push(
            seq!["id"@].push("recorded_at"@).push("sequence"@).push("event_type"@),
            "event"@,
        );
        joined_push(event_columns(false), "context"@);
        reveal_strlit("id, recorded_at, sequence, event_type, event");
        reveal_strlit("id");
        reveal_strlit("recorded_at");
        reveal_strlit("sequence");
        reveal_strlit("event_type");
        reveal_strlit("event");
        reveal_strlit(", context");
        reveal_strlit("context");
        reveal_strlit(", ");
        assert("id, recorded_at, sequence, event_type, event"@ =~= "id"@ + ", "@ + "recorded_at"@
            + ", "@ + "sequence"@ + ", "@ + "event_type"@ + ", "@ + "event"@);
        assert(", context"@ =~= ", "@ + "context"@);
        assert(columns =~= "id, recorded_at, sequence, event_type, event"@ + insert.ctx_column());
    }
    assert(values == source.id_expr() + ", COALESCE("@ + param(now) + ", NOW()), "@
        + source.sequence_expr() + ", unnested.event_type, unnested.event"@ + only_if(
        ctx,
        ", unnested.context"@,
    )) by {
        joined_push(seq![v[0]], v[1]);
        joined_push(seq![v[0]].push(v[1]), v[2]);
        joined_push(seq![v[0]].push(v[1]).push(v[2]), v[3]);
        joined_push(seq![v[0]].push(v[1]).push(v[2]).push(v[3]), v[4]);
        joined_push(v, "unnested.context"@);
        assert(v =~= seq![v[0]].push(v[1]).push(v[2]).push(v[3]).push(v[4]));
        assert(v[0] == source.id_expr());
        assert(v[2] == source.sequence_expr());
        reveal_strlit(", COALESCE(");
        reveal_strlit("COALESCE(");
        reveal_strlit(", NOW()), ");
        reveal_strlit(", NOW())");
        reveal_strlit(", unnested.event_type, unnested.event");
        reveal_strlit("unnested.event_type");
        reveal_strlit("unnested.event");
        reveal_strlit(", unnested.context");
        reveal_strlit("unnested.context");
        reveal_strlit(", ");
        assert(", COALESCE("@ =~= ", "@ + "COALESCE("@);
        assert(", NOW()), "@ =~= ", NOW())"@ + ", "@);
        assert(", unnested.event_type, unnested.event"@ =~= ", "@ + "unnested.event_type"@ + ", "@
            + "unnested.event"@);
        assert(", unnested.context"@ =~= ", "@ + "unnested.context"@);
        assert(values =~= source.id_expr() + ", COALESCE("@ + param(now) + ", NOW()), "@
            + source.sequence_expr() + ", unnested.event_type, unnested.event"@ + only_if(
            ctx,
            ", unnested.context"@,
        ));
    }
    reveal_strlit(" (id, recorded_at, sequence, event_type, event");
    reveal_strlit(" (");
    reveal_strlit("id, recorded_at, sequence, event_type, event");
    assert(" (id, recorded_at, sequence, event_type, event"@ =~= " ("@
        + "id, recorded_at, sequence, event_type, event"@);
    statement_is_split(
        insert.events_table@,
        insert.ctx_column(),
        source.id_expr(),
        param(now),
        source.sequence_expr(),
        only_if(ctx, ", unnested.context"@),
        insert.from_clause(source, p),
    );
}

proof fn statement_is_split(
    table: Seq<char>,
    ctx_col: Seq<char>,
    id: Seq<char>,
    now: Seq<char>,
    sequence: Seq<char>,
    ctx_sel: Seq<char>,
    from: Seq<char>,
)
    requires
        " (id, recorded_at, sequence, event_type, event"@ == " ("@
            + "id, recorded_at, sequence, event_type, event"@,
    ensures
        crate::events_write::insert_events_code(table, ctx_col, id, now, sequence, ctx_sel, from)
            == "INSERT INTO "@ + table + " ("@ + ("id, recorded_at, sequence, event_type, event"@
            + ctx_col) + ") SELECT "@ + (id + ", COALESCE("@ + now + ", NOW()), "@ + sequence
            + ", unnested.event_type, unnested.event"@ + ctx_sel) + " "@ + from
            + " RETURNING recorded_at"@,
{
}

/// The arrays of an insert of events are in step with the columns that they are
/// read as, and with the arguments that are given for them: behind the time, and
/// behind the offset where there is one.
pub proof fn arrays_are_read(insert: &EventsInsert, source: &EventSource, p: nat, k: int)
    requires
        0 <= k < array_columns(source.batch(), insert.event_ctx).len(),
    ensures
        occurs(
            insert.from_clause(source, p),
            rows_read(array_columns(source.batch(), insert.event_ctx), p),
        ),
        insert.args(source)[0] == "op.maybe_now()"@,
        source.offset() is Some ==> insert.args(source)[1] == "offset as i32"@,
        insert.args(source)[k + (if source.offset() is Some {
            2int
        } else {
            1
        })] == array_arg(
            source.batch(),
            array_columns(source.batch(), insert.event_ctx)[k],
        ),
{
    names_differ();
    match source {
        EventSource::PerEntityStandalone { .. } => {
            entity_rows(insert, p, None);
        },
        EventSource::PerEntityCte { cte, .. } => {
            entity_rows(insert, p, Some(cte@));
        },
        EventSource::BatchStandalone => {
            batch_rows(insert, p, None);
        },
        EventSource::BatchCte { cte } => {
            batch_rows(insert, p, Some(cte@));
        },
    }
}

/// The arrays as they are read.
pub open spec fn rows_read(columns: Seq<Seq<char>>, p: nat) -> Seq<char> {
    "UNNEST("@ + joined(arrays(columns, p), ", "@) + ") AS unnested("@ + joined(columns, ", "@)
        + ")"@
}

proof fn batch_rows(insert: &EventsInsert, p: nat, cte: Option<Seq<char>>)
    ensures
        occurs(
            insert.batch_from(p, cte),
            rows_read(array_columns(true, insert.event_ctx), p),
        ),
{
    let columns = array_columns(true, insert.event_ctx);
    let given = joined(arrays(columns, p), ", "@);
    let named = ") AS unnested("@ + joined(columns, ", "@) + ")"@;
    let end = match cte {
        Some(cte) => " JOIN "@ + cte + " ON "@ + cte + ".id = unnested.id"@,
        None => Seq::empty(),
    };
    batch_arrays(insert, p);
    assert(rows_read(columns, p) =~= "UNNEST("@ + given + named);
    reveal_strlit("FROM UNNEST(");
    reveal_strlit("FROM ");
    reveal_strlit("UNNEST(");
    assert("FROM UNNEST("@ =~= "FROM "@ + "UNNEST("@);
    batch_is_grouped(
        param(p),
        param(p + 1),
        param(p + 2),
        param(p + 3),
        only_if(insert.event_ctx, ", "@ + param(p + 4) + "::JSONB[]"@),
        insert.ctx_column(),
        end,
    );
    assert(insert.batch_from(p, cte) == "FROM UNNEST("@ + given + named + end);
    assert("FROM UNNEST("@ + given + named + end =~= "FROM "@ + rows_read(columns, p) + end);
}

proof fn batch_is_grouped(
    ids: Seq<char>,
    sequences: Seq<char>,
    types: Seq<char>,
    events: Seq<char>,
    ctx_unnest: Seq<char>,
    ctx_col: Seq<char>,
    end: Seq<char>,
)
    ensures
        crate::events_write::unnest_batch_code(
            ids,
            sequences,
            types,
            events,
            ctx_unnest,
            ctx_col,
            end,
        ) == "FROM UNNEST("@ + (ids + ", "@ + sequences + "::INT[], "@ + types + "::TEXT[], "@
            + events + "::JSONB[]"@ + ctx_unnest) + (
        ") AS unnested(id, sequence, event_type, event"@ + ctx_col + ")"@) + end,
{
}

proof fn entity_rows(insert: &EventsInsert, p: nat, cte: Option<Seq<char>>)
    ensures
        occurs(
            insert.per_entity_from(p, cte),
            rows_read(array_columns(false, insert.event_ctx), p),
        ),
{
    let columns = array_columns(false, insert.event_ctx);
    let given = joined(arrays(columns, p), ", "@);
    let named = ") AS unnested("@ + joined(columns, ", "@) + ")"@;
    let front = "FROM "@ + (match cte {
        Some(cte) => cte + " CROSS JOIN "@,
        None => Seq::empty(),
    });
    entity_arrays(insert, p);
    assert(rows_read(columns, p) =~= "UNNEST("@ + given + named);
    assert(insert.per_entity_from(p, cte) =~= front + "UNNEST("@ + given + named);
    assert(front + "UNNEST("@ + given + named =~= front + rows_read(columns, p) + Seq::<
        char,
    >::empty());
}

proof fn names_differ()
    ensures
        "id"@ != "sequence"@,
        "id"@ != "event_type"@,
        "id"@ != "event"@,
        "id"@ != "context"@,
        "sequence"@ != "event_type"@,
        "sequence"@ != "event"@,
        "sequence"@ != "context"@,
        "event_type"@ != "event"@,
        "event_type"@ != "context"@,
        "event"@ != "context"@,
{
    reveal_strlit("id");
    reveal_strlit("sequence");
    reveal_strlit("event_type");
    reveal_strlit("event");
    reveal_strlit("context");
    assert("id"@.len() == 2 && "sequence"@.len() == 8 && "event_type"@.len() == 10 && "event"@.len()
        == 5 && "context"@.len() == 7);
}

#[verifier::spinoff_prover]
#[verifier::rlimit(40)]
proof fn entity_arrays(insert: &EventsInsert, p: nat)
    ensures
        ({
            let ctx = insert.event_ctx;
            let columns = array_columns(false, ctx);
            &&& joined(arrays(columns, p), ", "@) == param(p) + "::TEXT[], "@ + param(p + 1)
                + "::JSONB[]"@ + only_if(ctx, ", "@ + param(p + 2) + "::JSONB[]"@)
            &&& ") AS unnested("@ + joined(columns, ", "@) + ")"@
                == ") AS unnested(event_type, event"@ + insert.ctx_column() + ")"@
        }),
{
    let ctx = insert.event_ctx;
    let columns = array_columns(false, ctx);
    let first = param(p) + "::TEXT[]"@;
    let second = param(p + 1) + "::JSONB[]"@;
    let third = param(p + 2) + "::JSONB[]"@;
    names_differ();
    joined_push(seq![first], second);
    joined_push(seq![first].push(second), third);
    joined_push(seq!["event_type"@], "event"@);
    joined_push(seq!["event_type"@].push("event"@), "context"@);
    let all = arrays(columns, p);
    if ctx {
        assert(all =~= seq![first].push(second).push(third));
    } else {
        assert(all =~= seq![first].push(second));
    }
    reveal_strlit("::TEXT[], ");
    reveal_strlit("::TEXT[]");
    reveal_strlit(", ");
    reveal_strlit(", context");
    reveal_strlit("context");
    reveal_strlit(") AS unnested(event_type, event");
    reveal_strlit(") AS unnested(");
    reveal_strlit("event_type");
    reveal_strlit("event");
    assert("::TEXT[], "@ =~= "::TEXT[]"@ + ", "@);
    assert(", context"@ =~= ", "@ + "context"@);
    assert(") AS unnested(event_type, event"@ =~= ") AS unnested("@ + "event_type"@ + ", "@
        + "event"@);
    assert(joined(all, ", "@) =~= param(p) + "::TEXT[], "@ + param(p + 1) + "::JSONB[]"@ + only_if(
        ctx,
        ", "@ + param(p + 2) + "::JSONB[]"@,
    ));
    assert(") AS unnested("@ + joined(columns, ", "@) + ")"@ =~= ") AS unnested(event_type, event"@
        + insert.ctx_column() + ")"@);
}

#[verifier::spinoff_prover]
#[verifier::rlimit(40)]
proof fn batch_arrays(insert: &EventsInsert, p: nat)
    ensures
        ({
            let ctx = insert.event_ctx;
            let columns = array_columns(true, ctx);
            &&& joined(arrays(columns, p), ", "@) == param(p) + ", "@ + param(p + 1)
                + "::INT[], "@ + param(p + 2) + "::TEXT[], "@ + param(p + 3) + "::JSONB[]"@
                + only_if(ctx, ", "@ + param(p + 4) + "::JSONB[]"@)
            &&& ") AS unnested("@ + joined(columns, ", "@) + ")"@
                == ") AS unnested(id, sequence, event_type, event"@ + insert.ctx_column() + ")"@
        }),
{
    let ctx = insert.event_ctx;
    let columns = array_columns(true, ctx);
    reveal_strlit("");
    let a = param(p) + ""@;
    let b = param(p + 1) + "::INT[]"@;
    let c = param(p + 2) + "::TEXT[]"@;
    let d = param(p + 3) + "::JSONB[]"@;
    let e = param(p + 4) + "::JSONB[]"@;
    names_differ();
    joined_push(seq![a], b);
    joined_push(seq![a].push(b), c);
    joined_push(seq![a].push(b).push(c), d);
    joined_push(seq![a].push(b).push(c).push(d), e);
    joined_push(seq!["id"@], "sequence"@);
    joined_push(seq!["id"@].push("sequence"@), "event_type"@);
    joined_push(seq!["id"@].push("sequence"@).push("event_type"@), "event"@);
    joined_push(seq!["id"@].push("sequence"@).push("event_type"@).push("event"@), "context"@);
    let all = arrays(columns, p);
    if ctx {
        assert(all =~= seq![a].push(b).push(c).push(d).push(e));
    } else {
        assert(all =~= seq![a].push(b).push(c).push(d));
    }
    reveal_strlit("::INT[], ");
    reveal_strlit("::INT[]");
    reveal_strlit("::TEXT[], ");
    reveal_strlit("::TEXT[]");
    reveal_strlit(", ");
    reveal_strlit(", context");
    reveal_strlit("context");
    reveal_strlit(") AS unnested(id, sequence, event_type, event");
    reveal_strlit(") AS unnested(");
    reveal_strlit("id");
    reveal_strlit("sequence");
    reveal_strlit("event_type");
    reveal_strlit("event");
    assert("::INT[], "@ =~= "::INT[]"@ + ", "@);
    assert("::TEXT[], "@ =~= "::TEXT[]"@ + ", "@);
    assert(", context"@ =~= ", "@ + "context"@);
    assert(") AS unnested(id, sequence, event_type, event"@ =~= ") AS unnested("@ + "id"@ + ", "@
        + "sequence"@ + ", "@ + "event_type"@ + ", "@ + "event"@);
    assert(joined(all, ", "@) =~= param(p) + ", "@ + param(p + 1) + "::INT[], "@ + param(p + 2)
        + "::TEXT[], "@ + param(p + 3) + "::JSONB[]"@ + only_if(
        ctx,
        ", "@ + param(p + 4) + "::JSONB[]"@,
    ));
    assert(") AS unnested("@ + joined(columns, ", "@) + ")"@
        =~= ") AS unnested(id, sequence, event_type, event"@ + insert.ctx_column() + ")"@);
}

} // verus!
