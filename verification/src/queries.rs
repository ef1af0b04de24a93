//! Which function runs which query, and what the arguments of a query are.

use vstd::prelude::*;
use vstd::string::*;

use crate::filter_states::{ValueVirtualState, VirtualState};
use crate::filters_struct::Bound;
use crate::find_all_fn::FindAllFn;
use crate::find_by_fn::{FindByFn, FindCase};
use crate::list_by_fn::{CursorStruct, ListByFn};
use crate::list_for_filters_fn::{ListForFiltersFn, QueryCase};
use crate::list_for_fn::ListForFn;
use crate::listing::{in_scope, lives, variant_of};
use crate::options::column::Column;
use crate::options::delete::DeleteOption;
use crate::scope::ScopeCol;
use crate::scoping::{goes_by_scope, scopes_are_dispatched};
use crate::sql::{all_hold, written, Args, Expr, Record};
use crate::text::{
    ended, in_order, in_order_extended, joined, literal, occurs, occurs_extended, occurs_itself,
    occurs_within, param,
};

verus! {

/// Whether a text starts with another one.
pub open spec fn starts_with(text: Seq<char>, front: Seq<char>) -> bool {
    exists|rest: Seq<char>| text == #[trigger] (front + rest)
}

/// Whether a text ends with another one.
pub open spec fn ends_with(text: Seq<char>, end: Seq<char>) -> bool {
    exists|rest: Seq<char>| text == #[trigger] (rest + end)
}

/// Whether the code consists of the parts, one behind the other.
pub open spec fn consists_of(code: Seq<char>, parts: Seq<Seq<char>>) -> bool {
    code == joined(parts, "\n"@)
}

/// Whether a call runs the query with the arguments, each for the parameter of
/// its place.
pub open spec fn asks(call: Seq<char>, query: Seq<char>, args: Seq<Seq<char>>) -> bool {
    occurs(call, literal(query) + ",\n    "@ + joined(args, ", "@) + ","@)
}

/// A query for the rows that meet all its conditions.
pub struct FindQuery {
    pub table: Seq<char>,
    pub conditions: Seq<Expr>,
}

impl FindQuery {
    /// The query as it is written.
    pub open spec fn text(self) -> Seq<char> {
        "SELECT id FROM "@ + self.table + " WHERE "@ + joined(written(self.conditions), " AND "@)
    }

    /// Whether the query finds a row.
    pub open spec fn finds(self, row: Record, args: Args) -> bool {
        all_hold(self.conditions, row, args)
    }
}

/// The argument that a read is restricted by, where it is.
pub open spec fn scope_arg(scope: Option<ScopeCol>) -> Seq<Seq<char>> {
    match scope {
        Some(col) => seq!["__scope_val as &"@ + col.column_ty@],
        None => Seq::empty(),
    }
}

pub proof fn params_are_written()
    ensures
        param(1) == "$"@ + "1"@,
        param(2) == "$"@ + "2"@,
{
    reveal_with_fuel(crate::text::decimal, 1);
}

pub proof fn joined_two(a: Seq<char>, b: Seq<char>, sep: Seq<char>)
    ensures
        joined(seq![a, b], sep) == a + sep + b,
        joined(seq![a], sep) == a,
{
    assert(seq![a, b].drop_last() =~= seq![a]);
    reveal_with_fuel(joined, 2);
}

proof fn joined_three(a: Seq<char>, b: Seq<char>, c: Seq<char>, sep: Seq<char>)
    ensures
        joined(seq![a, b, c], sep) == a + sep + b + sep + c,
{
    joined_two(a, b, sep);
    assert(seq![a, b, c].drop_last() =~= seq![a, b]);
}

/// The function that finds an entity by a column finds the rows of the scope with
/// that value that are not deleted, and the deleted ones too where its name says
/// so.
pub proof fn find_by_finds(
    f: &FindByFn,
    maybe: bool,
    with_deleted: bool,
    scope: Option<ScopeCol>,
) -> (q: FindQuery)
    ensures
        f.query((FindCase { maybe, variant: variant_of(with_deleted) }), scope) == q.text(),
        q.table == f.table_name@,
        forall|row: Record, args: Args|
            #[trigger] q.finds(row, args) <==> args(1) is Some && (row.fields)(f.column.name@)
                == args(1) && in_scope(scope, 2, row, args) && lives(f.delete, with_deleted, row),
{
    let case = FindCase { maybe, variant: variant_of(with_deleted) };
    let name = f.column.name@;
    let value = Expr::Equal(name, 1);
    let front = match scope {
        Some(col) => seq![value, Expr::Equal(col.column_name@, 2)],
        None => seq![value],
    };
    let hides = f.delete != DeleteOption::No && !with_deleted;
    let conditions = if hides {
        front.push(Expr::Live)
    } else {
        front
    };
    let q = FindQuery { table: f.table_name@, conditions };
    params_are_written();
    reveal_strlit(" = $1");
    reveal_strlit(" = ");
    reveal_strlit("$");
    reveal_strlit("1");
    reveal_strlit("");
    assert(" = $1"@ =~= " = "@ + "$"@ + "1"@);
    let first = name + " = $1"@;
    assert(value.text() =~= first);
    let sep = " AND "@;
    match scope {
        Some(col) => {
            joined_two(value.text(), Expr::Equal(col.column_name@, 2).text(), sep);
            assert(written(front) =~= seq![first, col.condition(2)]);
        },
        None => {
            joined_two(value.text(), value.text(), sep);
            assert(written(front) =~= seq![first]);
        },
    }
    if hides {
        reveal_strlit(" AND deleted = FALSE");
        reveal_strlit(" AND ");
        reveal_strlit("deleted = FALSE");
        assert(" AND deleted = FALSE"@ =~= " AND "@ + "deleted = FALSE"@);
        assert(written(conditions) =~= written(front).push("deleted = FALSE"@));
        assert(written(conditions).drop_last() =~= written(front));
    }
    assert(f.query(case, scope) =~= q.text());
    assert forall|row: Record, args: Args|
        #[trigger] q.finds(row, args) <==> args(1) is Some && (row.fields)(name) == args(1)
            && in_scope(scope, 2, row, args) && lives(f.delete, with_deleted, row) by {
        assert(conditions[0].truth(row, args) == Some(true) <==> args(1) is Some && (row.fields)(
            name,
        ) == args(1));
        if scope is Some {
            assert(conditions[1].truth(row, args) == Some(true) <==> in_scope(
                scope,
                2,
                row,
                args,
            ));
        }
        if hides {
            let last = conditions.len() - 1;
            assert(conditions[last].truth(row, args) == Some(true) <==> !row.deleted);
        }
    }
    q
}

/// The function that finds an entity by a column runs its query with the value
/// for `$1` and the scope for `$2`. It gives nothing where there is no entity if
/// its name starts with `maybe_`, and fails otherwise.
pub proof fn find_by_asks(f: &FindByFn, maybe: bool, with_deleted: bool, scope: Option<ScopeCol>)
    ensures
        ({
            let case = FindCase { maybe, variant: variant_of(with_deleted) };
            let call = f.call(case, scope);
            &&& asks(
                call,
                f.query(case, scope),
                seq![f.column.name@ + " as &"@ + f.column.lookup_type()] + scope_arg(scope),
            )
            &&& ends_with(
                call,
                if maybe {
                    ".fetch_optional(op).await"@
                } else {
                    ".fetch_one(op).await"@
                },
            )
            &&& f.result_type(case) == (if maybe {
                "Option<"@ + f.entity@ + ">"@
            } else {
                f.entity@
            })
        }),
{
    let case = FindCase { maybe, variant: variant_of(with_deleted) };
    let call = f.call(case, scope);
    let value = f.column.name@ + " as &"@ + f.column.lookup_type();
    let args = seq![value] + scope_arg(scope);
    let query = literal(f.query(case, scope));
    let text = query + ",\n    "@ + joined(args, ", "@) + ","@;
    reveal_strlit(", ");
    reveal_strlit(",");
    reveal_strlit(" ");
    assert(", "@ =~= ","@ + " "@);
    let written_args = value + ","@ + (match scope {
        Some(col) => " "@ + col.arg(),
        None => Seq::empty(),
    });
    match scope {
        Some(col) => {
            let bound = "__scope_val as &"@ + col.column_ty@;
            assert(args =~= seq![value, bound]);
            joined_two(value, bound, ", "@);
        },
        None => {
            assert(args =~= seq![value]);
            joined_two(value, value, ", "@);
        },
    }
    assert(joined(args, ", "@) + ","@ =~= written_args);
    assert(text =~= query + ",\n    "@ + written_args);
    let subject = crate::list_by_fn::query_subject(crate::types::opt_str(f.prefix), f.entity@);
    let es_query = crate::list_by_fn::es_query_code(subject, ""@, ""@, query, written_args);
    query_is_split(subject, ""@, ""@, query, written_args);
    reveal_strlit(".");
    reveal_strlit("fetch_optional(op)");
    reveal_strlit("fetch_one(op)");
    reveal_strlit(".await");
    reveal_strlit(".fetch_optional(op).await");
    reveal_strlit(".fetch_one(op).await");
    assert(".fetch_optional(op).await"@ =~= "."@ + "fetch_optional(op)"@ + ".await"@);
    assert(".fetch_one(op).await"@ =~= "."@ + "fetch_one(op)"@ + ".await"@);
    let end = if maybe {
        ".fetch_optional(op).await"@
    } else {
        ".fetch_one(op).await"@
    };
    assert(call =~= es_query + end);
    occurs_extended(es_query, end, text);
}

proof fn query_is_split(
    subject: Seq<char>,
    forgettable: Seq<char>,
    extra: Seq<char>,
    query: Seq<char>,
    args: Seq<char>,
)
    ensures
        occurs(
            crate::list_by_fn::es_query_code(subject, forgettable, extra, query, args),
            query + ",\n    "@ + args,
        ),
{
    let front = "es_entity::es_query!(\n    "@ + subject + "\n    "@ + forgettable + "\n    "@
        + extra + "\n    "@;
    let text = query + ",\n    "@ + args;
    assert(crate::list_by_fn::es_query_code(subject, forgettable, extra, query, args) =~= front
        + text + "\n)"@);
}

/// The functions that find by a column are, for each that finds, one that fails
/// and one that gives nothing where there is no entity; each has its query in the
/// body that its name stands for, and what finds deleted entities too says so in
/// its name.
pub proof fn find_by_functions(f: &FindByFn) -> (parts: Seq<Seq<char>>)
    requires
        f.include_deleted_queries == (f.delete == DeleteOption::Soft),
    ensures
        consists_of(f.code(), parts),
        parts.len() == (if f.delete == DeleteOption::Soft {
            4nat
        } else {
            2nat
        }),
        forall|k: int|
            0 <= k < parts.len() ==> {
                let maybe = 2 * k >= parts.len();
                let with_deleted = f.delete == DeleteOption::Soft && k % 2 == 1;
                let case = FindCase { maybe, variant: variant_of(with_deleted) };
                let name = (if maybe {
                    "maybe_find_by_"@
                } else {
                    "find_by_"@
                }) + f.column.name@ + (if with_deleted {
                    "_include_deleted"@
                } else {
                    ""@
                });
                &&& starts_with(#[trigger] parts[k], "pub async fn "@ + name + "("@)
                &&& in_order(parts[k], "pub async fn "@ + name + "_in_op"@, f.find_code(case))
            },
{
    reveal(FindByFn::code);
    let parts = Seq::new(f.cases().len(), |i: int| f.case_code(f.cases()[i]));
    assert forall|k: int| 0 <= k < parts.len() implies {
        let maybe = 2 * k >= parts.len();
        let with_deleted = f.delete == DeleteOption::Soft && k % 2 == 1;
        let case = FindCase { maybe, variant: variant_of(with_deleted) };
        let name = (if maybe {
            "maybe_find_by_"@
        } else {
            "find_by_"@
        }) + f.column.name@ + (if with_deleted {
            "_include_deleted"@
        } else {
            ""@
        });
        &&& starts_with(#[trigger] parts[k], "pub async fn "@ + name + "("@)
        &&& in_order(parts[k], "pub async fn "@ + name + "_in_op"@, f.find_code(case))
    } by {
        let maybe = 2 * k >= parts.len();
        let with_deleted = f.delete == DeleteOption::Soft && k % 2 == 1;
        let case = FindCase { maybe, variant: variant_of(with_deleted) };
        let name = (if maybe {
            "maybe_find_by_"@
        } else {
            "find_by_"@
        }) + f.column.name@ + (if with_deleted {
            "_include_deleted"@
        } else {
            ""@
        });
        assert(f.cases()[k] == case);
        assert(name =~= f.fn_name(case)) by {
            reveal_strlit("maybe_find_by_");
            reveal_strlit("maybe_");
            reveal_strlit("find_by_");
            reveal_strlit("");
            assert("maybe_find_by_"@ =~= "maybe_"@ + "find_by_"@);
            assert(""@ + "find_by_"@ =~= "find_by_"@);
        }
        find_by_part(f, case);
    }
    parts
}

proof fn find_by_part(f: &FindByFn, case: FindCase)
    ensures
        starts_with(f.case_code(case), "pub async fn "@ + f.fn_name(case) + "("@),
        in_order(
            f.case_code(case),
            "pub async fn "@ + f.fn_name(case) + "_in_op"@,
            f.find_code(case),
        ),
{
    let code = f.case_code(case);
    let name = f.fn_name(case);
    let open = "pub async fn "@ + name;
    reveal_strlit("(\n    &self,\n    ");
    reveal_strlit("(");
    reveal_strlit("\n    &self,\n    ");
    assert("(\n    &self,\n    "@ =~= "("@ + "\n    &self,\n    "@);
    assert(open + "(\n    &self,\n    "@ =~= (open + "("@) + "\n    &self,\n    "@);
    starts_are_kept(f, case);
    let second = "\npub async fn "@ + (name + "_in_op"@);
    let inner = "pub async fn "@ + name + "_in_op"@;
    reveal_strlit("\npub async fn ");
    reveal_strlit("\n");
    reveal_strlit("pub async fn ");
    assert("\npub async fn "@ =~= "\n"@ + "pub async fn "@);
    assert(second =~= "\n"@ + inner + Seq::<char>::empty());
    assert(occurs(second, inner));
    let lead = "\npub async fn "@;
    let in_op = name + "_in_op"@;
    assert forall|t: Seq<char>| #[trigger] (t + lead + in_op) == t + second by {
        assert(t + lead + in_op =~= t + second);
    }
    assert(in_order(code, second, f.find_code(case))) by {
        broadcast use {in_order_extended, occurs_extended};

    }
    occurs_itself(f.find_code(case));
    crate::text::in_order_within(code, second, f.find_code(case), inner, f.find_code(case));
}

/// A text that starts with another one keeps doing so when more is put behind it.
pub broadcast proof fn starts_extended(text: Seq<char>, more: Seq<char>, front: Seq<char>)
    requires
        starts_with(text, front),
    ensures
        #[trigger] starts_with(text + more, front),
{
    let rest = choose|rest: Seq<char>| text == #[trigger] (front + rest);
    assert(text + more =~= front + (rest + more));
}

proof fn starts_are_kept(f: &FindByFn, case: FindCase)
    ensures
        starts_with(f.case_code(case), "pub async fn "@ + f.fn_name(case) + "("@),
{
    reveal_strlit("(\n    &self,\n    ");
    reveal_strlit("(");
    reveal_strlit("\n    &self,\n    ");
    let name = f.fn_name(case);
    let front = "pub async fn "@ + name + "("@;
    assert("(\n    &self,\n    "@ =~= "("@ + "\n    &self,\n    "@);
    let open = "pub async fn "@ + name + "(\n    &self,\n    "@;
    assert(open =~= front + "\n    &self,\n    "@);
    assert(starts_with(open, front));
    broadcast use starts_extended;

}

/// The query for several ids finds the rows of the scope with one of the ids, and
/// is run with the ids for `$1` and the scope for `$2`. It gives no more entities
/// than there are ids.
pub proof fn find_all_asks(f: &FindAllFn, scope: Option<ScopeCol>)
    ensures
        f.query(scope) == "SELECT id FROM "@ + f.table_name@ + " WHERE id = ANY($1)"@ + (
        match scope {
            Some(col) => " AND "@ + col.column_name@ + " = $2"@,
            None => Seq::empty(),
        }),
        asks(
            f.call(scope),
            f.query(scope),
            seq!["ids as &["@ + f.id@ + "]"@] + scope_arg(scope),
        ),
        ends_with(f.call(scope), ".fetch_n(op, ids.len()).await?"@),
        in_order(f.code(), "pub async fn find_all_in_op"@, f.find_code()),
        in_order(
            f.code(),
            f.find_code(),
            "Ok(entities.into_iter().map(|u| (u.id.clone(), Out::from(u))).collect())"@,
        ),
{
    params_are_written();
    reveal_strlit(" = $2");
    reveal_strlit(" = ");
    reveal_strlit("$");
    reveal_strlit("2");
    assert(" = $2"@ =~= " = "@ + "$"@ + "2"@);
    let query = literal(f.query(scope));
    let ids = "ids as &["@ + f.id@ + "]"@;
    let args = seq![ids] + scope_arg(scope);
    reveal_strlit(", ");
    reveal_strlit(",");
    reveal_strlit(" ");
    reveal_strlit("]");
    reveal_strlit("],");
    assert(", "@ =~= ","@ + " "@);
    assert("],"@ =~= "]"@ + ","@);
    let written_args = "ids as &["@ + f.id@ + "],"@ + (match scope {
        Some(col) => " "@ + col.arg(),
        None => Seq::empty(),
    });
    match scope {
        Some(col) => {
            let bound = "__scope_val as &"@ + col.column_ty@;
            assert(args =~= seq![ids, bound]);
            joined_two(ids, bound, ", "@);
        },
        None => {
            assert(args =~= seq![ids]);
            joined_two(ids, ids, ", "@);
        },
    }
    assert(joined(args, ", "@) + ","@ =~= written_args);
    let text = query + ",\n    "@ + joined(args, ", "@) + ","@;
    assert(text =~= query + ",\n    "@ + written_args);
    let subject = crate::list_by_fn::query_subject(crate::types::opt_str(f.prefix), f.entity@);
    query_is_split(subject, ""@, ""@, query, written_args);
    let es_query = crate::list_by_fn::es_query_code(subject, ""@, ""@, query, written_args);
    occurs_extended(es_query, ".fetch_n(op, ids.len()).await?"@, text);
    assert(f.query(scope) =~= "SELECT id FROM "@ + f.table_name@ + " WHERE id = ANY($1)"@ + (
    match scope {
        Some(col) => " AND "@ + col.column_name@ + " = $2"@,
        None => Seq::empty(),
    }));
    find_all_part(f);
}

proof fn find_all_part(f: &FindAllFn)
    ensures
        in_order(f.code(), "pub async fn find_all_in_op"@, f.find_code()),
        in_order(
            f.code(),
            f.find_code(),
            "Ok(entities.into_iter().map(|u| (u.id.clone(), Out::from(u))).collect())"@,
        ),
{
    reveal(FindAllFn::code);
    let code = f.code();
    let find = f.find_code();
    let lead = "\npub async fn find_all_in_op "@;
    let name = "pub async fn find_all_in_op"@;
    let end = ";\n    Ok(entities.into_iter().map(|u| (u.id.clone(), Out::from(u))).collect())\n}"@;
    let last = "Ok(entities.into_iter().map(|u| (u.id.clone(), Out::from(u))).collect())"@;
    assert(in_order(code, lead, find) && in_order(code, find, end)) by {
        broadcast use {in_order_extended, occurs_extended};

    }
    assert(occurs(lead, name)) by {
        reveal_strlit("\npub async fn find_all_in_op ");
        reveal_strlit("pub async fn find_all_in_op");
        reveal_strlit("\n");
        reveal_strlit(" ");
        assert(lead =~= "\n"@ + name + " "@);
    }
    assert(occurs(end, last)) by {
        reveal_strlit(
            ";\n    Ok(entities.into_iter().map(|u| (u.id.clone(), Out::from(u))).collect())\n}",
        );
        reveal_strlit("Ok(entities.into_iter().map(|u| (u.id.clone(), Out::from(u))).collect())");
        reveal_strlit(";\n    ");
        reveal_strlit("\n}");
        assert(end =~= ";\n    "@ + last + "\n}"@);
    }
    occurs_itself(find);
    crate::text::in_order_within(code, lead, find, name, find);
    crate::text::in_order_within(code, find, end, find, last);
}

/// The arguments of the query for a page: one more than the number of entities,
/// which tells whether there is a next page, and the id and the value of the
/// cursor.
pub open spec fn page_args(c: Column, id: Seq<char>) -> Seq<Seq<char>> {
    let front = seq!["(first + 1) as i64"@, "id as Option<"@ + id + ">"@];
    if c.opts.is_id {
        front
    } else if c.optional() {
        front.push(c.name@ + " as "@ + c.opts.ty.text@)
    } else {
        front.push(c.name@ + " as Option<"@ + c.opts.ty.text@ + ">"@)
    }
}

proof fn page_args_are_written(cursor: &CursorStruct)
    ensures
        cursor.query_args() == joined(page_args(*cursor.column, cursor.id@), ", "@) + ","@,
{
    let c = *cursor.column;
    let args = page_args(c, cursor.id@);
    let first = "(first + 1) as i64"@;
    let id = "id as Option<"@ + cursor.id@ + ">"@;
    reveal_strlit("(first + 1) as i64, ");
    reveal_strlit("(first + 1) as i64");
    reveal_strlit(", ");
    reveal_strlit(",");
    reveal_strlit(">");
    reveal_strlit(">,");
    reveal_strlit(">, ");
    assert("(first + 1) as i64, "@ =~= "(first + 1) as i64"@ + ", "@);
    assert(">,"@ =~= ">"@ + ","@);
    assert(">, "@ =~= ">"@ + ", "@);
    if c.opts.is_id {
        joined_two(first, id, ", "@);
        assert(args =~= seq![first, id]);
    } else {
        joined_three(first, id, args[2], ", "@);
        assert(args =~= seq![first, id, args[2]]);
    }
    assert(cursor.query_args() =~= joined(args, ", "@) + ","@);
}

proof fn ended_then_joined(a: Seq<Seq<char>>, b: Seq<Seq<char>>, sep: Seq<char>)
    requires
        b.len() > 0,
    ensures
        ended(a, sep) + joined(b, sep) == joined(a + b, sep),
    decreases b.len(),
{
    if b.len() == 1 {
        ended_then_one(a, b[0], sep);
        assert(a + b =~= a.push(b[0]));
    } else {
        ended_then_joined(a, b.drop_last(), sep);
        assert((a + b).drop_last() =~= a + b.drop_last());
        let front = joined(b.drop_last(), sep);
        assert(ended(a, sep) + (front + sep + b.last()) =~= (ended(a, sep) + front) + sep
            + b.last());
    }
}

proof fn ended_then_one(a: Seq<Seq<char>>, last: Seq<char>, sep: Seq<char>)
    ensures
        ended(a, sep) + last == joined(a.push(last), sep),
    decreases a.len(),
{
    assert(a.push(last).drop_last() =~= a);
    if a.len() == 0 {
        assert(ended(a, sep) + last =~= last);
    } else {
        let front = a.drop_last();
        ended_then_one(front, a.last(), sep);
        assert(front.push(a.last()) =~= a);
    }
}

proof fn call_asks(
    subject: Seq<char>,
    forgettable: Seq<char>,
    extra: Seq<char>,
    query: Seq<char>,
    before: Seq<Seq<char>>,
    cursor: &CursorStruct,
)
    ensures
        asks(
            crate::list_by_fn::es_query_code(
                subject,
                forgettable,
                extra,
                literal(query),
                ended(before, ", "@) + cursor.query_args(),
            ),
            query,
            before + page_args(*cursor.column, cursor.id@),
        ),
{
    let page = page_args(*cursor.column, cursor.id@);
    page_args_are_written(cursor);
    ended_then_joined(before, page, ", "@);
    let args = ended(before, ", "@) + cursor.query_args();
    query_is_split(subject, forgettable, extra, literal(query), args);
    assert(args =~= joined(before + page, ", "@) + ","@);
    assert(literal(query) + ",\n    "@ + args =~= literal(query) + ",\n    "@ + joined(
        before + page,
        ", "@,
    ) + ","@);
}

proof fn ended_few(a: Seq<char>, b: Seq<char>)
    ensures
        ended(Seq::empty(), ", "@) == Seq::<char>::empty(),
        ended(seq![a], ", "@) == a + ", "@,
        ended(seq![a, b], ", "@) == a + ", "@ + b + ", "@,
{
    reveal_with_fuel(ended, 3);
    assert(seq![a].drop_last() =~= Seq::<Seq<char>>::empty());
    assert(seq![a, b].drop_last() =~= seq![a]);
    assert(ended(seq![a], ", "@) =~= a + ", "@);
    assert(ended(seq![a, b], ", "@) =~= a + ", "@ + b + ", "@);
}

/// The query of a list that is sorted by a column is run with the scope for `$1`,
/// where there is one, and with the page for the parameters behind it.
pub proof fn list_by_asks(
    f: &ListByFn,
    with_deleted: bool,
    scope: Option<ScopeCol>,
    ascending: bool,
)
    ensures
        asks(
            f.call(variant_of(with_deleted), scope, ascending),
            f.query(variant_of(with_deleted), scope, ascending),
            scope_arg(scope) + page_args(*f.column, f.id@),
        ),
{
    let variant = variant_of(with_deleted);
    let cursor = f.cursor_spec();
    let query = f.query(variant, scope, ascending);
    let before = scope_arg(scope);
    call_asks(
        crate::list_by_fn::query_subject(crate::types::opt_str(f.ignore_prefix), f.entity@),
        crate::list_by_fn::forgettable_arg(crate::types::opt_str(f.forgettable_table_name)),
        crate::text::only_if(f.is_root, "root = true,"@),
        query,
        before,
        &cursor,
    );
    reveal_strlit(", ");
    reveal_strlit(",");
    reveal_strlit(" ");
    assert(", "@ =~= ","@ + " "@);
    if let Some(col) = scope {
        let bound = "__scope_val as &"@ + col.column_ty@;
        ended_few(bound, bound);
        assert(before =~= seq![bound]);
        assert(ended(before, ", "@) =~= col.arg() + " "@);
    } else {
        ended_few(Seq::empty(), Seq::empty());
        assert(before =~= Seq::<Seq<char>>::empty());
    }
}

/// The query of a list for a value of a column is run with the value for `$1`,
/// with the scope for `$2`, where there is one, and with the page for the
/// parameters behind them.
pub proof fn list_for_asks(
    f: &ListForFn,
    with_deleted: bool,
    scope: Option<ScopeCol>,
    ascending: bool,
)
    ensures
        asks(
            f.call(variant_of(with_deleted), scope, ascending),
            f.query(variant_of(with_deleted), scope, ascending),
            seq!["filter_"@ + f.for_column.name@ + " as &"@ + f.for_column.lookup_type()]
                + scope_arg(scope) + page_args(*f.by_column, f.id@),
        ),
{
    let variant = variant_of(with_deleted);
    let cursor = f.cursor_spec();
    let query = f.query(variant, scope, ascending);
    let value = "filter_"@ + f.for_column.name@ + " as &"@ + f.for_column.lookup_type();
    let before = seq![value] + scope_arg(scope);
    call_asks(
        crate::list_by_fn::query_subject(crate::types::opt_str(f.ignore_prefix), f.entity@),
        crate::list_by_fn::forgettable_arg(crate::types::opt_str(f.forgettable_table_name)),
        ""@,
        query,
        before,
        &cursor,
    );
    reveal_strlit(", ");
    reveal_strlit(",");
    reveal_strlit(" ");
    assert(", "@ =~= ","@ + " "@);
    if let Some(col) = scope {
        let bound = "__scope_val as &"@ + col.column_ty@;
        ended_few(value, bound);
        assert(before =~= seq![value, bound]);
        assert(ended(before, ", "@) + cursor.query_args() =~= value + ", "@ + (col.arg() + " "@)
            + cursor.query_args());
    } else {
        ended_few(value, value);
        assert(before =~= seq![value]);
        assert(ended(before, ", "@) + cursor.query_args() =~= value + ", "@ + Seq::<char>::empty()
            + cursor.query_args());
    }
}

/// The query of a list for a combination of filters is run with what it binds,
/// each for its parameter, and with the page for the parameters behind that.
pub proof fn list_for_filters_asks(
    f: &ListForFiltersFn,
    case: QueryCase,
    front: Bound,
    virtuals: Seq<VirtualState>,
    values: Seq<ValueVirtualState>,
)
    ensures
        asks(
            f.call(case, front, virtuals, values),
            f.query(case, front, virtuals, values),
            f.rest_bound(case, front, virtuals, values).1 + page_args(*case.by, f.id@),
        ),
{
    let cursor = f.cursor_spec(*case.by);
    call_asks(
        crate::list_by_fn::query_subject(crate::types::opt_str(f.ignore_prefix), f.entity@),
        crate::list_by_fn::forgettable_arg(crate::types::opt_str(f.forgettable_table_name)),
        crate::filters_code::snapshot_arg(crate::types::opt_str(f.snapshot_table_name)),
        f.query(case, front, virtuals, values),
        f.rest_bound(case, front, virtuals, values).1,
        &cursor,
    );
}

/// The check of every entity that was read by the hook for entities that were
/// read.
pub open spec fn hydration_check(error: Seq<char>) -> Seq<char> {
    "for __entity in &entities {\n    self.execute_post_hydrate_hook(__entity).map_err("@ + error
        + "::PostHydrateError)?;\n}"@
}

pub proof fn opens_with_name(name: Seq<char>)
    ensures
        starts_with("pub async fn "@ + name + "(\n    &self,\n    "@, "pub async fn "@ + name + "("@),
{
    reveal_strlit("(\n    &self,\n    ");
    reveal_strlit("(");
    reveal_strlit("\n    &self,\n    ");
    assert("(\n    &self,\n    "@ =~= "("@ + "\n    &self,\n    "@);
    assert("pub async fn "@ + name + "(\n    &self,\n    "@ =~= ("pub async fn "@ + name + "("@)
        + "\n    &self,\n    "@);
}

proof fn opens_with_cursor(name: Seq<char>)
    ensures
        starts_with(
            "pub async fn "@ + name + "(\n    &self,\n    cursor: es_entity::PaginatedQueryArgs<"@,
            "pub async fn "@ + name + "("@,
        ),
{
    let rest = "\n    &self,\n    cursor: es_entity::PaginatedQueryArgs<"@;
    reveal_strlit("(\n    &self,\n    cursor: es_entity::PaginatedQueryArgs<");
    reveal_strlit("(");
    reveal_strlit("\n    &self,\n    cursor: es_entity::PaginatedQueryArgs<");
    assert("(\n    &self,\n    cursor: es_entity::PaginatedQueryArgs<"@ =~= "("@ + rest);
    assert("pub async fn "@ + name + "(\n    &self,\n    cursor: es_entity::PaginatedQueryArgs<"@
        =~= ("pub async fn "@ + name + "("@) + rest);
}

proof fn second_is_named(in_op: Seq<char>)
    ensures
        occurs("\npub async fn "@ + in_op, "pub async fn "@ + in_op),
        occurs("\n}\npub async fn "@ + in_op, "pub async fn "@ + in_op),
{
    reveal_strlit("\npub async fn ");
    reveal_strlit("\n}\npub async fn ");
    reveal_strlit("\n");
    reveal_strlit("\n}\n");
    reveal_strlit("pub async fn ");
    assert("\npub async fn "@ =~= "\n"@ + "pub async fn "@);
    assert("\n}\npub async fn "@ =~= "\n}\n"@ + "pub async fn "@);
    let none = Seq::<char>::empty();
    assert("\npub async fn "@ + in_op =~= "\n"@ + ("pub async fn "@ + in_op) + none);
    assert("\n}\npub async fn "@ + in_op =~= "\n}\n"@ + ("pub async fn "@ + in_op) + none);
}

pub proof fn calls_in_op(in_op: Seq<char>)
    ensures
        occurs("> {\n    self."@ + in_op + "("@, "self."@ + in_op + "("@),
{
    reveal_strlit("> {\n    self.");
    reveal_strlit("> {\n    ");
    reveal_strlit("self.");
    assert("> {\n    self."@ =~= "> {\n    "@ + "self."@);
    assert("> {\n    self."@ + in_op + "("@ =~= "> {\n    "@ + ("self."@ + in_op + "("@)
        + Seq::<char>::empty());
}

proof fn directions_are_told(up: Seq<char>, down: Seq<char>)
    ensures
        ({
            let arms = crate::list_by_fn::direction_match_code(
                crate::list_by_fn::direction_arm_code("Ascending"@, up) + "\n"@
                    + crate::list_by_fn::direction_arm_code("Descending"@, down),
            );
            &&& starts_with(arms, "match direction {"@)
            &&& in_order(
                arms,
                "es_entity::ListDirection::Ascending => {\n    "@ + up
                    + ".fetch_n(op, first).await?"@,
                "es_entity::ListDirection::Descending => {\n    "@ + down
                    + ".fetch_n(op, first).await?"@,
            )
        }),
{
    let arms = crate::list_by_fn::direction_match_code(
        crate::list_by_fn::direction_arm_code("Ascending"@, up) + "\n"@
            + crate::list_by_fn::direction_arm_code("Descending"@, down),
    );
    let first = "es_entity::ListDirection::Ascending => {\n    "@ + up
        + ".fetch_n(op, first).await?"@;
    let second = "es_entity::ListDirection::Descending => {\n    "@ + down
        + ".fetch_n(op, first).await?"@;
    reveal_strlit("es_entity::ListDirection::");
    reveal_strlit("Ascending");
    reveal_strlit("Descending");
    reveal_strlit(" => {\n    ");
    reveal_strlit("es_entity::ListDirection::Ascending => {\n    ");
    reveal_strlit("es_entity::ListDirection::Descending => {\n    ");
    reveal_strlit(".fetch_n(op, first).await?\n},");
    reveal_strlit(".fetch_n(op, first).await?");
    reveal_strlit("\n},");
    reveal_strlit("match direction {\n    ");
    reveal_strlit("match direction {");
    reveal_strlit("\n    ");
    assert("es_entity::ListDirection::Ascending => {\n    "@ =~= "es_entity::ListDirection::"@
        + "Ascending"@ + " => {\n    "@);
    assert("es_entity::ListDirection::Descending => {\n    "@ =~= "es_entity::ListDirection::"@
        + "Descending"@ + " => {\n    "@);
    assert(".fetch_n(op, first).await?\n},"@ =~= ".fetch_n(op, first).await?"@ + "\n},"@);
    assert("match direction {\n    "@ =~= "match direction {"@ + "\n    "@);
    let end = "\n},"@;
    assert(crate::list_by_fn::direction_arm_code("Ascending"@, up) =~= first + end);
    assert(crate::list_by_fn::direction_arm_code("Descending"@, down) =~= second + end);
    let before = "match direction {"@ + "\n    "@ + first + end + "\n"@;
    assert(arms =~= before + second + (end + "\n}"@));
    assert(before =~= ("match direction {"@ + "\n    "@) + first + (end + "\n"@));
    assert(occurs(before, first));
    assert(arms =~= "match direction {"@ + ("\n    "@ + first + end + "\n"@ + second + (end
        + "\n}"@)));
}

proof fn delegate_calls(name: Seq<char>, in_op: Seq<char>, a: Seq<char>, b: Seq<char>)
    requires
        starts_with(a, "(self.scope, "@),
        starts_with(b, "(op, self.scope, "@),
    ensures
        occurs("> {\n    self.repo."@ + name + a, "self.repo."@ + name + "(self.scope, "@),
        occurs("\n{\n    self.repo."@ + in_op + b, "self.repo."@ + in_op + "(op, self.scope, "@),
{
    let x = choose|rest: Seq<char>| a == #[trigger] ("(self.scope, "@ + rest);
    let y = choose|rest: Seq<char>| b == #[trigger] ("(op, self.scope, "@ + rest);
    reveal_strlit("> {\n    self.repo.");
    reveal_strlit("> {\n    ");
    reveal_strlit("\n{\n    self.repo.");
    reveal_strlit("\n{\n    ");
    reveal_strlit("self.repo.");
    assert("> {\n    self.repo."@ =~= "> {\n    "@ + "self.repo."@);
    assert("\n{\n    self.repo."@ =~= "\n{\n    "@ + "self.repo."@);
    assert("> {\n    self.repo."@ + name + a =~= "> {\n    "@ + ("self.repo."@ + name
        + "(self.scope, "@) + x);
    assert("\n{\n    self.repo."@ + in_op + b =~= "\n{\n    "@ + ("self.repo."@ + in_op
        + "(op, self.scope, "@) + y);
}

proof fn delegate_literals()
    ensures
        starts_with("(self.scope, cursor, direction).await\n}\npub async fn "@, "(self.scope, "@),
        ends_with("(self.scope, cursor, direction).await\n}\npub async fn "@, "pub async fn "@),
        ends_with(", cursor, direction).await\n}\npub async fn "@, "pub async fn "@),
        starts_with("(op, self.scope, cursor, direction).await\n}"@, "(op, self.scope, "@),
        starts_with("(self.scope, "@, "(self.scope, "@),
        starts_with("(op, self.scope, "@, "(op, self.scope, "@),
{
    reveal_strlit("(self.scope, cursor, direction).await\n}\npub async fn ");
    reveal_strlit("(self.scope, cursor, direction).await\n}\n");
    reveal_strlit("cursor, direction).await\n}\npub async fn ");
    reveal_strlit(", cursor, direction).await\n}\npub async fn ");
    reveal_strlit(", cursor, direction).await\n}\n");
    reveal_strlit("(self.scope, ");
    reveal_strlit("pub async fn ");
    reveal_strlit("(op, self.scope, cursor, direction).await\n}");
    reveal_strlit("(op, self.scope, ");
    reveal_strlit("cursor, direction).await\n}");
    assert("(self.scope, cursor, direction).await\n}\npub async fn "@ =~= "(self.scope, "@
        + "cursor, direction).await\n}\npub async fn "@);
    assert("(self.scope, cursor, direction).await\n}\npub async fn "@
        =~= "(self.scope, cursor, direction).await\n}\n"@ + "pub async fn "@);
    assert(", cursor, direction).await\n}\npub async fn "@ =~= ", cursor, direction).await\n}\n"@
        + "pub async fn "@);
    assert("(op, self.scope, cursor, direction).await\n}"@ =~= "(op, self.scope, "@
        + "cursor, direction).await\n}"@);
    let none = Seq::<char>::empty();
    assert("(self.scope, "@ =~= "(self.scope, "@ + none);
    assert("(op, self.scope, "@ =~= "(op, self.scope, "@ + none);
}

/// Whether the code is that of a list with that name: a function for callers
/// without a connection, which calls the other, and one that makes the choice
/// between the queries, checks what it read where that is asked for, and hands it
/// out.
#[verifier::opaque]
pub open spec fn is_list(
    code: Seq<char>,
    name: Seq<char>,
    choice: Seq<char>,
    check: Option<Seq<char>>,
) -> bool {
    let end = "let end_cursor = entities.last().map("@;
    &&& starts_with(code, "pub async fn "@ + name + "("@)
    &&& occurs(code, "self."@ + name + "_in_op("@)
    &&& in_order(code, "pub async fn "@ + name + "_in_op"@, choice)
    &&& in_order(code, choice, end)
    &&& check matches Some(check) ==> in_order(code, choice, check) && in_order(code, check, end)
}

proof fn makes_list(code: Seq<char>, name: Seq<char>, choice: Seq<char>, hook: Seq<char>)
    requires
        starts_with(code, "pub async fn "@ + name + "("@),
        occurs(code, "> {\n    self."@ + (name + "_in_op"@) + "("@),
        in_order(code, "\npub async fn "@ + (name + "_in_op"@), choice),
        in_order(code, choice, "\n        let end_cursor = entities.last().map("@),
        in_order(code, choice, hook),
        in_order(code, hook, "\n        let end_cursor = entities.last().map("@),
    ensures
        is_list(code, name, choice, Some(hook)),
        is_list(code, name, choice, None),
{
    reveal(is_list);
    let in_op = name + "_in_op"@;
    calls_in_op(in_op);
    second_is_named(in_op);
    let lead = "\npub async fn "@ + in_op;
    let this = "> {\n    self."@ + in_op + "("@;
    let last = "\n        let end_cursor = entities.last().map("@;
    let end = "let end_cursor = entities.last().map("@;
    assert(occurs(last, end)) by {
        reveal_strlit("\n        let end_cursor = entities.last().map(");
        reveal_strlit("let end_cursor = entities.last().map(");
        reveal_strlit("\n        ");
        assert(last =~= "\n        "@ + end + Seq::<char>::empty());
    }
    occurs_within(code, this, "self."@ + in_op + "("@);
    assert("self."@ + in_op + "("@ =~= "self."@ + name + "_in_op("@) by {
        reveal_strlit("_in_op");
        reveal_strlit("_in_op(");
        reveal_strlit("(");
        assert("_in_op("@ =~= "_in_op"@ + "("@);
    }
    occurs_itself(choice);
    occurs_itself(hook);
    crate::text::in_order_within(code, lead, choice, "pub async fn "@ + in_op, choice);
    assert("pub async fn "@ + in_op =~= "pub async fn "@ + name + "_in_op"@);
    crate::text::in_order_within(code, choice, last, choice, end);
    crate::text::in_order_within(code, hook, last, hook, end);
}

/// The functions that list entities sorted by a column are one that leaves deleted entities
/// out, and where deleted entities can be listed one that says so in its name.
/// Each chooses its query by the scope and the direction, and checks what it read
/// before it hands it out.
pub proof fn list_by_functions(f: &ListByFn) -> (parts: Seq<Seq<char>>)
    ensures
        consists_of(f.code(), parts),
        parts.len() == (if f.delete == DeleteOption::Soft {
            2nat
        } else {
            1nat
        }),
        forall|k: int|
            0 <= k < parts.len() ==> is_list(
                #[trigger] parts[k],
                "list_by_"@ + f.column.name@ + (if k == 1 {
                    "_include_deleted"@
                } else {
                    ""@
                }),
                f.match_code(variant_of(k == 1)),
                if f.post_hydrate_error is Some {
                    Some(hydration_check(f.query_error@))
                } else {
                    None
                },
            ),
{
    list_by_is_joined(f);
    list_by_part(f, false);
    list_by_part(f, true);
    list_by_parts(f)
}

/// The functions, variant by variant.
spec fn list_by_parts(f: &ListByFn) -> Seq<Seq<char>> {
    let live = f.variant_code(variant_of(false));
    if f.delete == DeleteOption::Soft {
        seq![live, f.variant_code(variant_of(true))]
    } else {
        seq![live]
    }
}

proof fn list_by_is_joined(f: &ListByFn)
    ensures
        consists_of(f.code(), list_by_parts(f)),
{
    reveal(ListByFn::code);
    let variants = f.delete.variants();
    let parts = Seq::new(variants.len(), |i: int| f.variant_code(variants[i]));
    assert(parts =~= list_by_parts(f));
}

proof fn list_by_starts(f: &ListByFn, variant: DeleteOption)
    ensures
        starts_with(f.variant_code(variant), "pub async fn "@ + f.fn_name(variant) + "("@),
{
    reveal(ListByFn::variant_code);
    opens_with_name(f.fn_name(variant));
    broadcast use starts_extended;

}

proof fn list_by_calls(f: &ListByFn, variant: DeleteOption)
    ensures
        occurs(
            f.variant_code(variant),
            "> {\n    self."@ + (f.fn_name(variant) + "_in_op"@) + "("@,
        ),
{
    reveal(ListByFn::variant_code);
    let in_op = f.fn_name(variant) + "_in_op"@;
    let this = "> {\n    self."@ + in_op + "("@;
    assert forall|t: Seq<char>| #[trigger] (t + "> {\n    self."@ + in_op + "("@) == t + this by {
        assert(t + "> {\n    self."@ + in_op + "("@ =~= t + this);
    }
    broadcast use occurs_extended;

}

proof fn list_by_named(f: &ListByFn, variant: DeleteOption)
    ensures
        in_order(
            f.variant_code(variant),
            "\npub async fn "@ + (f.fn_name(variant) + "_in_op"@),
            f.match_code(variant),
        ),
{
    reveal(ListByFn::variant_code);
    let in_op = f.fn_name(variant) + "_in_op"@;
    let lead = "\npub async fn "@ + in_op;
    assert forall|t: Seq<char>| #[trigger] (t + "\npub async fn "@ + in_op) == t + lead by {
        assert(t + "\npub async fn "@ + in_op =~= t + lead);
    }
    broadcast use {in_order_extended, occurs_extended};

}

proof fn list_by_orders(f: &ListByFn, variant: DeleteOption)
    ensures
        ({
            let code = f.variant_code(variant);
            let choice = f.match_code(variant);
            let hook = crate::text::only_if(
                f.post_hydrate_error is Some,
                crate::post_hydrate_hook::check_all_hydrated_code(f.query_error@),
            );
            let last = "\n        let end_cursor = entities.last().map("@;
            &&& in_order(code, "\npub async fn "@ + (f.fn_name(variant) + "_in_op"@), choice)
            &&& in_order(code, choice, last)
            &&& in_order(code, choice, hook)
            &&& in_order(code, hook, last)
        }),
{
    reveal(ListByFn::variant_code);
    list_by_named(f, variant);
    broadcast use {in_order_extended, occurs_extended};

}

proof fn list_by_part(f: &ListByFn, with_deleted: bool)
    ensures
        is_list(
            f.variant_code(variant_of(with_deleted)),
            "list_by_"@ + f.column.name@ + (if with_deleted {
                "_include_deleted"@
            } else {
                ""@
            }),
            f.match_code(variant_of(with_deleted)),
            if f.post_hydrate_error is Some {
                Some(hydration_check(f.query_error@))
            } else {
                None
            },
        ),
{
    let variant = variant_of(with_deleted);
    list_by_starts(f, variant);
    list_by_calls(f, variant);
    list_by_orders(f, variant);
    let check = crate::post_hydrate_hook::check_all_hydrated_code(f.query_error@);
    assert(check == hydration_check(f.query_error@));
    let name = "list_by_"@ + f.column.name@ + (if with_deleted {
        "_include_deleted"@
    } else {
        ""@
    });
    assert(name == f.fn_name(variant));
    makes_list(
        f.variant_code(variant),
        name,
        f.match_code(variant),
        crate::text::only_if(f.post_hydrate_error is Some, check),
    );
}

/// The query is chosen by the direction that is asked for.
pub proof fn list_by_directions(f: &ListByFn, with_deleted: bool, scope: Option<ScopeCol>)
    ensures
        ({
            let variant = variant_of(with_deleted);
            let arms = f.arms(variant, scope);
            &&& starts_with(arms, "match direction {"@)
            &&& in_order(
                arms,
                "es_entity::ListDirection::Ascending => {\n    "@ + f.call(variant, scope, true)
                    + ".fetch_n(op, first).await?"@,
                "es_entity::ListDirection::Descending => {\n    "@ + f.call(variant, scope, false)
                    + ".fetch_n(op, first).await?"@,
            )
        }),
{
    let variant = variant_of(with_deleted);
    directions_are_told(f.call(variant, scope, true), f.call(variant, scope, false));
}

/// The query is chosen by the scope: without scopes, and where no restriction is
/// asked for, it is the one that is not restricted.
pub proof fn list_by_scopes(f: &ListByFn, with_deleted: bool)
    ensures
        goes_by_scope(
            f.match_code(variant_of(with_deleted)),
            f.scope,
            f.arms(variant_of(with_deleted), None),
            match f.scope {
                Some(info) => Seq::new(
                    info.cols.len() as nat,
                    |i: int| f.arms(variant_of(with_deleted), Some(info.cols@[i])),
                ),
                None => Seq::empty(),
            },
        ),
{
    let variant = variant_of(with_deleted);
    if let Some(info) = f.scope {
        scopes_are_dispatched(
            &info,
            f.arms(variant, None),
            Seq::new(info.cols.len() as nat, |i: int| f.arms(variant, Some(info.cols@[i]))),
        );
    }
}

/// In the view that is bound to a scope the functions hand on the scope that it
/// is bound to.
pub proof fn list_by_delegates(f: &ListByFn) -> (parts: Seq<Seq<char>>)
    requires
        f.scope is Some,
    ensures
        consists_of(f.delegates(), parts),
        parts.len() == (if f.delete == DeleteOption::Soft {
            2nat
        } else {
            1nat
        }),
        forall|k: int|
            0 <= k < parts.len() ==> {
                let name = "list_by_"@ + f.column.name@ + (if k == 1 {
                    "_include_deleted"@
                } else {
                    ""@
                });
                &&& starts_with(#[trigger] parts[k], "pub async fn "@ + name + "("@)
                &&& occurs(parts[k], "self.repo."@ + name + "(self.scope, "@)
                &&& in_order(
                    parts[k],
                    "pub async fn "@ + name + "_in_op"@,
                    "self.repo."@ + name + "_in_op(op, self.scope, "@,
                )
            },
{
    reveal(ListByFn::delegates);
    let parts = Seq::new(
        f.delete.variants().len(),
        |i: int| f.delegate_code(f.delete.variants()[i]),
    );
    assert forall|k: int| 0 <= k < parts.len() implies {
        let name = "list_by_"@ + f.column.name@ + (if k == 1 {
            "_include_deleted"@
        } else {
            ""@
        });
        &&& starts_with(#[trigger] parts[k], "pub async fn "@ + name + "("@)
        &&& occurs(parts[k], "self.repo."@ + name + "(self.scope, "@)
        &&& in_order(
            parts[k],
            "pub async fn "@ + name + "_in_op"@,
            "self.repo."@ + name + "_in_op(op, self.scope, "@,
        )
    } by {
        assert(f.delete.variants()[k] == variant_of(k == 1));
        list_by_delegate(f, k == 1);
    }
    parts
}

proof fn list_by_delegate(f: &ListByFn, with_deleted: bool)
    ensures
        ({
            let code = f.delegate_code(variant_of(with_deleted));
            let name = "list_by_"@ + f.column.name@ + (if with_deleted {
                "_include_deleted"@
            } else {
                ""@
            });
            &&& starts_with(code, "pub async fn "@ + name + "("@)
            &&& occurs(code, "self.repo."@ + name + "(self.scope, "@)
            &&& in_order(
                code,
                "pub async fn "@ + name + "_in_op"@,
                "self.repo."@ + name + "_in_op(op, self.scope, "@,
            )
        }),
{
    let variant = variant_of(with_deleted);
    let name = f.fn_name(variant);
    let in_op = name + "_in_op"@;
    assert(name =~= "list_by_"@ + f.column.name@ + (if with_deleted {
        "_include_deleted"@
    } else {
        ""@
    }));
    let code = f.delegate_code(variant);
    let a = "(self.scope, cursor, direction).await\n}\npub async fn "@;
    let b = "(op, self.scope, cursor, direction).await\n}"@;
    let l = "(self.scope, cursor, direction).await\n}\npub async fn "@;
    list_by_delegate_calls(f, variant);
    list_by_delegate_starts(f, variant);
    delegate_literals();
    delegate_calls(name, in_op, a, b);
    let first_call = "> {\n    self.repo."@ + name + a;
    let lead = l + in_op;
    let second_call = "\n{\n    self.repo."@ + in_op + b;
    assert(occurs(lead, "pub async fn "@ + in_op)) by {
        let x = choose|x: Seq<char>| l == #[trigger] (x + "pub async fn "@);
        assert(lead =~= x + ("pub async fn "@ + in_op) + Seq::<char>::empty());
    }
    occurs_within(code, first_call, "self.repo."@ + name + "(self.scope, "@);
    crate::text::in_order_within(
        code,
        lead,
        second_call,
        "pub async fn "@ + in_op,
        "self.repo."@ + in_op + "(op, self.scope, "@,
    );
    assert("pub async fn "@ + in_op =~= "pub async fn "@ + name + "_in_op"@);
    assert("self.repo."@ + in_op + "(op, self.scope, "@ =~= "self.repo."@ + name
        + "_in_op(op, self.scope, "@) by {
        reveal_strlit("_in_op");
        reveal_strlit("_in_op(op, self.scope, ");
        reveal_strlit("(op, self.scope, ");
        assert("_in_op(op, self.scope, "@ =~= "_in_op"@ + "(op, self.scope, "@);
    }
}

proof fn list_by_delegate_starts(f: &ListByFn, variant: DeleteOption)
    ensures
        starts_with(f.delegate_code(variant), "pub async fn "@ + f.fn_name(variant) + "("@),
{
    opens_with_cursor(f.fn_name(variant));
    broadcast use starts_extended;

}

proof fn list_by_delegate_calls(f: &ListByFn, variant: DeleteOption)
    ensures
        ({
            let code = f.delegate_code(variant);
            let name = f.fn_name(variant);
            let in_op = name + "_in_op"@;
            &&& occurs(code, "> {\n    self.repo."@ + name + "(self.scope, cursor, direction).await\n}\npub async fn "@)
            &&& in_order(
                code,
                "(self.scope, cursor, direction).await\n}\npub async fn "@ + in_op,
                "\n{\n    self.repo."@ + in_op + "(op, self.scope, cursor, direction).await\n}"@,
            )
        }),
{
    let name = f.fn_name(variant);
    let in_op = name + "_in_op"@;
    let a = "(self.scope, cursor, direction).await\n}\npub async fn "@;
    let b = "(op, self.scope, cursor, direction).await\n}"@;
    let l = "(self.scope, cursor, direction).await\n}\npub async fn "@;
    let code = f.delegate_code(variant);
    let first_call = "> {\n    self.repo."@ + name + a;
    let lead = l + in_op;
    let second_call = "\n{\n    self.repo."@ + in_op + b;
    assert(occurs(code, first_call)) by {
        assert forall|t: Seq<char>|
            #[trigger] (t + "> {\n    self.repo."@ + name + a) == t + first_call by {
            assert(t + "> {\n    self.repo."@ + name + a =~= t + first_call);
        }
        broadcast use occurs_extended;

    }
    assert(in_order(code, lead, second_call)) by {
        assert forall|t: Seq<char>|
            #[trigger] (t + "\n{\n    self.repo."@ + in_op + b) == t + second_call by {
            assert(t + "\n{\n    self.repo."@ + in_op + b =~= t + second_call);
        }
        assert forall|t: Seq<char>| #[trigger] (t + l + in_op) == t + lead by {
            assert(t + l + in_op =~= t + lead);
        }
        broadcast use {in_order_extended, occurs_extended};

    }
}

/// The functions that list the entities with a value of a column are one that
/// leaves deleted entities out, and where deleted entities can be listed one that
/// says so in its name. Each chooses its query by the scope and the direction, and
/// checks what it read before it hands it out.
pub proof fn list_for_functions(f: &ListForFn) -> (parts: Seq<Seq<char>>)
    ensures
        consists_of(f.code(), parts),
        parts.len() == (if f.delete == DeleteOption::Soft {
            2nat
        } else {
            1nat
        }),
        forall|k: int|
            0 <= k < parts.len() ==> is_list(
                #[trigger] parts[k],
                "list_for_"@ + f.for_column.name@ + "_by_"@ + f.by_column.name@ + (if k == 1 {
                    "_include_deleted"@
                } else {
                    ""@
                }),
                f.match_code(variant_of(k == 1)),
                if f.post_hydrate_error is Some {
                    Some(hydration_check(f.query_error@))
                } else {
                    None
                },
            ),
{
    list_for_is_joined(f);
    list_for_part(f, false);
    list_for_part(f, true);
    list_for_parts(f)
}

/// The functions, variant by variant.
spec fn list_for_parts(f: &ListForFn) -> Seq<Seq<char>> {
    let live = f.variant_code(variant_of(false));
    if f.delete == DeleteOption::Soft {
        seq![live, f.variant_code(variant_of(true))]
    } else {
        seq![live]
    }
}

proof fn list_for_is_joined(f: &ListForFn)
    ensures
        consists_of(f.code(), list_for_parts(f)),
{
    reveal(ListForFn::code);
    let variants = f.delete.variants();
    let parts = Seq::new(variants.len(), |i: int| f.variant_code(variants[i]));
    assert(parts =~= list_for_parts(f));
}

proof fn list_for_starts(f: &ListForFn, variant: DeleteOption)
    ensures
        starts_with(f.variant_code(variant), "pub async fn "@ + f.fn_name(variant) + "("@),
{
    reveal(ListForFn::variant_code);
    opens_with_name(f.fn_name(variant));
    broadcast use starts_extended;

}

proof fn list_for_calls(f: &ListForFn, variant: DeleteOption)
    ensures
        occurs(
            f.variant_code(variant),
            "> {\n    self."@ + (f.fn_name(variant) + "_in_op"@) + "("@,
        ),
{
    reveal(ListForFn::variant_code);
    let in_op = f.fn_name(variant) + "_in_op"@;
    let this = "> {\n    self."@ + in_op + "("@;
    assert forall|t: Seq<char>| #[trigger] (t + "> {\n    self."@ + in_op + "("@) == t + this by {
        assert(t + "> {\n    self."@ + in_op + "("@ =~= t + this);
    }
    broadcast use occurs_extended;

}

proof fn list_for_named(f: &ListForFn, variant: DeleteOption)
    ensures
        in_order(
            f.variant_code(variant),
            "\npub async fn "@ + (f.fn_name(variant) + "_in_op"@),
            f.match_code(variant),
        ),
{
    reveal(ListForFn::variant_code);
    let in_op = f.fn_name(variant) + "_in_op"@;
    let lead = "\npub async fn "@ + in_op;
    assert forall|t: Seq<char>| #[trigger] (t + "\npub async fn "@ + in_op) == t + lead by {
        assert(t + "\npub async fn "@ + in_op =~= t + lead);
    }
    broadcast use {in_order_extended, occurs_extended};

}

proof fn list_for_orders(f: &ListForFn, variant: DeleteOption)
    ensures
        ({
            let code = f.variant_code(variant);
            let choice = f.match_code(variant);
            let hook = crate::text::only_if(
                f.post_hydrate_error is Some,
                crate::post_hydrate_hook::check_all_hydrated_code(f.query_error@),
            );
            let last = "\n        let end_cursor = entities.last().map("@;
            &&& in_order(code, "\npub async fn "@ + (f.fn_name(variant) + "_in_op"@), choice)
            &&& in_order(code, choice, last)
            &&& in_order(code, choice, hook)
            &&& in_order(code, hook, last)
        }),
{
    reveal(ListForFn::variant_code);
    list_for_named(f, variant);
    broadcast use {in_order_extended, occurs_extended};

}

proof fn list_for_part(f: &ListForFn, with_deleted: bool)
    ensures
        is_list(
            f.variant_code(variant_of(with_deleted)),
            "list_for_"@ + f.for_column.name@ + "_by_"@ + f.by_column.name@ + (if with_deleted {
                "_include_deleted"@
            } else {
                ""@
            }),
            f.match_code(variant_of(with_deleted)),
            if f.post_hydrate_error is Some {
                Some(hydration_check(f.query_error@))
            } else {
                None
            },
        ),
{
    let variant = variant_of(with_deleted);
    list_for_starts(f, variant);
    list_for_calls(f, variant);
    list_for_orders(f, variant);
    let check = crate::post_hydrate_hook::check_all_hydrated_code(f.query_error@);
    assert(check == hydration_check(f.query_error@));
    let name = "list_for_"@ + f.for_column.name@ + "_by_"@ + f.by_column.name@ + (if with_deleted {
        "_include_deleted"@
    } else {
        ""@
    });
    assert(name == f.fn_name(variant));
    makes_list(
        f.variant_code(variant),
        name,
        f.match_code(variant),
        crate::text::only_if(f.post_hydrate_error is Some, check),
    );
}

/// The query is chosen by the direction that is asked for.
pub proof fn list_for_directions(f: &ListForFn, with_deleted: bool, scope: Option<ScopeCol>)
    ensures
        ({
            let variant = variant_of(with_deleted);
            let arms = f.arms(variant, scope);
            &&& starts_with(arms, "match direction {"@)
            &&& in_order(
                arms,
                "es_entity::ListDirection::Ascending => {\n    "@ + f.call(variant, scope, true)
                    + ".fetch_n(op, first).await?"@,
                "es_entity::ListDirection::Descending => {\n    "@ + f.call(variant, scope, false)
                    + ".fetch_n(op, first).await?"@,
            )
        }),
{
    let variant = variant_of(with_deleted);
    directions_are_told(f.call(variant, scope, true), f.call(variant, scope, false));
}

/// The query is chosen by the scope: without scopes, and where no restriction is
/// asked for, it is the one that is not restricted.
pub proof fn list_for_scopes(f: &ListForFn, with_deleted: bool)
    ensures
        goes_by_scope(
            f.match_code(variant_of(with_deleted)),
            f.scope,
            f.arms(variant_of(with_deleted), None),
            match f.scope {
                Some(info) => Seq::new(
                    info.cols.len() as nat,
                    |i: int| f.arms(variant_of(with_deleted), Some(info.cols@[i])),
                ),
                None => Seq::empty(),
            },
        ),
{
    let variant = variant_of(with_deleted);
    if let Some(info) = f.scope {
        scopes_are_dispatched(
            &info,
            f.arms(variant, None),
            Seq::new(info.cols.len() as nat, |i: int| f.arms(variant, Some(info.cols@[i]))),
        );
    }
}

/// In the view that is bound to a scope the functions hand on the scope that it
/// is bound to.
pub proof fn list_for_delegates(f: &ListForFn) -> (parts: Seq<Seq<char>>)
    requires
        f.scope is Some,
    ensures
        consists_of(f.delegates(), parts),
        parts.len() == (if f.delete == DeleteOption::Soft {
            2nat
        } else {
            1nat
        }),
        forall|k: int|
            0 <= k < parts.len() ==> {
                let name = "list_for_"@ + f.for_column.name@ + "_by_"@ + f.by_column.name@ + (if k == 1 {
                    "_include_deleted"@
                } else {
                    ""@
                });
                &&& starts_with(#[trigger] parts[k], "pub async fn "@ + name + "("@)
                &&& occurs(parts[k], "self.repo."@ + name + "(self.scope, "@)
                &&& in_order(
                    parts[k],
                    "pub async fn "@ + name + "_in_op"@,
                    "self.repo."@ + name + "_in_op(op, self.scope, "@,
                )
            },
{
    reveal(ListForFn::delegates);
    let parts = Seq::new(
        f.delete.variants().len(),
        |i: int| f.delegate_code(f.delete.variants()[i]),
    );
    assert forall|k: int| 0 <= k < parts.len() implies {
        let name = "list_for_"@ + f.for_column.name@ + "_by_"@ + f.by_column.name@ + (if k == 1 {
            "_include_deleted"@
        } else {
            ""@
        });
        &&& starts_with(#[trigger] parts[k], "pub async fn "@ + name + "("@)
        &&& occurs(parts[k], "self.repo."@ + name + "(self.scope, "@)
        &&& in_order(
            parts[k],
            "pub async fn "@ + name + "_in_op"@,
            "self.repo."@ + name + "_in_op(op, self.scope, "@,
        )
    } by {
        assert(f.delete.variants()[k] == variant_of(k == 1));
        list_for_delegate(f, k == 1);
    }
    parts
}

proof fn list_for_delegate(f: &ListForFn, with_deleted: bool)
    ensures
        ({
            let code = f.delegate_code(variant_of(with_deleted));
            let name = "list_for_"@ + f.for_column.name@ + "_by_"@ + f.by_column.name@ + (if with_deleted {
                "_include_deleted"@
            } else {
                ""@
            });
            &&& starts_with(code, "pub async fn "@ + name + "("@)
            &&& occurs(code, "self.repo."@ + name + "(self.scope, "@)
            &&& in_order(
                code,
                "pub async fn "@ + name + "_in_op"@,
                "self.repo."@ + name + "_in_op(op, self.scope, "@,
            )
        }),
{
    let variant = variant_of(with_deleted);
    let name = f.fn_name(variant);
    let in_op = name + "_in_op"@;
    assert(name =~= "list_for_"@ + f.for_column.name@ + "_by_"@ + f.by_column.name@ + (if with_deleted {
        "_include_deleted"@
    } else {
        ""@
    }));
    let code = f.delegate_code(variant);
    let a = "(self.scope, "@;
    let b = "(op, self.scope, "@;
    let l = ", cursor, direction).await\n}\npub async fn "@;
    list_for_delegate_calls(f, variant);
    list_for_delegate_starts(f, variant);
    delegate_literals();
    delegate_calls(name, in_op, a, b);
    let first_call = "> {\n    self.repo."@ + name + a;
    let lead = l + in_op;
    let second_call = "\n{\n    self.repo."@ + in_op + b;
    assert(occurs(lead, "pub async fn "@ + in_op)) by {
        let x = choose|x: Seq<char>| l == #[trigger] (x + "pub async fn "@);
        assert(lead =~= x + ("pub async fn "@ + in_op) + Seq::<char>::empty());
    }
    occurs_within(code, first_call, "self.repo."@ + name + "(self.scope, "@);
    crate::text::in_order_within(
        code,
        lead,
        second_call,
        "pub async fn "@ + in_op,
        "self.repo."@ + in_op + "(op, self.scope, "@,
    );
    assert("pub async fn "@ + in_op =~= "pub async fn "@ + name + "_in_op"@);
    assert("self.repo."@ + in_op + "(op, self.scope, "@ =~= "self.repo."@ + name
        + "_in_op(op, self.scope, "@) by {
        reveal_strlit("_in_op");
        reveal_strlit("_in_op(op, self.scope, ");
        reveal_strlit("(op, self.scope, ");
        assert("_in_op(op, self.scope, "@ =~= "_in_op"@ + "(op, self.scope, "@);
    }
}

proof fn list_for_delegate_starts(f: &ListForFn, variant: DeleteOption)
    ensures
        starts_with(f.delegate_code(variant), "pub async fn "@ + f.fn_name(variant) + "("@),
{
    opens_with_name(f.fn_name(variant));
    broadcast use starts_extended;

}

proof fn list_for_delegate_calls(f: &ListForFn, variant: DeleteOption)
    ensures
        ({
            let code = f.delegate_code(variant);
            let name = f.fn_name(variant);
            let in_op = name + "_in_op"@;
            &&& occurs(code, "> {\n    self.repo."@ + name + "(self.scope, "@)
            &&& in_order(
                code,
                ", cursor, direction).await\n}\npub async fn "@ + in_op,
                "\n{\n    self.repo."@ + in_op + "(op, self.scope, "@,
            )
        }),
{
    let name = f.fn_name(variant);
    let in_op = name + "_in_op"@;
    let a = "(self.scope, "@;
    let b = "(op, self.scope, "@;
    let l = ", cursor, direction).await\n}\npub async fn "@;
    let code = f.delegate_code(variant);
    let first_call = "> {\n    self.repo."@ + name + a;
    let lead = l + in_op;
    let second_call = "\n{\n    self.repo."@ + in_op + b;
    assert(occurs(code, first_call)) by {
        assert forall|t: Seq<char>|
            #[trigger] (t + "> {\n    self.repo."@ + name + a) == t + first_call by {
            assert(t + "> {\n    self.repo."@ + name + a =~= t + first_call);
        }
        broadcast use occurs_extended;

    }
    assert(in_order(code, lead, second_call)) by {
        assert forall|t: Seq<char>|
            #[trigger] (t + "\n{\n    self.repo."@ + in_op + b) == t + second_call by {
            assert(t + "\n{\n    self.repo."@ + in_op + b =~= t + second_call);
        }
        assert forall|t: Seq<char>| #[trigger] (t + l + in_op) == t + lead by {
            assert(t + l + in_op =~= t + lead);
        }
        broadcast use {in_order_extended, occurs_extended};

    }
}

} // verus!
