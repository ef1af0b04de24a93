//! What the functions that find entities give, and how they go by the scope.

use vstd::prelude::*;
use vstd::string::*;

use crate::choosing::hands_on;
use crate::find_all_fn::FindAllFn;
use crate::find_by_fn::{FindByFn, FindCase};
use crate::listing::variant_of;
use crate::options::delete::DeleteOption;
use crate::queries::{consists_of, ends_with, starts_extended, starts_with};
use crate::scope::ScopeCol;
use crate::scoping::{goes_by_scope, scopes_are_dispatched};
use crate::text::{
    in_order, in_order_extended, in_order_within, occurs, occurs_extended, occurs_within,
};

verus! {

/// A function that may find nothing asks for at most one entity and gives nothing
/// where there is none; any other asks for one entity and fails.
pub proof fn find_by_gives(f: &FindByFn, case: FindCase, scope: Option<ScopeCol>)
    ensures
        ends_with(
            f.call(case, scope),
            if case.maybe {
                ".fetch_optional(op).await"@
            } else {
                ".fetch_one(op).await"@
            },
        ),
        f.result_type(case) == (if case.maybe {
            "Option<"@ + f.entity@ + ">"@
        } else {
            f.entity@
        }),
{
    let query = crate::list_by_fn::es_query_code(
        crate::list_by_fn::query_subject(crate::types::opt_str(f.prefix), f.entity@),
        ""@,
        ""@,
        crate::text::literal(f.query(case, scope)),
        f.column.name@ + " as &"@ + f.column.lookup_type() + ","@ + (match scope {
            Some(col) => " "@ + col.arg(),
            None => Seq::empty(),
        }),
    );
    reveal_strlit(".");
    reveal_strlit(".await");
    reveal_strlit("fetch_optional(op)");
    reveal_strlit("fetch_one(op)");
    reveal_strlit(".fetch_optional(op).await");
    reveal_strlit(".fetch_one(op).await");
    if case.maybe {
        assert(f.call(case, scope) =~= query + ".fetch_optional(op).await"@);
    } else {
        assert(f.call(case, scope) =~= query + ".fetch_one(op).await"@);
    }
}

/// The query is chosen by the scope: without scopes, and where no restriction is
/// asked for, it is the one that is not restricted.
pub proof fn find_by_scopes(f: &FindByFn, case: FindCase)
    ensures
        goes_by_scope(
            f.find_code(case),
            f.scope,
            f.call(case, None),
            match f.scope {
                Some(info) => Seq::new(
                    info.cols.len() as nat,
                    |i: int| f.call(case, Some(info.cols@[i])),
                ),
                None => Seq::empty(),
            },
        ),
{
    if let Some(info) = f.scope {
        scopes_are_dispatched(
            &info,
            f.call(case, None),
            Seq::new(info.cols.len() as nat, |i: int| f.call(case, Some(info.cols@[i]))),
        );
    }
}

/// The query for several ids is chosen by the scope as well.
pub proof fn find_all_scopes(f: &FindAllFn)
    ensures
        goes_by_scope(
            f.find_code(),
            f.scope,
            f.call(None),
            match f.scope {
                Some(info) => Seq::new(
                    info.cols.len() as nat,
                    |i: int| f.call(Some(info.cols@[i])),
                ),
                None => Seq::empty(),
            },
        ),
{
    if let Some(info) = f.scope {
        scopes_are_dispatched(
            &info,
            f.call(None),
            Seq::new(info.cols.len() as nat, |i: int| f.call(Some(info.cols@[i]))),
        );
    }
}

/// The name of a function that finds by a column.
pub open spec fn find_name(f: &FindByFn, maybe: bool, with_deleted: bool) -> Seq<char> {
    (if maybe {
        "maybe_find_by_"@
    } else {
        "find_by_"@
    }) + f.column.name@ + (if with_deleted {
        "_include_deleted"@
    } else {
        ""@
    })
}

/// In the view that is bound to a scope there are the same functions that find by
/// a column, and each hands on the scope that the view is bound to.
pub proof fn find_by_delegates(f: &FindByFn) -> (parts: Seq<Seq<char>>)
    requires
        f.scope is Some,
        f.include_deleted_queries == (f.delete == DeleteOption::Soft),
    ensures
        consists_of(f.delegates(), parts),
        parts.len() == (if f.delete == DeleteOption::Soft {
            4nat
        } else {
            2nat
        }),
        forall|k: int|
            0 <= k < parts.len() ==> hands_on(
                #[trigger] parts[k],
                find_name(f, 2 * k >= parts.len(), f.delete == DeleteOption::Soft && k % 2 == 1),
                true,
                f.column.name@ + ").await"@,
            ),
{
    reveal(FindByFn::delegates);
    let parts = Seq::new(f.cases().len(), |i: int| f.delegate_code(f.cases()[i]));
    assert forall|k: int| 0 <= k < parts.len() implies hands_on(
        #[trigger] parts[k],
        find_name(f, 2 * k >= parts.len(), f.delete == DeleteOption::Soft && k % 2 == 1),
        true,
        f.column.name@ + ").await"@,
    ) by {
        let maybe = 2 * k >= parts.len();
        let with_deleted = f.delete == DeleteOption::Soft && k % 2 == 1;
        let case = FindCase { maybe, variant: variant_of(with_deleted) };
        assert(f.cases()[k] == case);
        let name = find_name(f, maybe, with_deleted);
        assert(name =~= f.fn_name(case)) by {
            reveal_strlit("maybe_find_by_");
            reveal_strlit("maybe_");
            reveal_strlit("find_by_");
            reveal_strlit("");
            assert("maybe_find_by_"@ =~= "maybe_"@ + "find_by_"@);
        }
        delegates_hand_on(
            name,
            f.column.name@,
            f.column.lookup_param(),
            f.result_type(case),
            f.error@,
            crate::options::repository::query_generics(f.any_nested),
            crate::options::repository::query_op_arg(f.any_nested),
            crate::options::repository::query_op_traits(f.any_nested),
        );
    }
    parts
}

proof fn delegates_hand_on(
    name: Seq<char>,
    column: Seq<char>,
    ty: Seq<char>,
    result: Seq<char>,
    error: Seq<char>,
    generics: Seq<char>,
    op: Seq<char>,
    traits: Seq<char>,
)
    ensures
        hands_on(
            crate::find_by_fn::find_by_delegates_code(
                name,
                name + "_in_op"@,
                column,
                ty,
                result,
                error,
                generics,
                op,
                traits,
            ),
            name,
            true,
            column + ").await"@,
        ),
{
    let in_op = name + "_in_op"@;
    let code = crate::find_by_fn::find_by_delegates_code(
        name,
        in_op,
        column,
        ty,
        result,
        error,
        generics,
        op,
        traits,
    );
    let args = column + ").await"@;
    let first_end = ").await\n}\npub async fn "@;
    let last_end = ").await\n}"@;
    let first = "> {\n    self.repo."@ + name + "(self.scope, "@ + column;
    let lead = first_end + in_op;
    let second = "\n{\n    self.repo."@ + in_op + "(op, self.scope, "@ + column + last_end;
    assert(starts_with(code, "pub async fn "@ + name + "("@)) by {
        crate::queries::opens_with_name(name);
        broadcast use starts_extended;

    }
    assert(in_order(code, first + lead, second)) by {
        assert forall|t: Seq<char>| #[trigger]
            (t + "> {\n    self.repo."@ + name + "(self.scope, "@ + column + first_end + in_op) == t
                + (first + lead) by {
            assert(t + "> {\n    self.repo."@ + name + "(self.scope, "@ + column + first_end + in_op
                =~= t + (first + lead));
        }
        assert forall|t: Seq<char>| #[trigger]
            (t + "\n{\n    self.repo."@ + in_op + "(op, self.scope, "@ + column + last_end) == t
                + second by {
            assert(t + "\n{\n    self.repo."@ + in_op + "(op, self.scope, "@ + column + last_end
                =~= t + second);
        }
        broadcast use {in_order_extended, occurs_extended};

    }
    reveal_strlit("> {\n    self.repo.");
    reveal_strlit("> {\n    ");
    reveal_strlit("self.repo.");
    reveal_strlit("\n{\n    self.repo.");
    reveal_strlit("\n{\n    ");
    reveal_strlit(").await\n}\npub async fn ");
    reveal_strlit(").await");
    reveal_strlit("\n}\n");
    reveal_strlit("pub async fn ");
    reveal_strlit(").await\n}");
    reveal_strlit("\n}");
    reveal_strlit("_in_op(op, self.scope, ");
    reveal_strlit("_in_op");
    reveal_strlit("(op, self.scope, ");
    assert("> {\n    self.repo."@ =~= "> {\n    "@ + "self.repo."@);
    assert("\n{\n    self.repo."@ =~= "\n{\n    "@ + "self.repo."@);
    assert(first_end =~= ").await"@ + "\n}\n"@ + "pub async fn "@);
    assert(last_end =~= ").await"@ + "\n}"@);
    assert("_in_op(op, self.scope, "@ =~= "_in_op"@ + "(op, self.scope, "@);
    let call = "self.repo."@ + name + "(self.scope, "@ + args;
    let named = "pub async fn "@ + name + "_in_op"@;
    let call_in_op = "self.repo."@ + name + "_in_op(op, self.scope, "@ + args;
    assert(first + lead =~= "> {\n    "@ + call + ("\n}\n"@ + named));
    assert(first + lead =~= ("> {\n    "@ + call + "\n}\n"@) + named + Seq::<char>::empty());
    assert(second =~= "\n{\n    "@ + call_in_op + "\n}"@);
    assert(occurs(first + lead, call));
    assert(occurs(first + lead, named));
    assert(occurs(second, call_in_op));
    in_order_within(code, first + lead, second, named, call_in_op);
    in_order_first(code, first + lead, second);
    occurs_within(code, first + lead, call);
}

proof fn in_order_first(text: Seq<char>, first: Seq<char>, second: Seq<char>)
    requires
        in_order(text, first, second),
    ensures
        occurs(text, first),
{
    let (before, after) = choose|before: Seq<char>, after: Seq<char>|
        text == #[trigger] (before + second + after) && occurs(before, first);
    occurs_extended(before, second, first);
    occurs_extended(before + second, after, first);
}

} // verus!
