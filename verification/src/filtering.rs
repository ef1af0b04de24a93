//! The functions that take a filter as a value, and the filters that there are.

use vstd::prelude::*;
use vstd::string::*;

use crate::choosing::{filter_case, hands_on, plain_case};
use crate::filters_struct::{filter_fields, FiltersStruct};
use crate::find_many::FindManyFn;
use crate::list_for_filter_fn::ListForFilterFn;
use crate::list_for_filters_fn::ListForFiltersFn;
use crate::listing::variant_of;
use crate::options::columns::columns_of;
use crate::options::delete::DeleteOption;
use crate::queries::{consists_of, ends_with, starts_extended, starts_with};
use crate::text::{
    ended, ended_holds, in_order, in_order_extended, in_order_within, occurs, occurs_behind,
    occurs_extended, occurs_itself, occurs_within, only_if,
};

verus! {

/// The functions that find the entities that meet a filter are one for live
/// entities, and where deleted ones can be found one for those too that says so in
/// its name. Each chooses between the lists that its name stands for.
pub proof fn find_many_functions(f: &FindManyFn) -> (parts: Seq<Seq<char>>)
    ensures
        consists_of(f.code(), parts),
        parts.len() == (if f.delete == DeleteOption::Soft {
            2nat
        } else {
            1nat
        }),
        forall|k: int|
            0 <= k < parts.len() ==> starts_with(
                #[trigger] parts[k],
                "pub async fn find_many"@ + (if k == 1 {
                    "_include_deleted("@
                } else {
                    "("@
                }),
            ),
        forall|k: int, i: int|
            0 <= k < parts.len() && 0 <= i < f.list_for_fns.len() ==> occurs(
                #[trigger] parts[k],
                filter_case(f.names(), #[trigger] f.list_for_fns@[i], k == 1),
            ),
        forall|k: int, i: int|
            0 <= k < parts.len() && 0 <= i < f.by_columns.len() ==> occurs(
                #[trigger] parts[k],
                plain_case(f.names(), *(#[trigger] f.by_columns@[i]), k == 1),
            ),
{
    reveal(FindManyFn::code);
    let variants = f.delete.variants();
    let parts = Seq::new(variants.len(), |i: int| f.variant_code(variants[i]));
    assert forall|k: int| 0 <= k < parts.len() implies variants[k] == variant_of(k == 1)
        && #[trigger] parts[k] == f.variant_code(variant_of(k == 1)) by {}
    assert forall|k: int| 0 <= k < parts.len() implies starts_with(
        #[trigger] parts[k],
        "pub async fn find_many"@ + (if k == 1 {
            "_include_deleted("@
        } else {
            "("@
        }),
    ) by {
        find_many_opens(f, k == 1);
    }
    assert forall|k: int, i: int|
        0 <= k < parts.len() && 0 <= i < f.list_for_fns.len() implies occurs(
        #[trigger] parts[k],
        filter_case(f.names(), #[trigger] f.list_for_fns@[i], k == 1),
    ) by {
        find_many_chooses(f, k == 1);
        crate::choosing::cases_are_told(
            f.names(),
            f.list_for_fns@,
            columns_of(f.by_columns@),
            k == 1,
        );
        occurs_within(
            parts[k],
            f.arms(variant_of(k == 1)),
            filter_case(f.names(), f.list_for_fns@[i], k == 1),
        );
    }
    assert forall|k: int, i: int|
        0 <= k < parts.len() && 0 <= i < f.by_columns.len() implies occurs(
        #[trigger] parts[k],
        plain_case(f.names(), *(#[trigger] f.by_columns@[i]), k == 1),
    ) by {
        find_many_chooses(f, k == 1);
        crate::choosing::cases_are_told(
            f.names(),
            f.list_for_fns@,
            columns_of(f.by_columns@),
            k == 1,
        );
        assert(columns_of(f.by_columns@)[i] == *f.by_columns@[i]);
        occurs_within(
            parts[k],
            f.arms(variant_of(k == 1)),
            plain_case(f.names(), columns_of(f.by_columns@)[i], k == 1),
        );
    }
    parts
}

proof fn find_many_opens(f: &FindManyFn, with_deleted: bool)
    ensures
        starts_with(
            f.variant_code(variant_of(with_deleted)),
            "pub async fn find_many"@ + (if with_deleted {
                "_include_deleted("@
            } else {
                "("@
            }),
        ),
{
    let name = "find_many"@ + variant_of(with_deleted).postfix();
    let opening = "pub async fn find_many"@ + (if with_deleted {
        "_include_deleted("@
    } else {
        "("@
    });
    let rest = "\n    &self,\n    filter: "@;
    reveal_strlit("pub async fn find_many");
    reveal_strlit("pub async fn ");
    reveal_strlit("find_many");
    reveal_strlit("_include_deleted(");
    reveal_strlit("_include_deleted");
    reveal_strlit("(");
    reveal_strlit("");
    reveal_strlit("(\n    &self,\n    filter: ");
    reveal_strlit("\n    &self,\n    filter: ");
    assert("(\n    &self,\n    filter: "@ =~= "("@ + rest);
    assert("pub async fn "@ + name + "(\n    &self,\n    filter: "@ =~= opening + rest);
    assert(starts_with("pub async fn "@ + name + "(\n    &self,\n    filter: "@, opening));
    broadcast use starts_extended;

}

proof fn find_many_chooses(f: &FindManyFn, with_deleted: bool)
    ensures
        occurs(
            f.variant_code(variant_of(with_deleted)),
            f.arms(variant_of(with_deleted)),
        ),
{
    broadcast use occurs_extended;

}

/// The function that lists the entities that meet a filter says in its name
/// whether it lists deleted ones too, and chooses between the lists that its name
/// stands for.
pub proof fn list_for_filter_functions(f: &ListForFilterFn, with_deleted: bool)
    ensures
        ({
            let code = f.variant_code(variant_of(with_deleted));
            let opening = "pub async fn list_for_filter"@ + (if with_deleted {
                "_include_deleted("@
            } else {
                "("@
            });
            &&& forall|i: int|
                0 <= i < f.list_for_fns.len() ==> in_order(
                    code,
                    opening,
                    #[trigger] filter_case(f.names(), f.list_for_fns@[i], with_deleted),
                )
            &&& forall|i: int|
                0 <= i < f.by_columns.len() ==> in_order(
                    code,
                    opening,
                    #[trigger] plain_case(f.names(), *f.by_columns@[i], with_deleted),
                )
        }),
{
    let variant = variant_of(with_deleted);
    let code = f.variant_code(variant);
    let arms = f.arms(variant);
    let opening = "pub async fn list_for_filter"@ + (if with_deleted {
        "_include_deleted("@
    } else {
        "("@
    });
    filter_opens(f, with_deleted);
    occurs_itself(opening);
    crate::choosing::cases_are_told(
        f.names(),
        f.list_for_fns@,
        columns_of(f.by_columns@),
        with_deleted,
    );
    assert forall|i: int| 0 <= i < f.list_for_fns.len() implies in_order(
        code,
        opening,
        #[trigger] filter_case(f.names(), f.list_for_fns@[i], with_deleted),
    ) by {
        in_order_within(
            code,
            opening,
            arms,
            opening,
            filter_case(f.names(), f.list_for_fns@[i], with_deleted),
        );
    }
    assert forall|i: int| 0 <= i < f.by_columns.len() implies in_order(
        code,
        opening,
        #[trigger] plain_case(f.names(), *f.by_columns@[i], with_deleted),
    ) by {
        assert(columns_of(f.by_columns@)[i] == *f.by_columns@[i]);
        in_order_within(
            code,
            opening,
            arms,
            opening,
            plain_case(f.names(), columns_of(f.by_columns@)[i], with_deleted),
        );
    }
}

proof fn filter_opens(f: &ListForFilterFn, with_deleted: bool)
    ensures
        in_order(
            f.variant_code(variant_of(with_deleted)),
            "pub async fn list_for_filter"@ + (if with_deleted {
                "_include_deleted("@
            } else {
                "("@
            }),
            f.arms(variant_of(with_deleted)),
        ),
{
    let variant = variant_of(with_deleted);
    let code = f.variant_code(variant);
    let body = f.body_code(variant);
    let arms = f.arms(variant);
    assert(occurs(body, arms)) by {
        body_chooses(f, variant);
    }
    let name = "list_for_filter"@ + variant.postfix();
    let opening = "pub async fn list_for_filter"@ + (if with_deleted {
        "_include_deleted("@
    } else {
        "("@
    });
    let whole = "\npub async fn "@ + name + "(\n    &self,\n    filter: "@;
    let rest = "\n    &self,\n    filter: "@;
    assert(occurs(whole, opening)) by {
        reveal_strlit("pub async fn list_for_filter");
        reveal_strlit("\npub async fn ");
        reveal_strlit("\n");
        reveal_strlit("list_for_filter");
        reveal_strlit("_include_deleted(");
        reveal_strlit("_include_deleted");
        reveal_strlit("(");
        reveal_strlit("");
        reveal_strlit("(\n    &self,\n    filter: ");
        reveal_strlit("\n    &self,\n    filter: ");
        assert("(\n    &self,\n    filter: "@ =~= "("@ + rest);
        assert(whole =~= "\n"@ + opening + rest);
    }
    assert(in_order(code, whole, body)) by {
        assert forall|t: Seq<char>| #[trigger]
            (t + "\npub async fn "@ + name + "(\n    &self,\n    filter: "@) == t + whole by {
            assert(t + "\npub async fn "@ + name + "(\n    &self,\n    filter: "@ =~= t + whole);
        }
        broadcast use {in_order_extended, occurs_extended};

    }
    in_order_within(code, whole, body, opening, arms);
}

proof fn body_chooses(f: &ListForFilterFn, variant: DeleteOption)
    ensures
        occurs(f.body_code(variant), f.arms(variant)),
{
    let prefix = crate::types::opt_text(f.repo_name_snake);
    let page = crate::list_for_filter_fn::chosen_page_code(
        crate::instrument::traced(prefix, crate::instrument::EXTRACT_HAS_CURSOR@),
        crate::instrument::traced(prefix, crate::instrument::RECORD_PAGE@),
        f.cursor_mod@,
        f.cursor.ident@,
        f.arms(variant),
        crate::instrument::traced(prefix, crate::list_for_filter_fn::RECORD_PAGE_OF_RESULT@),
    );
    assert(occurs(page, f.arms(variant))) by {
        broadcast use occurs_extended;

    }
    if prefix is Some {
        assert(occurs(f.body_code(variant), page)) by {
            broadcast use occurs_extended;

        }
        occurs_within(f.body_code(variant), page, f.arms(variant));
    }
}

/// There is a filter for each of the columns, and it is an `Option` of what the
/// column holds: without it the column is not looked at.
pub proof fn filters_have_fields(s: &FiltersStruct)
    ensures
        forall|i: int|
            0 <= i < s.columns.len() ==> occurs(
                s.code(),
                "pub "@ + (#[trigger] s.columns@[i]).name@ + ": Option<"@
                    + s.columns@[i].opts.ty.text@ + ">,"@,
            ),
        forall|i: int|
            0 <= i < s.virtual_columns.len() ==> occurs(
                s.code(),
                "pub "@ + (#[trigger] s.virtual_columns@[i]).name@ + ": Option<"@
                    + s.virtual_columns@[i].opts.ty.text@ + ">,"@,
            ),
{
    reveal(FiltersStruct::code);
    let a = filter_fields(columns_of(s.columns@));
    let b = filter_fields(columns_of(s.virtual_columns@));
    let all = ended(a, "\n"@) + ended(b, "\n"@);
    assert(occurs(s.code(), all)) by {
        broadcast use occurs_extended;

    }
    assert forall|i: int| 0 <= i < s.columns.len() implies occurs(
        s.code(),
        "pub "@ + (#[trigger] s.columns@[i]).name@ + ": Option<"@ + s.columns@[i].opts.ty.text@
            + ">,"@,
    ) by {
        ended_holds(a, "\n"@, i);
        occurs_extended(ended(a, "\n"@), ended(b, "\n"@), a[i]);
        occurs_within(s.code(), all, a[i]);
    }
    assert forall|i: int| 0 <= i < s.virtual_columns.len() implies occurs(
        s.code(),
        "pub "@ + (#[trigger] s.virtual_columns@[i]).name@ + ": Option<"@
            + s.virtual_columns@[i].opts.ty.text@ + ">,"@,
    ) by {
        ended_holds(b, "\n"@, i);
        occurs_behind(ended(a, "\n"@), ended(b, "\n"@), b[i]);
        occurs_within(s.code(), all, b[i]);
    }
}

/// The functions of the view that take the sort column as a value.
pub open spec fn sort_delegates_of(f: &ListForFiltersFn, with_deleted: bool) -> Seq<char> {
    let name = "list_for_filters"@ + variant_of(with_deleted).postfix();
    crate::filters_code::sort_delegates_code(
        only_if(
            !f.in_op_only,
            crate::filters_code::sort_delegate_standalone_code(
                name,
                f.filters_struct.named(),
                f.cursor.sort_by_name@,
                f.cursor_mod@,
                f.cursor.ident@,
                f.entity@,
                f.query_error@,
            ),
        ),
        name + "_in_op"@,
        crate::options::repository::query_generics(false),
        crate::options::repository::query_op_arg(false),
        f.filters_struct.named(),
        f.cursor.sort_by_name@,
        f.cursor_mod@,
        f.cursor.ident@,
        f.entity@,
        f.query_error@,
        crate::options::repository::query_op_traits(false),
    )
}

/// Whether code ends with the functions that take the sort column as a value, and
/// these hand on the scope.
pub open spec fn sorts_handed_on(
    f: &ListForFiltersFn,
    code: Seq<char>,
    with_deleted: bool,
) -> bool {
    &&& ends_with(code, sort_delegates_of(f, with_deleted))
    &&& hands_on(
        sort_delegates_of(f, with_deleted),
        "list_for_filters"@ + (if with_deleted {
            "_include_deleted"@
        } else {
            ""@
        }),
        !f.in_op_only,
        "filters, sort, cursor).await"@,
    )
}

/// In the view that is bound to a scope there are the same functions for the
/// filters, and each hands on the scope that the view is bound to; without scopes
/// there are none.
pub proof fn all_filters_are_delegated(f: &ListForFiltersFn) -> (parts: Seq<Seq<char>>)
    ensures
        f.scope is None ==> f.delegates() == Seq::<char>::empty(),
        f.scope is Some ==> consists_of(f.delegates(), parts),
        parts.len() == (if f.delete == DeleteOption::Soft {
            2nat
        } else {
            1nat
        }),
        forall|k: int, i: int|
            0 <= k < parts.len() && 0 <= i < f.by_columns.len() ==> occurs(
                #[trigger] parts[k],
                f.by_delegate(*(#[trigger] f.by_columns@[i]), variant_of(k == 1)),
            ),
        forall|k: int|
            0 <= k < parts.len() ==> sorts_handed_on(f, #[trigger] parts[k], k == 1),
{
    reveal(ListForFiltersFn::delegates);
    let variants = f.delete.variants();
    let parts = Seq::new(variants.len(), |i: int| f.delegate_code(variants[i]));
    assert forall|k: int| 0 <= k < parts.len() implies variants[k] == variant_of(k == 1)
        && #[trigger] parts[k] == f.delegate_code(variant_of(k == 1)) by {}
    assert forall|k: int, i: int|
        0 <= k < parts.len() && 0 <= i < f.by_columns.len() implies occurs(
        #[trigger] parts[k],
        f.by_delegate(*(#[trigger] f.by_columns@[i]), variant_of(k == 1)),
    ) by {
        let each = Seq::new(
            f.by_columns.len() as nat,
            |j: int| f.by_delegate(*f.by_columns@[j], variant_of(k == 1)),
        );
        ended_holds(each, "\n"@, i);
        occurs_extended(ended(each, "\n"@), sort_delegates_of(f, k == 1), each[i]);
    }
    assert forall|k: int| 0 <= k < parts.len() implies sorts_handed_on(
        f,
        #[trigger] parts[k],
        k == 1,
    ) by {
        sorts_are_delegated(f, k == 1);
    }
    parts
}

proof fn sorts_are_delegated(f: &ListForFiltersFn, with_deleted: bool)
    ensures
        hands_on(
            sort_delegates_of(f, with_deleted),
            "list_for_filters"@ + (if with_deleted {
                "_include_deleted"@
            } else {
                ""@
            }),
            !f.in_op_only,
            "filters, sort, cursor).await"@,
        ),
{
    let name = "list_for_filters"@ + variant_of(with_deleted).postfix();
    let alone = only_if(
        !f.in_op_only,
        crate::filters_code::sort_delegate_standalone_code(
            name,
            f.filters_struct.named(),
            f.cursor.sort_by_name@,
            f.cursor_mod@,
            f.cursor.ident@,
            f.entity@,
            f.query_error@,
        ),
    );
    let code = sort_delegates_of(f, with_deleted);
    let args = "filters, sort, cursor).await"@;
    sort_in_op(
        alone,
        name,
        crate::options::repository::query_generics(false),
        crate::options::repository::query_op_arg(false),
        f.filters_struct.named(),
        f.cursor.sort_by_name@,
        f.cursor_mod@,
        f.cursor.ident@,
        f.entity@,
        f.query_error@,
        crate::options::repository::query_op_traits(false),
    );
    if !f.in_op_only {
        sort_alone(
            name,
            f.filters_struct.named(),
            f.cursor.sort_by_name@,
            f.cursor_mod@,
            f.cursor.ident@,
            f.entity@,
            f.query_error@,
        );
        crate::choosing::opening_opens(
            code,
            alone,
            "pub async fn "@ + name + "("@,
            "self.repo."@ + name + "(self.scope, "@ + args,
        );
    }
}

proof fn sort_alone(
    name: Seq<char>,
    filters: Seq<char>,
    sort: Seq<char>,
    cursor_mod: Seq<char>,
    cursor: Seq<char>,
    entity: Seq<char>,
    error: Seq<char>,
)
    ensures
        ({
            let code = crate::filters_code::sort_delegate_standalone_code(
                name,
                filters,
                sort,
                cursor_mod,
                cursor,
                entity,
                error,
            );
            &&& starts_with(code, "pub async fn "@ + name + "("@)
            &&& occurs(
                code,
                "self.repo."@ + name + "(self.scope, "@ + "filters, sort, cursor).await"@,
            )
        }),
{
    let code = crate::filters_code::sort_delegate_standalone_code(
        name,
        filters,
        sort,
        cursor_mod,
        cursor,
        entity,
        error,
    );
    let end = "(self.scope, filters, sort, cursor).await\n}"@;
    let call = "> {\n    self.repo."@ + name + end;
    let inner = "self.repo."@ + name + "(self.scope, "@ + "filters, sort, cursor).await"@;
    assert(starts_with(code, "pub async fn "@ + name + "("@)) by {
        reveal_strlit("(\n    &self,\n    filters: ");
        reveal_strlit("(");
        reveal_strlit("\n    &self,\n    filters: ");
        assert("(\n    &self,\n    filters: "@ =~= "("@ + "\n    &self,\n    filters: "@);
        assert("pub async fn "@ + name + "(\n    &self,\n    filters: "@ =~= ("pub async fn "@ + name
            + "("@) + "\n    &self,\n    filters: "@);
        assert(starts_with(
            "pub async fn "@ + name + "(\n    &self,\n    filters: "@,
            "pub async fn "@ + name + "("@,
        ));
        broadcast use starts_extended;

    }
    assert(occurs(code, call)) by {
        assert forall|t: Seq<char>| #[trigger]
            (t + "> {\n    self.repo."@ + name + end) == t + call by {
            assert(t + "> {\n    self.repo."@ + name + end =~= t + call);
        }
        broadcast use occurs_extended;

    }
    assert(occurs(call, inner)) by {
        reveal_strlit("> {\n    self.repo.");
        reveal_strlit("> {\n    ");
        reveal_strlit("self.repo.");
        reveal_strlit("(self.scope, filters, sort, cursor).await\n}");
        reveal_strlit("(self.scope, ");
        reveal_strlit("filters, sort, cursor).await");
        reveal_strlit("\n}");
        assert("> {\n    self.repo."@ =~= "> {\n    "@ + "self.repo."@);
        assert(end =~= "(self.scope, "@ + "filters, sort, cursor).await"@ + "\n}"@);
        assert(call =~= "> {\n    "@ + inner + "\n}"@);
    }
    occurs_within(code, call, inner);
}

proof fn sort_in_op(
    alone: Seq<char>,
    name: Seq<char>,
    generics: Seq<char>,
    op: Seq<char>,
    filters: Seq<char>,
    sort: Seq<char>,
    cursor_mod: Seq<char>,
    cursor: Seq<char>,
    entity: Seq<char>,
    error: Seq<char>,
    traits: Seq<char>,
)
    ensures
        ({
            let code = crate::filters_code::sort_delegates_code(
                alone,
                name + "_in_op"@,
                generics,
                op,
                filters,
                sort,
                cursor_mod,
                cursor,
                entity,
                error,
                traits,
            );
            &&& starts_with(code, alone)
            &&& in_order(
                code,
                "pub async fn "@ + name + "_in_op"@,
                "self.repo."@ + name + "_in_op(op, self.scope, "@
                    + "filters, sort, cursor).await"@,
            )
        }),
{
    let in_op = name + "_in_op"@;
    let code = crate::filters_code::sort_delegates_code(
        alone,
        in_op,
        generics,
        op,
        filters,
        sort,
        cursor_mod,
        cursor,
        entity,
        error,
        traits,
    );
    let end = "(op, self.scope, filters, sort, cursor).await\n}"@;
    let lead = "\npub async fn "@ + in_op;
    let call = "\n{\n    self.repo."@ + in_op + end;
    let named = "pub async fn "@ + name + "_in_op"@;
    let inner = "self.repo."@ + name + "_in_op(op, self.scope, "@ + "filters, sort, cursor).await"@;
    assert(starts_with(code, alone)) by {
        assert(alone =~= alone + Seq::<char>::empty());
        assert(starts_with(alone, alone));
        broadcast use starts_extended;

    }
    assert(in_order(code, lead, call)) by {
        assert forall|t: Seq<char>| #[trigger]
            (t + "\n{\n    self.repo."@ + in_op + end) == t + call by {
            assert(t + "\n{\n    self.repo."@ + in_op + end =~= t + call);
        }
        assert forall|t: Seq<char>| #[trigger] (t + "\npub async fn "@ + in_op) == t + lead by {
            assert(t + "\npub async fn "@ + in_op =~= t + lead);
        }
        broadcast use {in_order_extended, occurs_extended};

    }
    assert(occurs(call, inner)) by {
        reveal_strlit("\n{\n    self.repo.");
        reveal_strlit("\n{\n    ");
        reveal_strlit("self.repo.");
        reveal_strlit("_in_op(op, self.scope, ");
        reveal_strlit("_in_op");
        reveal_strlit("(op, self.scope, filters, sort, cursor).await\n}");
        reveal_strlit("(op, self.scope, ");
        reveal_strlit("filters, sort, cursor).await");
        reveal_strlit("\n}");
        assert("\n{\n    self.repo."@ =~= "\n{\n    "@ + "self.repo."@);
        assert("_in_op(op, self.scope, "@ =~= "_in_op"@ + "(op, self.scope, "@);
        assert(end =~= "(op, self.scope, "@ + "filters, sort, cursor).await"@ + "\n}"@);
        assert(call =~= "\n{\n    "@ + inner + "\n}"@);
    }
    assert(occurs(lead, named)) by {
        reveal_strlit("\npub async fn ");
        reveal_strlit("\n");
        reveal_strlit("pub async fn ");
        assert("\npub async fn "@ =~= "\n"@ + "pub async fn "@);
        assert(lead =~= "\n"@ + named + Seq::<char>::empty());
    }
    in_order_within(code, lead, call, named, inner);
}

} // verus!
