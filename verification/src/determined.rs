//! The code of a repository depends on its options alone.

use vstd::prelude::*;

use crate::combo_cursor::ComboCursor;
use crate::create_all_fn::CreateAllFn;
use crate::create_fn::CreateFn;
use crate::delete_fn::DeleteFn;
use crate::error_classifier::ErrorClassifier;
use crate::es_repo::{list_pairs, parent_column, EsRepo, RepoParts};
use crate::error_types::{
    column_constraint_arms, constraint_arm_code, nested_parts, ColumnVariant, ErrorTypes, NestedPart,
};
use crate::filter_states::{
    filter_combos, value_combos, virtual_combos, FilterState, ValueVirtualState, VirtualState,
};
use crate::filters_struct::{paired, with_filters, FiltersStruct};
use crate::find_all_fn::FindAllFn;
use crate::find_by_fn::FindByFn;
use crate::forget_fn::ForgetFn;
use crate::hydrate_nested::CascadeDelete;
use crate::index_catalog::IndexCatalog;
use crate::list_by_fn::{CursorStruct, ListByFn};
use crate::list_for_filters_fn::{scope_bound, ListForFiltersFn, QueryCase};
use crate::list_for_fn::ListForFn;
use crate::nested::Nested;
use crate::options::column::Column;
use crate::options::columns::{columns_of, Pick};
use crate::options::delete::DeleteOption;
use crate::options::repository::{RepoField, RepositoryOptions};
use crate::persist_events_batch_fn::PersistEventsBatchFn;
use crate::persist_events_fn::PersistEventsFn;
use crate::populate_nested::PopulateNested;
use crate::post_hydrate_hook::PostHydrateHook;
use crate::post_persist_hook::PostPersistHook;
use crate::scope::{dispatch_arms, scope_parts, ScopeCol, ScopeInfo, ScopeType};
use crate::text::literal;

verus! {

proof fn same_classifier(a: &ErrorClassifier, b: &ErrorClassifier, opts: &RepositoryOptions)
    requires
        a.made_from(opts),
        b.made_from(opts),
    ensures
        a.code() == b.code(),
{
    reveal(ErrorClassifier::code);
}

proof fn same_persist(a: &PersistEventsFn, b: &PersistEventsFn, opts: &RepositoryOptions)
    requires
        a.made_from(opts),
        b.made_from(opts),
    ensures
        a.code() == b.code(),
{
    reveal(PersistEventsFn::code);
}

proof fn same_persist_batch(
    a: &PersistEventsBatchFn,
    b: &PersistEventsBatchFn,
    opts: &RepositoryOptions,
)
    requires
        a.made_from(opts),
        b.made_from(opts),
    ensures
        a.code() == b.code(),
{
    reveal(PersistEventsBatchFn::code);
}

proof fn same_create(a: &CreateFn, b: &CreateFn, opts: &RepositoryOptions)
    requires
        a.made_from(opts),
        b.made_from(opts),
    ensures
        a.code() == b.code(),
{
    reveal(CreateFn::code);
}

proof fn same_create_all(a: &CreateAllFn, b: &CreateAllFn, opts: &RepositoryOptions)
    requires
        a.made_from(opts),
        b.made_from(opts),
    ensures
        a.code() == b.code(),
{
    reveal(CreateAllFn::code);
}

proof fn same_delete(a: &DeleteFn, b: &DeleteFn, opts: &RepositoryOptions)
    requires
        a.made_from(opts),
        b.made_from(opts),
    ensures
        a.code() == b.code(),
{
    reveal(DeleteFn::code);
}

proof fn same_forget(a: &ForgetFn, b: &ForgetFn, opts: &RepositoryOptions)
    requires
        a.made_from(opts),
        b.made_from(opts),
    ensures
        a.code() == b.code(),
{
    reveal(ForgetFn::code);
}

proof fn same_hydrate_hook(a: &PostHydrateHook, b: &PostHydrateHook, opts: &RepositoryOptions)
    requires
        a.made_from(opts),
        b.made_from(opts),
    ensures
        a.code() == b.code(),
{
    reveal(PostHydrateHook::code);
}

proof fn same_persist_hook(a: &PostPersistHook, b: &PostPersistHook, opts: &RepositoryOptions)
    requires
        a.made_from(opts),
        b.made_from(opts),
    ensures
        a.code() == b.code(),
{
    reveal(PostPersistHook::code);
}

proof fn same_nested(a: &Nested, b: &Nested, field: &RepoField, opts: &RepositoryOptions)
    requires
        a.made_from(field, opts),
        b.made_from(field, opts),
    ensures
        a.code() == b.code(),
{
    reveal(Nested::code);
}

proof fn same_populate(
    a: &PopulateNested,
    b: &PopulateNested,
    column: &Column,
    opts: &RepositoryOptions,
)
    requires
        a.made_from(column, opts),
        b.made_from(column, opts),
    ensures
        a.code() == b.code(),
{
    reveal(PopulateNested::code);
    reveal(CascadeDelete::code);
}

/// Whether two scope columns are written alike.
spec fn alike(a: ScopeCol, b: ScopeCol) -> bool {
    &&& a.variant@ == b.variant@
    &&& a.column_name@ == b.column_name@
    &&& a.column_ty@ == b.column_ty@
}

proof fn same_cols(a: ScopeInfo, b: ScopeInfo, opts: &RepositoryOptions)
    requires
        a.scope_of(opts),
        b.scope_of(opts),
    ensures
        a.scope_ty@ == b.scope_ty@,
        a.cols.len() == b.cols.len(),
        forall|i: int| 0 <= i < a.cols.len() ==> alike(#[trigger] a.cols@[i], b.cols@[i]),
{
    assert forall|i: int| 0 <= i < a.cols.len() implies alike(
        #[trigger] a.cols@[i],
        b.cols@[i],
    ) by {
        let c = opts.columns.picks(Pick::Scope)[i];
        assert(a.cols@[i].stands_for(c));
        assert(b.cols@[i].stands_for(c));
    }
}

proof fn same_dispatch(
    a: ScopeInfo,
    b: ScopeInfo,
    opts: &RepositoryOptions,
    all_arm: Seq<char>,
    bodies_a: Seq<Seq<char>>,
    bodies_b: Seq<Seq<char>>,
)
    requires
        a.scope_of(opts),
        b.scope_of(opts),
        bodies_a.len() == a.cols.len(),
        bodies_b.len() == b.cols.len(),
        forall|i: int| 0 <= i < a.cols.len() ==> #[trigger] bodies_a[i] == bodies_b[i],
    ensures
        a.dispatched(all_arm, bodies_a) == b.dispatched(all_arm, bodies_b),
{
    same_cols(a, b, opts);
    assert(dispatch_arms(a.scope_ty@, a.cols@, bodies_a) =~= dispatch_arms(
        b.scope_ty@,
        b.cols@,
        bodies_b,
    )) by {
        assert forall|i: int| 0 <= i < a.cols.len() implies (#[trigger] a.cols@[i]).variant@
            == b.cols@[i].variant@ by {
            assert(alike(a.cols@[i], b.cols@[i]));
        }
    }
}

proof fn same_find_by(
    a: &FindByFn,
    b: &FindByFn,
    column: &Column,
    opts: &RepositoryOptions,
)
    requires
        a.made_from(column, opts),
        b.made_from(column, opts),
    ensures
        a.code() == b.code(),
        a.delegates() == b.delegates(),
{
    reveal(FindByFn::code);
    reveal(FindByFn::delegates);
    assert forall|i: int| 0 <= i < a.cases().len() implies a.case_code(#[trigger] a.cases()[i])
        == b.case_code(a.cases()[i]) by {
        let case = a.cases()[i];
        match (a.scope, b.scope) {
            (Some(x), Some(y)) => {
                let left = Seq::new(x.cols.len() as nat, |i: int| a.call(case, Some(x.cols@[i])));
                let right = Seq::new(y.cols.len() as nat, |i: int| b.call(case, Some(y.cols@[i])));
                same_cols(x, y, opts);
                assert forall|i: int| 0 <= i < x.cols.len() implies #[trigger] left[i]
                    == right[i] by {
                    assert(alike(x.cols@[i], y.cols@[i]));
                }
                same_dispatch(x, y, opts, a.call(case, None), left, right);
            },
            _ => {},
        }
    }
    assert(Seq::new(a.cases().len(), |i: int| a.case_code(a.cases()[i])) =~= Seq::new(
        b.cases().len(),
        |i: int| b.case_code(b.cases()[i]),
    ));
    assert(Seq::new(a.cases().len(), |i: int| a.delegate_code(a.cases()[i])) =~= Seq::new(
        b.cases().len(),
        |i: int| b.delegate_code(b.cases()[i]),
    ));
}

proof fn same_find_all(a: &FindAllFn, b: &FindAllFn, opts: &RepositoryOptions)
    requires
        a.made_from(opts),
        b.made_from(opts),
    ensures
        a.code() == b.code(),
        a.delegates() == b.delegates(),
{
    reveal(FindAllFn::code);
    reveal(FindAllFn::delegates);
    match (a.scope, b.scope) {
        (Some(x), Some(y)) => {
            let left = Seq::new(x.cols.len() as nat, |i: int| a.call(Some(x.cols@[i])));
            let right = Seq::new(y.cols.len() as nat, |i: int| b.call(Some(y.cols@[i])));
            same_cols(x, y, opts);
            assert forall|i: int| 0 <= i < x.cols.len() implies #[trigger] left[i] == right[i] by {
                assert(alike(x.cols@[i], y.cols@[i]));
            }
            same_dispatch(x, y, opts, a.call(None), left, right);
        },
        _ => {},
    }
}

proof fn same_list_by_match(
    a: &ListByFn,
    b: &ListByFn,
    column: &Column,
    opts: &RepositoryOptions,
    variant: DeleteOption,
)
    requires
        a.made_from(column, opts),
        b.made_from(column, opts),
    ensures
        a.match_code(variant) == b.match_code(variant),
{
    assert forall|x: ScopeCol, y: ScopeCol| alike(x, y) implies a.arms(variant, Some(x)) == b.arms(
        variant,
        Some(y),
    ) by {
        assert(a.query(variant, Some(x), true) == b.query(variant, Some(y), true));
        assert(a.query(variant, Some(x), false) == b.query(variant, Some(y), false));
    }
    assert(a.query(variant, None, true) == b.query(variant, None, true));
    assert(a.query(variant, None, false) == b.query(variant, None, false));
    assert(a.arms(variant, None) == b.arms(variant, None));
    match (a.scope, b.scope) {
        (Some(x), Some(y)) => {
            let left = Seq::new(x.cols.len() as nat, |i: int| a.arms(variant, Some(x.cols@[i])));
            let right = Seq::new(y.cols.len() as nat, |i: int| b.arms(variant, Some(y.cols@[i])));
            same_cols(x, y, opts);
            assert forall|i: int| 0 <= i < x.cols.len() implies #[trigger] left[i] == right[i] by {
                assert(alike(x.cols@[i], y.cols@[i]));
            }
            same_dispatch(x, y, opts, a.arms(variant, None), left, right);
        },
        _ => {},
    }
}

proof fn same_list_by_variant(
    a: &ListByFn,
    b: &ListByFn,
    column: &Column,
    opts: &RepositoryOptions,
    variant: DeleteOption,
)
    requires
        a.made_from(column, opts),
        b.made_from(column, opts),
    ensures
        a.variant_code(variant) == b.variant_code(variant),
        a.delegate_code(variant) == b.delegate_code(variant),
{
    reveal(ListByFn::variant_code);
    same_list_by_match(a, b, column, opts, variant);
    assert(scope_parts(a.scope) == scope_parts(b.scope));
    assert(a.cursor_spec().named() == b.cursor_spec().named());
    assert(a.cursor_spec().destructured() == b.cursor_spec().destructured());
    assert(a.fn_name(variant) == b.fn_name(variant));
}

proof fn same_list_by(
    a: &ListByFn,
    b: &ListByFn,
    column: &Column,
    opts: &RepositoryOptions,
)
    requires
        a.made_from(column, opts),
        b.made_from(column, opts),
    ensures
        a.code() == b.code(),
        a.delegates() == b.delegates(),
        a.cursor_spec().code() == b.cursor_spec().code(),
        a.cursor_spec().named() == b.cursor_spec().named(),
{
    reveal(ListByFn::code);
    reveal(ListByFn::delegates);
    reveal(CursorStruct::code);
    let variants = a.delete.variants();
    assert forall|i: int| 0 <= i < variants.len() implies {
        &&& a.variant_code(#[trigger] variants[i]) == b.variant_code(variants[i])
        &&& a.delegate_code(variants[i]) == b.delegate_code(variants[i])
    } by {
        same_list_by_variant(a, b, column, opts, variants[i]);
    }
    assert(Seq::new(variants.len(), |i: int| a.variant_code(a.delete.variants()[i])) =~= Seq::new(
        variants.len(),
        |i: int| b.variant_code(b.delete.variants()[i]),
    ));
    assert(Seq::new(variants.len(), |i: int| a.delegate_code(a.delete.variants()[i])) =~= Seq::new(
        variants.len(),
        |i: int| b.delegate_code(b.delete.variants()[i]),
    ));
}

proof fn same_list_for_match(
    a: &ListForFn,
    b: &ListForFn,
    for_column: &Column,
    by_column: &Column,
    opts: &RepositoryOptions,
    variant: DeleteOption,
)
    requires
        a.made_from(for_column, by_column, opts),
        b.made_from(for_column, by_column, opts),
    ensures
        a.match_code(variant) == b.match_code(variant),
{
    assert forall|x: ScopeCol, y: ScopeCol| alike(x, y) implies a.arms(variant, Some(x)) == b.arms(
        variant,
        Some(y),
    ) by {
        assert(a.query(variant, Some(x), true) == b.query(variant, Some(y), true));
        assert(a.query(variant, Some(x), false) == b.query(variant, Some(y), false));
    }
    assert(a.query(variant, None, true) == b.query(variant, None, true));
    assert(a.query(variant, None, false) == b.query(variant, None, false));
    assert(a.arms(variant, None) == b.arms(variant, None));
    match (a.scope, b.scope) {
        (Some(x), Some(y)) => {
            let left = Seq::new(x.cols.len() as nat, |i: int| a.arms(variant, Some(x.cols@[i])));
            let right = Seq::new(y.cols.len() as nat, |i: int| b.arms(variant, Some(y.cols@[i])));
            same_cols(x, y, opts);
            assert forall|i: int| 0 <= i < x.cols.len() implies #[trigger] left[i] == right[i] by {
                assert(alike(x.cols@[i], y.cols@[i]));
            }
            same_dispatch(x, y, opts, a.arms(variant, None), left, right);
        },
        _ => {},
    }
}

proof fn same_list_for_variant(
    a: &ListForFn,
    b: &ListForFn,
    for_column: &Column,
    by_column: &Column,
    opts: &RepositoryOptions,
    variant: DeleteOption,
)
    requires
        a.made_from(for_column, by_column, opts),
        b.made_from(for_column, by_column, opts),
    ensures
        a.variant_code(variant) == b.variant_code(variant),
        a.delegate_code(variant) == b.delegate_code(variant),
{
    reveal(ListForFn::variant_code);
    same_list_for_match(a, b, for_column, by_column, opts, variant);
    assert(scope_parts(a.scope) == scope_parts(b.scope));
    assert(a.cursor_spec().named() == b.cursor_spec().named());
    assert(a.cursor_spec().destructured() == b.cursor_spec().destructured());
    assert(a.fn_name(variant) == b.fn_name(variant));
    assert(a.filter_arg() == b.filter_arg());
}

proof fn same_list_for(
    a: &ListForFn,
    b: &ListForFn,
    for_column: &Column,
    by_column: &Column,
    opts: &RepositoryOptions,
)
    requires
        a.made_from(for_column, by_column, opts),
        b.made_from(for_column, by_column, opts),
    ensures
        a.code() == b.code(),
        a.delegates() == b.delegates(),
{
    reveal(ListForFn::code);
    reveal(ListForFn::delegates);
    let variants = a.delete.variants();
    assert forall|i: int| 0 <= i < variants.len() implies {
        &&& a.variant_code(#[trigger] variants[i]) == b.variant_code(variants[i])
        &&& a.delegate_code(variants[i]) == b.delegate_code(variants[i])
    } by {
        same_list_for_variant(a, b, for_column, by_column, opts, variants[i]);
    }
    assert(Seq::new(variants.len(), |i: int| a.variant_code(a.delete.variants()[i])) =~= Seq::new(
        variants.len(),
        |i: int| b.variant_code(b.delete.variants()[i]),
    ));
    assert(Seq::new(variants.len(), |i: int| a.delegate_code(a.delete.variants()[i])) =~= Seq::new(
        variants.len(),
        |i: int| b.delegate_code(b.delete.variants()[i]),
    ));
}

proof fn same_scope_type(a: &ScopeType, b: &ScopeType, opts: &RepositoryOptions)
    requires
        a.entity@ == opts.entity_ident@,
        b.entity@ == opts.entity_ident@,
        a.info.scope_of(opts),
        b.info.scope_of(opts),
    ensures
        a.code() == b.code(),
{
    reveal(ScopeType::code);
    same_cols(a.info, b.info, opts);
    assert forall|i: int| 0 <= i < a.info.cols.len() implies alike(
        #[trigger] a.info.cols@[i],
        b.info.cols@[i],
    ) by {}
    assert(a.variants() =~= b.variants());
    assert(a.conversions() =~= b.conversions());
}

/// Whether the entity of a nested repository is told by its field: it is
/// given, or not needed because the type of the repository has no parameter.
pub open spec fn entity_is_told(f: RepoField, generics: Seq<Seq<char>>) -> bool {
    f.entity is Some || !crate::tokens::mentions(f.ty_tokens@, generics)
}

proof fn same_error_types(a: &ErrorTypes, b: &ErrorTypes, opts: &RepositoryOptions)
    requires
        a.made_from(opts),
        b.made_from(opts),
        forall|i: int|
            0 <= i < opts.nested().len() ==> entity_is_told(
                #[trigger] opts.nested()[i],
                opts.generics.type_names(),
            ),
    ensures
        a.code() == b.code(),
        a.map_constraint_code() == b.map_constraint_code(),
{
    reveal(ErrorTypes::code);
    let n = a.column_variants.len();
    assert forall|i: int| 0 <= i < n implies {
        &&& (#[trigger] a.column_variants@[i]).variant_name@ == b.column_variants@[i].variant_name@
        &&& a.column_variants@[i].column_name@ == b.column_variants@[i].column_name@
        &&& column_constraint_arms(a.column_variants@[i], a.column_enum@)
            == column_constraint_arms(b.column_variants@[i], b.column_enum@)
    } by {
        same_constraint_arms(
            a.column_variants@[i],
            b.column_variants@[i],
            a.column_enum@,
            opts.columns.picks(Pick::ColumnEnum)[i],
            opts.table_text(),
        );
    }
    assert(a.variant_names() =~= b.variant_names());
    assert(a.display_arms() =~= b.display_arms());
    assert(a.constraint_arms() =~= b.constraint_arms());
    assert forall|part: NestedPart, error: Seq<char>, modify: bool| nested_parts(
        a.nested@,
        part,
        error,
        modify,
    ) == nested_parts(b.nested@, part, error, modify) by {
        same_nested_parts(a, b, opts, part, error, modify);
    }
}

proof fn same_constraint_arms(
    a: ColumnVariant,
    b: ColumnVariant,
    column_enum: Seq<char>,
    c: Column,
    table: Seq<char>,
)
    requires
        a.stands_for(c, table),
        b.stands_for(c, table),
    ensures
        a.variant_name@ == b.variant_name@,
        a.column_name@ == b.column_name@,
        column_constraint_arms(a, column_enum) == column_constraint_arms(b, column_enum),
{
    let left = Seq::new(
        a.constraint_names.len() as nat,
        |k: int|
            constraint_arm_code(literal(a.constraint_names@[k]@), column_enum, a.variant_name@),
    );
    let right = Seq::new(
        b.constraint_names.len() as nat,
        |k: int|
            constraint_arm_code(literal(b.constraint_names@[k]@), column_enum, b.variant_name@),
    );
    assert(a.constraint_names.deep_view().len() == a.constraint_names.len());
    assert(b.constraint_names.deep_view().len() == b.constraint_names.len());
    assert forall|k: int| 0 <= k < left.len() implies #[trigger] left[k] == right[k] by {
        assert(a.constraint_names.deep_view()[k] == a.constraint_names@[k]@);
        assert(b.constraint_names.deep_view()[k] == b.constraint_names@[k]@);
    }
    assert(left =~= right);
}

proof fn same_nested_parts(
    a: &ErrorTypes,
    b: &ErrorTypes,
    opts: &RepositoryOptions,
    part: NestedPart,
    error: Seq<char>,
    modify: bool,
)
    requires
        a.made_from(opts),
        b.made_from(opts),
        forall|i: int|
            0 <= i < opts.nested().len() ==> entity_is_told(
                #[trigger] opts.nested()[i],
                opts.generics.type_names(),
            ),
    ensures
        nested_parts(a.nested@, part, error, modify) == nested_parts(
            b.nested@,
            part,
            error,
            modify,
        ),
{
    let left = Seq::new(
        a.nested@.len(),
        |i: int|
            if modify {
                a.nested@[i].modify_part(part, error)
            } else {
                a.nested@[i].create_part(part, error)
            },
    );
    let right = Seq::new(
        b.nested@.len(),
        |i: int|
            if modify {
                b.nested@[i].modify_part(part, error)
            } else {
                b.nested@[i].create_part(part, error)
            },
    );
    assert forall|i: int| 0 <= i < left.len() implies #[trigger] left[i] == right[i] by {
        assert(a.nested@[i].stands(opts.nested()[i], opts.generics.type_names()));
        assert(b.nested@[i].stands(opts.nested()[i], opts.generics.type_names()));
        assert(entity_is_told(opts.nested()[i], opts.generics.type_names()));
    }
    assert(left =~= right);
}

/// Whether both are the functions for filters of one repository.
spec fn both_filter(
    a: &ListForFiltersFn,
    b: &ListForFiltersFn,
    opts: &RepositoryOptions,
    cursor: &ComboCursor,
    catalog: IndexCatalog,
) -> bool {
    let columns = opts.columns;
    &&& a.made_from(
        opts,
        columns.picks(Pick::ListFor),
        columns.picks(Pick::Virtual),
        columns.picks(Pick::ListBy),
        cursor,
        catalog,
    )
    &&& b.made_from(
        opts,
        columns.picks(Pick::ListFor),
        columns.picks(Pick::Virtual),
        columns.picks(Pick::ListBy),
        cursor,
        catalog,
    )
}

/// Whether two cases are written alike.
spec fn alike_cases(a: QueryCase, b: QueryCase) -> bool {
    &&& *a.by == *b.by
    &&& a.variant == b.variant
    &&& a.ascending == b.ascending
    &&& a.scope is Some <==> b.scope is Some
    &&& a.scope is Some ==> alike(*a.scope->0, *b.scope->0)
}

proof fn same_filter_arms(
    a: &ListForFiltersFn,
    b: &ListForFiltersFn,
    x: QueryCase,
    y: QueryCase,
    opts: &RepositoryOptions,
    cursor: &ComboCursor,
    catalog: IndexCatalog,
    virtuals: Seq<VirtualState>,
    values: Seq<ValueVirtualState>,
    combos: Seq<Seq<FilterState>>,
)
    requires
        both_filter(a, b, opts, cursor, catalog),
        alike_cases(x, y),
    ensures
        a.filter_arms(x, virtuals, values, combos) == b.filter_arms(y, virtuals, values, combos),
    decreases combos.len(),
{
    assert(scope_bound(x.scope) == scope_bound(y.scope));
    if combos.len() > 0 {
        same_filter_arms(
            a,
            b,
            x,
            y,
            opts,
            cursor,
            catalog,
            virtuals,
            values,
            combos.drop_last(),
        );
        assert(a.specialized(combos.last(), x.scope) == b.specialized(combos.last(), y.scope));
        assert(a.call(
            x,
            with_filters(a.fcols(), combos.last(), scope_bound(x.scope)),
            virtuals,
            values,
        ) == b.call(
            y,
            with_filters(b.fcols(), combos.last(), scope_bound(y.scope)),
            virtuals,
            values,
        ));
    }
}

proof fn same_value_arms(
    a: &ListForFiltersFn,
    b: &ListForFiltersFn,
    x: QueryCase,
    y: QueryCase,
    opts: &RepositoryOptions,
    cursor: &ComboCursor,
    catalog: IndexCatalog,
    virtuals: Seq<VirtualState>,
    combos: Seq<Seq<ValueVirtualState>>,
)
    requires
        both_filter(a, b, opts, cursor, catalog),
        alike_cases(x, y),
    ensures
        a.value_arms(x, virtuals, combos) == b.value_arms(y, virtuals, combos),
        a.value_fallbacks(x, virtuals, combos) == b.value_fallbacks(y, virtuals, combos),
    decreases combos.len(),
{
    assert(scope_bound(x.scope) == scope_bound(y.scope));
    assert(columns_of(a.virtual_columns@).len() == a.virtual_columns.len());
    assert(columns_of(b.virtual_columns@).len() == b.virtual_columns.len());
    if combos.len() > 0 {
        same_value_arms(a, b, x, y, opts, cursor, catalog, virtuals, combos.drop_last());
        same_filter_arms(
            a,
            b,
            x,
            y,
            opts,
            cursor,
            catalog,
            virtuals,
            combos.last(),
            filter_combos(a.fcols()),
        );
    }
}

proof fn same_virtual_arms(
    a: &ListForFiltersFn,
    b: &ListForFiltersFn,
    x: QueryCase,
    y: QueryCase,
    opts: &RepositoryOptions,
    cursor: &ComboCursor,
    catalog: IndexCatalog,
    combos: Seq<Seq<VirtualState>>,
)
    requires
        both_filter(a, b, opts, cursor, catalog),
        alike_cases(x, y),
    ensures
        a.virtual_arms(x, combos) == b.virtual_arms(y, combos),
        a.virtual_fallbacks(x, combos) == b.virtual_fallbacks(y, combos),
    decreases combos.len(),
{
    if combos.len() > 0 {
        same_virtual_arms(a, b, x, y, opts, cursor, catalog, combos.drop_last());
        same_value_arms(
            a,
            b,
            x,
            y,
            opts,
            cursor,
            catalog,
            combos.last(),
            value_combos(a.vcols().len()),
        );
    }
}

proof fn same_case_arms(
    a: &ListForFiltersFn,
    b: &ListForFiltersFn,
    x: QueryCase,
    y: QueryCase,
    opts: &RepositoryOptions,
    cursor: &ComboCursor,
    catalog: IndexCatalog,
)
    requires
        both_filter(a, b, opts, cursor, catalog),
        alike_cases(x, y),
    ensures
        a.case_arms(x) == b.case_arms(y),
{
    same_virtual_arms(a, b, x, y, opts, cursor, catalog, virtual_combos(a.bcols().len()));
    assert forall|combo: Seq<FilterState>| a.specialized(combo, x.scope) == b.specialized(
        combo,
        y.scope,
    ) by {}
    assert(a.all_specialized(x.scope) == b.all_specialized(y.scope));
}

proof fn same_direction_arms(
    a: &ListForFiltersFn,
    b: &ListForFiltersFn,
    by: &Column,
    variant: DeleteOption,
    x: Option<&ScopeCol>,
    y: Option<&ScopeCol>,
    opts: &RepositoryOptions,
    cursor: &ComboCursor,
    catalog: IndexCatalog,
)
    requires
        both_filter(a, b, opts, cursor, catalog),
        x is Some <==> y is Some,
        x is Some ==> alike(*x->0, *y->0),
    ensures
        a.direction_arms(by, variant, x) == b.direction_arms(by, variant, y),
{
    same_case_arms(
        a,
        b,
        QueryCase { by, variant, scope: x, ascending: true },
        QueryCase { by, variant, scope: y, ascending: true },
        opts,
        cursor,
        catalog,
    );
    same_case_arms(
        a,
        b,
        QueryCase { by, variant, scope: x, ascending: false },
        QueryCase { by, variant, scope: y, ascending: false },
        opts,
        cursor,
        catalog,
    );
    assert(a.scrutinees() == b.scrutinees());
}

proof fn same_filters_by(
    a: &ListForFiltersFn,
    b: &ListForFiltersFn,
    by: &Column,
    variant: DeleteOption,
    opts: &RepositoryOptions,
    cursor: &ComboCursor,
    catalog: IndexCatalog,
)
    requires
        both_filter(a, b, opts, cursor, catalog),
    ensures
        a.match_code(by, variant) == b.match_code(by, variant),
        a.by_code(by, variant) == b.by_code(by, variant),
        a.by_delegate(*by, variant) == b.by_delegate(*by, variant),
{
    reveal(ListForFiltersFn::by_code);
    same_direction_arms(a, b, by, variant, None, None, opts, cursor, catalog);
    match (a.scope, b.scope) {
        (Some(x), Some(y)) => {
            let left = Seq::new(
                x.cols.len() as nat,
                |i: int| a.direction_arms(by, variant, Some(&x.cols@[i])),
            );
            let right = Seq::new(
                y.cols.len() as nat,
                |i: int| b.direction_arms(by, variant, Some(&y.cols@[i])),
            );
            same_cols(x, y, opts);
            assert forall|i: int| 0 <= i < x.cols.len() implies #[trigger] left[i] == right[i] by {
                assert(alike(x.cols@[i], y.cols@[i]));
                same_direction_arms(
                    a,
                    b,
                    by,
                    variant,
                    Some(&x.cols@[i]),
                    Some(&y.cols@[i]),
                    opts,
                    cursor,
                    catalog,
                );
            }
            same_dispatch(x, y, opts, a.direction_arms(by, variant, None), left, right);
        },
        _ => {},
    }
    assert(a.match_code(by, variant) == b.match_code(by, variant));
    assert(scope_parts(a.scope) == scope_parts(b.scope));
    assert(a.cursor_spec(*by).named() == b.cursor_spec(*by).named());
    assert(a.cursor_spec(*by).destructured() == b.cursor_spec(*by).destructured());
    assert(a.by_name(*by, variant) == b.by_name(*by, variant));
    assert(a.filters_struct.named() == b.filters_struct.named());
}

proof fn same_proxy(
    a: &ListForFiltersFn,
    b: &ListForFiltersFn,
    by: Column,
    variant: DeleteOption,
    opts: &RepositoryOptions,
    cursor: &ComboCursor,
    catalog: IndexCatalog,
)
    requires
        both_filter(a, b, opts, cursor, catalog),
    ensures
        a.proxy_code(by, variant, true) == b.proxy_code(by, variant, true),
{
    let pairs = paired(a.fcols(), by.name@);
    assert(columns_of(a.for_columns@).len() == a.for_columns.len());
    assert(columns_of(b.for_columns@).len() == b.for_columns.len());
    assert(columns_of(a.virtual_columns@).len() == a.virtual_columns.len());
    assert(columns_of(b.virtual_columns@).len() == b.virtual_columns.len());
    assert forall|i: int| 0 <= i < pairs.len() implies a.single_branch(
        #[trigger] pairs[i],
        by,
        variant,
        true,
    ) == b.single_branch(pairs[i], by, variant, true) by {}
    assert(Seq::new(pairs.len(), |i: int| a.single_branch(pairs[i], by, variant, true))
        =~= Seq::new(pairs.len(), |i: int| b.single_branch(pairs[i], by, variant, true)));
}

proof fn same_filters_variant(
    a: &ListForFiltersFn,
    b: &ListForFiltersFn,
    variant: DeleteOption,
    opts: &RepositoryOptions,
    cursor: &ComboCursor,
    catalog: IndexCatalog,
)
    requires
        both_filter(a, b, opts, cursor, catalog),
    ensures
        a.variant_code(variant) == b.variant_code(variant),
        a.delegate_code(variant) == b.delegate_code(variant),
{
    reveal(ListForFiltersFn::variant_code);
    assert(columns_of(a.by_columns@).len() == a.by_columns.len());
    assert(columns_of(b.by_columns@).len() == b.by_columns.len());
    assert forall|i: int| 0 <= i < a.by_columns.len() implies {
        &&& *(#[trigger] a.by_columns@[i]) == *b.by_columns@[i]
        &&& a.by_code(a.by_columns@[i], variant) == b.by_code(b.by_columns@[i], variant)
        &&& a.by_delegate(*a.by_columns@[i], variant) == b.by_delegate(*b.by_columns@[i], variant)
    } by {
        assert(columns_of(a.by_columns@)[i] == *a.by_columns@[i]);
        assert(columns_of(b.by_columns@)[i] == *b.by_columns@[i]);
        same_filters_by(a, b, a.by_columns@[i], variant, opts, cursor, catalog);
    }
    same_filters_sort(a, b, variant, opts, cursor, catalog);
    assert(Seq::new(a.by_columns.len() as nat, |i: int| a.by_code(a.by_columns@[i], variant))
        =~= Seq::new(b.by_columns.len() as nat, |i: int| b.by_code(b.by_columns@[i], variant)));
    assert(Seq::new(
        a.by_columns.len() as nat,
        |i: int| a.by_delegate(*a.by_columns@[i], variant),
    ) =~= Seq::new(
        b.by_columns.len() as nat,
        |i: int| b.by_delegate(*b.by_columns@[i], variant),
    ));
    assert(a.filters_struct.named() == b.filters_struct.named());
}

proof fn same_filters_sort(
    a: &ListForFiltersFn,
    b: &ListForFiltersFn,
    variant: DeleteOption,
    opts: &RepositoryOptions,
    cursor: &ComboCursor,
    catalog: IndexCatalog,
)
    requires
        both_filter(a, b, opts, cursor, catalog),
    ensures
        a.sort_code(variant) == b.sort_code(variant),
{
    reveal(ListForFiltersFn::sort_code);
    assert(columns_of(a.by_columns@).len() == a.by_columns.len());
    assert(columns_of(b.by_columns@).len() == b.by_columns.len());
    assert forall|i: int| 0 <= i < a.by_columns.len() implies {
        &&& *(#[trigger] a.by_columns@[i]) == *b.by_columns@[i]
        &&& a.proxy_code(*a.by_columns@[i], variant, true) == b.proxy_code(
            *b.by_columns@[i],
            variant,
            true,
        )
        &&& a.cursor_spec(*a.by_columns@[i]).named() == b.cursor_spec(*b.by_columns@[i]).named()
    } by {
        assert(columns_of(a.by_columns@)[i] == *a.by_columns@[i]);
        assert(columns_of(b.by_columns@)[i] == *b.by_columns@[i]);
        same_proxy(a, b, *a.by_columns@[i], variant, opts, cursor, catalog);
    }
    assert(a.sort_arms(variant) =~= b.sort_arms(variant));
    assert(scope_parts(a.scope) == scope_parts(b.scope));
    assert(a.filters_struct.named() == b.filters_struct.named());
}

proof fn same_filters(
    a: &ListForFiltersFn,
    b: &ListForFiltersFn,
    opts: &RepositoryOptions,
    cursor: &ComboCursor,
    catalog: IndexCatalog,
)
    requires
        both_filter(a, b, opts, cursor, catalog),
    ensures
        a.code() == b.code(),
        a.delegates() == b.delegates(),
        a.filters_struct.code() == b.filters_struct.code(),
{
    reveal(ListForFiltersFn::code);
    reveal(ListForFiltersFn::delegates);
    reveal(FiltersStruct::code);
    let variants = a.delete.variants();
    assert forall|i: int| 0 <= i < variants.len() implies {
        &&& a.variant_code(#[trigger] variants[i]) == b.variant_code(variants[i])
        &&& a.delegate_code(variants[i]) == b.delegate_code(variants[i])
    } by {
        same_filters_variant(a, b, variants[i], opts, cursor, catalog);
    }
    assert(Seq::new(variants.len(), |i: int| a.variant_code(a.delete.variants()[i])) =~= Seq::new(
        variants.len(),
        |i: int| b.variant_code(b.delete.variants()[i]),
    ));
    assert(Seq::new(variants.len(), |i: int| a.delegate_code(a.delete.variants()[i])) =~= Seq::new(
        variants.len(),
        |i: int| b.delegate_code(b.delete.variants()[i]),
    ));
}

proof fn same_lists(
    a: &EsRepo,
    b: &EsRepo,
    opts: &RepositoryOptions,
    cursor: &ComboCursor,
    catalog: IndexCatalog,
    parts: &RepoParts,
)
    requires
        a.made_from(opts, cursor, catalog, parts),
        b.made_from(opts, cursor, catalog, parts),
    ensures
        a.find_by_codes() == b.find_by_codes(),
        a.find_by_delegates() == b.find_by_delegates(),
        a.list_by_codes() == b.list_by_codes(),
        a.list_by_delegates() == b.list_by_delegates(),
        a.cursors() == b.cursors(),
        a.gql_cursors() == b.gql_cursors(),
        a.list_for_codes() == b.list_for_codes(),
        a.list_for_delegates() == b.list_for_delegates(),
        a.nested_codes() == b.nested_codes(),
{
    let columns = opts.columns;
    let find_by = columns.picks(Pick::FindBy);
    let list_by = columns.picks(Pick::ListBy);
    let list_for = list_pairs(columns.all@, columns.picks(Pick::ListFor));
    assert forall|i: int| 0 <= i < a.find_by_fns.len() implies {
        &&& (#[trigger] a.find_by_fns@[i]).code() == b.find_by_fns@[i].code()
        &&& a.find_by_fns@[i].delegates() == b.find_by_fns@[i].delegates()
    } by {
        same_find_by(&a.find_by_fns@[i], &b.find_by_fns@[i], &find_by[i], opts);
    }
    assert(a.find_by_codes() =~= b.find_by_codes());
    assert(a.find_by_delegates() =~= b.find_by_delegates());
    assert forall|i: int| 0 <= i < a.list_by_fns.len() implies {
        &&& (#[trigger] a.list_by_fns@[i]).code() == b.list_by_fns@[i].code()
        &&& a.list_by_fns@[i].delegates() == b.list_by_fns@[i].delegates()
        &&& a.list_by_fns@[i].cursor_spec().code() == b.list_by_fns@[i].cursor_spec().code()
        &&& a.list_by_fns@[i].cursor_spec().named() == b.list_by_fns@[i].cursor_spec().named()
    } by {
        same_list_by(&a.list_by_fns@[i], &b.list_by_fns@[i], &list_by[i], opts);
    }
    assert(a.list_by_codes() =~= b.list_by_codes());
    assert(a.list_by_delegates() =~= b.list_by_delegates());
    assert(a.cursors() =~= b.cursors());
    assert(a.gql_cursors() =~= b.gql_cursors());
    assert forall|i: int| 0 <= i < a.list_for_fns.len() implies {
        &&& (#[trigger] a.list_for_fns@[i]).code() == b.list_for_fns@[i].code()
        &&& a.list_for_fns@[i].delegates() == b.list_for_fns@[i].delegates()
    } by {
        same_list_for(
            &a.list_for_fns@[i],
            &b.list_for_fns@[i],
            &list_for[i].0,
            &list_for[i].1,
            opts,
        );
    }
    assert(a.list_for_codes() =~= b.list_for_codes());
    assert(a.list_for_delegates() =~= b.list_for_delegates());
    assert forall|i: int| 0 <= i < a.nested.len() implies (#[trigger] a.nested@[i]).code()
        == b.nested@[i].code() by {
        same_nested(&a.nested@[i], &b.nested@[i], &opts.nested()[i], opts);
    }
    assert(a.nested_codes() =~= b.nested_codes());
}

proof fn same_write_fns(
    a: &EsRepo,
    b: &EsRepo,
    opts: &RepositoryOptions,
    cursor: &ComboCursor,
    catalog: IndexCatalog,
    parts: &RepoParts,
)
    requires
        a.made_from(opts, cursor, catalog, parts),
        b.made_from(opts, cursor, catalog, parts),
    ensures
        a.write_fns() == b.write_fns(),
{
    reveal(EsRepo::write_fns);
    same_classifier(&a.error_classifier, &b.error_classifier, opts);
    same_hydrate_hook(&a.post_hydrate_hook, &b.post_hydrate_hook, opts);
    same_persist_hook(&a.post_persist_hook, &b.post_persist_hook, opts);
    match (a.persist_events_fn, b.persist_events_fn) {
        (Some(x), Some(y)) => same_persist(&x, &y, opts),
        _ => {},
    }
    match (a.persist_events_batch_fn, b.persist_events_batch_fn) {
        (Some(x), Some(y)) => same_persist_batch(&x, &y, opts),
        _ => {},
    }
    same_create(&a.create_fn, &b.create_fn, opts);
    same_create_all(&a.create_all_fn, &b.create_all_fn, opts);
    same_delete(&a.delete_fn, &b.delete_fn, opts);
    match (a.forget_fn, b.forget_fn) {
        (Some(x), Some(y)) => same_forget(&x, &y, opts),
        _ => {},
    }
}

/// The code of a repository is determined by its options, the indexes that are
/// known and the parts that are given: whatever is made of them, the code is
/// the same. Only the entity that the errors of a nested repository are named
/// after can depend on more, where it is not given and the repository's type
/// has a parameter: it is then made of the singular of the type's name.
pub proof fn code_is_determined(
    a: &EsRepo,
    b: &EsRepo,
    opts: &RepositoryOptions,
    cursor: &ComboCursor,
    catalog: IndexCatalog,
    parts: &RepoParts,
)
    requires
        a.made_from(opts, cursor, catalog, parts),
        b.made_from(opts, cursor, catalog, parts),
        forall|i: int|
            0 <= i < opts.nested().len() ==> entity_is_told(
                #[trigger] opts.nested()[i],
                opts.generics.type_names(),
            ),
    ensures
        a.code() == b.code(),
{
    reveal(EsRepo::code);
    reveal(EsRepo::cursors_code);
    reveal(EsRepo::types_code);
    reveal(EsRepo::delegates);
    reveal(EsRepo::scoped);
    reveal(EsRepo::read_fns);
    reveal(EsRepo::impl_code);
    reveal(EsRepo::trait_code);
    same_lists(a, b, opts, cursor, catalog, parts);
    same_write_fns(a, b, opts, cursor, catalog, parts);
    same_find_all(&a.find_all_fn, &b.find_all_fn, opts);
    same_filters(&a.list_for_filters, &b.list_for_filters, opts, cursor, catalog);
    same_error_types(&a.error_types, &b.error_types, opts);
    match (a.scope_type, b.scope_type) {
        (Some(x), Some(y)) => {
            same_scope_type(&x, &y, opts);
            same_cols(x.info, y.info, opts);
        },
        _ => {},
    }
    match (a.populate_nested, b.populate_nested) {
        (Some(x), Some(y)) => same_populate(&x, &y, &parent_column(opts.columns.all@)->0, opts),
        _ => {},
    }
    assert(a.delegates() == b.delegates());
    assert(a.scoped() == b.scoped());
    assert(a.read_fns() == b.read_fns());
    assert(a.impl_code() == b.impl_code());
    assert(a.cursors_code() == b.cursors_code());
    assert(a.types_code() == b.types_code());
    assert(a.nested_fns.deep_view().len() == a.nested_fns.len());
    assert(b.nested_fns.deep_view().len() == b.nested_fns.len());
    assert(a.trait_code() == b.trait_code());
}

} // verus!
