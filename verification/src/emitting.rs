//! Which options are accepted, and which functions the code of a repository holds.

use vstd::prelude::*;
use vstd::string::*;

use crate::combo_cursor::ComboCursor;
use crate::es_repo::{
    accepted, list_pairs, listed_column, load_calls, pairs_for, parent_column, EsRepo, RepoParts,
};
use crate::index_catalog::IndexCatalog;
use crate::options::column::Column;
use crate::options::columns::{picked, Pick};
use crate::options::repository::{ParamPart, RepositoryOptions};
use crate::options::validate::{
    lacks_value, scopes_go_together, sorts_are_listed, values_have_a_place, virtuals_are_filtered,
};
use crate::text::{ended, ended_holds, occurs, occurs_behind, occurs_extended, occurs_within};

verus! {

pub proof fn picked_are_found(all: Seq<Column>, pick: Pick, i: int)
    requires
        0 <= i < all.len(),
        pick.admits(all[i]),
    ensures
        picked(all, pick).contains(all[i]),
    decreases all.len(),
{
    let front = all.drop_last();
    if i < front.len() {
        picked_are_found(front, pick, i);
        assert(front[i] == all[i]);
        let before = picked(front, pick);
        let j = choose|j: int| 0 <= j < before.len() && before[j] == all[i];
        assert(picked(all, pick)[j] == all[i]);
    } else {
        assert(picked(all, pick).last() == all[i]);
    }
}

proof fn listed_is_first(all: Seq<Column>, k: int)
    requires
        0 <= k < all.len(),
        all[k].opts.lists(),
        forall|j: int|
            0 <= j < k ==> !((#[trigger] all[j]).name@ == all[k].name@ && all[j].opts.lists()),
    ensures
        listed_column(all, all[k].name@) == Some(all[k]),
    decreases all.len(),
{
    let front = all.drop_last();
    if k < front.len() {
        assert forall|j: int| 0 <= j < k implies !((#[trigger] front[j]).name@ == front[k].name@
            && front[j].opts.lists()) by {
            assert(front[j] == all[j]);
        }
        listed_is_first(front, k);
    } else {
        none_is_listed(front, all[k].name@);
    }
}

proof fn none_is_listed(all: Seq<Column>, name: Seq<char>)
    requires
        forall|j: int|
            0 <= j < all.len() ==> !((#[trigger] all[j]).name@ == name && all[j].opts.lists()),
    ensures
        listed_column(all, name) is None,
    decreases all.len(),
{
    if all.len() > 0 {
        let front = all.drop_last();
        assert forall|j: int| 0 <= j < front.len() implies !((#[trigger] front[j]).name@ == name
            && front[j].opts.lists()) by {
            assert(front[j] == all[j]);
        }
        none_is_listed(front, name);
        assert(all[all.len() - 1] == all.last());
    }
}

proof fn pair_is_found(all: Seq<Column>, c: Column, names: Seq<Seq<char>>, by: Column, n: int)
    requires
        0 <= n < names.len(),
        listed_column(all, names[n]) == Some(by),
    ensures
        pairs_for(all, c, names).contains((c, by)),
    decreases names.len(),
{
    let front = names.drop_last();
    let all_pairs = pairs_for(all, c, names);
    if n < front.len() {
        assert(front[n] == names[n]);
        pair_is_found(all, c, front, by, n);
        let pairs = pairs_for(all, c, front);
        let j = choose|j: int| 0 <= j < pairs.len() && pairs[j] == (c, by);
        assert(all_pairs[j] == (c, by));
    } else {
        assert(all_pairs.last() == (c, by));
    }
}

proof fn list_is_found(all: Seq<Column>, cols: Seq<Column>, c: Column, by: Column)
    requires
        cols.contains(c),
        pairs_for(all, c, c.opts.sort_columns()).contains((c, by)),
    ensures
        list_pairs(all, cols).contains((c, by)),
    decreases cols.len(),
{
    let front = cols.drop_last();
    let before = list_pairs(all, front);
    let last = pairs_for(all, cols.last(), cols.last().opts.sort_columns());
    let pairs = list_pairs(all, cols);
    let i = choose|i: int| 0 <= i < cols.len() && cols[i] == c;
    if i < front.len() {
        assert(front[i] == c);
        list_is_found(all, front, c, by);
        let j = choose|j: int| 0 <= j < before.len() && before[j] == (c, by);
        assert(pairs[j] == (c, by));
    } else {
        let j = choose|j: int| 0 <= j < last.len() && last[j] == (c, by);
        assert(pairs[before.len() + j] == (c, by));
    }
}

proof fn parent_is_found(all: Seq<Column>, i: int)
    requires
        0 <= i < all.len(),
        all[i].opts.parent_opts is Some,
    ensures
        parent_column(all) is Some,
    decreases all.len(),
{
    if i < all.len() - 1 {
        assert(all.drop_last()[i] == all[i]);
        parent_is_found(all.drop_last(), i);
    }
}

proof fn functions_are_in_code(repo: &EsRepo)
    ensures
        occurs(repo.code(), repo.write_fns()),
        occurs(repo.code(), repo.read_fns()),
        repo.populate_nested matches Some(p) ==> occurs(repo.code(), p.code()),
{
    let fns = repo.write_fns() + repo.read_fns();
    assert(occurs(repo.impl_code(), fns)) by {
        reveal(EsRepo::impl_code);
        broadcast use occurs_extended;

    }
    assert(occurs(repo.code(), repo.impl_code())) by {
        broadcast use occurs_extended;

    }
    assert(repo.populate_nested matches Some(p) ==> occurs(repo.code(), p.code())) by {
        broadcast use occurs_extended;

    }
    occurs_within(repo.code(), repo.impl_code(), fns);
    crate::text::occurs_itself(repo.write_fns());
    crate::text::occurs_itself(repo.read_fns());
    occurs_extended(repo.write_fns(), repo.read_fns(), repo.write_fns());
    occurs_behind(repo.write_fns(), repo.read_fns(), repo.read_fns());
    occurs_within(repo.code(), fns, repo.write_fns());
    occurs_within(repo.code(), fns, repo.read_fns());
}

proof fn reads_hold(repo: &EsRepo)
    ensures
        occurs(repo.read_fns(), repo.find_all_fn.code()),
        occurs(repo.read_fns(), repo.list_for_filters.code()),
        occurs(repo.read_fns(), ended(repo.find_by_codes(), "\n"@)),
        occurs(repo.read_fns(), ended(repo.list_by_codes(), "\n"@)),
        occurs(repo.read_fns(), ended(repo.list_for_codes(), "\n"@)),
        occurs(repo.read_fns(), ended(repo.nested_codes(), "\n"@)),
{
    reveal(EsRepo::read_fns);
    crate::text::occurs_itself(ended(repo.find_by_codes(), "\n"@));
    broadcast use occurs_extended;

}

proof fn writes_hold(repo: &EsRepo)
    ensures
        occurs(repo.write_fns(), repo.create_fn.code()),
        occurs(repo.write_fns(), repo.create_all_fn.code()),
        occurs(repo.write_fns(), repo.delete_fn.code()),
        repo.forget_fn matches Some(f) ==> occurs(repo.write_fns(), f.code()),
{
    reveal(EsRepo::write_fns);
    broadcast use occurs_extended;

}

/// The code of a repository holds the functions that write, the functions that
/// find, and the lists: for every column that entities are found by the functions
/// that do so, for every column that lists are sorted by the list, and for every
/// column that lists are filtered by one list for each of its sort columns. Where
/// a column holds the id of a parent it holds what reads the nested entities.
pub proof fn functions_are_emitted(
    repo: &EsRepo,
    opts: &RepositoryOptions,
    cursor: &ComboCursor,
    catalog: IndexCatalog,
    parts: &RepoParts,
    i: int,
)
    requires
        repo.made_from(opts, cursor, catalog, parts),
        0 <= i < opts.columns.all.len(),
    ensures
        occurs(repo.code(), repo.create_fn.code()),
        occurs(repo.code(), repo.create_all_fn.code()),
        occurs(repo.code(), repo.delete_fn.code()),
        opts.forgettable ==> (repo.forget_fn matches Some(f) && occurs(repo.code(), f.code())),
        occurs(repo.code(), repo.find_all_fn.code()),
        occurs(repo.code(), repo.list_for_filters.code()),
        opts.columns.all@[i].opts.finds() ==> exists|j: int|
            0 <= j < repo.find_by_fns.len() && (#[trigger] repo.find_by_fns@[j]).made_from(
                &opts.columns.all@[i],
                opts,
            ) && occurs(repo.code(), repo.find_by_fns@[j].code()),
        opts.columns.all@[i].opts.lists() ==> exists|j: int|
            0 <= j < repo.list_by_fns.len() && (#[trigger] repo.list_by_fns@[j]).made_from(
                &opts.columns.all@[i],
                opts,
            ) && occurs(repo.code(), repo.list_by_fns@[j].code()),
        opts.columns.all@[i].opts.parent_opts is Some ==> (repo.populate_nested matches Some(p)
            && occurs(repo.code(), p.code())),
{
    let all = opts.columns.all@;
    functions_are_in_code(repo);
    reads_hold(repo);
    writes_hold(repo);
    occurs_within(repo.code(), repo.write_fns(), repo.create_fn.code());
    occurs_within(repo.code(), repo.write_fns(), repo.create_all_fn.code());
    occurs_within(repo.code(), repo.write_fns(), repo.delete_fn.code());
    occurs_within(repo.code(), repo.read_fns(), repo.find_all_fn.code());
    occurs_within(repo.code(), repo.read_fns(), repo.list_for_filters.code());
    if let Some(f) = repo.forget_fn {
        occurs_within(repo.code(), repo.write_fns(), f.code());
    }
    if all[i].opts.finds() {
        picked_are_found(all, Pick::FindBy, i);
        let picks = opts.columns.picks(Pick::FindBy);
        let j = choose|j: int| 0 <= j < picks.len() && picks[j] == all[i];
        let each = ended(repo.find_by_codes(), "\n"@);
        assert(repo.find_by_fns@[j].made_from(&picks[j], opts));
        ended_holds(repo.find_by_codes(), "\n"@, j);
        occurs_within(repo.read_fns(), each, repo.find_by_codes()[j]);
        occurs_within(repo.code(), repo.read_fns(), repo.find_by_codes()[j]);
    }
    if all[i].opts.lists() {
        picked_are_found(all, Pick::ListBy, i);
        let picks = opts.columns.picks(Pick::ListBy);
        let j = choose|j: int| 0 <= j < picks.len() && picks[j] == all[i];
        let each = ended(repo.list_by_codes(), "\n"@);
        assert(repo.list_by_fns@[j].made_from(&picks[j], opts));
        ended_holds(repo.list_by_codes(), "\n"@, j);
        occurs_within(repo.read_fns(), each, repo.list_by_codes()[j]);
        occurs_within(repo.code(), repo.read_fns(), repo.list_by_codes()[j]);
    }
    if all[i].opts.parent_opts is Some {
        parent_is_found(all, i);
    }
}

/// For a column that lists are filtered by, and each of its sort columns, the code
/// of a repository holds the list for the one that is sorted by the other. Of
/// several columns of a name the first that lists are sorted by is meant.
pub proof fn filtered_lists_are_emitted(
    repo: &EsRepo,
    opts: &RepositoryOptions,
    cursor: &ComboCursor,
    catalog: IndexCatalog,
    parts: &RepoParts,
    i: int,
    k: int,
)
    requires
        repo.made_from(opts, cursor, catalog, parts),
        0 <= i < opts.columns.all.len(),
        0 <= k < opts.columns.all.len(),
        opts.columns.all@[i].opts.filters(),
        opts.columns.all@[i].opts.virtual_sql is None,
        opts.columns.all@[i].opts.sort_columns().contains(opts.columns.all@[k].name@),
        opts.columns.first_list_by(opts.columns.all@[k].name@, k),
    ensures
        exists|j: int|
            0 <= j < repo.list_for_fns.len() && (#[trigger] repo.list_for_fns@[j]).made_from(
                &opts.columns.all@[i],
                &opts.columns.all@[k],
                opts,
            ) && occurs(repo.code(), repo.list_for_fns@[j].code()),
{
    let all = opts.columns.all@;
    let names = all[i].opts.sort_columns();
    let n = choose|n: int| 0 <= n < names.len() && names[n] == all[k].name@;
    functions_are_in_code(repo);
    reads_hold(repo);
    picked_are_found(all, Pick::ListFor, i);
    listed_is_first(all, k);
    pair_is_found(all, all[i], names, all[k], n);
    list_is_found(all, opts.columns.picks(Pick::ListFor), all[i], all[k]);
    let pairs = list_pairs(all, opts.columns.picks(Pick::ListFor));
    let j = choose|j: int| 0 <= j < pairs.len() && pairs[j] == (all[i], all[k]);
    assert(repo.list_for_fns@[j].made_from(&pairs[j].0, &pairs[j].1, opts));
    let each = ended(repo.list_for_codes(), "\n"@);
    ended_holds(repo.list_for_codes(), "\n"@, j);
    occurs_within(repo.read_fns(), each, repo.list_for_codes()[j]);
    occurs_within(repo.code(), repo.read_fns(), repo.list_for_codes()[j]);
}

/// Options are accepted exactly if what they ask for goes together: every sort
/// column of a list for a filter is one that lists are sorted by, a column that
/// exists in filters alone is filtered by and has a place for the value that it
/// takes, the scope columns can be told apart and stand in a repository of their
/// own, and columns are forgettable only where payloads are.
pub proof fn options_go_together(opts: &RepositoryOptions)
    ensures
        accepted(opts) <==> {
            let all = opts.columns.all@;
            let scopes = opts.columns.picks(Pick::Scope);
            &&& forall|i: int, k: int|
                0 <= i < all.len() && all[i].opts.filters() && 0 <= k
                    < all[i].opts.sort_columns().len() ==> opts.columns.has_list_by(
                    #[trigger] all[i].opts.sort_columns()[k],
                )
            &&& forall|i: int|
                0 <= i < all.len() && (#[trigger] all[i]).opts.virtual_sql is Some
                    ==> all[i].opts.filters()
            &&& forall|i: int| 0 <= i < all.len() ==> !lacks_value(#[trigger] all[i])
            &&& scopes.len() > 0 ==> !opts.columns.has_parent()
            &&& scopes.len() > 1 ==> forall|i: int|
                0 <= i < scopes.len() ==> !(#[trigger] scopes[i]).opts.is_id
            &&& forall|i: int|
                0 <= i < scopes.len() ==> {
                    &&& (#[trigger] scopes[i]).null_allowed() ==> scopes[i].optional()
                    &&& !scopes[i].opts.forgettable
                    &&& scopes[i].opts.parent_opts is None
                }
            &&& forall|i: int, j: int|
                0 <= i < j < scopes.len() ==> (#[trigger] scopes[i]).scope_type() != (
                #[trigger] scopes[j]).scope_type()
            &&& !opts.forgettable ==> forall|i: int|
                0 <= i < all.len() && (#[trigger] all[i]).opts.forgettable ==> all[i].opts.is_id
        },
{
    let all = opts.columns.all@;
    let scopes = opts.columns.picks(Pick::Scope);
    sorts_are_listed(opts.columns, all);
    virtuals_are_filtered(all);
    values_have_a_place(all);
    if scopes.len() > 0 {
        scopes_go_together(scopes, opts.columns.has_parent());
    }
    none_is_picked(all, Pick::Forgettable);
}

proof fn none_is_picked(all: Seq<Column>, pick: Pick)
    ensures
        picked(all, pick).len() == 0 <==> forall|i: int|
            0 <= i < all.len() ==> !pick.admits(#[trigger] all[i]),
    decreases all.len(),
{
    if all.len() > 0 {
        let front = all.drop_last();
        none_is_picked(front, pick);
        assert(all[all.len() - 1] == all.last());
        if picked(all, pick).len() == 0 {
            assert forall|i: int| 0 <= i < all.len() implies !pick.admits(#[trigger] all[i]) by {
                if i < front.len() {
                    assert(front[i] == all[i]);
                }
            }
        } else if picked(front, pick).len() > 0 {
            let i = choose|i: int| 0 <= i < front.len() && pick.admits(#[trigger] front[i]);
            assert(all[i] == front[i]);
        }
    }
}

/// What the repository tells of itself: its entity, the errors of its functions,
/// and whether queries have nested entities to load.
pub open spec fn told_types(opts: &RepositoryOptions) -> Seq<char> {
    let entity = opts.entity_ident@;
    " {\n    type Entity = "@ + entity + ";\n    type CreateError = "@ + (entity + "CreateError"@)
        + ";\n    type ModifyError = "@ + (entity + "ModifyError"@) + ";\n    type FindError = "@ + (
    entity + "FindError"@) + ";\n    type QueryError = "@ + (entity + "QueryError"@)
        + ";\n    type EsQueryFlavor = "@ + (if opts.nested().len() > 0 {
        "es_entity::EsQueryFlavorNested"@
    } else {
        "es_entity::EsQueryFlavorFlat"@
    })
}

/// A repository tells what it is of: the entity, its errors, and that queries load
/// nested entities exactly where there are nested repositories.
pub proof fn types_are_told(
    repo: &EsRepo,
    opts: &RepositoryOptions,
    cursor: &ComboCursor,
    catalog: IndexCatalog,
    parts: &RepoParts,
)
    requires
        repo.made_from(opts, cursor, catalog, parts),
    ensures
        occurs(repo.trait_code(), told_types(opts)),
{
    reveal(EsRepo::trait_code);
    let entity = opts.entity_ident@;
    assert(repo.nested_fns.len() == repo.nested_fns.deep_view().len());
    types_text(
        repo.generics.listed(None, ParamPart::ImplDeclaration),
        repo.repo@,
        repo.generics.listed(None, ParamPart::Name),
        repo.generics.where_clause@,
        entity,
        entity + "CreateError"@,
        entity + "ModifyError"@,
        entity + "FindError"@,
        entity + "QueryError"@,
        if opts.nested().len() > 0 {
            "es_entity::EsQueryFlavorNested"@
        } else {
            "es_entity::EsQueryFlavorFlat"@
        },
        ended(load_calls(repo.nested_fns.deep_view()), "\n"@),
        ended(load_calls(repo.nested_include_deleted_fns.deep_view()), "\n"@),
    );
}

proof fn types_text(
    impl_generics: Seq<char>,
    repo: Seq<char>,
    ty_generics: Seq<char>,
    where_clause: Seq<char>,
    entity: Seq<char>,
    create: Seq<char>,
    modify: Seq<char>,
    find: Seq<char>,
    query: Seq<char>,
    flavor: Seq<char>,
    nested: Seq<char>,
    all: Seq<char>,
)
    ensures
        occurs(
            crate::es_repo::es_repo_impl_code(
                impl_generics,
                repo,
                ty_generics,
                where_clause,
                entity,
                create,
                modify,
                find,
                query,
                flavor,
                nested,
                all,
            ),
            " {\n    type Entity = "@ + entity + ";\n    type CreateError = "@ + create
                + ";\n    type ModifyError = "@ + modify + ";\n    type FindError = "@ + find
                + ";\n    type QueryError = "@ + query + ";\n    type EsQueryFlavor = "@ + flavor,
        ),
{
    let types = " {\n    type Entity = "@ + entity + ";\n    type CreateError = "@ + create
        + ";\n    type ModifyError = "@ + modify + ";\n    type FindError = "@ + find
        + ";\n    type QueryError = "@ + query + ";\n    type EsQueryFlavor = "@ + flavor;
    assert forall|t: Seq<char>| #[trigger]
        (t + " {\n    type Entity = "@ + entity + ";\n    type CreateError = "@ + create
            + ";\n    type ModifyError = "@ + modify + ";\n    type FindError = "@ + find
            + ";\n    type QueryError = "@ + query + ";\n    type EsQueryFlavor = "@ + flavor) == t
            + types by {
        assert(t + " {\n    type Entity = "@ + entity + ";\n    type CreateError = "@ + create
            + ";\n    type ModifyError = "@ + modify + ";\n    type FindError = "@ + find
            + ";\n    type QueryError = "@ + query + ";\n    type EsQueryFlavor = "@ + flavor =~= t
            + types);
    }
    broadcast use occurs_extended;

}

} // verus!
