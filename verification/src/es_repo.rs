//! The code of a repository as a whole.

use vstd::prelude::*;
use vstd::string::*;

use crate::begin::{Begin, BEGIN_FNS};
use crate::combo_cursor::ComboCursor;
use crate::create_all_fn::CreateAllFn;
use crate::create_fn::CreateFn;
use crate::delete_fn::DeleteFn;
use crate::error_classifier::{
    extract_concurrent_modification_fn, ErrorClassifier, EXTRACT_CONCURRENT_MODIFICATION,
};
use crate::error_types::ErrorTypes;
use crate::find_all_fn::FindAllFn;
use crate::find_by_fn::FindByFn;
use crate::forget_fn::ForgetFn;
use crate::index_catalog::IndexCatalog;
use crate::list_by_fn::{CursorStruct, ListByFn};
use crate::list_for_filters_fn::ListForFiltersFn;
use crate::list_for_fn::ListForFn;
use crate::naming::{cased, NameCase};
use crate::nested::Nested;
use crate::options::column::Column;
use crate::options::columns::{columns_of, picked_len, Columns, Pick};
use crate::options::error::OptionsError;
use crate::options::repository::{
    fields_of, nested_have_names, Generics, NestedFn, ParamPart, RepoField, RepositoryOptions,
};
use crate::options::validate::{bad_sorts, first_unfiltered, first_without_value, scope_problem};
use crate::persist_events_batch_fn::PersistEventsBatchFn;
use crate::persist_events_fn::PersistEventsFn;
use crate::populate_nested::PopulateNested;
use crate::post_hydrate_hook::PostHydrateHook;
use crate::post_persist_hook::PostPersistHook;
use crate::scope::ScopeType;
use crate::text::{
    end_each, ended, given, join, joined, literal, occurs, occurs_extended, only_if, quote,
};

verus! {

/// The members of a repository whose code is given: the functions that update
/// entities, the cursor that stands for those of all sort columns, its form in
/// GraphQL, and the choice of a sort column.
pub struct RepoParts {
    pub update_fn: String,
    pub update_all_fn: String,
    pub combo_cursor: String,
    pub gql_combo_cursor: String,
    pub sort_by: String,
}

/// The code of a repository.
pub struct EsRepo<'a> {
    pub repo: &'a str,
    pub generics: &'a Generics,
    pub error_classifier: ErrorClassifier<'a>,
    /// Whether the function that tells concurrent modifications from other
    /// errors is emitted.
    pub extract_concurrent_modification: bool,
    pub persist_events_fn: Option<PersistEventsFn<'a>>,
    pub persist_events_batch_fn: Option<PersistEventsBatchFn<'a>>,
    pub create_fn: CreateFn<'a>,
    pub create_all_fn: CreateAllFn<'a>,
    pub delete_fn: DeleteFn<'a>,
    pub forget_fn: Option<ForgetFn<'a>>,
    pub find_by_fns: Vec<FindByFn<'a>>,
    pub find_all_fn: FindAllFn<'a>,
    pub post_hydrate_hook: PostHydrateHook<'a>,
    pub post_persist_hook: PostPersistHook<'a>,
    pub begin: Begin,
    pub list_by_fns: Vec<ListByFn<'a>>,
    pub list_for_fns: Vec<ListForFn<'a>>,
    pub list_for_filters: ListForFiltersFn<'a>,
    pub nested_fns: Vec<String>,
    pub nested_include_deleted_fns: Vec<String>,
    pub nested: Vec<Nested<'a>>,
    pub populate_nested: Option<PopulateNested<'a>>,
    pub error_types: ErrorTypes<'a>,
    pub scope_type: Option<ScopeType<'a>>,
    pub opts: &'a RepositoryOptions,
    pub parts: &'a RepoParts,
}

/// The module of the cursors.
pub open spec fn cursor_module_code(
    cursor_mod: Seq<char>,
    cursors: Seq<char>,
    gql_cursors: Seq<char>,
    combo_cursor: Seq<char>,
    gql_combo_cursor: Seq<char>,
) -> Seq<char> {
    "pub mod "@ + cursor_mod + " {
    use super::*;
    "@ + cursors + "
    "@ + gql_cursors + "
    "@ + combo_cursor + "
    "@ + gql_combo_cursor + "
}"@
}

/// The module of the cursors.
pub fn cursor_module(
    cursor_mod: &str,
    cursors: &str,
    gql_cursors: &str,
    combo_cursor: &str,
    gql_combo_cursor: &str,
) -> (res: String)
    ensures
        res@ == cursor_module_code(
            cursor_mod@,
            cursors@,
            gql_cursors@,
            combo_cursor@,
            gql_combo_cursor@,
        ),
{
    "pub mod ".to_string().concat(cursor_mod).concat(" {
    use super::*;
    ").concat(cursors).concat("
    ").concat(gql_cursors).concat("
    ").concat(combo_cursor).concat("
    ").concat(gql_combo_cursor).concat("
}")
}

/// Rejects events with forgettable fields where nothing can be forgotten.
pub const FORGETTABLE_GUARD: &'static str = "const _: () = assert!(
    !Repo__Event::HAS_FORGETTABLE_FIELDS,
    \"event type has Forgettable fields but this repo does not enable `forgettable`; add `forgettable` to #[es_repo(...)]\"
);";

/// The module of the types that queries refer to.
pub open spec fn types_module_code(
    types_mod: Seq<char>,
    id: Seq<char>,
    event: Seq<char>,
    entity: Seq<char>,
    has_tbl_prefix: Seq<char>,
    forgettable_event_guard: Seq<char>,
) -> Seq<char> {
    "mod "@ + types_mod + " {
    use super::*;
    #[allow(non_camel_case_types)]
    pub(super) type Repo__Id = "@ + id + ";
    #[allow(non_camel_case_types)]
    pub(super) type Repo__Event = "@ + event + ";
    #[allow(non_camel_case_types)]
    pub(super) type Repo__Entity = "@ + entity + ";
    #[allow(non_camel_case_types)]
    pub(super) type Repo__DbEvent = es_entity::GenericEvent<"@ + id + ">;
    #[allow(dead_code)]
    pub(super) const REPO__HAS_TBL_PREFIX: bool = "@ + has_tbl_prefix + ";
    "@ + forgettable_event_guard + "
}"@
}

/// The module of the types that queries refer to.
pub fn types_module(
    types_mod: &str,
    id: &str,
    event: &str,
    entity: &str,
    has_tbl_prefix: &str,
    forgettable_event_guard: &str,
) -> (res: String)
    ensures
        res@ == types_module_code(
            types_mod@,
            id@,
            event@,
            entity@,
            has_tbl_prefix@,
            forgettable_event_guard@,
        ),
{
    "mod ".to_string().concat(types_mod).concat(" {
    use super::*;
    #[allow(non_camel_case_types)]
    pub(super) type Repo__Id = ").concat(id).concat(";
    #[allow(non_camel_case_types)]
    pub(super) type Repo__Event = ").concat(event).concat(";
    #[allow(non_camel_case_types)]
    pub(super) type Repo__Entity = ").concat(entity).concat(";
    #[allow(non_camel_case_types)]
    pub(super) type Repo__DbEvent = es_entity::GenericEvent<").concat(id).concat(">;
    #[allow(dead_code)]
    pub(super) const REPO__HAS_TBL_PREFIX: bool = ").concat(has_tbl_prefix).concat(";
    ").concat(forgettable_event_guard).concat("
}")
}

/// The function that gives the view that is bound to a scope.
pub open spec fn scoped_function_code(
    scope_ty: Seq<char>,
    scoped_ident: Seq<char>,
    scoped_ty_generics: Seq<char>,
) -> Seq<char> {
    "pub fn scoped<'scoped_repo>(
    &'scoped_repo self,
    scope: impl Into<"@ + scope_ty + ">,
) -> "@ + scoped_ident + " "@ + scoped_ty_generics + " {
    "@ + scoped_ident + " {
        repo: self,
        scope: scope.into(),
    }
}"@
}

/// The function that gives the view that is bound to a scope.
fn scoped_function(
    scope_ty: &str,
    scoped_ident: &str,
    scoped_ty_generics: &str,
) -> (res: String)
    ensures
        res@ == scoped_function_code(scope_ty@, scoped_ident@, scoped_ty_generics@),
{
    "pub fn scoped<'scoped_repo>(
    &'scoped_repo self,
    scope: impl Into<".to_string().concat(scope_ty).concat(">,
) -> ").concat(scoped_ident).concat(" ").concat(scoped_ty_generics).concat(" {
    ").concat(scoped_ident).concat(" {
        repo: self,
        scope: scope.into(),
    }
}")
}

/// What the view that is bound to a scope documents.
pub open spec fn scoped_doc_code(repo_ident: Seq<char>, scope_ty: Seq<char>) -> Seq<char> {
    "Bound view of [`"@ + repo_ident + "`] with a [`"@ + scope_ty + "`] captured once: every read method delegates to the corresponding scope-argument fn with the bound scope. Obtained via [`"@ + repo_ident + "::scoped`]. Borrows the repo, so it is naturally request-scoped."@
}

/// What the view that is bound to a scope documents.
fn scoped_doc(repo_ident: &str, scope_ty: &str) -> (res: String)
    ensures
        res@ == scoped_doc_code(repo_ident@, scope_ty@),
{
    "Bound view of [`".to_string().concat(repo_ident).concat("`] with a [`").concat(scope_ty).concat("`] captured once: every read method delegates to the corresponding scope-argument fn with the bound scope. Obtained via [`").concat(repo_ident).concat("::scoped`]. Borrows the repo, so it is naturally request-scoped.")
}

/// The view that is bound to a scope.
pub open spec fn scoped_struct_code(
    doc: Seq<char>,
    scoped_ident: Seq<char>,
    scoped_generics: Seq<char>,
    where_clause: Seq<char>,
    repo_ident: Seq<char>,
    ty_generics: Seq<char>,
    scope_ty: Seq<char>,
    scoped_impl_generics: Seq<char>,
    scoped_ty_generics: Seq<char>,
    delegates: Seq<char>,
) -> Seq<char> {
    "#[doc = "@ + doc + "]
pub struct "@ + scoped_ident + " "@ + scoped_generics + " "@ + where_clause + " {
    repo: &'scoped_repo "@ + repo_ident + " "@ + ty_generics + ",
    scope: "@ + scope_ty + ",
}
impl "@ + scoped_impl_generics + " "@ + scoped_ident + " "@ + scoped_ty_generics + " "@ + where_clause + " {
    #[inline(always)]
    pub fn scope(&self) -> "@ + scope_ty + " {
        self.scope
    }
    "@ + delegates + "
}"@
}

/// The view that is bound to a scope.
fn scoped_struct(
    doc: &str,
    scoped_ident: &str,
    scoped_generics: &str,
    where_clause: &str,
    repo_ident: &str,
    ty_generics: &str,
    scope_ty: &str,
    scoped_impl_generics: &str,
    scoped_ty_generics: &str,
    delegates: &str,
) -> (res: String)
    ensures
        res@ == scoped_struct_code(
            doc@,
            scoped_ident@,
            scoped_generics@,
            where_clause@,
            repo_ident@,
            ty_generics@,
            scope_ty@,
            scoped_impl_generics@,
            scoped_ty_generics@,
            delegates@,
        ),
{
    "#[doc = ".to_string().concat(doc).concat("]
pub struct ").concat(scoped_ident).concat(" ").concat(scoped_generics).concat(" ").concat(where_clause).concat(" {
    repo: &'scoped_repo ").concat(repo_ident).concat(" ").concat(ty_generics).concat(",
    scope: ").concat(scope_ty).concat(",
}
impl ").concat(scoped_impl_generics).concat(" ").concat(scoped_ident).concat(" ").concat(scoped_ty_generics).concat(" ").concat(where_clause).concat(" {
    #[inline(always)]
    pub fn scope(&self) -> ").concat(scope_ty).concat(" {
        self.scope
    }
    ").concat(delegates).concat("
}")
}

/// The functions of the repository.
pub open spec fn repo_impl_code(
    impl_generics: Seq<char>,
    repo: Seq<char>,
    ty_generics: Seq<char>,
    where_clause: Seq<char>,
    pool_field: Seq<char>,
    scoped_fn: Seq<char>,
    map_constraint_fn: Seq<char>,
    members: Seq<char>,
) -> Seq<char> {
    "impl "@ + impl_generics + " "@ + repo + " "@ + ty_generics + " "@ + where_clause + " {
    #[inline(always)]
    pub fn pool(&self) -> &es_entity::db::Pool {
        &self."@ + pool_field + "
    }
    "@ + scoped_fn + "
    "@ + map_constraint_fn + "
    "@ + members + "
}"@
}

/// The functions of the repository.
fn repo_impl(
    impl_generics: &str,
    repo: &str,
    ty_generics: &str,
    where_clause: &str,
    pool_field: &str,
    scoped_fn: &str,
    map_constraint_fn: &str,
    members: &str,
) -> (res: String)
    ensures
        res@ == repo_impl_code(
            impl_generics@,
            repo@,
            ty_generics@,
            where_clause@,
            pool_field@,
            scoped_fn@,
            map_constraint_fn@,
            members@,
        ),
{
    "impl ".to_string().concat(impl_generics).concat(" ").concat(repo).concat(" ").concat(ty_generics).concat(" ").concat(where_clause).concat(" {
    #[inline(always)]
    pub fn pool(&self) -> &es_entity::db::Pool {
        &self.").concat(pool_field).concat("
    }
    ").concat(scoped_fn).concat("
    ").concat(map_constraint_fn).concat("
    ").concat(members).concat("
}")
}

/// The call that reads the entities of a nested repository.
pub open spec fn load_nested_code(f: Seq<char>) -> Seq<char> {
    "Self::"@ + f + "::<_, _, __EsErr>(op, entities).await?;"@
}

/// The call that reads the entities of a nested repository.
fn load_nested(f: &str) -> (res: String)
    ensures
        res@ == load_nested_code(f@),
{
    "Self::".to_string().concat(f).concat("::<_, _, __EsErr>(op, entities).await?;")
}

/// What makes the repository one.
pub open spec fn es_repo_impl_code(
    impl_generics: Seq<char>,
    repo: Seq<char>,
    ty_generics: Seq<char>,
    where_clause: Seq<char>,
    entity: Seq<char>,
    create_error: Seq<char>,
    modify_error: Seq<char>,
    find_error: Seq<char>,
    query_error: Seq<char>,
    es_query_flavor: Seq<char>,
    nested_fns: Seq<char>,
    nested_include_deleted_fns: Seq<char>,
) -> Seq<char> {
    "impl "@ + impl_generics + " es_entity::EsRepo for "@ + repo + " "@ + ty_generics + " "@ + where_clause + " {
    type Entity = "@ + entity + ";
    type CreateError = "@ + create_error + ";
    type ModifyError = "@ + modify_error + ";
    type FindError = "@ + find_error + ";
    type QueryError = "@ + query_error + ";
    type EsQueryFlavor = "@ + es_query_flavor + ";
    #[inline(always)]
    async fn load_all_nested_in_op<OP, __EsErr>(
        op: &mut OP, entities: &mut ["@ + entity + "]
    ) -> Result<(), __EsErr>
        where
            OP: es_entity::AtomicOperation,
            __EsErr: From<sqlx::Error> + From<es_entity::EntityHydrationError> + Send,
    {
        "@ + nested_fns + "
        Ok(())
    }
    #[inline(always)]
    async fn load_all_nested_in_op_include_deleted<OP, __EsErr>(
        op: &mut OP, entities: &mut ["@ + entity + "]
    ) -> Result<(), __EsErr>
        where
            OP: es_entity::AtomicOperation,
            __EsErr: From<sqlx::Error> + From<es_entity::EntityHydrationError> + Send,
    {
        "@ + nested_include_deleted_fns + "
        Ok(())
    }
}"@
}

/// What makes the repository one.
fn es_repo_impl(
    impl_generics: &str,
    repo: &str,
    ty_generics: &str,
    where_clause: &str,
    entity: &str,
    create_error: &str,
    modify_error: &str,
    find_error: &str,
    query_error: &str,
    es_query_flavor: &str,
    nested_fns: &str,
    nested_include_deleted_fns: &str,
) -> (res: String)
    ensures
        res@ == es_repo_impl_code(
            impl_generics@,
            repo@,
            ty_generics@,
            where_clause@,
            entity@,
            create_error@,
            modify_error@,
            find_error@,
            query_error@,
            es_query_flavor@,
            nested_fns@,
            nested_include_deleted_fns@,
        ),
{
    "impl ".to_string().concat(impl_generics).concat(" es_entity::EsRepo for ").concat(repo).concat(" ").concat(ty_generics).concat(" ").concat(where_clause).concat(" {
    type Entity = ").concat(entity).concat(";
    type CreateError = ").concat(create_error).concat(";
    type ModifyError = ").concat(modify_error).concat(";
    type FindError = ").concat(find_error).concat(";
    type QueryError = ").concat(query_error).concat(";
    type EsQueryFlavor = ").concat(es_query_flavor).concat(";
    #[inline(always)]
    async fn load_all_nested_in_op<OP, __EsErr>(
        op: &mut OP, entities: &mut [").concat(entity).concat("]
    ) -> Result<(), __EsErr>
        where
            OP: es_entity::AtomicOperation,
            __EsErr: From<sqlx::Error> + From<es_entity::EntityHydrationError> + Send,
    {
        ").concat(nested_fns).concat("
        Ok(())
    }
    #[inline(always)]
    async fn load_all_nested_in_op_include_deleted<OP, __EsErr>(
        op: &mut OP, entities: &mut [").concat(entity).concat("]
    ) -> Result<(), __EsErr>
        where
            OP: es_entity::AtomicOperation,
            __EsErr: From<sqlx::Error> + From<es_entity::EntityHydrationError> + Send,
    {
        ").concat(nested_include_deleted_fns).concat("
        Ok(())
    }
}")
}

/// The first column of that name that lists are sorted by.
pub open spec fn listed_column(all: Seq<Column>, name: Seq<char>) -> Option<Column>
    decreases all.len(),
{
    if all.len() == 0 {
        None
    } else {
        match listed_column(all.drop_last(), name) {
            Some(c) => Some(c),
            None => if all.last().name@ == name && all.last().opts.lists() {
                Some(all.last())
            } else {
                None
            },
        }
    }
}

/// The lists that there are for a column: one for each of its sort columns.
pub open spec fn pairs_for(all: Seq<Column>, c: Column, names: Seq<Seq<char>>) -> Seq<
    (Column, Column),
>
    decreases names.len(),
{
    if names.len() == 0 {
        Seq::empty()
    } else {
        let front = pairs_for(all, c, names.drop_last());
        match listed_column(all, names.last()) {
            Some(by) => front.push((c, by)),
            None => front,
        }
    }
}

/// The lists that there are for the columns: what each is filtered by, and what
/// it is sorted by.
pub open spec fn list_pairs(all: Seq<Column>, cols: Seq<Column>) -> Seq<(Column, Column)>
    decreases cols.len(),
{
    if cols.len() == 0 {
        Seq::empty()
    } else {
        list_pairs(all, cols.drop_last()) + pairs_for(
            all,
            cols.last(),
            cols.last().opts.sort_columns(),
        )
    }
}

/// The column of the parent's id: the first that is marked so.
pub open spec fn parent_column(all: Seq<Column>) -> Option<Column>
    decreases all.len(),
{
    if all.len() == 0 {
        None
    } else {
        match parent_column(all.drop_last()) {
            Some(c) => Some(c),
            None => if all.last().opts.parent_opts is Some {
                Some(all.last())
            } else {
                None
            },
        }
    }
}

/// The first field that holds the pool.
pub open spec fn pool_label(fields: Seq<RepoField>) -> Seq<char>
    decreases fields.len(),
{
    if fields.len() == 0 {
        Seq::empty()
    } else if exists|i: int|
        0 <= i < fields.len() - 1 && (#[trigger] fields[i]).holds_pool() {
        pool_label(fields.drop_last())
    } else {
        fields.last().label()
    }
}

proof fn listed_column_is_first(all: Seq<Column>, name: Seq<char>, i: int)
    requires
        0 <= i < all.len(),
        all[i].name@ == name,
        all[i].opts.lists(),
        forall|j: int|
            0 <= j < i ==> !((#[trigger] all[j]).name@ == name && all[j].opts.lists()),
    ensures
        listed_column(all, name) == Some(all[i]),
    decreases all.len(),
{
    let front = all.drop_last();
    if i < front.len() {
        listed_column_is_first(front, name, i);
    } else {
        no_listed_column(front, name);
    }
}

proof fn no_listed_column(all: Seq<Column>, name: Seq<char>)
    requires
        forall|j: int|
            0 <= j < all.len() ==> !((#[trigger] all[j]).name@ == name && all[j].opts.lists()),
    ensures
        listed_column(all, name) is None,
    decreases all.len(),
{
    if all.len() > 0 {
        no_listed_column(all.drop_last(), name);
        assert(!(all[all.len() - 1].name@ == name && all[all.len() - 1].opts.lists()));
    }
}

proof fn parent_column_is_first(all: Seq<Column>, i: int)
    requires
        0 <= i < all.len(),
        all[i].opts.parent_opts is Some,
        forall|j: int| 0 <= j < i ==> (#[trigger] all[j]).opts.parent_opts is None,
    ensures
        parent_column(all) == Some(all[i]),
    decreases all.len(),
{
    let front = all.drop_last();
    if i < front.len() {
        parent_column_is_first(front, i);
    } else {
        no_parent_column(front);
    }
}

proof fn no_parent_column(all: Seq<Column>)
    requires
        forall|j: int| 0 <= j < all.len() ==> (#[trigger] all[j]).opts.parent_opts is None,
    ensures
        parent_column(all) is None,
    decreases all.len(),
{
    if all.len() > 0 {
        no_parent_column(all.drop_last());
        assert(all[all.len() - 1].opts.parent_opts is None);
    }
}

proof fn pool_label_is_first(fields: Seq<RepoField>, i: int)
    requires
        0 <= i < fields.len(),
        fields[i].holds_pool(),
        forall|j: int| 0 <= j < i ==> !(#[trigger] fields[j]).holds_pool(),
    ensures
        pool_label(fields) == fields[i].label(),
    decreases fields.len(),
{
    let front = fields.drop_last();
    if i < front.len() {
        assert(fields[i].holds_pool());
        pool_label_is_first(front, i);
    } else {
        assert(forall|j: int| 0 <= j < fields.len() - 1 ==> !(#[trigger] fields[j]).holds_pool());
    }
}

/// The calls that read the entities of the nested repositories.
pub open spec fn load_calls(names: Seq<Seq<char>>) -> Seq<Seq<char>> {
    Seq::new(names.len(), |i: int| load_nested_code(names[i]))
}

/// Whether the function that writes the events of one entity is emitted: where
/// no column is updated, and where an entity can be forgotten without setting
/// columns to NULL.
pub open spec fn needs_persist_events(opts: &RepositoryOptions) -> bool {
    !opts.columns.any_updated() || (opts.forgettable && opts.columns.names(
        Pick::Forgettable,
    ).len() == 0)
}

/// Whether the function that writes the events of several entities is emitted:
/// where no column is updated.
pub open spec fn needs_persist_events_batch(opts: &RepositoryOptions) -> bool {
    !opts.columns.any_updated()
}

/// Whether the function that tells concurrent modifications from other errors
/// is emitted: where no column is updated, and where payloads are written.
pub open spec fn needs_extract(opts: &RepositoryOptions) -> bool {
    !opts.columns.any_updated() || opts.forgettable
}

impl<'a> EsRepo<'a> {
    /// Whether this is what the options of a repository ask for.
    pub open spec fn made_from(
        &self,
        opts: &RepositoryOptions,
        cursor: &ComboCursor,
        catalog: IndexCatalog,
        parts: &RepoParts,
    ) -> bool {
        let columns = opts.columns;
        let find_by = columns.picks(Pick::FindBy);
        let list_by = columns.picks(Pick::ListBy);
        let list_for = list_pairs(columns.all@, columns.picks(Pick::ListFor));
        &&& self.opts == opts
        &&& self.parts == parts
        &&& self.repo@ == opts.ident@
        &&& *self.generics == opts.generics
        &&& self.error_classifier.made_from(opts)
        &&& self.extract_concurrent_modification == needs_extract(opts)
        &&& self.persist_events_fn is Some <==> needs_persist_events(opts)
        &&& self.persist_events_fn matches Some(f) ==> f.made_from(opts)
        &&& self.persist_events_batch_fn is Some <==> needs_persist_events_batch(opts)
        &&& self.persist_events_batch_fn matches Some(f) ==> f.made_from(opts)
        &&& self.create_fn.made_from(opts)
        &&& self.create_all_fn.made_from(opts)
        &&& self.delete_fn.made_from(opts)
        &&& self.forget_fn is Some <==> opts.forgettable
        &&& self.forget_fn matches Some(f) ==> f.made_from(opts)
        &&& self.find_by_fns.len() == find_by.len()
        &&& forall|i: int|
            0 <= i < find_by.len() ==> (#[trigger] self.find_by_fns@[i]).made_from(
                &find_by[i],
                opts,
            )
        &&& self.find_all_fn.made_from(opts)
        &&& self.post_hydrate_hook.made_from(opts)
        &&& self.post_persist_hook.made_from(opts)
        &&& self.list_by_fns.len() == list_by.len()
        &&& forall|i: int|
            0 <= i < list_by.len() ==> (#[trigger] self.list_by_fns@[i]).made_from(
                &list_by[i],
                opts,
            )
        &&& self.list_for_fns.len() == list_for.len()
        &&& forall|i: int|
            0 <= i < list_for.len() ==> (#[trigger] self.list_for_fns@[i]).made_from(
                &list_for[i].0,
                &list_for[i].1,
                opts,
            )
        &&& self.list_for_filters.made_from(
            opts,
            columns.picks(Pick::ListFor),
            columns.picks(Pick::Virtual),
            list_by,
            cursor,
            catalog,
        )
        &&& self.nested_fns.deep_view() == opts.nested_names(NestedFn::Find)
        &&& self.nested_include_deleted_fns.deep_view() == opts.nested_names(
            NestedFn::FindIncludeDeleted,
        )
        &&& self.nested.len() == opts.nested().len()
        &&& forall|i: int|
            0 <= i < self.nested.len() ==> (#[trigger] self.nested@[i]).made_from(
                &opts.nested()[i],
                opts,
            )
        &&& self.populate_nested is Some <==> parent_column(columns.all@) is Some
        &&& self.populate_nested matches Some(p) ==> p.made_from(
            &parent_column(columns.all@)->0,
            opts,
        )
        &&& self.error_types.made_from(opts)
        &&& self.scope_type is Some <==> columns.picks(Pick::Scope).len() > 0
        &&& self.scope_type matches Some(t) ==> t.entity@ == opts.entity_ident@
            && t.info.scope_of(opts)
    }

    /// The parameters of the queries can be numbered, and the fields of nested
    /// repositories have names.
    pub open spec fn fits(&self) -> bool {
        &&& self.opts.ready()
        &&& self.opts.is_struct()
        &&& self.create_fn.columns.all.len() + 16 <= usize::MAX
        &&& self.create_all_fn.columns.all.len() + 16 <= usize::MAX
        &&& self.delete_fn.columns.all.len() + 16 <= usize::MAX
        &&& self.list_for_filters.fits()
        &&& forall|i: int|
            0 <= i < self.nested.len() ==> (#[trigger] self.nested@[i]).field.ident is Some
    }

    pub open spec fn cursors(&self) -> Seq<Seq<char>> {
        Seq::new(
            self.list_by_fns.len() as nat,
            |i: int| self.list_by_fns@[i].cursor_spec().code(),
        )
    }

    pub open spec fn gql_cursors(&self) -> Seq<Seq<char>> {
        Seq::new(
            self.list_by_fns.len() as nat,
            |i: int|
                crate::list_by_fn::gql_cursor_impl_code(self.list_by_fns@[i].cursor_spec().named()),
        )
    }

    /// The module of the cursors.
    #[verifier::opaque]
    pub open spec fn cursors_code(&self) -> Seq<char> {
        cursor_module_code(
            cased(self.opts.entity_ident@ + "Cursor"@, NameCase::Snake),
            joined(self.cursors(), "\n"@),
            only_if(self.opts.features.graphql, joined(self.gql_cursors(), "\n"@)),
            self.parts.combo_cursor@,
            only_if(self.opts.features.graphql, self.parts.gql_combo_cursor@),
        )
    }

    /// The module of the types that queries refer to.
    #[verifier::opaque]
    pub open spec fn types_code(&self) -> Seq<char> {
        types_module_code(
            cased(self.opts.entity_ident@ + "RepoTypes"@, NameCase::Snake),
            self.opts.id_text(),
            self.opts.event_text(),
            self.opts.entity_ident@,
            if self.opts.prefix is Some {
                "true"@
            } else {
                "false"@
            },
            only_if(!self.opts.forgettable, FORGETTABLE_GUARD@),
        )
    }

    pub open spec fn find_by_delegates(&self) -> Seq<Seq<char>> {
        Seq::new(self.find_by_fns.len() as nat, |i: int| self.find_by_fns@[i].delegates())
    }

    pub open spec fn list_by_delegates(&self) -> Seq<Seq<char>> {
        Seq::new(self.list_by_fns.len() as nat, |i: int| self.list_by_fns@[i].delegates())
    }

    pub open spec fn list_for_delegates(&self) -> Seq<Seq<char>> {
        Seq::new(self.list_for_fns.len() as nat, |i: int| self.list_for_fns@[i].delegates())
    }

    /// The functions of the view that is bound to a scope: all that read.
    #[verifier::opaque]
    pub open spec fn delegates(&self) -> Seq<char> {
        ended(self.find_by_delegates(), "\n"@) + self.find_all_fn.delegates() + "\n"@ + ended(
            self.list_by_delegates(),
            "\n"@,
        ) + ended(self.list_for_delegates(), "\n"@) + self.list_for_filters.delegates()
    }

    /// The function that gives the view that is bound to a scope, and the view.
    /// Nothing without scope columns.
    #[verifier::opaque]
    pub open spec fn scoped(&self) -> (Seq<char>, Seq<char>) {
        match self.scope_type {
            Some(t) => (
                scoped_function_code(
                    t.info.scope_ty@,
                    "Scoped"@ + self.opts.ident@,
                    self.generics.listed(Some("'scoped_repo"@), ParamPart::Name),
                ),
                scoped_struct_code(
                    literal(scoped_doc_code(self.repo@, t.info.scope_ty@)),
                    "Scoped"@ + self.opts.ident@,
                    self.generics.listed(Some("'scoped_repo"@), ParamPart::Declaration),
                    self.generics.where_clause@,
                    self.repo@,
                    self.generics.listed(None, ParamPart::Name),
                    t.info.scope_ty@,
                    self.generics.listed(Some("'scoped_repo"@), ParamPart::ImplDeclaration),
                    self.generics.listed(Some("'scoped_repo"@), ParamPart::Name),
                    self.delegates(),
                ),
            ),
            None => (Seq::empty(), Seq::empty()),
        }
    }

    /// The functions that write.
    #[verifier::opaque]
    pub open spec fn write_fns(&self) -> Seq<char> {
        self.error_classifier.code() + "\n"@ + BEGIN_FNS@ + "\n"@ + self.post_hydrate_hook.code()
            + "\n"@ + self.post_persist_hook.code() + "\n"@ + only_if(
            self.extract_concurrent_modification,
            EXTRACT_CONCURRENT_MODIFICATION@,
        ) + "\n"@ + (match self.persist_events_fn {
            Some(f) => f.code(),
            None => Seq::empty(),
        }) + "\n"@ + (match self.persist_events_batch_fn {
            Some(f) => f.code(),
            None => Seq::empty(),
        }) + "\n"@ + self.create_fn.code() + "\n"@ + self.create_all_fn.code() + "\n"@
            + self.parts.update_fn@ + "\n"@ + self.parts.update_all_fn@ + "\n"@
            + self.delete_fn.code() + "\n"@ + (match self.forget_fn {
            Some(f) => f.code(),
            None => Seq::empty(),
        }) + "\n"@
    }

    pub open spec fn find_by_codes(&self) -> Seq<Seq<char>> {
        Seq::new(self.find_by_fns.len() as nat, |i: int| self.find_by_fns@[i].code())
    }

    pub open spec fn list_by_codes(&self) -> Seq<Seq<char>> {
        Seq::new(self.list_by_fns.len() as nat, |i: int| self.list_by_fns@[i].code())
    }

    pub open spec fn list_for_codes(&self) -> Seq<Seq<char>> {
        Seq::new(self.list_for_fns.len() as nat, |i: int| self.list_for_fns@[i].code())
    }

    pub open spec fn nested_codes(&self) -> Seq<Seq<char>> {
        Seq::new(self.nested.len() as nat, |i: int| self.nested@[i].code())
    }

    /// The functions that read, and those for nested entities.
    #[verifier::opaque]
    pub open spec fn read_fns(&self) -> Seq<char> {
        ended(self.find_by_codes(), "\n"@) + self.find_all_fn.code() + "\n"@
            + self.list_for_filters.code() + "\n"@ + ended(self.list_by_codes(), "\n"@) + ended(
            self.list_for_codes(),
            "\n"@,
        ) + ended(self.nested_codes(), "\n"@)
    }

    /// The functions of the repository.
    #[verifier::opaque]
    pub open spec fn impl_code(&self) -> Seq<char> {
        repo_impl_code(
            self.generics.listed(None, ParamPart::ImplDeclaration),
            self.repo@,
            self.generics.listed(None, ParamPart::Name),
            self.generics.where_clause@,
            pool_label(self.opts.data->0@),
            self.scoped().0,
            self.error_types.map_constraint_code(),
            self.write_fns() + self.read_fns(),
        )
    }

    /// What makes the repository one.
    #[verifier::opaque]
    pub open spec fn trait_code(&self) -> Seq<char> {
        es_repo_impl_code(
            self.generics.listed(None, ParamPart::ImplDeclaration),
            self.repo@,
            self.generics.listed(None, ParamPart::Name),
            self.generics.where_clause@,
            self.opts.entity_ident@,
            self.opts.entity_ident@ + "CreateError"@,
            self.opts.entity_ident@ + "ModifyError"@,
            self.opts.entity_ident@ + "FindError"@,
            self.opts.entity_ident@ + "QueryError"@,
            if self.nested_fns.len() == 0 {
                "es_entity::EsQueryFlavorFlat"@
            } else {
                "es_entity::EsQueryFlavorNested"@
            },
            ended(load_calls(self.nested_fns.deep_view()), "\n"@),
            ended(load_calls(self.nested_include_deleted_fns.deep_view()), "\n"@),
        )
    }

    /// The code of the repository.
    pub open spec fn code(&self) -> Seq<char> {
        self.cursors_code() + "\n"@ + self.types_code() + "\n"@ + self.error_types.code() + "\n"@
            + (match self.scope_type {
            Some(t) => t.code(),
            None => Seq::empty(),
        }) + "\n"@ + self.scoped().1 + "\n"@ + self.list_for_filters.filters_struct.code() + "\n"@
            + self.parts.sort_by@ + "\n"@ + self.impl_code() + "\n"@ + (
        match self.populate_nested {
            Some(p) => p.code(),
            None => Seq::empty(),
        }) + "\n"@ + self.trait_code()
    }

    /// The code of a repository, given the cursor that stands for those of all
    /// sort columns, the indexes that are known, and the members whose code is
    /// given.
    pub fn from(
        opts: &'a RepositoryOptions,
        cursor: &'a ComboCursor,
        catalog: IndexCatalog,
        parts: &'a RepoParts,
    ) -> (res: Self)
        requires
            opts.ready(),
            opts.is_struct(),
        ensures
            res.made_from(opts, cursor, catalog, parts),
    {
        let find_by_fns = find_by_list(opts);
        let list_by_fns = list_by_list(opts);
        let list_for_fns = list_for_list(opts);
        let nested = nested_list(opts);
        let populate_nested = populate(opts);
        let updates = opts.columns.updates_needed();
        let forgettable_columns = opts.columns.forgettable_column_names();
        assert(forgettable_columns.deep_view().len() == forgettable_columns.len());
        let persist_events_fn = if !updates || (opts.forgettable_enabled()
            && forgettable_columns.len() == 0) {
            Some(PersistEventsFn::from(opts))
        } else {
            None
        };
        let persist_events_batch_fn = if !updates {
            Some(PersistEventsBatchFn::from(opts))
        } else {
            None
        };
        let forget_fn = if opts.forgettable_enabled() {
            Some(ForgetFn::from(opts))
        } else {
            None
        };
        let list_for_filters = ListForFiltersFn::new(
            opts,
            opts.columns.all_list_for(),
            opts.columns.all_virtual(),
            opts.columns.all_list_by(),
            cursor,
            catalog,
        );
        EsRepo {
            repo: opts.ident.as_str(),
            generics: &opts.generics,
            error_classifier: ErrorClassifier::from(opts),
            extract_concurrent_modification: !updates || opts.forgettable_enabled(),
            persist_events_fn,
            persist_events_batch_fn,
            create_fn: CreateFn::from(opts),
            create_all_fn: CreateAllFn::from(opts),
            delete_fn: DeleteFn::from(opts),
            forget_fn,
            find_by_fns,
            find_all_fn: FindAllFn::from(opts),
            post_hydrate_hook: PostHydrateHook::from(opts),
            post_persist_hook: PostPersistHook::from(opts),
            begin: Begin,
            list_by_fns,
            list_for_fns,
            list_for_filters,
            nested_fns: opts.nested_fn_names(NestedFn::Find),
            nested_include_deleted_fns: opts.nested_fn_names(NestedFn::FindIncludeDeleted),
            nested,
            populate_nested,
            error_types: ErrorTypes::new(opts),
            scope_type: ScopeType::new(opts),
            opts,
            parts,
        }
    }

    fn cursors_text(&self) -> (res: String)
        ensures
            res@ == self.cursors_code(),
    {
        proof {
            reveal(EsRepo::cursors_code);
        }
        let mut cursors: Vec<String> = Vec::new();
        let mut gql_cursors: Vec<String> = Vec::new();
        let mut i: usize = 0;
        while i < self.list_by_fns.len()
            invariant
                i <= self.list_by_fns.len(),
                cursors.len() == i,
                gql_cursors.len() == i,
                forall|j: int| 0 <= j < i ==> (#[trigger] cursors@[j])@ == self.cursors()[j],
                forall|j: int|
                    0 <= j < i ==> (#[trigger] gql_cursors@[j])@ == self.gql_cursors()[j],
            decreases self.list_by_fns.len() - i,
        {
            let cursor = self.list_by_fns[i].cursor();
            let mut text = String::new();
            cursor.to_tokens(&mut text);
            proof {
                reveal(CursorStruct::code);
                assert(text@ =~= cursor.code());
                assert(cursor.code() == self.list_by_fns@[i as int].cursor_spec().code());
            }
            cursors.push(text);
            gql_cursors.push(cursor.gql_cursor());
            i = i + 1;
        }
        assert(cursors.deep_view() =~= self.cursors());
        assert(gql_cursors.deep_view() =~= self.gql_cursors());
        let graphql = self.opts.features.graphql;
        cursor_module(
            self.opts.cursor_mod().as_str(),
            join(&cursors, "\n").as_str(),
            given(graphql, join(&gql_cursors, "\n").as_str()).as_str(),
            self.parts.combo_cursor.as_str(),
            given(graphql, self.parts.gql_combo_cursor.as_str()).as_str(),
        )
    }

    fn types_text(&self) -> (res: String)
        requires
            self.opts.ready(),
        ensures
            res@ == self.types_code(),
    {
        proof {
            reveal(EsRepo::types_code);
        }
        let has_tbl_prefix = if self.opts.prefix.is_some() {
            "true"
        } else {
            "false"
        };
        types_module(
            self.opts.repo_types_mod().as_str(),
            self.opts.id(),
            self.opts.event(),
            self.opts.entity(),
            has_tbl_prefix,
            given(!self.opts.forgettable_enabled(), FORGETTABLE_GUARD).as_str(),
        )
    }

    fn delegates_text(&self) -> (res: String)
        ensures
            res@ == self.delegates(),
    {
        proof {
            reveal(EsRepo::delegates);
        }
        let mut find_by: Vec<String> = Vec::new();
        let mut i: usize = 0;
        while i < self.find_by_fns.len()
            invariant
                i <= self.find_by_fns.len(),
                find_by.len() == i,
                forall|j: int|
                    0 <= j < i ==> (#[trigger] find_by@[j])@ == self.find_by_delegates()[j],
            decreases self.find_by_fns.len() - i,
        {
            find_by.push(self.find_by_fns[i].scoped_delegates());
            i = i + 1;
        }
        let mut list_by: Vec<String> = Vec::new();
        let mut k: usize = 0;
        while k < self.list_by_fns.len()
            invariant
                k <= self.list_by_fns.len(),
                list_by.len() == k,
                forall|j: int|
                    0 <= j < k ==> (#[trigger] list_by@[j])@ == self.list_by_delegates()[j],
            decreases self.list_by_fns.len() - k,
        {
            list_by.push(self.list_by_fns[k].scoped_delegates());
            k = k + 1;
        }
        let mut list_for: Vec<String> = Vec::new();
        let mut m: usize = 0;
        while m < self.list_for_fns.len()
            invariant
                m <= self.list_for_fns.len(),
                list_for.len() == m,
                forall|j: int|
                    0 <= j < m ==> (#[trigger] list_for@[j])@ == self.list_for_delegates()[j],
            decreases self.list_for_fns.len() - m,
        {
            list_for.push(self.list_for_fns[m].scoped_delegates());
            m = m + 1;
        }
        assert(find_by.deep_view() =~= self.find_by_delegates());
        assert(list_by.deep_view() =~= self.list_by_delegates());
        assert(list_for.deep_view() =~= self.list_for_delegates());
        end_each(&find_by, "\n").concat(self.find_all_fn.scoped_delegates().as_str()).concat(
            "\n",
        ).concat(end_each(&list_by, "\n").as_str()).concat(end_each(&list_for, "\n").as_str()).concat(
            self.list_for_filters.scoped_delegates().as_str(),
        )
    }

    fn scoped_text(&self) -> (res: (String, String))
        ensures
            (res.0@, res.1@) == self.scoped(),
    {
        proof {
            reveal(EsRepo::scoped);
        }
        match &self.scope_type {
            Some(t) => {
                let scoped_ident = self.opts.scoped_view_ident();
                let scope_ty = t.info.scope_ty.as_str();
                let scoped_ty_generics = self.generics.list(Some("'scoped_repo"), ParamPart::Name);
                let doc = scoped_doc(self.repo, scope_ty);
                let view = scoped_struct(
                    quote(doc.as_str()).as_str(),
                    scoped_ident.as_str(),
                    self.generics.list(Some("'scoped_repo"), ParamPart::Declaration).as_str(),
                    self.generics.where_clause.as_str(),
                    self.repo,
                    self.generics.list(None, ParamPart::Name).as_str(),
                    scope_ty,
                    self.generics.list(Some("'scoped_repo"), ParamPart::ImplDeclaration).as_str(),
                    scoped_ty_generics.as_str(),
                    self.delegates_text().as_str(),
                );
                (
                    scoped_function(scope_ty, scoped_ident.as_str(), scoped_ty_generics.as_str()),
                    view,
                )
            },
            None => (String::new(), String::new()),
        }
    }

    fn write_text(&self) -> (res: String)
        requires
            self.fits(),
        ensures
            res@ == self.write_fns(),
    {
        proof {
            reveal(EsRepo::write_fns);
        }
        let mut t = String::new();
        self.error_classifier.to_tokens(&mut t);
        assert(t@ =~= self.error_classifier.code());
        t.append("\n");
        self.begin.to_tokens(&mut t);
        t.append("\n");
        self.post_hydrate_hook.to_tokens(&mut t);
        t.append("\n");
        self.post_persist_hook.to_tokens(&mut t);
        t.append("\n");
        t.append(
            given(
                self.extract_concurrent_modification,
                extract_concurrent_modification_fn().as_str(),
            ).as_str(),
        );
        t.append("\n");
        let ghost before = t@;
        match &self.persist_events_fn {
            Some(f) => f.to_tokens(&mut t),
            None => {
                assert(t@ =~= before + Seq::<char>::empty());
            },
        }
        t.append("\n");
        let ghost before = t@;
        match &self.persist_events_batch_fn {
            Some(f) => f.to_tokens(&mut t),
            None => {
                assert(t@ =~= before + Seq::<char>::empty());
            },
        }
        t.append("\n");
        self.create_fn.to_tokens(&mut t);
        t.append("\n");
        self.create_all_fn.to_tokens(&mut t);
        t.append("\n");
        t.append(self.parts.update_fn.as_str());
        t.append("\n");
        t.append(self.parts.update_all_fn.as_str());
        t.append("\n");
        self.delete_fn.to_tokens(&mut t);
        t.append("\n");
        let ghost before = t@;
        match &self.forget_fn {
            Some(f) => f.to_tokens(&mut t),
            None => {
                assert(t@ =~= before + Seq::<char>::empty());
            },
        }
        t.append("\n");
        t
    }

    fn find_by_texts(&self) -> (res: Vec<String>)
        ensures
            res.deep_view() == self.find_by_codes(),
    {
        let mut res: Vec<String> = Vec::new();
        let mut i: usize = 0;
        while i < self.find_by_fns.len()
            invariant
                i <= self.find_by_fns.len(),
                res.len() == i,
                forall|j: int| 0 <= j < i ==> (#[trigger] res@[j])@ == self.find_by_codes()[j],
            decreases self.find_by_fns.len() - i,
        {
            let mut t = String::new();
            self.find_by_fns[i].to_tokens(&mut t);
            assert(t@ =~= self.find_by_fns@[i as int].code());
            res.push(t);
            i = i + 1;
        }
        assert(res.deep_view() =~= self.find_by_codes());
        res
    }

    fn list_by_texts(&self) -> (res: Vec<String>)
        ensures
            res.deep_view() == self.list_by_codes(),
    {
        let mut res: Vec<String> = Vec::new();
        let mut i: usize = 0;
        while i < self.list_by_fns.len()
            invariant
                i <= self.list_by_fns.len(),
                res.len() == i,
                forall|j: int| 0 <= j < i ==> (#[trigger] res@[j])@ == self.list_by_codes()[j],
            decreases self.list_by_fns.len() - i,
        {
            let mut t = String::new();
            self.list_by_fns[i].to_tokens(&mut t);
            assert(t@ =~= self.list_by_fns@[i as int].code());
            res.push(t);
            i = i + 1;
        }
        assert(res.deep_view() =~= self.list_by_codes());
        res
    }

    fn list_for_texts(&self) -> (res: Vec<String>)
        ensures
            res.deep_view() == self.list_for_codes(),
    {
        let mut res: Vec<String> = Vec::new();
        let mut i: usize = 0;
        while i < self.list_for_fns.len()
            invariant
                i <= self.list_for_fns.len(),
                res.len() == i,
                forall|j: int| 0 <= j < i ==> (#[trigger] res@[j])@ == self.list_for_codes()[j],
            decreases self.list_for_fns.len() - i,
        {
            let mut t = String::new();
            self.list_for_fns[i].to_tokens(&mut t);
            assert(t@ =~= self.list_for_fns@[i as int].code());
            res.push(t);
            i = i + 1;
        }
        assert(res.deep_view() =~= self.list_for_codes());
        res
    }

    fn nested_texts(&self) -> (res: Vec<String>)
        requires
            self.fits(),
        ensures
            res.deep_view() == self.nested_codes(),
    {
        let mut res: Vec<String> = Vec::new();
        let mut i: usize = 0;
        while i < self.nested.len()
            invariant
                i <= self.nested.len(),
                self.fits(),
                res.len() == i,
                forall|j: int| 0 <= j < i ==> (#[trigger] res@[j])@ == self.nested_codes()[j],
            decreases self.nested.len() - i,
        {
            let mut t = String::new();
            self.nested[i].to_tokens(&mut t);
            assert(t@ =~= self.nested@[i as int].code());
            res.push(t);
            i = i + 1;
        }
        assert(res.deep_view() =~= self.nested_codes());
        res
    }

    fn read_text(&self) -> (res: String)
        requires
            self.fits(),
        ensures
            res@ == self.read_fns(),
    {
        proof {
            reveal(EsRepo::read_fns);
        }
        let mut t = end_each(&self.find_by_texts(), "\n");
        self.find_all_fn.to_tokens(&mut t);
        t.append("\n");
        self.list_for_filters.to_tokens(&mut t);
        t.append("\n");
        t.concat(end_each(&self.list_by_texts(), "\n").as_str()).concat(
            end_each(&self.list_for_texts(), "\n").as_str(),
        ).concat(end_each(&self.nested_texts(), "\n").as_str())
    }

    fn impl_text(&self, scoped_fn: &str) -> (res: String)
        requires
            self.fits(),
            scoped_fn@ == self.scoped().0,
        ensures
            res@ == self.impl_code(),
    {
        proof {
            reveal(EsRepo::impl_code);
        }
        let pool_field = self.opts.pool_field();
        proof {
            let fields = self.opts.data->0@;
            let i = choose|i: int|
                0 <= i < fields.len() && (#[trigger] fields[i]).holds_pool() && fields[i].label()
                    == pool_field@ && (forall|j: int|
                    0 <= j < i ==> !(#[trigger] fields[j]).holds_pool());
            pool_label_is_first(fields, i);
        }
        let members = self.write_text().concat(self.read_text().as_str());
        repo_impl(
            self.generics.list(None, ParamPart::ImplDeclaration).as_str(),
            self.repo,
            self.generics.list(None, ParamPart::Name).as_str(),
            self.generics.where_clause.as_str(),
            pool_field,
            scoped_fn,
            self.error_types.generate_map_constraint_fn().as_str(),
            members.as_str(),
        )
    }

    fn trait_text(&self) -> (res: String)
        ensures
            res@ == self.trait_code(),
    {
        proof {
            reveal(EsRepo::trait_code);
        }
        let flavor = if self.nested_fns.len() == 0 {
            "es_entity::EsQueryFlavorFlat"
        } else {
            "es_entity::EsQueryFlavorNested"
        };
        es_repo_impl(
            self.generics.list(None, ParamPart::ImplDeclaration).as_str(),
            self.repo,
            self.generics.list(None, ParamPart::Name).as_str(),
            self.generics.where_clause.as_str(),
            self.opts.entity(),
            self.opts.create_error().as_str(),
            self.opts.modify_error().as_str(),
            self.opts.find_error().as_str(),
            self.opts.query_error().as_str(),
            flavor,
            load_text(&self.nested_fns).as_str(),
            load_text(&self.nested_include_deleted_fns).as_str(),
        )
    }

    /// Appends the code of the repository.
    pub fn to_tokens(&self, tokens: &mut String)
        requires
            self.fits(),
        ensures
            final(tokens)@ == old(tokens)@ + self.code(),
    {
        let (scoped_fn, scoped_view) = self.scoped_text();
        let mut t = self.cursors_text();
        t.append("\n");
        t.append(self.types_text().as_str());
        t.append("\n");
        t.append(self.error_types.generate().as_str());
        t.append("\n");
        let ghost before = t@;
        match &self.scope_type {
            Some(scope) => scope.to_tokens(&mut t),
            None => {
                assert(t@ =~= before + Seq::<char>::empty());
            },
        }
        t.append("\n");
        t.append(scoped_view.as_str());
        t.append("\n");
        self.list_for_filters.filters_struct.to_tokens(&mut t);
        t.append("\n");
        t.append(self.parts.sort_by.as_str());
        t.append("\n");
        t.append(self.impl_text(scoped_fn.as_str()).as_str());
        t.append("\n");
        let ghost before = t@;
        match &self.populate_nested {
            Some(populate) => populate.to_tokens(&mut t),
            None => {
                assert(t@ =~= before + Seq::<char>::empty());
            },
        }
        t.append("\n");
        t.append(self.trait_text().as_str());
        tokens.append(t.as_str());
    }
}

fn load_text(names: &Vec<String>) -> (res: String)
    ensures
        res@ == ended(load_calls(names.deep_view()), "\n"@),
{
    let mut calls: Vec<String> = Vec::new();
    let mut i: usize = 0;
    while i < names.len()
        invariant
            i <= names.len(),
            calls.len() == i,
            forall|j: int| 0 <= j < i ==> (#[trigger] calls@[j])@ == load_nested_code(names@[j]@),
        decreases names.len() - i,
    {
        calls.push(load_nested(names[i].as_str()));
        i = i + 1;
    }
    assert(calls.deep_view() =~= load_calls(names.deep_view()));
    end_each(&calls, "\n")
}

fn find_by_list<'a>(opts: &'a RepositoryOptions) -> (res: Vec<FindByFn<'a>>)
    requires
        opts.ready(),
        opts.is_struct(),
    ensures
        res.len() == opts.columns.picks(Pick::FindBy).len(),
        forall|i: int|
            0 <= i < res.len() ==> (#[trigger] res@[i]).made_from(
                &opts.columns.picks(Pick::FindBy)[i],
                opts,
            ),
{
    let columns = opts.columns.all_find_by();
    let ghost picks = opts.columns.picks(Pick::FindBy);
    assert(columns_of(columns@).len() == columns.len());
    let mut res: Vec<FindByFn<'a>> = Vec::new();
    let mut i: usize = 0;
    while i < columns.len()
        invariant
            i <= columns.len(),
            opts.ready(),
            opts.is_struct(),
            picks == columns_of(columns@),
            res.len() == i,
            forall|j: int| 0 <= j < i ==> (#[trigger] res@[j]).made_from(&picks[j], opts),
        decreases columns.len() - i,
    {
        assert(picks[i as int] == *columns@[i as int]);
        res.push(FindByFn::new(columns[i], opts));
        i = i + 1;
    }
    res
}

fn list_by_list<'a>(opts: &'a RepositoryOptions) -> (res: Vec<ListByFn<'a>>)
    requires
        opts.ready(),
        opts.is_struct(),
    ensures
        res.len() == opts.columns.picks(Pick::ListBy).len(),
        forall|i: int|
            0 <= i < res.len() ==> (#[trigger] res@[i]).made_from(
                &opts.columns.picks(Pick::ListBy)[i],
                opts,
            ),
{
    let columns = opts.columns.all_list_by();
    let ghost picks = opts.columns.picks(Pick::ListBy);
    assert(columns_of(columns@).len() == columns.len());
    let mut res: Vec<ListByFn<'a>> = Vec::new();
    let mut i: usize = 0;
    while i < columns.len()
        invariant
            i <= columns.len(),
            opts.ready(),
            opts.is_struct(),
            picks == columns_of(columns@),
            res.len() == i,
            forall|j: int| 0 <= j < i ==> (#[trigger] res@[j]).made_from(&picks[j], opts),
        decreases columns.len() - i,
    {
        assert(picks[i as int] == *columns@[i as int]);
        res.push(ListByFn::new(columns[i], opts));
        i = i + 1;
    }
    res
}

fn listed<'a>(columns: &'a Columns, name: &str) -> (res: Option<&'a Column>)
    ensures
        res is Some <==> listed_column(columns.all@, name@) is Some,
        res matches Some(c) ==> listed_column(columns.all@, name@) == Some(*c),
{
    let found = columns.find_list_by(name);
    proof {
        match found {
            Some(c) => {
                let i = choose|i: int|
                    #[trigger] columns.first_list_by(name@, i) && *c == columns.all@[i];
                listed_column_is_first(columns.all@, name@, i);
            },
            None => {
                no_listed_column(columns.all@, name@);
            },
        }
    }
    found
}

fn push_list_for<'a>(opts: &'a RepositoryOptions, c: &'a Column, fns: &mut Vec<ListForFn<'a>>)
    requires
        opts.ready(),
        opts.is_struct(),
    ensures
        final(fns).len() == old(fns).len() + pairs_for(
            opts.columns.all@,
            *c,
            c.opts.sort_columns(),
        ).len(),
        forall|i: int| 0 <= i < old(fns).len() ==> final(fns)@[i] == old(fns)@[i],
        forall|i: int|
            old(fns).len() <= i < final(fns).len() ==> (#[trigger] final(fns)@[i]).made_from(
                &pairs_for(opts.columns.all@, *c, c.opts.sort_columns())[i - old(fns).len()].0,
                &pairs_for(opts.columns.all@, *c, c.opts.sort_columns())[i - old(fns).len()].1,
                opts,
            ),
{
    let ghost all = opts.columns.all@;
    let ghost names = c.opts.sort_columns();
    let ghost start = fns@;
    match &c.opts.list_for_opts {
        Some(list_for) => {
            let mut j: usize = 0;
            assert(names.take(0) =~= Seq::<Seq<char>>::empty());
            while j < list_for.by_columns.len()
                invariant
                    j <= list_for.by_columns.len(),
                    opts.ready(),
                    opts.is_struct(),
                    all == opts.columns.all@,
                    names == list_for.by_columns.deep_view(),
                    fns.len() == start.len() + pairs_for(all, *c, names.take(j as int)).len(),
                    forall|i: int| 0 <= i < start.len() ==> fns@[i] == start[i],
                    forall|i: int|
                        start.len() <= i < fns.len() ==> (#[trigger] fns@[i]).made_from(
                            &pairs_for(all, *c, names.take(j as int))[i - start.len()].0,
                            &pairs_for(all, *c, names.take(j as int))[i - start.len()].1,
                            opts,
                        ),
                decreases list_for.by_columns.len() - j,
            {
                let name = list_for.by_columns[j].as_str();
                proof {
                    assert(names.take(j + 1).drop_last() =~= names.take(j as int));
                    assert(names.take(j + 1).last() == name@);
                }
                match listed(&opts.columns, name) {
                    Some(by) => {
                        fns.push(ListForFn::new(c, by, opts));
                    },
                    None => {},
                }
                j = j + 1;
            }
            assert(names.take(names.len() as int) =~= names);
        },
        None => {
            assert(names =~= Seq::<Seq<char>>::empty());
        },
    }
}

fn list_for_list<'a>(opts: &'a RepositoryOptions) -> (res: Vec<ListForFn<'a>>)
    requires
        opts.ready(),
        opts.is_struct(),
    ensures
        res.len() == list_pairs(opts.columns.all@, opts.columns.picks(Pick::ListFor)).len(),
        forall|i: int|
            0 <= i < res.len() ==> (#[trigger] res@[i]).made_from(
                &list_pairs(opts.columns.all@, opts.columns.picks(Pick::ListFor))[i].0,
                &list_pairs(opts.columns.all@, opts.columns.picks(Pick::ListFor))[i].1,
                opts,
            ),
{
    let columns = opts.columns.all_list_for();
    let ghost all = opts.columns.all@;
    let ghost picks = opts.columns.picks(Pick::ListFor);
    assert(columns_of(columns@).len() == columns.len());
    let mut res: Vec<ListForFn<'a>> = Vec::new();
    let mut i: usize = 0;
    assert(picks.take(0) =~= Seq::<Column>::empty());
    while i < columns.len()
        invariant
            i <= columns.len(),
            opts.ready(),
            opts.is_struct(),
            all == opts.columns.all@,
            picks == columns_of(columns@),
            res.len() == list_pairs(all, picks.take(i as int)).len(),
            forall|j: int|
                0 <= j < res.len() ==> (#[trigger] res@[j]).made_from(
                    &list_pairs(all, picks.take(i as int))[j].0,
                    &list_pairs(all, picks.take(i as int))[j].1,
                    opts,
                ),
        decreases columns.len() - i,
    {
        let c = columns[i];
        let ghost before = res@;
        let ghost done = list_pairs(all, picks.take(i as int));
        let ghost more = pairs_for(all, *c, c.opts.sort_columns());
        proof {
            assert(picks.take(i + 1).drop_last() =~= picks.take(i as int));
            assert(picks.take(i + 1).last() == *c);
        }
        push_list_for(opts, c, &mut res);
        proof {
            assert forall|j: int| 0 <= j < res.len() implies (#[trigger] res@[j]).made_from(
                &(done + more)[j].0,
                &(done + more)[j].1,
                opts,
            ) by {
                if j < before.len() {
                    assert(res@[j] == before[j]);
                    assert(before[j].made_from(&done[j].0, &done[j].1, opts));
                }
            }
        }
        i = i + 1;
    }
    assert(picks.take(picks.len() as int) =~= picks);
    res
}

fn nested_list<'a>(opts: &'a RepositoryOptions) -> (res: Vec<Nested<'a>>)
    requires
        opts.is_struct(),
    ensures
        res.len() == opts.nested().len(),
        forall|i: int|
            0 <= i < res.len() ==> (#[trigger] res@[i]).made_from(&opts.nested()[i], opts),
{
    let fields = opts.all_nested();
    let mut res: Vec<Nested<'a>> = Vec::new();
    let mut i: usize = 0;
    while i < fields.len()
        invariant
            i <= fields.len(),
            fields.len() == opts.nested().len(),
            fields_of(fields@) == opts.nested(),
            res.len() == i,
            forall|j: int|
                0 <= j < i ==> (#[trigger] res@[j]).made_from(&opts.nested()[j], opts),
        decreases fields.len() - i,
    {
        assert(*fields@[i as int] == fields_of(fields@)[i as int]);
        res.push(Nested::new(fields[i], opts));
        i = i + 1;
    }
    res
}

fn populate<'a>(opts: &'a RepositoryOptions) -> (res: Option<PopulateNested<'a>>)
    requires
        opts.ready(),
    ensures
        res is Some <==> parent_column(opts.columns.all@) is Some,
        res matches Some(p) ==> p.made_from(&parent_column(opts.columns.all@)->0, opts),
{
    match opts.columns.parent() {
        Some(c) => {
            proof {
                let all = opts.columns.all@;
                let i = choose|i: int|
                    0 <= i < all.len() && *c == #[trigger] all[i] && c.opts.parent_opts is Some
                        && (forall|j: int|
                        0 <= j < i ==> (#[trigger] all[j]).opts.parent_opts is None);
                parent_column_is_first(all, i);
            }
            Some(PopulateNested::new(c, opts))
        },
        None => {
            proof {
                no_parent_column(opts.columns.all@);
            }
            None
        },
    }
}

/// Whether these are the errors with which the options of a repository are
/// rejected: those of the sort columns; or else that of a column that exists in
/// filters alone, because it is not filtered by or has no place for its value;
/// or else that of the scope columns; or else that of the forgettable columns.
pub open spec fn rejected_with(opts: &RepositoryOptions, errors: Seq<OptionsError>) -> bool {
    let bad = bad_sorts(opts.columns, opts.columns.all@);
    let problem = scope_problem(opts.columns.picks(Pick::Scope), opts.columns.has_parent());
    if bad.len() > 0 {
        &&& errors.len() == bad.len()
        &&& forall|i: int|
            0 <= i < bad.len() ==> ((#[trigger] errors[i]) matches OptionsError::NotListBy {
                by,
                column,
                available,
            } && by@ == bad[i].0 && column@ == bad[i].1 && available.deep_view()
                == opts.columns.names(Pick::ListBy))
    } else if first_unfiltered(opts.columns.all@) is Some {
        &&& errors.len() == 1
        &&& errors[0] matches OptionsError::VirtualNotListFor { column }
        &&& Some(column@) == first_unfiltered(opts.columns.all@)
    } else if first_without_value(opts.columns.all@) is Some {
        &&& errors.len() == 1
        &&& errors[0] matches OptionsError::VirtualWithoutValue { column }
        &&& Some(column@) == first_without_value(opts.columns.all@)
    } else if problem is Some {
        errors.len() == 1 && errors[0].scope_problem() == problem
    } else {
        errors.len() == 1 && errors[0] is ForgettableDisabled
    }
}

/// Whether the options of a repository are accepted.
pub open spec fn accepted(opts: &RepositoryOptions) -> bool {
    &&& bad_sorts(opts.columns, opts.columns.all@).len() == 0
    &&& first_unfiltered(opts.columns.all@) is None
    &&& first_without_value(opts.columns.all@) is None
    &&& scope_problem(opts.columns.picks(Pick::Scope), opts.columns.has_parent()) is None
    &&& opts.forgettable || opts.columns.picks(Pick::Forgettable).len() == 0
}

/// Rejects options that do not go together.
pub fn validate(opts: &RepositoryOptions) -> (res: Result<(), Vec<OptionsError>>)
    ensures
        res is Ok <==> accepted(opts),
        res matches Err(errors) ==> rejected_with(opts, errors@),
{
    match opts.columns.validate_list_for_by_columns() {
        Err(errors) => {
            return Err(errors);
        },
        Ok(_) => {},
    }
    match opts.columns.validate_virtual() {
        Err(e) => {
            return Err(vec![e]);
        },
        Ok(_) => {},
    }
    match opts.columns.validate_virtual_values() {
        Err(e) => {
            return Err(vec![e]);
        },
        Ok(_) => {},
    }
    match opts.columns.validate_scope() {
        Err(e) => {
            return Err(vec![e]);
        },
        Ok(_) => {},
    }
    match opts.validate_forgettable() {
        Err(e) => {
            return Err(vec![e]);
        },
        Ok(_) => {},
    }
    Ok(())
}

/// The code of a repository with the given options, behind what makes it depend
/// on the migrations. The options are rejected where they do not go together.
pub fn derive(
    opts: &RepositoryOptions,
    migrations_rerun: &str,
    cursor: &ComboCursor,
    catalog: IndexCatalog,
    parts: &RepoParts,
) -> (res: Result<String, Vec<OptionsError>>)
    requires
        opts.ready(),
        opts.is_struct(),
        4 * opts.columns.all.len() + 64 <= u32::MAX,
    ensures
        res is Ok <==> accepted(opts),
        res matches Ok(code) ==> exists|repo: EsRepo| #[trigger]
            repo.made_from(opts, cursor, catalog, parts) && code@ == migrations_rerun@ + "\n"@
                + repo.code(),
        res matches Err(errors) ==> rejected_with(opts, errors@),
{
    match validate(opts) {
        Err(errors) => {
            return Err(errors);
        },
        Ok(_) => {},
    }
    let ghost known = catalog;
    let repo = EsRepo::from(opts, cursor, catalog, parts);
    proof {
        picked_len(opts.columns.all@, Pick::ListFor);
        picked_len(opts.columns.all@, Pick::Virtual);
        nested_have_names(opts.data->0@);
        let f = repo.list_for_filters;
        assert(columns_of(f.for_columns@).len() == f.for_columns.len());
        assert(columns_of(f.virtual_columns@).len() == f.virtual_columns.len());
        assert(repo.made_from(opts, cursor, known, parts));
    }
    let mut code = migrations_rerun.to_string().concat("\n");
    repo.to_tokens(&mut code);
    Ok(code)
}

/// Of what the functions of a repository call, this is emitted: the function by
/// which whoever forgets tells concurrent modifications from other errors, the
/// one that writes the staged events by themselves where no column is set to
/// NULL, and the functions by which the nested entities are created, found and
/// deleted. The functions that forget the nested entities are not among what is
/// emitted: they are the repository's own.
pub proof fn helpers_are_emitted(
    repo: &EsRepo,
    opts: &RepositoryOptions,
    cursor: &ComboCursor,
    catalog: IndexCatalog,
    parts: &RepoParts,
)
    requires
        repo.made_from(opts, cursor, catalog, parts),
    ensures
        repo.forget_fn is Some ==> repo.extract_concurrent_modification,
        repo.forget_fn matches Some(f) ==> f.forgettable_columns.len() == 0
            ==> repo.persist_events_fn is Some,
        forall|i: int|
            0 <= i < repo.nested.len() ==> {
                let code = (#[trigger] repo.nested@[i]).code();
                &&& occurs(code, repo.create_fn.nested_fn_names.deep_view()[i])
                &&& occurs(code, repo.create_all_fn.nested_fn_names.deep_view()[i])
                &&& occurs(code, repo.delete_fn.nested_delete_fn_names.deep_view()[i])
                &&& occurs(code, repo.nested_fns.deep_view()[i])
                &&& occurs(code, repo.nested_include_deleted_fns.deep_view()[i])
            },
{
    match repo.forget_fn {
        Some(f) => {
            assert(f.forgettable_columns.deep_view().len() == f.forgettable_columns.len());
        },
        None => {},
    }
    assert forall|i: int| 0 <= i < repo.nested.len() implies {
        let code = (#[trigger] repo.nested@[i]).code();
        &&& occurs(code, repo.create_fn.nested_fn_names.deep_view()[i])
        &&& occurs(code, repo.create_all_fn.nested_fn_names.deep_view()[i])
        &&& occurs(code, repo.delete_fn.nested_delete_fn_names.deep_view()[i])
        &&& occurs(code, repo.nested_fns.deep_view()[i])
        &&& occurs(code, repo.nested_include_deleted_fns.deep_view()[i])
    } by {
        nested_code_names(&repo.nested@[i]);
    }
}

proof fn nested_code_names(nested: &Nested)
    ensures
        occurs(nested.code(), NestedFn::Create.name(nested.field.label())),
        occurs(nested.code(), NestedFn::Find.name(nested.field.label())),
        occurs(nested.code(), NestedFn::FindIncludeDeleted.name(nested.field.label())),
        occurs(nested.code(), NestedFn::Delete.name(nested.field.label())),
{
    reveal(Nested::code);
    broadcast use occurs_extended;

}

/// A repository without scope columns has no scope type and no view that is
/// bound to a scope.
pub proof fn unscoped_has_no_view(
    repo: &EsRepo,
    opts: &RepositoryOptions,
    cursor: &ComboCursor,
    catalog: IndexCatalog,
    parts: &RepoParts,
)
    requires
        repo.made_from(opts, cursor, catalog, parts),
        opts.columns.picks(Pick::Scope).len() == 0,
    ensures
        repo.scope_type is None,
        repo.scoped() == (Seq::<char>::empty(), Seq::<char>::empty()),
{
    reveal(EsRepo::scoped);
}

/// A repository with scope columns has the scope type, the view that is bound
/// to a scope, and the function that gives it.
pub proof fn scoped_has_a_view(
    repo: &EsRepo,
    opts: &RepositoryOptions,
    cursor: &ComboCursor,
    catalog: IndexCatalog,
    parts: &RepoParts,
)
    requires
        repo.made_from(opts, cursor, catalog, parts),
        opts.columns.picks(Pick::Scope).len() > 0,
    ensures
        repo.scope_type is Some,
        occurs(repo.code(), repo.scope_type->0.code()),
        occurs(repo.code(), repo.scoped().1),
        occurs(repo.impl_code(), repo.scoped().0),
        occurs(repo.scoped().1, repo.delegates()),
{
    reveal(EsRepo::code);
    reveal(EsRepo::impl_code);
    reveal(EsRepo::scoped);
    broadcast use occurs_extended;

}

} // verus!
