//! The functions that list the entities that meet any combination of filters
//! page by page, sorted by a column.

use vstd::prelude::*;
use vstd::string::*;

use crate::combo_cursor::ComboCursor;
use crate::filter_states::{
    combos_are_the_product, filter_combos, filter_state_combos, lists_of, one_of_each, states_of,
    states_of_each, value_combos, value_virtual_state_combos, virtual_combos, virtual_state_combos,
    FilterState, ValueVirtualState, VirtualState,
};
use crate::filters_code::{
    by_delegate_standalone, by_delegate_standalone_code, by_delegates, by_delegates_code,
    by_fns, by_fns_code, by_standalone, by_standalone_code, fallback_arm, fallback_arm_code,
    filters_choice, filters_choice_code, filters_match, filters_match_code, filters_taken,
    list_by_call, list_by_call_code, only_filter_branch, only_filter_branch_code, page_with_end,
    page_with_end_code, page_with_next, page_with_next_code, several_filters_branch,
    several_filters_branch_code, single_filter_branch, single_filter_branch_code, snapshot_arg,
    sort_arm, sort_arm_code, sort_delegate_standalone, sort_delegate_standalone_code,
    sort_delegates, sort_delegates_code, sort_fns, sort_fns_code, sort_standalone,
    sort_standalone_code, specialized_arm, specialized_arm_code, take_filter, take_filter_code,
    take_optional_filter, values_taken, virtual_scrutinees, virtuals_taken, FILTERS_BY_FIELDS,
    FILTERS_SORT_FIELDS, RECORD_RESULT,
};
use crate::filters_struct::{
    all_patterns, any_states_in_step, constrained, filter_patterns, filter_scrutinee,
    filter_scrutinees, filters_in_step, none_checks, others, paired, taking_value,
    virtual_conditions, virtual_patterns, virtual_trailing, with_any_states, with_filters,
    with_values, Bound, BoundFilters, FiltersStruct,
};
use crate::index_catalog::IndexCatalog;
use crate::instrument::{
    span_attr, span_attribute, trace, traced, ERROR_RECORDING, EXTRACT_HAS_CURSOR, RECORD_ENTITIES,
    RECORD_PAGE,
};
use crate::list_by_fn::{
    assemble_union_select, es_query, forgettable_arg_text, not_deleted_conditions,
    query_subject_text, texts, CursorStruct,
};
use crate::naming::{cased, to_case, NameCase};
use crate::options::column::Column;
use crate::options::columns::columns_of;
use crate::options::delete::DeleteOption;
use crate::options::repository::RepositoryOptions;
use crate::post_hydrate_hook::check_all_hydrated;
use crate::scope::{scope_texts, ScopeCol, ScopeInfo};
use crate::text::{end_each, ended, given, join, joined, literal, only_if, quote, same};
use crate::tokens::is_one_of;
use crate::types::{opt_str, opt_text};

verus! {

/// The functions that list the entities that meet a combination of filters.
pub struct ListForFiltersFn<'a> {
    pub in_op_only: bool,
    pub filters_struct: FiltersStruct<'a>,
    pub entity: &'a str,
    pub query_error: String,
    pub for_columns: Vec<&'a Column>,
    pub virtual_columns: Vec<&'a Column>,
    pub by_columns: Vec<&'a Column>,
    pub cursor: &'a ComboCursor,
    pub delete: DeleteOption,
    pub cursor_mod: String,
    pub table_name: &'a str,
    pub ignore_prefix: Option<&'a str>,
    pub id: &'a str,
    pub post_hydrate_error: Option<&'a str>,
    pub forgettable_table_name: Option<&'a str>,
    pub snapshot_table_name: Option<&'a str>,
    pub scope: Option<ScopeInfo<'a>>,
    pub index_catalog: IndexCatalog,
    /// The repository's name in the spans, where functions are traced.
    pub repo_name_snake: Option<String>,
}

/// Which query is meant: the column that it is sorted by, whether it lists
/// deleted entities, the scope that it is restricted to, and the direction.
pub struct QueryCase<'b, 'a> {
    pub by: &'b Column,
    pub variant: DeleteOption,
    pub scope: Option<&'b ScopeCol<'a>>,
    pub ascending: bool,
}

/// What a query binds before its filters: the scope.
pub open spec fn scope_bound(scope: Option<&ScopeCol>) -> Bound {
    match scope {
        Some(col) => (
            seq![col.condition(1)],
            seq!["__scope_val as &"@ + col.column_ty@],
            2,
        ),
        None => (Seq::empty(), Seq::empty(), 1),
    }
}

impl<'a> ListForFiltersFn<'a> {
    /// The columns that are filtered by.
    pub open spec fn fcols(&self) -> Seq<Column> {
        columns_of(self.for_columns@)
    }

    /// The conditions that are filtered by.
    pub open spec fn bcols(&self) -> Seq<Column> {
        taking_value(columns_of(self.virtual_columns@), false)
    }

    /// The conditions with a value that are filtered by.
    pub open spec fn vcols(&self) -> Seq<Column> {
        taking_value(columns_of(self.virtual_columns@), true)
    }

    /// Whether flags are filtered by, and no condition with a value. A page then
    /// has the cursor of its end; otherwise it has the cursor of the next page,
    /// where there is one.
    pub open spec fn flags_alone(&self) -> bool {
        self.bcols().len() > 0 && self.vcols().len() == 0
    }

    /// What a list hands out as a page.
    pub open spec fn page(&self, cursor: Seq<char>) -> Seq<char> {
        if self.flags_alone() {
            page_with_end_code(self.cursor_mod@, cursor)
        } else {
            page_with_next_code(self.cursor_mod@, cursor)
        }
    }

    /// The function that changes the cursor of a page.
    pub open spec fn map_cursor(&self) -> Seq<char> {
        if self.flags_alone() {
            "map_end_cursor"@
        } else {
            "map_next_cursor"@
        }
    }

    /// The parameters of a query can be numbered.
    pub open spec fn fits(&self) -> bool {
        2 * self.for_columns.len() + 2 * self.virtual_columns.len() + 16 <= u32::MAX
    }

    /// The cursor of a list sorted by a column.
    pub open spec fn cursor_spec(&self, by: Column) -> CursorStruct<'a> {
        CursorStruct { column: &by, id: self.id, entity: self.entity, cursor_mod: "" }
    }

    /// Whether a combination of filters gets a query of its own: an index
    /// serves the columns that it compares, the scope's among them.
    pub open spec fn specialized(
        &self,
        combo: Seq<FilterState>,
        scope: Option<&ScopeCol>,
    ) -> bool {
        self.index_catalog.serves(
            self.table_name@,
            (match scope {
                Some(col) => seq![col.column_name@],
                None => Seq::empty(),
            }) + constrained(self.fcols(), combo),
        )
    }

    /// Whether all combinations of filters get queries of their own.
    pub open spec fn all_specialized(&self, scope: Option<&ScopeCol>) -> bool {
        forall|i: int|
            0 <= i < filter_combos(self.fcols()).len() ==> self.specialized(
                #[trigger] filter_combos(self.fcols())[i],
                scope,
            )
    }

    /// What a query binds behind the filters by columns.
    pub open spec fn rest_bound(
        &self,
        case: QueryCase,
        front: Bound,
        virtuals: Seq<VirtualState>,
        values: Seq<ValueVirtualState>,
    ) -> Bound {
        with_values(
            self.vcols(),
            values,
            (
                crate::list_by_fn::not_deleted(case.variant, self.delete) + virtual_conditions(
                    self.bcols(),
                    virtuals,
                ),
                front.1,
                front.2,
            ),
        )
    }

    /// The query with the conditions `front` on the columns.
    pub open spec fn query(
        &self,
        case: QueryCase,
        front: Bound,
        virtuals: Seq<VirtualState>,
        values: Seq<ValueVirtualState>,
    ) -> Seq<char> {
        let cursor = self.cursor_spec(*case.by);
        let rest = self.rest_bound(case, front, virtuals, values);
        crate::list_by_fn::union_select(
            cursor.selected(None),
            self.table_name@,
            front.0,
            cursor.branches((rest.2 - 1) as nat, case.ascending),
            rest.0,
            cursor.ordered(case.ascending),
            rest.2,
        )
    }

    /// The call of the query with the conditions `front` on the columns.
    pub open spec fn call(
        &self,
        case: QueryCase,
        front: Bound,
        virtuals: Seq<VirtualState>,
        values: Seq<ValueVirtualState>,
    ) -> Seq<char> {
        crate::list_by_fn::es_query_code(
            crate::list_by_fn::query_subject(opt_str(self.ignore_prefix), self.entity@),
            crate::list_by_fn::forgettable_arg(opt_str(self.forgettable_table_name)),
            snapshot_arg(opt_str(self.snapshot_table_name)),
            literal(self.query(case, front, virtuals, values)),
            ended(self.rest_bound(case, front, virtuals, values).1, ", "@) + self.cursor_spec(
                *case.by,
            ).query_args(),
        )
    }

    /// The queries of combinations of the filters by columns.
    pub open spec fn filter_arms(
        &self,
        case: QueryCase,
        virtuals: Seq<VirtualState>,
        values: Seq<ValueVirtualState>,
        combos: Seq<Seq<FilterState>>,
    ) -> Seq<char>
        decreases combos.len(),
    {
        if combos.len() == 0 {
            Seq::empty()
        } else {
            let front = self.filter_arms(case, virtuals, values, combos.drop_last());
            let combo = combos.last();
            if self.specialized(combo, case.scope) {
                front + specialized_arm_code(
                    "("@ + ended(
                        all_patterns(self.fcols(), combo) + virtual_patterns(virtuals, values),
                        ", "@,
                    ) + ")"@,
                    self.call(
                        case,
                        with_filters(self.fcols(), combo, scope_bound(case.scope)),
                        virtuals,
                        values,
                    ),
                ) + "\n"@
            } else {
                front
            }
        }
    }

    /// The queries of combinations of the filters by conditions with values.
    pub open spec fn value_arms(
        &self,
        case: QueryCase,
        virtuals: Seq<VirtualState>,
        combos: Seq<Seq<ValueVirtualState>>,
    ) -> Seq<char>
        decreases combos.len(),
    {
        if combos.len() == 0 {
            Seq::empty()
        } else {
            self.value_arms(case, virtuals, combos.drop_last()) + self.filter_arms(
                case,
                virtuals,
                combos.last(),
                filter_combos(self.fcols()),
            )
        }
    }

    /// The queries of combinations of the filters by conditions.
    pub open spec fn virtual_arms(
        &self,
        case: QueryCase,
        combos: Seq<Seq<VirtualState>>,
    ) -> Seq<char>
        decreases combos.len(),
    {
        if combos.len() == 0 {
            Seq::empty()
        } else {
            self.virtual_arms(case, combos.drop_last()) + self.value_arms(
                case,
                combos.last(),
                value_combos(self.vcols().len()),
            )
        }
    }

    /// The query for all states of the filters by columns, with the filters by
    /// conditions in the given states.
    pub open spec fn fallback_code(
        &self,
        case: QueryCase,
        virtuals: Seq<VirtualState>,
        values: Seq<ValueVirtualState>,
    ) -> Seq<char> {
        fallback_arm_code(
            if self.virtual_columns.len() == 0 {
                "_"@
            } else {
                "(.., "@ + ended(virtual_patterns(virtuals, values), ", "@) + ")"@
            },
            self.call(
                case,
                with_any_states(self.fcols(), scope_bound(case.scope)),
                virtuals,
                values,
            ),
        ) + "\n"@
    }

    /// The queries for all states of the filters by columns.
    pub open spec fn value_fallbacks(
        &self,
        case: QueryCase,
        virtuals: Seq<VirtualState>,
        combos: Seq<Seq<ValueVirtualState>>,
    ) -> Seq<char>
        decreases combos.len(),
    {
        if combos.len() == 0 {
            Seq::empty()
        } else {
            self.value_fallbacks(case, virtuals, combos.drop_last()) + self.fallback_code(
                case,
                virtuals,
                combos.last(),
            )
        }
    }

    /// The queries for all states of the filters by columns.
    pub open spec fn virtual_fallbacks(
        &self,
        case: QueryCase,
        combos: Seq<Seq<VirtualState>>,
    ) -> Seq<char>
        decreases combos.len(),
    {
        if combos.len() == 0 {
            Seq::empty()
        } else {
            self.virtual_fallbacks(case, combos.drop_last()) + self.value_fallbacks(
                case,
                combos.last(),
                value_combos(self.vcols().len()),
            )
        }
    }

    /// The queries for the combinations that have none of their own; nothing
    /// where all have.
    pub open spec fn fallbacks(&self, case: QueryCase) -> Seq<char> {
        if self.all_specialized(case.scope) {
            Seq::empty()
        } else {
            self.virtual_fallbacks(case, virtual_combos(self.bcols().len()))
        }
    }

    /// The choice of the query by the states of the filters.
    pub open spec fn case_arms(&self, case: QueryCase) -> Seq<char> {
        self.virtual_arms(case, virtual_combos(self.bcols().len())) + self.fallbacks(case)
    }

    /// What tells the states of the filters.
    pub open spec fn scrutinees(&self) -> Seq<Seq<char>> {
        filter_scrutinees(self.fcols()) + virtual_scrutinees(self.bcols(), self.vcols())
    }

    /// The choice of the query by the direction and the states of the filters.
    pub open spec fn direction_arms(
        &self,
        by: &Column,
        variant: DeleteOption,
        scope: Option<&ScopeCol>,
    ) -> Seq<char> {
        filters_match_code(
            ended(self.scrutinees(), ", "@),
            self.case_arms(QueryCase { by, variant, scope, ascending: true }),
            self.case_arms(QueryCase { by, variant, scope, ascending: false }),
        )
    }

    /// The choice of the query by the scope, the direction and the states of
    /// the filters.
    pub open spec fn match_code(&self, by: &Column, variant: DeleteOption) -> Seq<char> {
        match self.scope {
            Some(info) => info.dispatched(
                self.direction_arms(by, variant, None),
                Seq::new(
                    info.cols.len() as nat,
                    |i: int| self.direction_arms(by, variant, Some(&info.cols@[i])),
                ),
            ),
            None => self.direction_arms(by, variant, None),
        }
    }

    /// The name of the function sorted by a column.
    pub open spec fn by_name(&self, by: Column, variant: DeleteOption) -> Seq<char> {
        "list_for_filters_by_"@ + by.name@ + variant.postfix()
    }

    /// The functions sorted by a column.
    #[verifier::opaque]
    pub open spec fn by_code(&self, by: &Column, variant: DeleteOption) -> Seq<char> {
        let cursor = self.cursor_spec(*by);
        let scope = crate::scope::scope_parts(self.scope);
        let prefix = opt_text(self.repo_name_snake);
        let name = self.by_name(*by, variant);
        by_fns_code(
            only_if(
                !self.in_op_only,
                by_standalone_code(
                    name,
                    name + "_in_op"@,
                    scope.0,
                    self.filters_struct.named(),
                    self.cursor_mod@,
                    cursor.named(),
                    self.entity@,
                    self.query_error@,
                    crate::options::repository::query_get_op(false),
                    scope.1,
                ),
            ),
            span_attr(prefix, "list_for_filters_by_"@ + by.name@, self.entity@, FILTERS_BY_FIELDS@),
            name + "_in_op"@,
            crate::options::repository::query_generics(false),
            crate::options::repository::query_op_arg(false),
            scope.0,
            self.filters_struct.named(),
            self.cursor_mod@,
            cursor.named(),
            self.entity@,
            self.query_error@,
            crate::options::repository::query_op_traits(false),
            scope.2,
            traced(prefix, EXTRACT_HAS_CURSOR@),
            ended(filters_taken(self.fcols()), "\n"@) + ended(virtuals_taken(self.bcols()), "\n"@)
                + ended(values_taken(self.vcols()), "\n"@),
            cursor.destructured(),
            traced(prefix, RECORD_PAGE@),
            self.match_code(by, variant),
            only_if(
                self.post_hydrate_error is Some,
                crate::post_hydrate_hook::check_all_hydrated_code(self.query_error@),
            ),
            traced(prefix, RECORD_ENTITIES@),
            self.page(cursor.named()),
            traced(prefix, ERROR_RECORDING@),
        )
    }

    /// The list for one filter where no other is applied.
    pub open spec fn single_branch(
        &self,
        c: Column,
        by: Column,
        variant: DeleteOption,
        in_op: bool,
    ) -> Seq<char> {
        let none = none_checks(others(self.fcols(), c.name@)) + none_checks(
            columns_of(self.virtual_columns@),
        );
        let name = "list_for_"@ + c.name@ + "_by_"@ + by.name@ + variant.postfix() + only_if(
            in_op,
            "_in_op"@,
        );
        let op = only_if(in_op, "op,"@);
        let scope = only_if(self.scope is Some, "__scope,"@);
        if none.len() == 0 {
            only_filter_branch_code(name, op, scope, c.name@)
        } else {
            single_filter_branch_code(joined(none, " && "@), name, op, scope, c.name@)
        }
    }

    /// What is called for a sort column: the list without filters where none is
    /// applied, the list for one filter where no other is applied and there is
    /// such a list, and the list for several filters otherwise.
    pub open spec fn proxy_code(&self, by: Column, variant: DeleteOption, in_op: bool) -> Seq<
        char,
    > {
        let postfix = variant.postfix() + only_if(in_op, "_in_op"@);
        let op = only_if(in_op, "op,"@);
        let scope = only_if(self.scope is Some, "__scope,"@);
        let list_by = list_by_call_code("list_by_"@ + by.name@ + postfix, op, scope);
        if self.for_columns.len() == 0 && self.virtual_columns.len() == 0 {
            list_by
        } else {
            let pairs = paired(self.fcols(), by.name@);
            filters_choice_code(
                joined(
                    none_checks(self.fcols()) + none_checks(columns_of(self.virtual_columns@)),
                    " && "@,
                ),
                list_by,
                ended(
                    Seq::new(
                        pairs.len(),
                        |i: int| self.single_branch(pairs[i], by, variant, in_op),
                    ),
                    "\n"@,
                ),
                only_if(
                    pairs.len() < self.for_columns.len() || self.for_columns.len() >= 2
                        || self.virtual_columns.len() > 0,
                    several_filters_branch_code(
                        "list_for_filters_by_"@ + by.name@ + postfix,
                        op,
                        scope,
                    ),
                ),
            )
        }
    }

    /// What is called for each of the sort columns.
    pub open spec fn sort_arms(&self, variant: DeleteOption) -> Seq<Seq<char>> {
        Seq::new(
            self.by_columns.len() as nat,
            |i: int|
                sort_arm_code(
                    self.cursor.sort_by_name@,
                    cased(self.by_columns@[i].name@, NameCase::UpperCamel),
                    self.cursor_mod@,
                    self.cursor_spec(*self.by_columns@[i]).named(),
                    self.proxy_code(*self.by_columns@[i], variant, true),
                    self.map_cursor(),
                    self.cursor.ident@,
                ),
        )
    }

    /// The functions that take the sort column as a value.
    #[verifier::opaque]
    pub open spec fn sort_code(&self, variant: DeleteOption) -> Seq<char> {
        let scope = crate::scope::scope_parts(self.scope);
        let prefix = opt_text(self.repo_name_snake);
        let name = "list_for_filters"@ + variant.postfix();
        sort_fns_code(
            only_if(
                !self.in_op_only,
                sort_standalone_code(
                    name,
                    name + "_in_op"@,
                    scope.0,
                    self.filters_struct.named(),
                    self.cursor.sort_by_name@,
                    self.cursor_mod@,
                    self.cursor.ident@,
                    self.entity@,
                    self.query_error@,
                    crate::options::repository::query_get_op(false),
                    scope.1,
                ),
            ),
            span_attr(prefix, "list_for_filters"@, self.entity@, FILTERS_SORT_FIELDS@),
            name + "_in_op"@,
            crate::options::repository::query_generics(false),
            crate::options::repository::query_op_arg(false),
            scope.0,
            self.filters_struct.named(),
            self.cursor.sort_by_name@,
            self.cursor_mod@,
            self.cursor.ident@,
            self.entity@,
            self.query_error@,
            crate::options::repository::query_op_traits(false),
            scope.2,
            traced(prefix, EXTRACT_HAS_CURSOR@),
            traced(prefix, RECORD_PAGE@),
            ended(self.sort_arms(variant), "\n"@),
            traced(prefix, RECORD_RESULT@),
            traced(prefix, ERROR_RECORDING@),
        )
    }

    /// The functions for a variant.
    #[verifier::opaque]
    pub open spec fn variant_code(&self, variant: DeleteOption) -> Seq<char> {
        ended(
            Seq::new(
                self.by_columns.len() as nat,
                |i: int| self.by_code(self.by_columns@[i], variant),
            ),
            "\n"@,
        ) + self.sort_code(variant)
    }

    /// The functions: those that list live entities, and where deleted ones
    /// can be listed those that do so.
    #[verifier::opaque]
    pub open spec fn code(&self) -> Seq<char> {
        joined(
            Seq::new(
                self.delete.variants().len(),
                |i: int| self.variant_code(self.delete.variants()[i]),
            ),
            "\n"@,
        )
    }

    /// The functions sorted by a column, of the view that is bound to a scope.
    pub open spec fn by_delegate(&self, by: Column, variant: DeleteOption) -> Seq<char> {
        let cursor = self.cursor_spec(by).named();
        let name = self.by_name(by, variant);
        by_delegates_code(
            only_if(
                !self.in_op_only,
                by_delegate_standalone_code(
                    name,
                    self.filters_struct.named(),
                    self.cursor_mod@,
                    cursor,
                    self.entity@,
                    self.query_error@,
                ),
            ),
            name + "_in_op"@,
            crate::options::repository::query_generics(false),
            crate::options::repository::query_op_arg(false),
            self.filters_struct.named(),
            self.cursor_mod@,
            cursor,
            self.entity@,
            self.query_error@,
            crate::options::repository::query_op_traits(false),
        )
    }

    /// The functions of the view that is bound to a scope, for a variant.
    pub open spec fn delegate_code(&self, variant: DeleteOption) -> Seq<char> {
        let name = "list_for_filters"@ + variant.postfix();
        ended(
            Seq::new(
                self.by_columns.len() as nat,
                |i: int| self.by_delegate(*self.by_columns@[i], variant),
            ),
            "\n"@,
        ) + sort_delegates_code(
            only_if(
                !self.in_op_only,
                sort_delegate_standalone_code(
                    name,
                    self.filters_struct.named(),
                    self.cursor.sort_by_name@,
                    self.cursor_mod@,
                    self.cursor.ident@,
                    self.entity@,
                    self.query_error@,
                ),
            ),
            name + "_in_op"@,
            crate::options::repository::query_generics(false),
            crate::options::repository::query_op_arg(false),
            self.filters_struct.named(),
            self.cursor.sort_by_name@,
            self.cursor_mod@,
            self.cursor.ident@,
            self.entity@,
            self.query_error@,
            crate::options::repository::query_op_traits(false),
        )
    }

    /// The functions of the view that is bound to a scope.
    #[verifier::opaque]
    pub open spec fn delegates(&self) -> Seq<char> {
        if self.scope is None {
            Seq::empty()
        } else {
            joined(
                Seq::new(
                    self.delete.variants().len(),
                    |i: int| self.delegate_code(self.delete.variants()[i]),
                ),
                "\n"@,
            )
        }
    }

    /// Whether this is what the options of a repository ask for.
    pub open spec fn made_from(
        &self,
        opts: &RepositoryOptions,
        for_columns: Seq<Column>,
        virtual_columns: Seq<Column>,
        by_columns: Seq<Column>,
        cursor: &ComboCursor,
        index_catalog: IndexCatalog,
    ) -> bool {
        &&& self.in_op_only == opts.in_op_only
        &&& columns_of(self.filters_struct.columns@) == for_columns
        &&& columns_of(self.filters_struct.virtual_columns@) == virtual_columns
        &&& self.filters_struct.entity@ == opts.entity_ident@
        &&& self.entity@ == opts.entity_ident@
        &&& self.query_error@ == opts.entity_ident@ + "QueryError"@
        &&& columns_of(self.for_columns@) == for_columns
        &&& columns_of(self.virtual_columns@) == virtual_columns
        &&& columns_of(self.by_columns@) == by_columns
        &&& self.cursor == cursor
        &&& self.delete == opts.delete
        &&& self.cursor_mod@ == cased(opts.entity_ident@ + "Cursor"@, NameCase::Snake)
        &&& self.table_name@ == opts.table_text()
        &&& opt_str(self.ignore_prefix) == opt_text(opts.prefix)
        &&& self.id@ == opts.id_text()
        &&& opt_str(self.post_hydrate_error) == opts.hydrate_error()
        &&& opt_str(self.forgettable_table_name) == opts.forgettable_table()
        &&& opt_str(self.snapshot_table_name) == opt_text(opts.snapshot_table_name)
        &&& self.scope is Some <==> opts.columns.picks(crate::options::columns::Pick::Scope).len()
            > 0
        &&& self.scope matches Some(info) ==> info.scope_of(opts)
        &&& self.index_catalog == index_catalog
        &&& opt_text(self.repo_name_snake) == opts.span_prefix()
    }

    pub fn new(
        opts: &'a RepositoryOptions,
        for_columns: Vec<&'a Column>,
        virtual_columns: Vec<&'a Column>,
        by_columns: Vec<&'a Column>,
        cursor: &'a ComboCursor,
        index_catalog: IndexCatalog,
    ) -> (res: Self)
        requires
            opts.ready(),
        ensures
            res.made_from(
                opts,
                columns_of(for_columns@),
                columns_of(virtual_columns@),
                columns_of(by_columns@),
                cursor,
                index_catalog,
            ),
    {
        ListForFiltersFn {
            in_op_only: opts.in_op_only(),
            filters_struct: FiltersStruct::new(
                opts,
                copied(&for_columns),
                copied(&virtual_columns),
            ),
            entity: opts.entity(),
            query_error: opts.query_error(),
            for_columns,
            virtual_columns,
            by_columns,
            cursor,
            delete: opts.delete,
            cursor_mod: opts.cursor_mod(),
            table_name: opts.table_name(),
            ignore_prefix: opts.table_prefix(),
            id: opts.id(),
            post_hydrate_error: opts.post_hydrate_error(),
            forgettable_table_name: opts.forgettable_table_name(),
            snapshot_table_name: opts.snapshot_table_name(),
            scope: ScopeInfo::from_opts(opts),
            index_catalog,
            repo_name_snake: opts.instrumented_as(),
        }
    }

    fn virtuals(&self, value: bool) -> (res: Vec<&'a Column>)
        ensures
            columns_of(res@) == taking_value(columns_of(self.virtual_columns@), value),
            res.len() <= self.virtual_columns.len(),
    {
        let ghost all = columns_of(self.virtual_columns@);
        let mut res: Vec<&'a Column> = Vec::new();
        let mut i: usize = 0;
        assert(columns_of(res@) =~= taking_value(all.take(0), value));
        while i < self.virtual_columns.len()
            invariant
                i <= self.virtual_columns.len(),
                all == columns_of(self.virtual_columns@),
                res.len() <= i,
                columns_of(res@) == taking_value(all.take(i as int), value),
            decreases self.virtual_columns.len() - i,
        {
            let ghost before = columns_of(res@);
            let c = self.virtual_columns[i];
            proof {
                assert(all.take(i + 1).drop_last() =~= all.take(i as int));
                assert(all.take(i + 1).last() == *c);
            }
            if c.is_value_virtual() == value {
                res.push(c);
                assert(columns_of(res@) =~= before.push(*c));
            }
            i = i + 1;
        }
        assert(all.take(all.len() as int) =~= all);
        res
    }

    /// The conditions that are filtered by.
    pub fn bool_virtuals(&self) -> (res: Vec<&'a Column>)
        ensures
            columns_of(res@) == self.bcols(),
            res.len() <= self.virtual_columns.len(),
    {
        self.virtuals(false)
    }

    /// The conditions with a value that are filtered by.
    pub fn value_virtuals(&self) -> (res: Vec<&'a Column>)
        ensures
            columns_of(res@) == self.vcols(),
            res.len() <= self.virtual_columns.len(),
    {
        self.virtuals(true)
    }

    fn has_flags_alone(&self) -> (res: bool)
        ensures
            res == self.flags_alone(),
    {
        let flags = self.bool_virtuals();
        let values = self.value_virtuals();
        assert(columns_of(flags@).len() == flags.len());
        assert(columns_of(values@).len() == values.len());
        flags.len() > 0 && values.len() == 0
    }

    fn page_text(&self, cursor: &str) -> (res: String)
        ensures
            res@ == self.page(cursor@),
    {
        if self.has_flags_alone() {
            page_with_end(self.cursor_mod.as_str(), cursor)
        } else {
            page_with_next(self.cursor_mod.as_str(), cursor)
        }
    }

    fn cursor_struct<'b>(&self, by: &'b Column) -> (res: CursorStruct<'b>) where 'a: 'b
        ensures
            *res.column == *by,
            res.id@ == self.id@,
            res.entity@ == self.entity@,
    {
        CursorStruct { column: by, id: self.id, entity: self.entity, cursor_mod: "" }
    }

    /// Whether a combination of filters gets a query of its own.
    pub fn is_specialized_combo(
        &self,
        combo: &Vec<FilterState>,
        scope: Option<&ScopeCol<'a>>,
    ) -> (res: bool)
        requires
            combo.len() == self.for_columns.len(),
        ensures
            res == self.specialized(combo@, scope),
    {
        let ghost cols = self.fcols();
        let mut equality: Vec<String> = Vec::new();
        match scope {
            Some(col) => {
                equality.push(col.column_name.to_string());
            },
            None => {},
        }
        let ghost start = equality.deep_view();
        let mut i: usize = 0;
        assert(start + constrained(cols.take(0), combo@.take(0)) =~= start);
        while i < self.for_columns.len()
            invariant
                i <= self.for_columns.len(),
                combo.len() == self.for_columns.len(),
                cols == self.fcols(),
                equality.deep_view() == start + constrained(
                    cols.take(i as int),
                    combo@.take(i as int),
                ),
            decreases self.for_columns.len() - i,
        {
            let ghost before = equality.deep_view();
            proof {
                assert(cols.take(i + 1).drop_last() =~= cols.take(i as int));
                assert(combo@.take(i + 1).drop_last() =~= combo@.take(i as int));
            }
            if combo[i].is_present() {
                equality.push(self.for_columns[i].name().to_string());
                assert(equality.deep_view() =~= before.push(self.for_columns@[i as int].name@));
                assert(start + constrained(cols.take(i + 1), combo@.take(i + 1)) =~= before.push(
                    self.for_columns@[i as int].name@,
                ));
            }
            i = i + 1;
        }
        proof {
            assert(cols.take(cols.len() as int) =~= cols);
            assert(combo@.take(combo.len() as int) =~= combo@);
            assert(start =~= (match scope {
                Some(col) => seq![col.column_name@],
                None => Seq::empty(),
            }));
        }
        self.index_catalog.specializes(self.table_name, &equality)
    }

    fn scope_start(scope: Option<&ScopeCol<'a>>) -> (res: BoundFilters)
        ensures
            res.bound() == scope_bound(scope),
            res.next <= 2,
    {
        let mut conditions: Vec<String> = Vec::new();
        let mut args: Vec<String> = Vec::new();
        let mut next: u32 = 1;
        match scope {
            Some(col) => {
                conditions.push(col.predicate(1));
                args.push("__scope_val as &".to_string().concat(col.column_ty.as_str()));
                next = 2;
            },
            None => {},
        }
        assert(texts(conditions@) =~= scope_bound(scope).0);
        assert(texts(args@) =~= scope_bound(scope).1);
        BoundFilters { conditions, args, next }
    }

    fn combo_start(&self, combo: &Vec<FilterState>, scope: Option<&ScopeCol<'a>>) -> (res:
        BoundFilters)
        requires
            self.fits(),
            one_of_each(combo@, states_of_each(self.fcols())),
        ensures
            res.bound() == with_filters(self.fcols(), combo@, scope_bound(scope)),
            res.next <= 2 + 2 * self.for_columns.len(),
    {
        let ghost cols = self.fcols();
        let mut b = ListForFiltersFn::scope_start(scope);
        let mut i: usize = 0;
        assert(with_filters(cols.take(0), combo@.take(0), scope_bound(scope)) == b.bound());
        while i < self.for_columns.len()
            invariant
                i <= self.for_columns.len(),
                self.fits(),
                cols == self.fcols(),
                one_of_each(combo@, states_of_each(cols)),
                b.bound() == with_filters(
                    cols.take(i as int),
                    combo@.take(i as int),
                    scope_bound(scope),
                ),
                b.next <= 2 + 2 * i,
            decreases self.for_columns.len() - i,
        {
            proof {
                assert(cols.take(i + 1).drop_last() =~= cols.take(i as int));
                assert(combo@.take(i + 1).drop_last() =~= combo@.take(i as int));
                assert(states_of_each(cols)[i as int].contains(combo@[i as int]));
            }
            FiltersStruct::push_filter(self.for_columns[i], combo[i], &mut b);
            i = i + 1;
        }
        proof {
            assert(cols.take(cols.len() as int) =~= cols);
            assert(combo@.take(combo.len() as int) =~= combo@);
        }
        b
    }

    fn fallback_start(&self, scope: Option<&ScopeCol<'a>>) -> (res: BoundFilters)
        requires
            self.fits(),
        ensures
            res.bound() == with_any_states(self.fcols(), scope_bound(scope)),
            res.next <= 2 + 2 * self.for_columns.len(),
    {
        let ghost cols = self.fcols();
        let mut b = ListForFiltersFn::scope_start(scope);
        let mut i: usize = 0;
        assert(with_any_states(cols.take(0), scope_bound(scope)) == b.bound());
        while i < self.for_columns.len()
            invariant
                i <= self.for_columns.len(),
                self.fits(),
                cols == self.fcols(),
                b.bound() == with_any_states(cols.take(i as int), scope_bound(scope)),
                b.next <= 2 + 2 * i,
            decreases self.for_columns.len() - i,
        {
            assert(cols.take(i + 1).drop_last() =~= cols.take(i as int));
            FiltersStruct::where_clause_fragment(self.for_columns[i], &mut b);
            i = i + 1;
        }
        assert(cols.take(cols.len() as int) =~= cols);
        b
    }

    fn rest(
        &self,
        case: &QueryCase<'_, 'a>,
        front: &BoundFilters,
        virtuals: &Vec<VirtualState>,
        values: &Vec<ValueVirtualState>,
    ) -> (res: BoundFilters)
        requires
            self.fits(),
            front.next <= 2 + 2 * self.for_columns.len(),
            virtuals.len() == self.bcols().len(),
            values.len() == self.vcols().len(),
        ensures
            res.bound() == self.rest_bound(*case, front.bound(), virtuals@, values@),
            res.next <= u32::MAX - 8,
            res.next >= front.next,
    {
        let bools = self.bool_virtuals();
        let takers = self.value_virtuals();
        assert(columns_of(bools@).len() == bools.len());
        assert(columns_of(takers@).len() == takers.len());
        let mut conditions = not_deleted_conditions(case.variant, self.delete);
        let ghost start = texts(conditions@);
        let extra = virtual_trailing(&bools, virtuals);
        let mut k: usize = 0;
        while k < extra.len()
            invariant
                k <= extra.len(),
                texts(conditions@) == start + texts(extra@).take(k as int),
            decreases extra.len() - k,
        {
            let ghost before = texts(conditions@);
            conditions.push(extra[k].clone());
            proof {
                assert(texts(conditions@) =~= before.push(extra@[k as int]@));
                assert(texts(extra@).take(k + 1) =~= texts(extra@).take(k as int).push(
                    extra@[k as int]@,
                ));
                assert(start + texts(extra@).take(k + 1) =~= (start + texts(extra@).take(
                    k as int,
                )).push(extra@[k as int]@));
            }
            k = k + 1;
        }
        assert(texts(extra@).take(extra.len() as int) =~= texts(extra@));
        let mut args: Vec<String> = Vec::new();
        let mut m: usize = 0;
        while m < front.args.len()
            invariant
                m <= front.args.len(),
                texts(args@) == texts(front.args@).take(m as int),
            decreases front.args.len() - m,
        {
            let ghost before = texts(args@);
            args.push(front.args[m].clone());
            proof {
                assert(texts(args@) =~= before.push(front.args@[m as int]@));
                assert(texts(front.args@).take(m + 1) =~= before.push(front.args@[m as int]@));
            }
            m = m + 1;
        }
        assert(texts(front.args@).take(front.args.len() as int) =~= texts(front.args@));
        let mut b = BoundFilters { conditions, args, next: front.next };
        let ghost cols = self.vcols();
        let ghost first = b.bound();
        let mut i: usize = 0;
        assert(with_values(cols.take(0), values@.take(0), first) == first);
        while i < takers.len()
            invariant
                i <= takers.len(),
                takers.len() <= self.virtual_columns.len(),
                self.fits(),
                front.next <= 2 + 2 * self.for_columns.len(),
                cols == columns_of(takers@),
                values.len() == takers.len(),
                b.bound() == with_values(cols.take(i as int), values@.take(i as int), first),
                front.next <= b.next,
                b.next <= front.next + 2 * i,
            decreases takers.len() - i,
        {
            proof {
                assert(cols.take(i + 1).drop_last() =~= cols.take(i as int));
                assert(values@.take(i + 1).drop_last() =~= values@.take(i as int));
            }
            FiltersStruct::push_value(takers[i], values[i], &mut b);
            i = i + 1;
        }
        proof {
            assert(cols.take(cols.len() as int) =~= cols);
            assert(values@.take(values.len() as int) =~= values@);
        }
        b
    }

    fn call_text(
        &self,
        case: &QueryCase<'_, 'a>,
        front: &BoundFilters,
        virtuals: &Vec<VirtualState>,
        values: &Vec<ValueVirtualState>,
    ) -> (res: String)
        requires
            self.fits(),
            1 <= front.next <= 2 + 2 * self.for_columns.len(),
            virtuals.len() == self.bcols().len(),
            values.len() == self.vcols().len(),
        ensures
            res@ == self.call(*case, front.bound(), virtuals@, values@),
    {
        let cursor = self.cursor_struct(case.by);
        let rest = self.rest(case, front, virtuals, values);
        let branches = cursor.cursor_branches(rest.next - 1, case.ascending);
        let query = assemble_union_select(
            cursor.select_columns(None).as_str(),
            self.table_name,
            front.conditions.as_slice(),
            branches.as_slice(),
            rest.conditions.as_slice(),
            cursor.order_by(case.ascending).as_str(),
            rest.next,
        );
        assert(rest.args.deep_view() =~= texts(rest.args@));
        let args = end_each(&rest.args, ", ").concat(cursor.query_arg_tokens().as_str());
        let snapshot = match self.snapshot_table_name {
            Some(table) => "snapshot_tbl = ".to_string().concat(quote(table).as_str()).concat(","),
            None => String::new(),
        };
        es_query(
            query_subject_text(self.ignore_prefix, self.entity).as_str(),
            forgettable_arg_text(self.forgettable_table_name).as_str(),
            snapshot.as_str(),
            quote(query.as_str()).as_str(),
            args.as_str(),
        )
    }

    /// The patterns for the filter by a column in one of its states.
    pub fn filter_pattern_elems(column: &Column, state: FilterState) -> (res: Vec<String>)
        requires
            states_of(*column).contains(state),
        ensures
            texts(res@) == filter_patterns(*column, state),
    {
        let mut res: Vec<String> = Vec::new();
        if column.is_optional() {
            match state {
                FilterState::Absent => {
                    res.push("false".to_string());
                    res.push("_".to_string());
                },
                FilterState::PresentNull => {
                    res.push("true".to_string());
                    res.push("false".to_string());
                },
                _ => {
                    res.push("true".to_string());
                    res.push("true".to_string());
                },
            }
        } else {
            match state {
                FilterState::Absent => {
                    res.push("false".to_string());
                },
                _ => {
                    res.push("true".to_string());
                },
            }
        }
        assert(texts(res@) =~= filter_patterns(*column, state));
        res
    }

    fn push_virtual_patterns(
        patterns: &mut Vec<String>,
        virtuals: &Vec<VirtualState>,
        values: &Vec<ValueVirtualState>,
    )
        ensures
            texts(final(patterns)@) == texts(old(patterns)@) + virtual_patterns(
                virtuals@,
                values@,
            ),
    {
        let ghost start = texts(patterns@);
        let ghost more = virtual_patterns(virtuals@, values@);
        let mut i: usize = 0;
        assert(start + more.take(0) =~= start);
        while i < virtuals.len()
            invariant
                i <= virtuals.len(),
                more == virtual_patterns(virtuals@, values@),
                texts(patterns@) == start + more.take(i as int),
            decreases virtuals.len() - i,
        {
            let ghost before = texts(patterns@);
            patterns.push(virtuals[i].pattern_elem().to_string());
            proof {
                assert(texts(patterns@) =~= before.push(more[i as int]));
                assert(start + more.take(i + 1) =~= before.push(more[i as int]));
            }
            i = i + 1;
        }
        let mut k: usize = 0;
        while k < values.len()
            invariant
                k <= values.len(),
                more == virtual_patterns(virtuals@, values@),
                texts(patterns@) == start + more.take(virtuals.len() + k),
            decreases values.len() - k,
        {
            let ghost before = texts(patterns@);
            patterns.push(values[k].pattern_elem().to_string());
            proof {
                assert(texts(patterns@) =~= before.push(more[virtuals.len() + k]));
                assert(start + more.take(virtuals.len() + k + 1) =~= before.push(
                    more[virtuals.len() + k],
                ));
            }
            k = k + 1;
        }
        assert(more.take(more.len() as int) =~= more);
    }

    fn pattern_text(
        &self,
        combo: &Vec<FilterState>,
        virtuals: &Vec<VirtualState>,
        values: &Vec<ValueVirtualState>,
    ) -> (res: String)
        requires
            one_of_each(combo@, states_of_each(self.fcols())),
        ensures
            res@ == "("@ + ended(
                all_patterns(self.fcols(), combo@) + virtual_patterns(virtuals@, values@),
                ", "@,
            ) + ")"@,
    {
        let ghost cols = self.fcols();
        let mut patterns: Vec<String> = Vec::new();
        let mut i: usize = 0;
        assert(texts(patterns@) =~= all_patterns(cols.take(0), combo@.take(0)));
        while i < self.for_columns.len()
            invariant
                i <= self.for_columns.len(),
                cols == self.fcols(),
                one_of_each(combo@, states_of_each(cols)),
                texts(patterns@) == all_patterns(cols.take(i as int), combo@.take(i as int)),
            decreases self.for_columns.len() - i,
        {
            proof {
                assert(cols.take(i + 1).drop_last() =~= cols.take(i as int));
                assert(combo@.take(i + 1).drop_last() =~= combo@.take(i as int));
                assert(states_of_each(cols)[i as int].contains(combo@[i as int]));
            }
            let ghost before = texts(patterns@);
            let mut elems = ListForFiltersFn::filter_pattern_elems(self.for_columns[i], combo[i]);
            let ghost added = texts(elems@);
            patterns.append(&mut elems);
            assert(texts(patterns@) =~= before + added);
            i = i + 1;
        }
        proof {
            assert(cols.take(cols.len() as int) =~= cols);
            assert(combo@.take(combo.len() as int) =~= combo@);
        }
        ListForFiltersFn::push_virtual_patterns(&mut patterns, virtuals, values);
        assert(patterns.deep_view() =~= texts(patterns@));
        "(".to_string().concat(end_each(&patterns, ", ").as_str()).concat(")")
    }

    fn specialized_text(
        &self,
        case: &QueryCase<'_, 'a>,
        virtuals: &Vec<VirtualState>,
        values: &Vec<ValueVirtualState>,
    ) -> (res: String)
        requires
            self.fits(),
            virtuals.len() == self.bcols().len(),
            values.len() == self.vcols().len(),
        ensures
            res@ == self.filter_arms(*case, virtuals@, values@, filter_combos(self.fcols())),
    {
        let combos = filter_state_combos(&self.for_columns);
        let ghost all = filter_combos(self.fcols());
        let mut res = String::new();
        let mut i: usize = 0;
        while i < combos.len()
            invariant
                i <= combos.len(),
                self.fits(),
                virtuals.len() == self.bcols().len(),
                values.len() == self.vcols().len(),
                all == filter_combos(self.fcols()),
                all == lists_of(combos@),
                res@ == self.filter_arms(*case, virtuals@, values@, all.take(i as int)),
            decreases combos.len() - i,
        {
            let combo = &combos[i];
            proof {
                assert(all.take(i + 1).drop_last() =~= all.take(i as int));
                assert(all.take(i + 1).last() == combo@);
                assert(all[i as int] == combo@);
                combos_are_the_product(states_of_each(self.fcols()), combo@);
            }
            if self.is_specialized_combo(combo, case.scope) {
                let front = self.combo_start(combo, case.scope);
                proof {
                    filters_in_step(self.fcols(), combo@, scope_bound(case.scope));
                }
                let arm = specialized_arm(
                    self.pattern_text(combo, virtuals, values).as_str(),
                    self.call_text(case, &front, virtuals, values).as_str(),
                );
                res.append(arm.as_str());
                res.append("\n");
            }
            i = i + 1;
        }
        assert(all.take(all.len() as int) =~= all);
        res
    }

    fn all_specialized_combos(&self, scope: Option<&ScopeCol<'a>>) -> (res: bool)
        ensures
            res == self.all_specialized(scope),
    {
        let combos = filter_state_combos(&self.for_columns);
        let ghost all = filter_combos(self.fcols());
        let mut i: usize = 0;
        while i < combos.len()
            invariant
                i <= combos.len(),
                all == filter_combos(self.fcols()),
                all == lists_of(combos@),
                forall|j: int| 0 <= j < i ==> self.specialized(#[trigger] all[j], scope),
            decreases combos.len() - i,
        {
            proof {
                assert(all[i as int] == combos@[i as int]@);
                combos_are_the_product(states_of_each(self.fcols()), all[i as int]);
            }
            if !self.is_specialized_combo(&combos[i], scope) {
                return false;
            }
            i = i + 1;
        }
        true
    }

    fn fallback_text(
        &self,
        case: &QueryCase<'_, 'a>,
        virtuals: &Vec<VirtualState>,
        values: &Vec<ValueVirtualState>,
    ) -> (res: String)
        requires
            self.fits(),
            virtuals.len() == self.bcols().len(),
            values.len() == self.vcols().len(),
        ensures
            res@ == self.fallback_code(*case, virtuals@, values@),
    {
        let pattern = if self.virtual_columns.len() == 0 {
            "_".to_string()
        } else {
            let mut patterns: Vec<String> = Vec::new();
            ListForFiltersFn::push_virtual_patterns(&mut patterns, virtuals, values);
            assert(patterns.deep_view() =~= virtual_patterns(virtuals@, values@));
            "(.., ".to_string().concat(end_each(&patterns, ", ").as_str()).concat(")")
        };
        let front = self.fallback_start(case.scope);
        proof {
            any_states_in_step(self.fcols(), scope_bound(case.scope));
        }
        fallback_arm(
            pattern.as_str(),
            self.call_text(case, &front, virtuals, values).as_str(),
        ).concat("\n")
    }

    fn case_text(&self, case: &QueryCase<'_, 'a>) -> (res: String)
        requires
            self.fits(),
        ensures
            res@ == self.case_arms(*case),
    {
        let bools = self.bool_virtuals();
        let takers = self.value_virtuals();
        assert(columns_of(bools@).len() == bools.len());
        assert(columns_of(takers@).len() == takers.len());
        let virtuals = virtual_state_combos(&bools);
        let values = value_virtual_state_combos(&takers);
        let fallback = !self.all_specialized_combos(case.scope);
        let ghost all = virtual_combos(self.bcols().len());
        let ghost each = value_combos(self.vcols().len());
        let mut arms = String::new();
        let mut fallbacks = String::new();
        let mut i: usize = 0;
        while i < virtuals.len()
            invariant
                i <= virtuals.len(),
                self.fits(),
                all == virtual_combos(self.bcols().len()),
                all == lists_of(virtuals@),
                each == value_combos(self.vcols().len()),
                each == lists_of(values@),
                fallback == !self.all_specialized(case.scope),
                arms@ == self.virtual_arms(*case, all.take(i as int)),
                fallbacks@ == (if fallback {
                    self.virtual_fallbacks(*case, all.take(i as int))
                } else {
                    Seq::empty()
                }),
            decreases virtuals.len() - i,
        {
            let combo = &virtuals[i];
            proof {
                assert(all.take(i + 1).drop_last() =~= all.take(i as int));
                assert(all[i as int] == combo@);
                combos_are_the_product(
                    Seq::new(
                        self.bcols().len(),
                        |i: int| crate::filter_states::virtual_states(),
                    ),
                    combo@,
                );
            }
            let (more, more_fallbacks) = self.value_text(case, combo, &values, fallback);
            arms.append(more.as_str());
            fallbacks.append(more_fallbacks.as_str());
            i = i + 1;
        }
        assert(all.take(all.len() as int) =~= all);
        arms.concat(fallbacks.as_str())
    }

    fn value_text(
        &self,
        case: &QueryCase<'_, 'a>,
        virtuals: &Vec<VirtualState>,
        values: &Vec<Vec<ValueVirtualState>>,
        fallback: bool,
    ) -> (res: (String, String))
        requires
            self.fits(),
            virtuals.len() == self.bcols().len(),
            lists_of(values@) == value_combos(self.vcols().len()),
        ensures
            res.0@ == self.value_arms(*case, virtuals@, lists_of(values@)),
            res.1@ == (if fallback {
                self.value_fallbacks(*case, virtuals@, lists_of(values@))
            } else {
                Seq::empty()
            }),
    {
        let ghost all = lists_of(values@);
        let mut arms = String::new();
        let mut fallbacks = String::new();
        let mut i: usize = 0;
        while i < values.len()
            invariant
                i <= values.len(),
                self.fits(),
                virtuals.len() == self.bcols().len(),
                all == value_combos(self.vcols().len()),
                all == lists_of(values@),
                arms@ == self.value_arms(*case, virtuals@, all.take(i as int)),
                fallbacks@ == (if fallback {
                    self.value_fallbacks(*case, virtuals@, all.take(i as int))
                } else {
                    Seq::empty()
                }),
            decreases values.len() - i,
        {
            let combo = &values[i];
            proof {
                assert(all.take(i + 1).drop_last() =~= all.take(i as int));
                assert(all[i as int] == combo@);
                combos_are_the_product(
                    Seq::new(self.vcols().len(), |i: int| crate::filter_states::value_states()),
                    combo@,
                );
            }
            arms.append(self.specialized_text(case, virtuals, combo).as_str());
            if fallback {
                fallbacks.append(self.fallback_text(case, virtuals, combo).as_str());
            }
            i = i + 1;
        }
        assert(all.take(all.len() as int) =~= all);
        (arms, fallbacks)
    }

    /// What tells the states of the filters.
    pub fn filter_scrutinee_elems(&self) -> (res: Vec<String>)
        ensures
            texts(res@) == self.scrutinees(),
    {
        let ghost cols = self.fcols();
        let mut res: Vec<String> = Vec::new();
        let mut i: usize = 0;
        assert(texts(res@) =~= filter_scrutinees(cols.take(0)));
        while i < self.for_columns.len()
            invariant
                i <= self.for_columns.len(),
                cols == self.fcols(),
                texts(res@) == filter_scrutinees(cols.take(i as int)),
            decreases self.for_columns.len() - i,
        {
            let ghost before = texts(res@);
            let c = self.for_columns[i];
            assert(cols.take(i + 1).drop_last() =~= cols.take(i as int));
            if c.is_optional() {
                res.push("apply_".to_string().concat(c.name()));
            }
            res.push("filter_".to_string().concat(c.name()).concat(".is_some()"));
            assert(texts(res@) =~= before + filter_scrutinee(*c));
            i = i + 1;
        }
        assert(cols.take(cols.len() as int) =~= cols);
        let bools = self.bool_virtuals();
        let takers = self.value_virtuals();
        let ghost start = texts(res@);
        let ghost more = virtual_scrutinees(self.bcols(), self.vcols());
        let mut k: usize = 0;
        assert(start + more.take(0) =~= start);
        while k < bools.len()
            invariant
                k <= bools.len(),
                columns_of(bools@) == self.bcols(),
                columns_of(bools@).len() == bools.len(),
                more == virtual_scrutinees(self.bcols(), self.vcols()),
                texts(res@) == start + more.take(k as int),
            decreases bools.len() - k,
        {
            let ghost before = texts(res@);
            res.push("virtual_".to_string().concat(bools[k].name()));
            proof {
                assert(columns_of(bools@)[k as int] == *bools@[k as int]);
                assert(texts(res@) =~= before.push(more[k as int]));
                assert(start + more.take(k + 1) =~= before.push(more[k as int]));
            }
            k = k + 1;
        }
        let mut m: usize = 0;
        while m < takers.len()
            invariant
                m <= takers.len(),
                bools.len() == self.bcols().len(),
                columns_of(takers@) == self.vcols(),
                columns_of(takers@).len() == takers.len(),
                more == virtual_scrutinees(self.bcols(), self.vcols()),
                texts(res@) == start + more.take(bools.len() + m),
            decreases takers.len() - m,
        {
            let ghost before = texts(res@);
            res.push("filter_".to_string().concat(takers[m].name()).concat(".is_some()"));
            proof {
                assert(columns_of(takers@)[m as int] == *takers@[m as int]);
                assert(texts(res@) =~= before.push(more[bools.len() + m]));
                assert(start + more.take(bools.len() + m + 1) =~= before.push(
                    more[bools.len() + m],
                ));
            }
            m = m + 1;
        }
        assert(more.take(more.len() as int) =~= more);
        res
    }

    fn direction_text(
        &self,
        by: &'a Column,
        variant: DeleteOption,
        scope: Option<&ScopeCol<'a>>,
    ) -> (res: String)
        requires
            self.fits(),
        ensures
            res@ == self.direction_arms(by, variant, scope),
    {
        let elems = self.filter_scrutinee_elems();
        assert(elems.deep_view() =~= texts(elems@));
        filters_match(
            end_each(&elems, ", ").as_str(),
            self.case_text(&QueryCase { by, variant, scope, ascending: true }).as_str(),
            self.case_text(&QueryCase { by, variant, scope, ascending: false }).as_str(),
        )
    }

    fn match_text(&self, by: &'a Column, variant: DeleteOption) -> (res: String)
        requires
            self.fits(),
        ensures
            res@ == self.match_code(by, variant),
    {
        let all_arm = self.direction_text(by, variant, None);
        match &self.scope {
            Some(info) => {
                let mut bodies: Vec<String> = Vec::new();
                let mut i: usize = 0;
                while i < info.cols.len()
                    invariant
                        i <= info.cols.len(),
                        self.fits(),
                        bodies.len() == i,
                        forall|j: int|
                            0 <= j < i ==> (#[trigger] bodies@[j])@ == self.direction_arms(
                                by,
                                variant,
                                Some(&info.cols@[j]),
                            ),
                    decreases info.cols.len() - i,
                {
                    bodies.push(self.direction_text(by, variant, Some(&info.cols[i])));
                    i = i + 1;
                }
                assert(bodies.deep_view() =~= Seq::new(
                    info.cols.len() as nat,
                    |i: int| self.direction_arms(by, variant, Some(&info.cols@[i])),
                ));
                info.dispatch(all_arm.as_str(), &bodies)
            },
            None => all_arm,
        }
    }

    fn taken_text(columns: &Vec<&'a Column>, local: &str) -> (res: String)
        ensures
            res@ == ended(
                Seq::new(
                    columns.len() as nat,
                    |i: int| take_filter_code(local@ + columns@[i].name@, columns@[i].name@),
                ),
                "\n"@,
            ),
    {
        let mut parts: Vec<String> = Vec::new();
        let mut i: usize = 0;
        while i < columns.len()
            invariant
                i <= columns.len(),
                parts.len() == i,
                forall|j: int|
                    0 <= j < i ==> (#[trigger] parts@[j])@ == take_filter_code(
                        local@ + columns@[j].name@,
                        columns@[j].name@,
                    ),
            decreases columns.len() - i,
        {
            let name = local.to_string().concat(columns[i].name());
            parts.push(take_filter(name.as_str(), columns[i].name()));
            i = i + 1;
        }
        assert(parts.deep_view() =~= Seq::new(
            columns.len() as nat,
            |i: int| take_filter_code(local@ + columns@[i].name@, columns@[i].name@),
        ));
        end_each(&parts, "\n")
    }

    fn destructure_filters(&self) -> (res: String)
        ensures
            res@ == ended(filters_taken(self.fcols()), "\n"@) + ended(
                virtuals_taken(self.bcols()),
                "\n"@,
            ) + ended(values_taken(self.vcols()), "\n"@),
    {
        let mut parts: Vec<String> = Vec::new();
        let mut i: usize = 0;
        while i < self.for_columns.len()
            invariant
                i <= self.for_columns.len(),
                parts.len() == i,
                forall|j: int|
                    0 <= j < i ==> (#[trigger] parts@[j])@ == filters_taken(self.fcols())[j],
            decreases self.for_columns.len() - i,
        {
            let c = self.for_columns[i];
            let filter_name = "filter_".to_string().concat(c.name());
            if c.is_optional() {
                let apply_name = "apply_".to_string().concat(c.name());
                parts.push(
                    take_optional_filter(apply_name.as_str(), filter_name.as_str(), c.name()),
                );
            } else {
                parts.push(take_filter(filter_name.as_str(), c.name()));
            }
            i = i + 1;
        }
        assert(parts.deep_view() =~= filters_taken(self.fcols()));
        let bools = self.bool_virtuals();
        let takers = self.value_virtuals();
        proof {
            assert(columns_of(bools@).len() == bools.len());
            assert(columns_of(takers@).len() == takers.len());
            assert(virtuals_taken(columns_of(bools@)) =~= Seq::new(
                bools.len() as nat,
                |i: int| take_filter_code("virtual_"@ + bools@[i].name@, bools@[i].name@),
            ));
            assert(values_taken(columns_of(takers@)) =~= Seq::new(
                takers.len() as nat,
                |i: int| take_filter_code("filter_"@ + takers@[i].name@, takers@[i].name@),
            ));
        }
        end_each(&parts, "\n").concat(
            ListForFiltersFn::taken_text(&bools, "virtual_").as_str(),
        ).concat(ListForFiltersFn::taken_text(&takers, "filter_").as_str())
    }

    /// The functions sorted by a column.
    pub fn generate_by_fn(&self, by: &'a Column, variant: DeleteOption) -> (res: String)
        requires
            self.fits(),
        ensures
            res@ == self.by_code(by, variant),
    {
        proof {
            reveal(ListForFiltersFn::by_code);
        }
        let cursor = self.cursor_struct(by);
        let cursor_ident = cursor.ident();
        let span_name = "list_for_filters_by_".to_string().concat(by.name());
        let fn_name = "list_for_filters_by_".to_string().concat(by.name()).concat(
            variant.include_deletion_fn_postfix(),
        );
        let fn_in_op = fn_name.clone().concat("_in_op");
        let filters_ident = self.filters_struct.ident();
        let (scope_fn_arg, scope_fn_pass, scope_convert) = scope_texts(&self.scope);
        let standalone = by_standalone(
            fn_name.as_str(),
            fn_in_op.as_str(),
            scope_fn_arg.as_str(),
            filters_ident.as_str(),
            self.cursor_mod.as_str(),
            cursor_ident.as_str(),
            self.entity,
            self.query_error.as_str(),
            RepositoryOptions::query_fn_get_op(false),
            scope_fn_pass.as_str(),
        );
        by_fns(
            given(!self.in_op_only, standalone.as_str()).as_str(),
            span_attribute(
                &self.repo_name_snake,
                span_name.as_str(),
                self.entity,
                FILTERS_BY_FIELDS,
            ).as_str(),
            fn_in_op.as_str(),
            RepositoryOptions::query_fn_generics(false),
            RepositoryOptions::query_fn_op_arg(false),
            scope_fn_arg.as_str(),
            filters_ident.as_str(),
            self.cursor_mod.as_str(),
            cursor_ident.as_str(),
            self.entity,
            self.query_error.as_str(),
            RepositoryOptions::query_fn_op_traits(false),
            scope_convert.as_str(),
            trace(&self.repo_name_snake, EXTRACT_HAS_CURSOR).as_str(),
            self.destructure_filters().as_str(),
            cursor.destructure_tokens().as_str(),
            trace(&self.repo_name_snake, RECORD_PAGE).as_str(),
            self.match_text(by, variant).as_str(),
            given(
                self.post_hydrate_error.is_some(),
                check_all_hydrated(self.query_error.as_str()).as_str(),
            ).as_str(),
            trace(&self.repo_name_snake, RECORD_ENTITIES).as_str(),
            self.page_text(cursor_ident.as_str()).as_str(),
            trace(&self.repo_name_snake, ERROR_RECORDING).as_str(),
        )
    }

    fn push_none_checks(checks: &mut Vec<String>, columns: &Vec<&'a Column>, except: Option<&str>)
        ensures
            texts(final(checks)@) == texts(old(checks)@) + none_checks(
                match except {
                    Some(name) => others(columns_of(columns@), name@),
                    None => columns_of(columns@),
                },
            ),
    {
        let ghost start = texts(checks@);
        let ghost cols = columns_of(columns@);
        let mut i: usize = 0;
        assert(start + none_checks(Seq::empty()) =~= start);
        assert(cols.take(0) =~= Seq::empty());
        while i < columns.len()
            invariant
                i <= columns.len(),
                cols == columns_of(columns@),
                texts(checks@) == start + none_checks(
                    match except {
                        Some(name) => others(cols.take(i as int), name@),
                        None => cols.take(i as int),
                    },
                ),
            decreases columns.len() - i,
        {
            let ghost before = texts(checks@);
            let c = columns[i];
            proof {
                assert(cols.take(i + 1).drop_last() =~= cols.take(i as int));
                assert(cols.take(i + 1) =~= cols.take(i as int).push(*c));
            }
            let keep = match except {
                Some(name) => !same(c.name(), name),
                None => true,
            };
            if keep {
                checks.push("filters.".to_string().concat(c.name()).concat(".is_none()"));
                proof {
                    let kept = match except {
                        Some(name) => others(cols.take(i as int), name@),
                        None => cols.take(i as int),
                    };
                    assert(texts(checks@) =~= before.push("filters."@ + c.name@ + ".is_none()"@));
                    assert(start + none_checks(kept.push(*c)) =~= before.push(
                        "filters."@ + c.name@ + ".is_none()"@,
                    ));
                }
            }
            i = i + 1;
        }
        assert(cols.take(cols.len() as int) =~= cols);
    }

    fn single_text(
        &self,
        for_col: &Column,
        by: &Column,
        variant: DeleteOption,
        in_op: bool,
    ) -> (res: String)
        ensures
            res@ == self.single_branch(*for_col, *by, variant, in_op),
    {
        let mut checks: Vec<String> = Vec::new();
        let ghost none = none_checks(others(self.fcols(), for_col.name@)) + none_checks(
            columns_of(self.virtual_columns@),
        );
        ListForFiltersFn::push_none_checks(&mut checks, &self.for_columns, Some(for_col.name()));
        ListForFiltersFn::push_none_checks(&mut checks, &self.virtual_columns, None);
        assert(texts(checks@) =~= none);
        assert(checks.deep_view() =~= none);
        assert(none.len() == checks.len());
        let fn_name = "list_for_".to_string().concat(for_col.name()).concat("_by_").concat(
            by.name(),
        ).concat(variant.include_deletion_fn_postfix()).concat(given(in_op, "_in_op").as_str());
        let op_pass = given(in_op, "op,");
        let scope_pass = given(self.scope.is_some(), "__scope,");
        if checks.len() == 0 {
            only_filter_branch(
                fn_name.as_str(),
                op_pass.as_str(),
                scope_pass.as_str(),
                for_col.name(),
            )
        } else {
            single_filter_branch(
                join(&checks, " && ").as_str(),
                fn_name.as_str(),
                op_pass.as_str(),
                scope_pass.as_str(),
                for_col.name(),
            )
        }
    }

    fn paired_columns(&self, by: &Column) -> (res: Vec<&'a Column>)
        ensures
            columns_of(res@) == paired(self.fcols(), by.name@),
    {
        let ghost all = self.fcols();
        let mut res: Vec<&'a Column> = Vec::new();
        let mut i: usize = 0;
        assert(columns_of(res@) =~= paired(all.take(0), by.name@));
        while i < self.for_columns.len()
            invariant
                i <= self.for_columns.len(),
                all == self.fcols(),
                columns_of(res@) == paired(all.take(i as int), by.name@),
            decreases self.for_columns.len() - i,
        {
            let ghost before = columns_of(res@);
            let c = self.for_columns[i];
            proof {
                assert(all.take(i + 1).drop_last() =~= all.take(i as int));
                assert(all.take(i + 1).last() == *c);
            }
            let sorts = match &c.opts.list_for_opts {
                Some(opts) => is_one_of(by.name(), &opts.by_columns),
                None => false,
            };
            if sorts {
                res.push(c);
                assert(columns_of(res@) =~= before.push(*c));
            }
            i = i + 1;
        }
        assert(all.take(all.len() as int) =~= all);
        res
    }

    /// What is called for a sort column.
    pub fn generate_proxy_body(&self, by: &Column, variant: DeleteOption, in_op: bool) -> (res:
        String)
        ensures
            res@ == self.proxy_code(*by, variant, in_op),
    {
        let postfix = variant.include_deletion_fn_postfix().to_string().concat(
            given(in_op, "_in_op").as_str(),
        );
        let op_pass = given(in_op, "op,");
        let scope_pass = given(self.scope.is_some(), "__scope,");
        let list_by_fn = "list_by_".to_string().concat(by.name()).concat(postfix.as_str());
        let list_by = list_by_call(list_by_fn.as_str(), op_pass.as_str(), scope_pass.as_str());
        if self.for_columns.len() == 0 && self.virtual_columns.len() == 0 {
            return list_by;
        }
        let mut checks: Vec<String> = Vec::new();
        ListForFiltersFn::push_none_checks(&mut checks, &self.for_columns, None);
        ListForFiltersFn::push_none_checks(&mut checks, &self.virtual_columns, None);
        assert(checks.deep_view() =~= none_checks(self.fcols()) + none_checks(
            columns_of(self.virtual_columns@),
        ));
        let pairs = self.paired_columns(by);
        assert(columns_of(pairs@).len() == pairs.len());
        let mut branches: Vec<String> = Vec::new();
        let mut i: usize = 0;
        while i < pairs.len()
            invariant
                i <= pairs.len(),
                branches.len() == i,
                forall|j: int|
                    0 <= j < i ==> (#[trigger] branches@[j])@ == self.single_branch(
                        *pairs@[j],
                        *by,
                        variant,
                        in_op,
                    ),
            decreases pairs.len() - i,
        {
            branches.push(self.single_text(pairs[i], by, variant, in_op));
            i = i + 1;
        }
        assert(branches.deep_view() =~= Seq::new(
            paired(self.fcols(), by.name@).len(),
            |i: int| self.single_branch(paired(self.fcols(), by.name@)[i], *by, variant, in_op),
        ));
        let several_fn = "list_for_filters_by_".to_string().concat(by.name()).concat(
            postfix.as_str(),
        );
        let several = several_filters_branch(
            several_fn.as_str(),
            op_pass.as_str(),
            scope_pass.as_str(),
        );
        let needs_fallback = pairs.len() < self.for_columns.len() || self.for_columns.len() >= 2
            || self.virtual_columns.len() > 0;
        filters_choice(
            join(&checks, " && ").as_str(),
            list_by.as_str(),
            end_each(&branches, "\n").as_str(),
            given(needs_fallback, several.as_str()).as_str(),
        )
    }

    fn sort_text(&self, variant: DeleteOption) -> (res: String)
        ensures
            res@ == self.sort_code(variant),
    {
        proof {
            reveal(ListForFiltersFn::sort_code);
        }
        let map_cursor = if self.has_flags_alone() {
            "map_end_cursor"
        } else {
            "map_next_cursor"
        };
        let mut arms: Vec<String> = Vec::new();
        let mut i: usize = 0;
        while i < self.by_columns.len()
            invariant
                i <= self.by_columns.len(),
                map_cursor@ == self.map_cursor(),
                arms.len() == i,
                forall|j: int|
                    0 <= j < i ==> (#[trigger] arms@[j])@ == self.sort_arms(variant)[j],
            decreases self.by_columns.len() - i,
        {
            let by = self.by_columns[i];
            arms.push(
                sort_arm(
                    self.cursor.sort_by_name(),
                    to_case(by.name(), NameCase::UpperCamel).as_str(),
                    self.cursor_mod.as_str(),
                    self.cursor_struct(by).ident().as_str(),
                    self.generate_proxy_body(by, variant, true).as_str(),
                    map_cursor,
                    self.cursor.ident(),
                ),
            );
            i = i + 1;
        }
        assert(arms.deep_view() =~= self.sort_arms(variant));
        let fn_name = "list_for_filters".to_string().concat(variant.include_deletion_fn_postfix());
        let fn_in_op = fn_name.clone().concat("_in_op");
        let filters_name = self.filters_struct.ident();
        let (scope_fn_arg, scope_fn_pass, scope_convert) = scope_texts(&self.scope);
        let standalone = sort_standalone(
            fn_name.as_str(),
            fn_in_op.as_str(),
            scope_fn_arg.as_str(),
            filters_name.as_str(),
            self.cursor.sort_by_name(),
            self.cursor_mod.as_str(),
            self.cursor.ident(),
            self.entity,
            self.query_error.as_str(),
            RepositoryOptions::query_fn_get_op(false),
            scope_fn_pass.as_str(),
        );
        sort_fns(
            given(!self.in_op_only, standalone.as_str()).as_str(),
            span_attribute(
                &self.repo_name_snake,
                "list_for_filters",
                self.entity,
                FILTERS_SORT_FIELDS,
            ).as_str(),
            fn_in_op.as_str(),
            RepositoryOptions::query_fn_generics(false),
            RepositoryOptions::query_fn_op_arg(false),
            scope_fn_arg.as_str(),
            filters_name.as_str(),
            self.cursor.sort_by_name(),
            self.cursor_mod.as_str(),
            self.cursor.ident(),
            self.entity,
            self.query_error.as_str(),
            RepositoryOptions::query_fn_op_traits(false),
            scope_convert.as_str(),
            trace(&self.repo_name_snake, EXTRACT_HAS_CURSOR).as_str(),
            trace(&self.repo_name_snake, RECORD_PAGE).as_str(),
            end_each(&arms, "\n").as_str(),
            trace(&self.repo_name_snake, RECORD_RESULT).as_str(),
            trace(&self.repo_name_snake, ERROR_RECORDING).as_str(),
        )
    }

    fn variant_text(&self, variant: DeleteOption) -> (res: String)
        requires
            self.fits(),
        ensures
            res@ == self.variant_code(variant),
    {
        proof {
            reveal(ListForFiltersFn::variant_code);
        }
        let mut parts: Vec<String> = Vec::new();
        let mut i: usize = 0;
        while i < self.by_columns.len()
            invariant
                i <= self.by_columns.len(),
                self.fits(),
                parts.len() == i,
                forall|j: int|
                    0 <= j < i ==> (#[trigger] parts@[j])@ == self.by_code(
                        self.by_columns@[j],
                        variant,
                    ),
            decreases self.by_columns.len() - i,
        {
            parts.push(self.generate_by_fn(self.by_columns[i], variant));
            i = i + 1;
        }
        assert(parts.deep_view() =~= Seq::new(
            self.by_columns.len() as nat,
            |i: int| self.by_code(self.by_columns@[i], variant),
        ));
        end_each(&parts, "\n").concat(self.sort_text(variant).as_str())
    }

    /// Appends the functions.
    pub fn to_tokens(&self, tokens: &mut String)
        requires
            self.fits(),
        ensures
            final(tokens)@ == old(tokens)@ + self.code(),
    {
        proof {
            reveal(ListForFiltersFn::code);
        }
        let variants = self.delete.query_variants();
        let mut parts: Vec<String> = Vec::new();
        let mut i: usize = 0;
        while i < variants.len()
            invariant
                i <= variants.len(),
                self.fits(),
                variants@ == self.delete.variants(),
                parts.len() == i,
                forall|j: int|
                    0 <= j < i ==> (#[trigger] parts@[j])@ == self.variant_code(variants@[j]),
            decreases variants.len() - i,
        {
            parts.push(self.variant_text(variants[i]));
            i = i + 1;
        }
        assert(parts.deep_view() =~= Seq::new(
            self.delete.variants().len(),
            |i: int| self.variant_code(self.delete.variants()[i]),
        ));
        tokens.append(join(&parts, "\n").as_str());
    }

    fn delegate_text(&self, variant: DeleteOption) -> (res: String)
        ensures
            res@ == self.delegate_code(variant),
    {
        let filters_ident = self.filters_struct.ident();
        let mut parts: Vec<String> = Vec::new();
        let mut i: usize = 0;
        while i < self.by_columns.len()
            invariant
                i <= self.by_columns.len(),
                filters_ident@ == self.filters_struct.named(),
                parts.len() == i,
                forall|j: int|
                    0 <= j < i ==> (#[trigger] parts@[j])@ == self.by_delegate(
                        *self.by_columns@[j],
                        variant,
                    ),
            decreases self.by_columns.len() - i,
        {
            let by = self.by_columns[i];
            let cursor_ident = self.cursor_struct(by).ident();
            let fn_name = "list_for_filters_by_".to_string().concat(by.name()).concat(
                variant.include_deletion_fn_postfix(),
            );
            let fn_in_op = fn_name.clone().concat("_in_op");
            let standalone = by_delegate_standalone(
                fn_name.as_str(),
                filters_ident.as_str(),
                self.cursor_mod.as_str(),
                cursor_ident.as_str(),
                self.entity,
                self.query_error.as_str(),
            );
            parts.push(
                by_delegates(
                    given(!self.in_op_only, standalone.as_str()).as_str(),
                    fn_in_op.as_str(),
                    RepositoryOptions::query_fn_generics(false),
                    RepositoryOptions::query_fn_op_arg(false),
                    filters_ident.as_str(),
                    self.cursor_mod.as_str(),
                    cursor_ident.as_str(),
                    self.entity,
                    self.query_error.as_str(),
                    RepositoryOptions::query_fn_op_traits(false),
                ),
            );
            i = i + 1;
        }
        assert(parts.deep_view() =~= Seq::new(
            self.by_columns.len() as nat,
            |i: int| self.by_delegate(*self.by_columns@[i], variant),
        ));
        let fn_name = "list_for_filters".to_string().concat(variant.include_deletion_fn_postfix());
        let fn_in_op = fn_name.clone().concat("_in_op");
        let standalone = sort_delegate_standalone(
            fn_name.as_str(),
            filters_ident.as_str(),
            self.cursor.sort_by_name(),
            self.cursor_mod.as_str(),
            self.cursor.ident(),
            self.entity,
            self.query_error.as_str(),
        );
        let sort = sort_delegates(
            given(!self.in_op_only, standalone.as_str()).as_str(),
            fn_in_op.as_str(),
            RepositoryOptions::query_fn_generics(false),
            RepositoryOptions::query_fn_op_arg(false),
            filters_ident.as_str(),
            self.cursor.sort_by_name(),
            self.cursor_mod.as_str(),
            self.cursor.ident(),
            self.entity,
            self.query_error.as_str(),
            RepositoryOptions::query_fn_op_traits(false),
        );
        end_each(&parts, "\n").concat(sort.as_str())
    }

    /// The functions of the view that is bound to a scope; none without a
    /// scope.
    pub fn scoped_delegates(&self) -> (res: String)
        ensures
            res@ == self.delegates(),
    {
        proof {
            reveal(ListForFiltersFn::delegates);
        }
        if self.scope.is_none() {
            return String::new();
        }
        let variants = self.delete.query_variants();
        let mut parts: Vec<String> = Vec::new();
        let mut i: usize = 0;
        while i < variants.len()
            invariant
                i <= variants.len(),
                variants@ == self.delete.variants(),
                parts.len() == i,
                forall|j: int|
                    0 <= j < i ==> (#[trigger] parts@[j])@ == self.delegate_code(variants@[j]),
            decreases variants.len() - i,
        {
            parts.push(self.delegate_text(variants[i]));
            i = i + 1;
        }
        assert(parts.deep_view() =~= Seq::new(
            self.delete.variants().len(),
            |i: int| self.delegate_code(self.delete.variants()[i]),
        ));
        join(&parts, "\n")
    }
}

fn copied<'a>(columns: &Vec<&'a Column>) -> (res: Vec<&'a Column>)
    ensures
        res@ == columns@,
{
    let mut res: Vec<&'a Column> = Vec::new();
    let mut i: usize = 0;
    while i < columns.len()
        invariant
            i <= columns.len(),
            res@ == columns@.take(i as int),
        decreases columns.len() - i,
    {
        res.push(columns[i]);
        assert(columns@.take(i + 1) =~= columns@.take(i as int).push(columns@[i as int]));
        i = i + 1;
    }
    assert(columns@.take(columns.len() as int) =~= columns@);
    res
}

/// The query that serves all combinations of filters is left out exactly where
/// every combination has a query of its own, given that the text of a query is
/// not empty.
pub proof fn fallback_left_out(f: &ListForFiltersFn, case: QueryCase)
    ensures
        f.fallbacks(case).len() == 0 <==> f.all_specialized(case.scope),
{
    if !f.all_specialized(case.scope) {
        let n = f.bcols().len();
        let m = f.vcols().len();
        let virtuals = virtual_combos(n);
        let values = value_combos(m);
        let v = Seq::new(n, |i: int| VirtualState::Absent);
        let w = Seq::new(m, |i: int| ValueVirtualState::Absent);
        let vlists = Seq::new(n, |i: int| crate::filter_states::virtual_states());
        let wlists = Seq::new(m, |i: int| crate::filter_states::value_states());
        assert forall|i: int| 0 <= i < n implies vlists[i].contains(#[trigger] v[i]) by {
            assert(vlists[i][0] == VirtualState::Absent);
        }
        assert forall|i: int| 0 <= i < m implies wlists[i].contains(#[trigger] w[i]) by {
            assert(wlists[i][0] == ValueVirtualState::Absent);
        }
        combos_are_the_product(vlists, v);
        combos_are_the_product(wlists, w);
        assert(virtuals.len() > 0);
        assert(values.len() > 0);
        reveal_strlit("\n");
        assert(f.fallback_code(case, virtuals.last(), values.last()).len() > 0);
        assert(f.value_fallbacks(case, virtuals.last(), values).len() > 0);
    }
}

/// Whether the second is the first without its scope.
pub open spec fn without_scope(f: &ListForFiltersFn, plain: &ListForFiltersFn) -> bool {
    *plain == (ListForFiltersFn { scope: None, ..*f })
}

proof fn filter_arms_without_scope(
    f: &ListForFiltersFn,
    plain: &ListForFiltersFn,
    case: QueryCase,
    virtuals: Seq<VirtualState>,
    values: Seq<ValueVirtualState>,
    combos: Seq<Seq<FilterState>>,
)
    requires
        without_scope(f, plain),
    ensures
        plain.filter_arms(case, virtuals, values, combos) == f.filter_arms(
            case,
            virtuals,
            values,
            combos,
        ),
    decreases combos.len(),
{
    if combos.len() > 0 {
        filter_arms_without_scope(f, plain, case, virtuals, values, combos.drop_last());
    }
}

proof fn value_arms_without_scope(
    f: &ListForFiltersFn,
    plain: &ListForFiltersFn,
    case: QueryCase,
    virtuals: Seq<VirtualState>,
    combos: Seq<Seq<ValueVirtualState>>,
)
    requires
        without_scope(f, plain),
    ensures
        plain.value_arms(case, virtuals, combos) == f.value_arms(case, virtuals, combos),
        plain.value_fallbacks(case, virtuals, combos) == f.value_fallbacks(
            case,
            virtuals,
            combos,
        ),
    decreases combos.len(),
{
    if combos.len() > 0 {
        value_arms_without_scope(f, plain, case, virtuals, combos.drop_last());
        filter_arms_without_scope(
            f,
            plain,
            case,
            virtuals,
            combos.last(),
            filter_combos(f.fcols()),
        );
    }
}

proof fn virtual_arms_without_scope(
    f: &ListForFiltersFn,
    plain: &ListForFiltersFn,
    case: QueryCase,
    combos: Seq<Seq<VirtualState>>,
)
    requires
        without_scope(f, plain),
    ensures
        plain.virtual_arms(case, combos) == f.virtual_arms(case, combos),
        plain.virtual_fallbacks(case, combos) == f.virtual_fallbacks(case, combos),
    decreases combos.len(),
{
    if combos.len() > 0 {
        virtual_arms_without_scope(f, plain, case, combos.drop_last());
        value_arms_without_scope(f, plain, case, combos.last(), value_combos(f.vcols().len()));
    }
}

/// Without a restriction a repository that has scopes runs the queries that one
/// without scopes runs.
pub proof fn all_scopes_filter_as_unscoped(
    f: &ListForFiltersFn,
    plain: &ListForFiltersFn,
    by: &Column,
    variant: DeleteOption,
)
    requires
        f.scope is Some,
        without_scope(f, plain),
    ensures
        f.match_code(by, variant) == f.scope->0.dispatched(
            plain.match_code(by, variant),
            Seq::new(
                f.scope->0.cols.len() as nat,
                |i: int| f.direction_arms(by, variant, Some(&f.scope->0.cols@[i])),
            ),
        ),
{
    let up = QueryCase { by, variant, scope: None, ascending: true };
    let down = QueryCase { by, variant, scope: None, ascending: false };
    virtual_arms_without_scope(f, plain, up, virtual_combos(f.bcols().len()));
    virtual_arms_without_scope(f, plain, down, virtual_combos(f.bcols().len()));
    assert(plain.all_specialized(None) == f.all_specialized(None));
}

} // verus!
