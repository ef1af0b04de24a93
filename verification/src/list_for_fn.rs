//! The functions that list the entities with a value of a column page by page,
//! sorted by a column.

use vstd::prelude::*;
use vstd::string::*;

use crate::instrument::{
    span_attr, span_attribute, trace, traced, ERROR_RECORDING, EXTRACT_HAS_CURSOR, RECORD_ENTITIES,
    RECORD_PAGE,
};
use crate::list_by_fn::{
    assemble_union_select, direction_arm, direction_match, es_query, forgettable_arg_text,
    not_deleted_conditions, query_subject_text, CursorStruct, LIST_FIELDS,
};
use crate::naming::{cased, NameCase};
use crate::options::column::Column;
use crate::options::columns::Pick;
use crate::options::delete::DeleteOption;
use crate::options::repository::RepositoryOptions;
use crate::post_hydrate_hook::check_all_hydrated;
use crate::scope::{scope_texts, ScopeCol, ScopeInfo};
use crate::text::{given, join, joined, literal, only_if, quote};
use crate::types::{opt_str, opt_text};

verus! {

/// The functions that list the entities with a value of a column, sorted by a
/// column.
pub struct ListForFn<'a> {
    pub ignore_prefix: Option<&'a str>,
    pub for_column: &'a Column,
    pub by_column: &'a Column,
    pub entity: &'a str,
    pub id: &'a str,
    pub table_name: &'a str,
    pub query_error: String,
    pub delete: DeleteOption,
    pub cursor_mod: String,
    pub any_nested: bool,
    pub post_hydrate_error: Option<&'a str>,
    pub forgettable_table_name: Option<&'a str>,
    pub scope: Option<ScopeInfo<'a>>,
    /// The repository's name in the spans, where functions are traced.
    pub repo_name_snake: Option<String>,
}

/// The condition on the column that the list is filtered by.
pub open spec fn filter_condition_code(column: Seq<char>, operator: Seq<char>) -> Seq<char> {
    "("@ + column + " "@ + operator + " $1)"@
}

/// The condition on the column that the list is filtered by.
fn filter_condition(column: &str, operator: &str) -> (res: String)
    ensures
        res@ == filter_condition_code(column@, operator@),
{
    "(".to_string().concat(column).concat(" ").concat(operator).concat(" $1)")
}

/// Records the value that the list is filtered by.
pub open spec fn record_filter_code(field: Seq<char>, filter: Seq<char>) -> Seq<char> {
    "tracing::Span::current().record("@ + field + ", tracing::field::debug(&"@ + filter + "));"@
}

/// Records the value that the list is filtered by.
pub fn record_filter(field: &str, filter: &str) -> (res: String)
    ensures
        res@ == record_filter_code(field@, filter@),
{
    "tracing::Span::current().record(".to_string().concat(field).concat(", tracing::field::debug(&").concat(filter).concat("));")
}

/// The functions of the view that is bound to a scope.
pub open spec fn list_for_delegates_code(
    fn_name: Seq<char>,
    fn_in_op: Seq<char>,
    filter_arg_name: Seq<char>,
    for_impl_expr: Seq<char>,
    cursor_mod: Seq<char>,
    cursor_ident: Seq<char>,
    entity: Seq<char>,
    error: Seq<char>,
    query_fn_generics: Seq<char>,
    query_fn_op_arg: Seq<char>,
    query_fn_op_traits: Seq<char>,
) -> Seq<char> {
    "pub async fn "@ + fn_name + "(
    &self,
    "@ + filter_arg_name + ": "@ + for_impl_expr + ",
    cursor: es_entity::PaginatedQueryArgs<"@ + cursor_mod + "::"@ + cursor_ident + ">,
    direction: es_entity::ListDirection,
) -> Result<es_entity::PaginatedQueryRet<"@ + entity + ", "@ + cursor_mod + "::"@ + cursor_ident + ">, "@ + error + "> {
    self.repo."@ + fn_name + "(self.scope, "@ + filter_arg_name + ", cursor, direction).await
}
pub async fn "@ + fn_in_op + " "@ + query_fn_generics + "(
    &self,
    "@ + query_fn_op_arg + ",
    "@ + filter_arg_name + ": "@ + for_impl_expr + ",
    cursor: es_entity::PaginatedQueryArgs<"@ + cursor_mod + "::"@ + cursor_ident + ">,
    direction: es_entity::ListDirection,
) -> Result<es_entity::PaginatedQueryRet<"@ + entity + ", "@ + cursor_mod + "::"@ + cursor_ident + ">, "@ + error + ">
    where
        OP: "@ + query_fn_op_traits + "
{
    self.repo."@ + fn_in_op + "(op, self.scope, "@ + filter_arg_name + ", cursor, direction).await
}"@
}

/// The functions of the view that is bound to a scope.
pub fn list_for_delegates(
    fn_name: &str,
    fn_in_op: &str,
    filter_arg_name: &str,
    for_impl_expr: &str,
    cursor_mod: &str,
    cursor_ident: &str,
    entity: &str,
    error: &str,
    query_fn_generics: &str,
    query_fn_op_arg: &str,
    query_fn_op_traits: &str,
) -> (res: String)
    ensures
        res@ == list_for_delegates_code(
            fn_name@,
            fn_in_op@,
            filter_arg_name@,
            for_impl_expr@,
            cursor_mod@,
            cursor_ident@,
            entity@,
            error@,
            query_fn_generics@,
            query_fn_op_arg@,
            query_fn_op_traits@,
        ),
{
    "pub async fn ".to_string().concat(fn_name).concat("(
    &self,
    ").concat(filter_arg_name).concat(": ").concat(for_impl_expr).concat(",
    cursor: es_entity::PaginatedQueryArgs<").concat(cursor_mod).concat("::").concat(cursor_ident).concat(">,
    direction: es_entity::ListDirection,
) -> Result<es_entity::PaginatedQueryRet<").concat(entity).concat(", ").concat(cursor_mod).concat("::").concat(cursor_ident).concat(">, ").concat(error).concat("> {
    self.repo.").concat(fn_name).concat("(self.scope, ").concat(filter_arg_name).concat(", cursor, direction).await
}
pub async fn ").concat(fn_in_op).concat(" ").concat(query_fn_generics).concat("(
    &self,
    ").concat(query_fn_op_arg).concat(",
    ").concat(filter_arg_name).concat(": ").concat(for_impl_expr).concat(",
    cursor: es_entity::PaginatedQueryArgs<").concat(cursor_mod).concat("::").concat(cursor_ident).concat(">,
    direction: es_entity::ListDirection,
) -> Result<es_entity::PaginatedQueryRet<").concat(entity).concat(", ").concat(cursor_mod).concat("::").concat(cursor_ident).concat(">, ").concat(error).concat(">
    where
        OP: ").concat(query_fn_op_traits).concat("
{
    self.repo.").concat(fn_in_op).concat("(op, self.scope, ").concat(filter_arg_name).concat(", cursor, direction).await
}")
}

/// The functions.
pub open spec fn list_for_fns_code(
    fn_name: Seq<char>,
    fn_in_op: Seq<char>,
    scope_fn_arg: Seq<char>,
    filter_arg_name: Seq<char>,
    for_impl_expr: Seq<char>,
    cursor_mod: Seq<char>,
    cursor_ident: Seq<char>,
    entity: Seq<char>,
    error: Seq<char>,
    query_fn_get_op: Seq<char>,
    scope_fn_pass: Seq<char>,
    instrument_attr: Seq<char>,
    query_fn_generics: Seq<char>,
    query_fn_op_arg: Seq<char>,
    query_fn_op_traits: Seq<char>,
    scope_convert: Seq<char>,
    extract_has_cursor: Seq<char>,
    for_access_expr: Seq<char>,
    destructure_tokens: Seq<char>,
    record_fields: Seq<char>,
    match_expr: Seq<char>,
    post_hydrate_check: Seq<char>,
    record_results: Seq<char>,
    error_recording: Seq<char>,
) -> Seq<char> {
    "pub async fn "@ + fn_name + "(
    &self,
    "@ + scope_fn_arg + "
    "@ + filter_arg_name + ": "@ + for_impl_expr + ",
    cursor: es_entity::PaginatedQueryArgs<"@ + cursor_mod + "::"@ + cursor_ident + ">,
    direction: es_entity::ListDirection,
) -> Result<es_entity::PaginatedQueryRet<"@ + entity + ", "@ + cursor_mod + "::"@ + cursor_ident + ">, "@ + error + "> {
    self."@ + fn_in_op + "("@ + query_fn_get_op + ", "@ + scope_fn_pass + " "@ + filter_arg_name + ", cursor, direction).await
}
"@ + instrument_attr + "
pub async fn "@ + fn_in_op + " "@ + query_fn_generics + "(
    &self,
    "@ + query_fn_op_arg + ",
    "@ + scope_fn_arg + "
    "@ + filter_arg_name + ": "@ + for_impl_expr + ",
    cursor: es_entity::PaginatedQueryArgs<"@ + cursor_mod + "::"@ + cursor_ident + ">,
    direction: es_entity::ListDirection,
) -> Result<es_entity::PaginatedQueryRet<"@ + entity + ", "@ + cursor_mod + "::"@ + cursor_ident + ">, "@ + error + ">
    where
        OP: "@ + query_fn_op_traits + "
{
    let __result: Result<es_entity::PaginatedQueryRet<"@ + entity + ", "@ + cursor_mod + "::"@ + cursor_ident + ">, "@ + error + "> = async {
        "@ + scope_convert + "
        "@ + extract_has_cursor + "
        let "@ + filter_arg_name + " = "@ + filter_arg_name + "."@ + for_access_expr + ";
        "@ + destructure_tokens + "
        "@ + record_fields + "
        let (entities, has_next_page) = "@ + match_expr + ";
        "@ + post_hydrate_check + "
        "@ + record_results + "
        let end_cursor = entities.last().map("@ + cursor_mod + "::"@ + cursor_ident + "::from);
        Ok(es_entity::PaginatedQueryRet {
            entities,
            has_next_page,
            end_cursor,
        })
    }.await;
    "@ + error_recording + "
    __result
}"@
}

/// The functions.
pub fn list_for_fns(
    fn_name: &str,
    fn_in_op: &str,
    scope_fn_arg: &str,
    filter_arg_name: &str,
    for_impl_expr: &str,
    cursor_mod: &str,
    cursor_ident: &str,
    entity: &str,
    error: &str,
    query_fn_get_op: &str,
    scope_fn_pass: &str,
    instrument_attr: &str,
    query_fn_generics: &str,
    query_fn_op_arg: &str,
    query_fn_op_traits: &str,
    scope_convert: &str,
    extract_has_cursor: &str,
    for_access_expr: &str,
    destructure_tokens: &str,
    record_fields: &str,
    match_expr: &str,
    post_hydrate_check: &str,
    record_results: &str,
    error_recording: &str,
) -> (res: String)
    ensures
        res@ == list_for_fns_code(
            fn_name@,
            fn_in_op@,
            scope_fn_arg@,
            filter_arg_name@,
            for_impl_expr@,
            cursor_mod@,
            cursor_ident@,
            entity@,
            error@,
            query_fn_get_op@,
            scope_fn_pass@,
            instrument_attr@,
            query_fn_generics@,
            query_fn_op_arg@,
            query_fn_op_traits@,
            scope_convert@,
            extract_has_cursor@,
            for_access_expr@,
            destructure_tokens@,
            record_fields@,
            match_expr@,
            post_hydrate_check@,
            record_results@,
            error_recording@,
        ),
{
    "pub async fn ".to_string().concat(fn_name).concat("(
    &self,
    ").concat(scope_fn_arg).concat("
    ").concat(filter_arg_name).concat(": ").concat(for_impl_expr).concat(",
    cursor: es_entity::PaginatedQueryArgs<").concat(cursor_mod).concat("::").concat(cursor_ident).concat(">,
    direction: es_entity::ListDirection,
) -> Result<es_entity::PaginatedQueryRet<").concat(entity).concat(", ").concat(cursor_mod).concat("::").concat(cursor_ident).concat(">, ").concat(error).concat("> {
    self.").concat(fn_in_op).concat("(").concat(query_fn_get_op).concat(", ").concat(scope_fn_pass).concat(" ").concat(filter_arg_name).concat(", cursor, direction).await
}
").concat(instrument_attr).concat("
pub async fn ").concat(fn_in_op).concat(" ").concat(query_fn_generics).concat("(
    &self,
    ").concat(query_fn_op_arg).concat(",
    ").concat(scope_fn_arg).concat("
    ").concat(filter_arg_name).concat(": ").concat(for_impl_expr).concat(",
    cursor: es_entity::PaginatedQueryArgs<").concat(cursor_mod).concat("::").concat(cursor_ident).concat(">,
    direction: es_entity::ListDirection,
) -> Result<es_entity::PaginatedQueryRet<").concat(entity).concat(", ").concat(cursor_mod).concat("::").concat(cursor_ident).concat(">, ").concat(error).concat(">
    where
        OP: ").concat(query_fn_op_traits).concat("
{
    let __result: Result<es_entity::PaginatedQueryRet<").concat(entity).concat(", ").concat(cursor_mod).concat("::").concat(cursor_ident).concat(">, ").concat(error).concat("> = async {
        ").concat(scope_convert).concat("
        ").concat(extract_has_cursor).concat("
        let ").concat(filter_arg_name).concat(" = ").concat(filter_arg_name).concat(".").concat(for_access_expr).concat(";
        ").concat(destructure_tokens).concat("
        ").concat(record_fields).concat("
        let (entities, has_next_page) = ").concat(match_expr).concat(";
        ").concat(post_hydrate_check).concat("
        ").concat(record_results).concat("
        let end_cursor = entities.last().map(").concat(cursor_mod).concat("::").concat(cursor_ident).concat("::from);
        Ok(es_entity::PaginatedQueryRet {
            entities,
            has_next_page,
            end_cursor,
        })
    }.await;
    ").concat(error_recording).concat("
    __result
}")
}

impl<'a> ListForFn<'a> {
    pub open spec fn cursor_spec(&self) -> CursorStruct<'a> {
        CursorStruct {
            column: self.by_column,
            id: self.id,
            entity: self.entity,
            cursor_mod: "",
        }
    }

    /// The parameter that takes the value.
    pub open spec fn filter_arg(&self) -> Seq<char> {
        "filter_"@ + self.for_column.name@
    }

    /// The name of the function without what is added for a variant.
    pub open spec fn base_name(&self) -> Seq<char> {
        "list_for_"@ + self.for_column.name@ + "_by_"@ + self.by_column.name@
    }

    /// The name of the function for a variant.
    pub open spec fn fn_name(&self, variant: DeleteOption) -> Seq<char> {
        self.base_name() + variant.postfix()
    }

    /// The condition on the column: `$1` is its value, which can be NULL where
    /// the column's type is an `Option`.
    pub open spec fn condition(&self) -> Seq<char> {
        filter_condition_code(
            self.for_column.name@,
            if self.for_column.optional() {
                "IS NOT DISTINCT FROM"@
            } else {
                "="@
            },
        )
    }

    /// The query for one direction, restricted to a scope where one is given.
    pub open spec fn query(
        &self,
        variant: DeleteOption,
        scope: Option<ScopeCol>,
        ascending: bool,
    ) -> Seq<char> {
        let cursor = self.cursor_spec();
        let offset = if scope is Some {
            2nat
        } else {
            1nat
        };
        crate::list_by_fn::union_select(
            cursor.selected(Some(self.for_column.name@)),
            self.table_name@,
            match scope {
                Some(col) => seq![self.condition(), col.condition(2)],
                None => seq![self.condition()],
            },
            cursor.branches(offset, ascending),
            crate::list_by_fn::not_deleted(variant, self.delete),
            cursor.ordered(ascending),
            offset + 1,
        )
    }

    /// The call of the query for one direction.
    pub open spec fn call(
        &self,
        variant: DeleteOption,
        scope: Option<ScopeCol>,
        ascending: bool,
    ) -> Seq<char> {
        crate::list_by_fn::es_query_code(
            crate::list_by_fn::query_subject(opt_str(self.ignore_prefix), self.entity@),
            crate::list_by_fn::forgettable_arg(opt_str(self.forgettable_table_name)),
            ""@,
            literal(self.query(variant, scope, ascending)),
            self.filter_arg() + " as &"@ + self.for_column.lookup_type() + ", "@ + (match scope {
                Some(col) => col.arg() + " "@,
                None => Seq::empty(),
            }) + self.cursor_spec().query_args(),
        )
    }

    /// The choice of the query by the direction.
    pub open spec fn arms(&self, variant: DeleteOption, scope: Option<ScopeCol>) -> Seq<char> {
        crate::list_by_fn::direction_match_code(
            crate::list_by_fn::direction_arm_code(
                "Ascending"@,
                self.call(variant, scope, true),
            ) + "\n"@ + crate::list_by_fn::direction_arm_code(
                "Descending"@,
                self.call(variant, scope, false),
            ),
        )
    }

    /// The choice of the query by the scope and the direction.
    pub open spec fn match_code(&self, variant: DeleteOption) -> Seq<char> {
        match self.scope {
            Some(info) => info.dispatched(
                self.arms(variant, None),
                Seq::new(
                    info.cols.len() as nat,
                    |i: int| self.arms(variant, Some(info.cols@[i])),
                ),
            ),
            None => self.arms(variant, None),
        }
    }

    /// The functions for a variant.
    #[verifier::opaque]
    pub open spec fn variant_code(&self, variant: DeleteOption) -> Seq<char> {
        let cursor = self.cursor_spec();
        let scope = crate::scope::scope_parts(self.scope);
        let prefix = opt_text(self.repo_name_snake);
        list_for_fns_code(
            self.fn_name(variant),
            self.fn_name(variant) + "_in_op"@,
            scope.0,
            self.filter_arg(),
            self.for_column.lookup_param(),
            self.cursor_mod@,
            cursor.named(),
            self.entity@,
            self.query_error@,
            crate::options::repository::query_get_op(self.any_nested),
            scope.1,
            span_attr(
                prefix,
                self.base_name(),
                self.entity@,
                "query_"@ + self.filter_arg() + " = tracing::field::Empty, "@ + LIST_FIELDS@,
            ),
            crate::options::repository::query_generics(self.any_nested),
            crate::options::repository::query_op_arg(self.any_nested),
            crate::options::repository::query_op_traits(self.any_nested),
            scope.2,
            traced(prefix, EXTRACT_HAS_CURSOR@),
            self.for_column.lookup_access(),
            cursor.destructured(),
            traced(
                prefix,
                record_filter_code(
                    literal("query_"@ + self.filter_arg()),
                    self.filter_arg(),
                ) + "\n"@ + RECORD_PAGE@,
            ),
            self.match_code(variant),
            only_if(
                self.post_hydrate_error is Some,
                crate::post_hydrate_hook::check_all_hydrated_code(self.query_error@),
            ),
            traced(prefix, RECORD_ENTITIES@),
            traced(prefix, ERROR_RECORDING@),
        )
    }

    /// The functions: those that list live entities, and where deleted ones
    /// can be listed those that do so.
    #[verifier::opaque]
    pub open spec fn code(&self) -> Seq<char> {
        joined(
            Seq::new(
                self.delete.variants().len(),
                |i: int| self.variant_code(self.delete.variants()[i]),
            ),
            "\n"@,
        )
    }

    /// The functions of the view that is bound to a scope, for a variant.
    pub open spec fn delegate_code(&self, variant: DeleteOption) -> Seq<char> {
        list_for_delegates_code(
            self.fn_name(variant),
            self.fn_name(variant) + "_in_op"@,
            self.filter_arg(),
            self.for_column.lookup_param(),
            self.cursor_mod@,
            self.cursor_spec().named(),
            self.entity@,
            self.query_error@,
            crate::options::repository::query_generics(self.any_nested),
            crate::options::repository::query_op_arg(self.any_nested),
            crate::options::repository::query_op_traits(self.any_nested),
        )
    }

    /// The functions of the view that is bound to a scope.
    #[verifier::opaque]
    pub open spec fn delegates(&self) -> Seq<char> {
        if self.scope is None {
            Seq::empty()
        } else {
            joined(
                Seq::new(
                    self.delete.variants().len(),
                    |i: int| self.delegate_code(self.delete.variants()[i]),
                ),
                "\n"@,
            )
        }
    }

    /// Whether this is what the options of a repository ask for.
    pub open spec fn made_from(
        &self,
        for_column: &Column,
        by_column: &Column,
        opts: &RepositoryOptions,
    ) -> bool {
        &&& opt_str(self.ignore_prefix) == opt_text(opts.prefix)
        &&& self.for_column == for_column
        &&& self.by_column == by_column
        &&& self.id@ == opts.id_text()
        &&& self.entity@ == opts.entity_ident@
        &&& self.table_name@ == opts.table_text()
        &&& self.query_error@ == opts.entity_ident@ + "QueryError"@
        &&& self.delete == opts.delete
        &&& self.cursor_mod@ == cased(opts.entity_ident@ + "Cursor"@, NameCase::Snake)
        &&& self.any_nested == (opts.nested().len() > 0)
        &&& opt_str(self.post_hydrate_error) == opts.hydrate_error()
        &&& opt_str(self.forgettable_table_name) == opts.forgettable_table()
        &&& self.scope is Some <==> opts.columns.picks(Pick::Scope).len() > 0
        &&& self.scope matches Some(info) ==> info.scope_of(opts)
        &&& opt_text(self.repo_name_snake) == opts.span_prefix()
    }

    /// The functions that list a repository's entities with a value of
    /// `for_column`, sorted by `by_column`.
    pub fn new(for_column: &'a Column, by_column: &'a Column, opts: &'a RepositoryOptions) -> (res:
        Self)
        requires
            opts.ready(),
            opts.is_struct(),
        ensures
            res.made_from(for_column, by_column, opts),
    {
        ListForFn {
            ignore_prefix: opts.table_prefix(),
            for_column,
            by_column,
            id: opts.id(),
            entity: opts.entity(),
            table_name: opts.table_name(),
            query_error: opts.query_error(),
            delete: opts.delete,
            cursor_mod: opts.cursor_mod(),
            any_nested: opts.any_nested(),
            post_hydrate_error: opts.post_hydrate_error(),
            forgettable_table_name: opts.forgettable_table_name(),
            scope: ScopeInfo::from_opts(opts),
            repo_name_snake: opts.instrumented_as(),
        }
    }

    /// The cursor of the list.
    pub fn cursor(&self) -> (res: CursorStruct<'_>)
        ensures
            res.column == self.by_column,
            res.id@ == self.id@,
            res.entity@ == self.entity@,
            res.cursor_mod@ == self.cursor_mod@,
    {
        CursorStruct {
            column: self.by_column,
            id: self.id,
            entity: self.entity,
            cursor_mod: self.cursor_mod.as_str(),
        }
    }

    fn filter_arg_name(&self) -> (res: String)
        ensures
            res@ == self.filter_arg(),
    {
        "filter_".to_string().concat(self.for_column.name())
    }

    fn base_function_name(&self) -> (res: String)
        ensures
            res@ == self.base_name(),
    {
        "list_for_".to_string().concat(self.for_column.name()).concat("_by_").concat(
            self.by_column.name(),
        )
    }

    /// The functions of the view that is bound to a scope; none without a
    /// scope.
    pub fn scoped_delegates(&self) -> (res: String)
        ensures
            res@ == self.delegates(),
    {
        proof {
            reveal(ListForFn::delegates);
        }
        if self.scope.is_none() {
            return String::new();
        }
        let cursor_ident = self.cursor().ident();
        let filter_arg_name = self.filter_arg_name();
        let (_for_column_type, for_impl_expr, _for_access_expr) = self.for_column.ty_for_find_by();
        let variants = self.delete.query_variants();
        let mut parts: Vec<String> = Vec::new();
        let mut i: usize = 0;
        while i < variants.len()
            invariant
                i <= variants.len(),
                variants@ == self.delete.variants(),
                cursor_ident@ == self.cursor_spec().named(),
                filter_arg_name@ == self.filter_arg(),
                for_impl_expr@ == self.for_column.lookup_param(),
                parts.len() == i,
                forall|j: int|
                    0 <= j < i ==> (#[trigger] parts@[j])@ == self.delegate_code(variants@[j]),
            decreases variants.len() - i,
        {
            let fn_name = self.base_function_name().concat(
                variants[i].include_deletion_fn_postfix(),
            );
            let fn_in_op = fn_name.clone().concat("_in_op");
            parts.push(
                list_for_delegates(
                    fn_name.as_str(),
                    fn_in_op.as_str(),
                    filter_arg_name.as_str(),
                    for_impl_expr.as_str(),
                    self.cursor_mod.as_str(),
                    cursor_ident.as_str(),
                    self.entity,
                    self.query_error.as_str(),
                    RepositoryOptions::query_fn_generics(self.any_nested),
                    RepositoryOptions::query_fn_op_arg(self.any_nested),
                    RepositoryOptions::query_fn_op_traits(self.any_nested),
                ),
            );
            i = i + 1;
        }
        assert(parts.deep_view() =~= Seq::new(
            self.delete.variants().len(),
            |i: int| self.delegate_code(self.delete.variants()[i]),
        ));
        join(&parts, "\n")
    }

    fn call_text(&self, variant: DeleteOption, scope: Option<&ScopeCol<'a>>, ascending: bool) -> (res:
        String)
        ensures
            res@ == self.call(
                variant,
                match scope {
                    Some(col) => Some(*col),
                    None => None,
                },
                ascending,
            ),
    {
        let cursor = self.cursor();
        let offset: u32 = if scope.is_some() {
            2
        } else {
            1
        };
        let operator = if self.for_column.is_optional() {
            "IS NOT DISTINCT FROM"
        } else {
            "="
        };
        let mut leading: Vec<String> = vec![filter_condition(self.for_column.name(), operator)];
        let (for_column_type, _for_impl_expr, _for_access_expr) = self.for_column.ty_for_find_by();
        let mut args = self.filter_arg_name().concat(" as &").concat(
            for_column_type.as_str(),
        ).concat(", ");
        let scope_args = match scope {
            Some(col) => {
                leading.push(col.predicate(2));
                assert(crate::list_by_fn::texts(leading@) =~= seq![
                    self.condition(),
                    col.condition(2),
                ]);
                col.arg_tokens().concat(" ")
            },
            None => {
                assert(crate::list_by_fn::texts(leading@) =~= seq![self.condition()]);
                String::new()
            },
        };
        args.append(scope_args.as_str());
        args.append(cursor.query_arg_tokens().as_str());
        let trailing = not_deleted_conditions(variant, self.delete);
        let branches = cursor.cursor_branches(offset, ascending);
        let query = assemble_union_select(
            cursor.select_columns(Some(self.for_column.name())).as_str(),
            self.table_name,
            leading.as_slice(),
            branches.as_slice(),
            trailing.as_slice(),
            cursor.order_by(ascending).as_str(),
            offset + 1,
        );
        es_query(
            query_subject_text(self.ignore_prefix, self.entity).as_str(),
            forgettable_arg_text(self.forgettable_table_name).as_str(),
            "",
            quote(query.as_str()).as_str(),
            args.as_str(),
        )
    }

    fn arms_text(&self, variant: DeleteOption, scope: Option<&ScopeCol<'a>>) -> (res: String)
        ensures
            res@ == self.arms(
                variant,
                match scope {
                    Some(col) => Some(*col),
                    None => None,
                },
            ),
    {
        let ascending = self.call_text(variant, scope, true);
        let descending = self.call_text(variant, scope, false);
        let arms = direction_arm("Ascending", ascending.as_str()).concat("\n").concat(
            direction_arm("Descending", descending.as_str()).as_str(),
        );
        direction_match(arms.as_str())
    }

    fn match_text(&self, variant: DeleteOption) -> (res: String)
        ensures
            res@ == self.match_code(variant),
    {
        let all_arm = self.arms_text(variant, None);
        match &self.scope {
            Some(info) => {
                let mut bodies: Vec<String> = Vec::new();
                let mut i: usize = 0;
                while i < info.cols.len()
                    invariant
                        i <= info.cols.len(),
                        bodies.len() == i,
                        forall|j: int|
                            0 <= j < i ==> (#[trigger] bodies@[j])@ == self.arms(
                                variant,
                                Some(info.cols@[j]),
                            ),
                    decreases info.cols.len() - i,
                {
                    bodies.push(self.arms_text(variant, Some(&info.cols[i])));
                    i = i + 1;
                }
                assert(bodies.deep_view() =~= Seq::new(
                    info.cols.len() as nat,
                    |i: int| self.arms(variant, Some(info.cols@[i])),
                ));
                info.dispatch(all_arm.as_str(), &bodies)
            },
            None => all_arm,
        }
    }

    fn variant_text(&self, variant: DeleteOption) -> (res: String)
        ensures
            res@ == self.variant_code(variant),
    {
        proof {
            reveal(ListForFn::variant_code);
        }
        let cursor = self.cursor();
        let base_name = self.base_function_name();
        let fn_name = base_name.clone().concat(variant.include_deletion_fn_postfix());
        let fn_in_op = fn_name.clone().concat("_in_op");
        let filter_arg_name = self.filter_arg_name();
        let filter_field = "query_".to_string().concat(filter_arg_name.as_str());
        let fields = "query_".to_string().concat(filter_arg_name.as_str()).concat(
            " = tracing::field::Empty, ",
        ).concat(LIST_FIELDS);
        assert(fields@ =~= "query_"@ + self.filter_arg() + " = tracing::field::Empty, "@
            + LIST_FIELDS@);
        let record_fields = record_filter(
            quote(filter_field.as_str()).as_str(),
            filter_arg_name.as_str(),
        ).concat("\n").concat(RECORD_PAGE);
        let (_for_column_type, for_impl_expr, for_access_expr) = self.for_column.ty_for_find_by();
        let (scope_fn_arg, scope_fn_pass, scope_convert) = scope_texts(&self.scope);
        list_for_fns(
            fn_name.as_str(),
            fn_in_op.as_str(),
            scope_fn_arg.as_str(),
            filter_arg_name.as_str(),
            for_impl_expr.as_str(),
            self.cursor_mod.as_str(),
            cursor.ident().as_str(),
            self.entity,
            self.query_error.as_str(),
            RepositoryOptions::query_fn_get_op(self.any_nested),
            scope_fn_pass.as_str(),
            span_attribute(
                &self.repo_name_snake,
                base_name.as_str(),
                self.entity,
                fields.as_str(),
            ).as_str(),
            RepositoryOptions::query_fn_generics(self.any_nested),
            RepositoryOptions::query_fn_op_arg(self.any_nested),
            RepositoryOptions::query_fn_op_traits(self.any_nested),
            scope_convert.as_str(),
            trace(&self.repo_name_snake, EXTRACT_HAS_CURSOR).as_str(),
            for_access_expr.as_str(),
            cursor.destructure_tokens().as_str(),
            trace(&self.repo_name_snake, record_fields.as_str()).as_str(),
            self.match_text(variant).as_str(),
            given(
                self.post_hydrate_error.is_some(),
                check_all_hydrated(self.query_error.as_str()).as_str(),
            ).as_str(),
            trace(&self.repo_name_snake, RECORD_ENTITIES).as_str(),
            trace(&self.repo_name_snake, ERROR_RECORDING).as_str(),
        )
    }

    /// Appends the functions.
    pub fn to_tokens(&self, tokens: &mut String)
        ensures
            final(tokens)@ == old(tokens)@ + self.code(),
    {
        proof {
            reveal(ListForFn::code);
        }
        let variants = self.delete.query_variants();
        let mut parts: Vec<String> = Vec::new();
        let mut i: usize = 0;
        while i < variants.len()
            invariant
                i <= variants.len(),
                variants@ == self.delete.variants(),
                parts.len() == i,
                forall|j: int|
                    0 <= j < i ==> (#[trigger] parts@[j])@ == self.variant_code(variants@[j]),
            decreases variants.len() - i,
        {
            parts.push(self.variant_text(variants[i]));
            i = i + 1;
        }
        assert(parts.deep_view() =~= Seq::new(
            self.delete.variants().len(),
            |i: int| self.variant_code(self.delete.variants()[i]),
        ));
        tokens.append(join(&parts, "\n").as_str());
    }
}

/// Without a restriction a repository that has scopes runs the queries that one
/// without scopes runs.
pub proof fn all_scopes_list_for_as_unscoped(
    f: &ListForFn,
    plain: &ListForFn,
    variant: DeleteOption,
)
    requires
        f.scope is Some,
        *plain == (ListForFn { scope: None, ..*f }),
    ensures
        f.match_code(variant) == f.scope->0.dispatched(
            plain.match_code(variant),
            Seq::new(
                f.scope->0.cols.len() as nat,
                |i: int| f.arms(variant, Some(f.scope->0.cols@[i])),
            ),
        ),
{
}

} // verus!
