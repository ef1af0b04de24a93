//! The functions that find an entity by the value of a column.

use vstd::prelude::*;
use vstd::string::*;

use crate::instrument::{span_attr, span_attribute, trace, traced, ERROR_RECORDING};
use crate::list_by_fn::{es_query, query_subject_text};
use crate::list_for_fn::record_filter;
use crate::options::column::Column;
use crate::options::columns::Pick;
use crate::options::delete::DeleteOption;
use crate::options::repository::RepositoryOptions;
use crate::scope::{scope_texts, ScopeCol, ScopeInfo};
use crate::text::{join, joined, literal, quote};
use crate::types::{opt_str, opt_text};

verus! {

/// The functions that find an entity by the value of a column.
pub struct FindByFn<'a> {
    pub prefix: Option<&'a str>,
    pub entity: &'a str,
    pub column: &'a Column,
    pub table_name: &'a str,
    pub error: String,
    pub delete: DeleteOption,
    pub any_nested: bool,
    pub include_deleted_queries: bool,
    pub scope: Option<ScopeInfo<'a>>,
    /// The repository's name in the spans, where functions are traced.
    pub repo_name_snake: Option<String>,
}

/// The call of a query that gives one entity.
pub open spec fn find_call_code(es_query: Seq<char>, fetch_fn: Seq<char>) -> Seq<char> {
    es_query + "."@ + fetch_fn + ".await"@
}

/// The call of a query that gives one entity.
pub fn find_call(es_query: &str, fetch_fn: &str) -> (res: String)
    ensures
        res@ == find_call_code(es_query@, fetch_fn@),
{
    es_query.to_string().concat(".").concat(fetch_fn).concat(".await")
}

/// The functions.
pub open spec fn find_by_fns_code(
    fn_name: Seq<char>,
    fn_in_op: Seq<char>,
    scope_fn_arg: Seq<char>,
    column_name: Seq<char>,
    impl_expr: Seq<char>,
    result_type: Seq<char>,
    error: Seq<char>,
    query_fn_get_op: Seq<char>,
    scope_fn_pass: Seq<char>,
    instrument_attr: Seq<char>,
    query_fn_generics: Seq<char>,
    query_fn_op_arg: Seq<char>,
    query_fn_op_traits: Seq<char>,
    scope_convert: Seq<char>,
    access_expr: Seq<char>,
    record_field: Seq<char>,
    find: Seq<char>,
    error_recording: Seq<char>,
) -> Seq<char> {
    "pub async fn "@ + fn_name + "(
    &self,
    "@ + scope_fn_arg + "
    "@ + column_name + ": "@ + impl_expr + "
) -> Result<"@ + result_type + ", "@ + error + "> {
    self."@ + fn_in_op + "("@ + query_fn_get_op + ", "@ + scope_fn_pass + " "@ + column_name + ").await
}
"@ + instrument_attr + "
pub async fn "@ + fn_in_op + " "@ + query_fn_generics + "(
    &self,
    "@ + query_fn_op_arg + ",
    "@ + scope_fn_arg + "
    "@ + column_name + ": "@ + impl_expr + "
) -> Result<"@ + result_type + ", "@ + error + ">
    where
        OP: "@ + query_fn_op_traits + "
{
    let __result: Result<"@ + result_type + ", "@ + error + "> = async {
        "@ + scope_convert + "
        let "@ + column_name + " = "@ + column_name + "."@ + access_expr + ";
        "@ + record_field + "
        "@ + find + "
    }.await;
    "@ + error_recording + "
    __result
}"@
}

/// The functions.
pub fn find_by_fns(
    fn_name: &str,
    fn_in_op: &str,
    scope_fn_arg: &str,
    column_name: &str,
    impl_expr: &str,
    result_type: &str,
    error: &str,
    query_fn_get_op: &str,
    scope_fn_pass: &str,
    instrument_attr: &str,
    query_fn_generics: &str,
    query_fn_op_arg: &str,
    query_fn_op_traits: &str,
    scope_convert: &str,
    access_expr: &str,
    record_field: &str,
    find: &str,
    error_recording: &str,
) -> (res: String)
    ensures
        res@ == find_by_fns_code(
            fn_name@,
            fn_in_op@,
            scope_fn_arg@,
            column_name@,
            impl_expr@,
            result_type@,
            error@,
            query_fn_get_op@,
            scope_fn_pass@,
            instrument_attr@,
            query_fn_generics@,
            query_fn_op_arg@,
            query_fn_op_traits@,
            scope_convert@,
            access_expr@,
            record_field@,
            find@,
            error_recording@,
        ),
{
    "pub async fn ".to_string().concat(fn_name).concat("(
    &self,
    ").concat(scope_fn_arg).concat("
    ").concat(column_name).concat(": ").concat(impl_expr).concat("
) -> Result<").concat(result_type).concat(", ").concat(error).concat("> {
    self.").concat(fn_in_op).concat("(").concat(query_fn_get_op).concat(", ").concat(scope_fn_pass).concat(" ").concat(column_name).concat(").await
}
").concat(instrument_attr).concat("
pub async fn ").concat(fn_in_op).concat(" ").concat(query_fn_generics).concat("(
    &self,
    ").concat(query_fn_op_arg).concat(",
    ").concat(scope_fn_arg).concat("
    ").concat(column_name).concat(": ").concat(impl_expr).concat("
) -> Result<").concat(result_type).concat(", ").concat(error).concat(">
    where
        OP: ").concat(query_fn_op_traits).concat("
{
    let __result: Result<").concat(result_type).concat(", ").concat(error).concat("> = async {
        ").concat(scope_convert).concat("
        let ").concat(column_name).concat(" = ").concat(column_name).concat(".").concat(access_expr).concat(";
        ").concat(record_field).concat("
        ").concat(find).concat("
    }.await;
    ").concat(error_recording).concat("
    __result
}")
}

/// The functions of the view that is bound to a scope.
pub open spec fn find_by_delegates_code(
    fn_name: Seq<char>,
    fn_in_op: Seq<char>,
    column_name: Seq<char>,
    impl_expr: Seq<char>,
    result_type: Seq<char>,
    error: Seq<char>,
    query_fn_generics: Seq<char>,
    query_fn_op_arg: Seq<char>,
    query_fn_op_traits: Seq<char>,
) -> Seq<char> {
    "pub async fn "@ + fn_name + "(
    &self,
    "@ + column_name + ": "@ + impl_expr + "
) -> Result<"@ + result_type + ", "@ + error + "> {
    self.repo."@ + fn_name + "(self.scope, "@ + column_name + ").await
}
pub async fn "@ + fn_in_op + " "@ + query_fn_generics + "(
    &self,
    "@ + query_fn_op_arg + ",
    "@ + column_name + ": "@ + impl_expr + "
) -> Result<"@ + result_type + ", "@ + error + ">
    where
        OP: "@ + query_fn_op_traits + "
{
    self.repo."@ + fn_in_op + "(op, self.scope, "@ + column_name + ").await
}"@
}

/// The functions of the view that is bound to a scope.
pub fn find_by_delegates(
    fn_name: &str,
    fn_in_op: &str,
    column_name: &str,
    impl_expr: &str,
    result_type: &str,
    error: &str,
    query_fn_generics: &str,
    query_fn_op_arg: &str,
    query_fn_op_traits: &str,
) -> (res: String)
    ensures
        res@ == find_by_delegates_code(
            fn_name@,
            fn_in_op@,
            column_name@,
            impl_expr@,
            result_type@,
            error@,
            query_fn_generics@,
            query_fn_op_arg@,
            query_fn_op_traits@,
        ),
{
    "pub async fn ".to_string().concat(fn_name).concat("(
    &self,
    ").concat(column_name).concat(": ").concat(impl_expr).concat("
) -> Result<").concat(result_type).concat(", ").concat(error).concat("> {
    self.repo.").concat(fn_name).concat("(self.scope, ").concat(column_name).concat(").await
}
pub async fn ").concat(fn_in_op).concat(" ").concat(query_fn_generics).concat("(
    &self,
    ").concat(query_fn_op_arg).concat(",
    ").concat(column_name).concat(": ").concat(impl_expr).concat("
) -> Result<").concat(result_type).concat(", ").concat(error).concat(">
    where
        OP: ").concat(query_fn_op_traits).concat("
{
    self.repo.").concat(fn_in_op).concat("(op, self.scope, ").concat(column_name).concat(").await
}")
}

/// One of the functions: whether it gives nothing where there is no entity,
/// and whether it finds deleted entities.
pub struct FindCase {
    pub maybe: bool,
    pub variant: DeleteOption,
}

impl FindCase {
    pub open spec fn front(&self) -> Seq<char> {
        if self.maybe {
            "maybe_"@
        } else {
            ""@
        }
    }

    fn front_text(&self) -> (res: &'static str)
        ensures
            res@ == self.front(),
    {
        if self.maybe {
            "maybe_"
        } else {
            ""
        }
    }
}

/// The functions there are: those that fail where there is no entity, then
/// those that do not, each without and, where they are asked for, with deleted
/// entities.
pub open spec fn find_cases(delete: DeleteOption, include_deleted: bool) -> Seq<FindCase> {
    if delete == DeleteOption::Soft && include_deleted {
        seq![
            FindCase { maybe: false, variant: DeleteOption::No },
            FindCase { maybe: false, variant: DeleteOption::Soft },
            FindCase { maybe: true, variant: DeleteOption::No },
            FindCase { maybe: true, variant: DeleteOption::Soft },
        ]
    } else {
        seq![
            FindCase { maybe: false, variant: DeleteOption::No },
            FindCase { maybe: true, variant: DeleteOption::No },
        ]
    }
}

impl<'a> FindByFn<'a> {
    /// The name of a function.
    pub open spec fn fn_name(&self, case: FindCase) -> Seq<char> {
        case.front() + "find_by_"@ + self.column.name@ + case.variant.postfix()
    }

    /// What a function gives.
    pub open spec fn result_type(&self, case: FindCase) -> Seq<char> {
        if case.maybe {
            "Option<"@ + self.entity@ + ">"@
        } else {
            self.entity@
        }
    }

    /// The query: `$1` is the value of the column, `$2` that of the scope.
    pub open spec fn query(&self, case: FindCase, scope: Option<ScopeCol>) -> Seq<char> {
        "SELECT id FROM "@ + self.table_name@ + " WHERE "@ + self.column.name@ + " = $1"@ + (
        match scope {
            Some(col) => " AND "@ + col.condition(2),
            None => Seq::empty(),
        }) + (if case.variant == DeleteOption::No {
            self.delete.not_deleted()
        } else {
            ""@
        })
    }

    /// The call of the query.
    pub open spec fn call(&self, case: FindCase, scope: Option<ScopeCol>) -> Seq<char> {
        find_call_code(
            crate::list_by_fn::es_query_code(
                crate::list_by_fn::query_subject(opt_str(self.prefix), self.entity@),
                ""@,
                ""@,
                literal(self.query(case, scope)),
                self.column.name@ + " as &"@ + self.column.lookup_type() + ","@ + (match scope {
                    Some(col) => " "@ + col.arg(),
                    None => Seq::empty(),
                }),
            ),
            if case.maybe {
                "fetch_optional(op)"@
            } else {
                "fetch_one(op)"@
            },
        )
    }

    /// The choice of the query by the scope.
    pub open spec fn find_code(&self, case: FindCase) -> Seq<char> {
        match self.scope {
            Some(info) => info.dispatched(
                self.call(case, None),
                Seq::new(info.cols.len() as nat, |i: int| self.call(case, Some(info.cols@[i]))),
            ),
            None => self.call(case, None),
        }
    }

    /// The functions of one case.
    pub open spec fn case_code(&self, case: FindCase) -> Seq<char> {
        let scope = crate::scope::scope_parts(self.scope);
        let prefix = opt_text(self.repo_name_snake);
        let field = "query_"@ + self.column.name@;
        find_by_fns_code(
            self.fn_name(case),
            self.fn_name(case) + "_in_op"@,
            scope.0,
            self.column.name@,
            self.column.lookup_param(),
            self.result_type(case),
            self.error@,
            crate::options::repository::query_get_op(self.any_nested),
            scope.1,
            span_attr(
                prefix,
                case.front() + "find_by_"@ + self.column.name@,
                self.entity@,
                field + " = tracing::field::Empty,"@,
            ),
            crate::options::repository::query_generics(self.any_nested),
            crate::options::repository::query_op_arg(self.any_nested),
            crate::options::repository::query_op_traits(self.any_nested),
            scope.2,
            self.column.lookup_access(),
            traced(
                prefix,
                crate::list_for_fn::record_filter_code(literal(field), self.column.name@),
            ),
            self.find_code(case),
            traced(prefix, ERROR_RECORDING@),
        )
    }

    /// The functions there are.
    pub open spec fn cases(&self) -> Seq<FindCase> {
        find_cases(self.delete, self.include_deleted_queries)
    }

    /// The functions.
    #[verifier::opaque]
    pub open spec fn code(&self) -> Seq<char> {
        joined(Seq::new(self.cases().len(), |i: int| self.case_code(self.cases()[i])), "\n"@)
    }

    /// The functions of one case, of the view that is bound to a scope.
    pub open spec fn delegate_code(&self, case: FindCase) -> Seq<char> {
        find_by_delegates_code(
            self.fn_name(case),
            self.fn_name(case) + "_in_op"@,
            self.column.name@,
            self.column.lookup_param(),
            self.result_type(case),
            self.error@,
            crate::options::repository::query_generics(self.any_nested),
            crate::options::repository::query_op_arg(self.any_nested),
            crate::options::repository::query_op_traits(self.any_nested),
        )
    }

    /// The functions of the view that is bound to a scope.
    #[verifier::opaque]
    pub open spec fn delegates(&self) -> Seq<char> {
        if self.scope is None {
            Seq::empty()
        } else {
            joined(
                Seq::new(self.cases().len(), |i: int| self.delegate_code(self.cases()[i])),
                "\n"@,
            )
        }
    }

    /// Whether this is what the options of a repository ask for.
    pub open spec fn made_from(&self, column: &Column, opts: &RepositoryOptions) -> bool {
        &&& opt_str(self.prefix) == opt_text(opts.prefix)
        &&& self.entity@ == opts.entity_ident@
        &&& self.column == column
        &&& self.table_name@ == opts.table_text()
        &&& self.error@ == opts.entity_ident@ + "FindError"@
        &&& self.delete == opts.delete
        &&& self.any_nested == (opts.nested().len() > 0)
        &&& self.include_deleted_queries == (opts.delete == DeleteOption::Soft)
        &&& self.scope is Some <==> opts.columns.picks(Pick::Scope).len() > 0
        &&& self.scope matches Some(info) ==> info.scope_of(opts)
        &&& opt_text(self.repo_name_snake) == opts.span_prefix()
    }

    pub fn new(column: &'a Column, opts: &'a RepositoryOptions) -> (res: Self)
        requires
            opts.ready(),
            opts.is_struct(),
        ensures
            res.made_from(column, opts),
    {
        FindByFn {
            prefix: opts.table_prefix(),
            entity: opts.entity(),
            column,
            table_name: opts.table_name(),
            error: opts.find_error(),
            delete: opts.delete,
            any_nested: opts.any_nested(),
            include_deleted_queries: opts.delete == DeleteOption::Soft,
            scope: ScopeInfo::from_opts(opts),
            repo_name_snake: opts.instrumented_as(),
        }
    }

    fn find_case_list(&self) -> (res: Vec<FindCase>)
        ensures
            res@ == self.cases(),
    {
        let mut res: Vec<FindCase> = Vec::new();
        let both = self.delete == DeleteOption::Soft && self.include_deleted_queries;
        res.push(FindCase { maybe: false, variant: DeleteOption::No });
        if both {
            res.push(FindCase { maybe: false, variant: DeleteOption::Soft });
        }
        res.push(FindCase { maybe: true, variant: DeleteOption::No });
        if both {
            res.push(FindCase { maybe: true, variant: DeleteOption::Soft });
        }
        assert(res@ =~= self.cases());
        res
    }

    fn function_name(&self, case: &FindCase) -> (res: String)
        ensures
            res@ == self.fn_name(*case),
    {
        case.front_text().to_string().concat("find_by_").concat(self.column.name()).concat(
            case.variant.include_deletion_fn_postfix(),
        )
    }

    fn result_text(&self, case: &FindCase) -> (res: String)
        ensures
            res@ == self.result_type(*case),
    {
        if case.maybe {
            "Option<".to_string().concat(self.entity).concat(">")
        } else {
            self.entity.to_string()
        }
    }

    fn call_text(&self, case: &FindCase, scope: Option<&ScopeCol<'a>>) -> (res: String)
        ensures
            res@ == self.call(
                *case,
                match scope {
                    Some(col) => Some(*col),
                    None => None,
                },
            ),
    {
        let (ty, _, _) = self.column.ty_for_find_by();
        let (condition, arg) = match scope {
            Some(col) => (
                " AND ".to_string().concat(col.predicate(2).as_str()),
                " ".to_string().concat(col.arg_tokens().as_str()),
            ),
            None => (String::new(), String::new()),
        };
        let not_deleted = if case.variant == DeleteOption::No {
            self.delete.not_deleted_condition()
        } else {
            ""
        };
        let query = "SELECT id FROM ".to_string().concat(self.table_name).concat(" WHERE ").concat(
            self.column.name(),
        ).concat(" = $1").concat(condition.as_str()).concat(not_deleted);
        let args = self.column.name().to_string().concat(" as &").concat(ty.as_str()).concat(
            ",",
        ).concat(arg.as_str());
        find_call(
            es_query(
                query_subject_text(self.prefix, self.entity).as_str(),
                "",
                "",
                quote(query.as_str()).as_str(),
                args.as_str(),
            ).as_str(),
            if case.maybe {
                "fetch_optional(op)"
            } else {
                "fetch_one(op)"
            },
        )
    }

    fn find_text(&self, case: &FindCase) -> (res: String)
        ensures
            res@ == self.find_code(*case),
    {
        let all_arm = self.call_text(case, None);
        match &self.scope {
            Some(info) => {
                let mut bodies: Vec<String> = Vec::new();
                let mut i: usize = 0;
                while i < info.cols.len()
                    invariant
                        i <= info.cols.len(),
                        bodies.len() == i,
                        forall|j: int|
                            0 <= j < i ==> (#[trigger] bodies@[j])@ == self.call(
                                *case,
                                Some(info.cols@[j]),
                            ),
                    decreases info.cols.len() - i,
                {
                    bodies.push(self.call_text(case, Some(&info.cols[i])));
                    i = i + 1;
                }
                assert(bodies.deep_view() =~= Seq::new(
                    info.cols.len() as nat,
                    |i: int| self.call(*case, Some(info.cols@[i])),
                ));
                info.dispatch(all_arm.as_str(), &bodies)
            },
            None => all_arm,
        }
    }

    fn case_text(&self, case: &FindCase) -> (res: String)
        ensures
            res@ == self.case_code(*case),
    {
        let fn_name = self.function_name(case);
        let fn_in_op = fn_name.clone().concat("_in_op");
        let span_name = case.front_text().to_string().concat("find_by_").concat(
            self.column.name(),
        );
        let field = "query_".to_string().concat(self.column.name());
        let fields = field.clone().concat(" = tracing::field::Empty,");
        let (_, impl_expr, access_expr) = self.column.ty_for_find_by();
        let (scope_fn_arg, scope_fn_pass, scope_convert) = scope_texts(&self.scope);
        let record = record_filter(quote(field.as_str()).as_str(), self.column.name());
        find_by_fns(
            fn_name.as_str(),
            fn_in_op.as_str(),
            scope_fn_arg.as_str(),
            self.column.name(),
            impl_expr.as_str(),
            self.result_text(case).as_str(),
            self.error.as_str(),
            RepositoryOptions::query_fn_get_op(self.any_nested),
            scope_fn_pass.as_str(),
            span_attribute(
                &self.repo_name_snake,
                span_name.as_str(),
                self.entity,
                fields.as_str(),
            ).as_str(),
            RepositoryOptions::query_fn_generics(self.any_nested),
            RepositoryOptions::query_fn_op_arg(self.any_nested),
            RepositoryOptions::query_fn_op_traits(self.any_nested),
            scope_convert.as_str(),
            access_expr.as_str(),
            trace(&self.repo_name_snake, record.as_str()).as_str(),
            self.find_text(case).as_str(),
            trace(&self.repo_name_snake, ERROR_RECORDING).as_str(),
        )
    }

    /// Appends the functions.
    pub fn to_tokens(&self, tokens: &mut String)
        ensures
            final(tokens)@ == old(tokens)@ + self.code(),
    {
        proof {
            reveal(FindByFn::code);
        }
        let cases = self.find_case_list();
        let mut parts: Vec<String> = Vec::new();
        let mut i: usize = 0;
        while i < cases.len()
            invariant
                i <= cases.len(),
                cases@ == self.cases(),
                parts.len() == i,
                forall|j: int| 0 <= j < i ==> (#[trigger] parts@[j])@ == self.case_code(cases@[j]),
            decreases cases.len() - i,
        {
            parts.push(self.case_text(&cases[i]));
            i = i + 1;
        }
        assert(parts.deep_view() =~= Seq::new(
            self.cases().len(),
            |i: int| self.case_code(self.cases()[i]),
        ));
        tokens.append(join(&parts, "\n").as_str());
    }

    /// The functions of the view that is bound to a scope; none without a
    /// scope.
    pub fn scoped_delegates(&self) -> (res: String)
        ensures
            res@ == self.delegates(),
    {
        proof {
            reveal(FindByFn::delegates);
        }
        if self.scope.is_none() {
            return String::new();
        }
        let (_, impl_expr, _) = self.column.ty_for_find_by();
        let cases = self.find_case_list();
        let mut parts: Vec<String> = Vec::new();
        let mut i: usize = 0;
        while i < cases.len()
            invariant
                i <= cases.len(),
                cases@ == self.cases(),
                impl_expr@ == self.column.lookup_param(),
                parts.len() == i,
                forall|j: int|
                    0 <= j < i ==> (#[trigger] parts@[j])@ == self.delegate_code(cases@[j]),
            decreases cases.len() - i,
        {
            let fn_name = self.function_name(&cases[i]);
            let fn_in_op = fn_name.clone().concat("_in_op");
            parts.push(
                find_by_delegates(
                    fn_name.as_str(),
                    fn_in_op.as_str(),
                    self.column.name(),
                    impl_expr.as_str(),
                    self.result_text(&cases[i]).as_str(),
                    self.error.as_str(),
                    RepositoryOptions::query_fn_generics(self.any_nested),
                    RepositoryOptions::query_fn_op_arg(self.any_nested),
                    RepositoryOptions::query_fn_op_traits(self.any_nested),
                ),
            );
            i = i + 1;
        }
        assert(parts.deep_view() =~= Seq::new(
            self.cases().len(),
            |i: int| self.delegate_code(self.cases()[i]),
        ));
        join(&parts, "\n")
    }
}

/// Without a restriction a repository that has scopes runs the query that one
/// without scopes runs.
pub proof fn all_scopes_find_as_unscoped(f: &FindByFn, plain: &FindByFn, case: FindCase)
    requires
        f.scope is Some,
        *plain == (FindByFn { scope: None, ..*f }),
    ensures
        f.find_code(case) == f.scope->0.dispatched(
            plain.find_code(case),
            Seq::new(
                f.scope->0.cols.len() as nat,
                |i: int| f.call(case, Some(f.scope->0.cols@[i])),
            ),
        ),
{
}

/// The query that is restricted to a scope is the one that is not, with the
/// condition on the scope column as one more.
pub proof fn scope_adds_a_condition(f: &FindByFn, case: FindCase, col: ScopeCol)
    ensures
        exists|front: Seq<char>, back: Seq<char>|
            f.query(case, None) == front + back && f.query(case, Some(col)) == #[trigger] (front
                + (" AND "@ + col.condition(2)) + back),
{
    let front = "SELECT id FROM "@ + f.table_name@ + " WHERE "@ + f.column.name@ + " = $1"@;
    let back = if case.variant == DeleteOption::No {
        f.delete.not_deleted()
    } else {
        ""@
    };
    assert(f.query(case, None) =~= front + back);
    assert(f.query(case, Some(col)) =~= front + (" AND "@ + col.condition(2)) + back);
}

} // verus!
