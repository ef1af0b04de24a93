//! The functions that find the entities with given ids.

use vstd::prelude::*;
use vstd::string::*;

use crate::list_by_fn::{es_query, query_subject_text};
use crate::naming::{cased, to_case, NameCase};
use crate::options::columns::Pick;
use crate::options::repository::RepositoryOptions;
use crate::scope::{scope_texts, ScopeCol, ScopeInfo};
use crate::text::{given, literal, only_if, quote};
use crate::types::{opt_str, opt_text};

verus! {

/// The functions that find the entities with given ids.
pub struct FindAllFn<'a> {
    pub prefix: Option<&'a str>,
    pub id: &'a str,
    pub entity: &'a str,
    pub table_name: &'a str,
    pub error: String,
    pub any_nested: bool,
    pub scope: Option<ScopeInfo<'a>>,
    /// Whether calls are traced.
    pub instrument: bool,
}

/// The attribute of the function where calls are traced.
pub open spec fn find_all_attr_code(
    span_name: Seq<char>,
    entity_name: Seq<char>,
) -> Seq<char> {
    "#[tracing::instrument(name = "@ + span_name + ", skip_all, fields(entity = "@ + entity_name + ", count = ids.len(), ids = tracing::field::debug(ids)), err(level = \"warn\"))]"@
}

/// The attribute of the function where calls are traced.
fn find_all_attr(span_name: &str, entity_name: &str) -> (res: String)
    ensures
        res@ == find_all_attr_code(span_name@, entity_name@),
{
    "#[tracing::instrument(name = ".to_string().concat(span_name).concat(", skip_all, fields(entity = ").concat(entity_name).concat(", count = ids.len(), ids = tracing::field::debug(ids)), err(level = \"warn\"))]")
}

/// The call of the query.
pub open spec fn find_all_call_code(es_query: Seq<char>) -> Seq<char> {
    es_query + ".fetch_n(op, ids.len()).await?"@
}

/// The call of the query.
fn find_all_call(es_query: &str) -> (res: String)
    ensures
        res@ == find_all_call_code(es_query@),
{
    es_query.to_string().concat(".fetch_n(op, ids.len()).await?")
}

/// The functions.
pub open spec fn find_all_fns_code(
    entity: Seq<char>,
    scope_fn_arg: Seq<char>,
    id: Seq<char>,
    error: Seq<char>,
    query_fn_get_op: Seq<char>,
    scope_fn_pass: Seq<char>,
    instrument_attr: Seq<char>,
    generics: Seq<char>,
    op_param: Seq<char>,
    scope_convert: Seq<char>,
    find: Seq<char>,
) -> Seq<char> {
    "pub async fn find_all<Out: From<"@ + entity + ">>(
    &self,
    "@ + scope_fn_arg + "
    ids: &["@ + id + "]
) -> Result<std::collections::HashMap<"@ + id + ", Out>, "@ + error + "> {
    self.find_all_in_op("@ + query_fn_get_op + ", "@ + scope_fn_pass + " ids).await
}
"@ + instrument_attr + "
pub async fn find_all_in_op "@ + generics + "(
    &self,
    "@ + op_param + ",
    "@ + scope_fn_arg + "
    ids: &["@ + id + "]
) -> Result<std::collections::HashMap<"@ + id + ", Out>, "@ + error + "> {
    "@ + scope_convert + "
    let (entities, _) = "@ + find + ";
    Ok(entities.into_iter().map(|u| (u.id.clone(), Out::from(u))).collect())
}"@
}

/// The functions.
pub fn find_all_fns(
    entity: &str,
    scope_fn_arg: &str,
    id: &str,
    error: &str,
    query_fn_get_op: &str,
    scope_fn_pass: &str,
    instrument_attr: &str,
    generics: &str,
    op_param: &str,
    scope_convert: &str,
    find: &str,
) -> (res: String)
    ensures
        res@ == find_all_fns_code(
            entity@,
            scope_fn_arg@,
            id@,
            error@,
            query_fn_get_op@,
            scope_fn_pass@,
            instrument_attr@,
            generics@,
            op_param@,
            scope_convert@,
            find@,
        ),
{
    "pub async fn find_all<Out: From<".to_string().concat(entity).concat(">>(
    &self,
    ").concat(scope_fn_arg).concat("
    ids: &[").concat(id).concat("]
) -> Result<std::collections::HashMap<").concat(id).concat(", Out>, ").concat(error).concat("> {
    self.find_all_in_op(").concat(query_fn_get_op).concat(", ").concat(scope_fn_pass).concat(" ids).await
}
").concat(instrument_attr).concat("
pub async fn find_all_in_op ").concat(generics).concat("(
    &self,
    ").concat(op_param).concat(",
    ").concat(scope_fn_arg).concat("
    ids: &[").concat(id).concat("]
) -> Result<std::collections::HashMap<").concat(id).concat(", Out>, ").concat(error).concat("> {
    ").concat(scope_convert).concat("
    let (entities, _) = ").concat(find).concat(";
    Ok(entities.into_iter().map(|u| (u.id.clone(), Out::from(u))).collect())
}")
}

/// The functions of the view that is bound to a scope.
pub open spec fn find_all_delegates_code(
    entity: Seq<char>,
    id: Seq<char>,
    error: Seq<char>,
    generics: Seq<char>,
    op_param: Seq<char>,
) -> Seq<char> {
    "pub async fn find_all<Out: From<"@ + entity + ">>(
    &self,
    ids: &["@ + id + "]
) -> Result<std::collections::HashMap<"@ + id + ", Out>, "@ + error + "> {
    self.repo.find_all(self.scope, ids).await
}
pub async fn find_all_in_op "@ + generics + "(
    &self,
    "@ + op_param + ",
    ids: &["@ + id + "]
) -> Result<std::collections::HashMap<"@ + id + ", Out>, "@ + error + "> {
    self.repo.find_all_in_op(op, self.scope, ids).await
}"@
}

/// The functions of the view that is bound to a scope.
pub fn find_all_delegates(
    entity: &str,
    id: &str,
    error: &str,
    generics: &str,
    op_param: &str,
) -> (res: String)
    ensures
        res@ == find_all_delegates_code(entity@, id@, error@, generics@, op_param@),
{
    "pub async fn find_all<Out: From<".to_string().concat(entity).concat(">>(
    &self,
    ids: &[").concat(id).concat("]
) -> Result<std::collections::HashMap<").concat(id).concat(", Out>, ").concat(error).concat("> {
    self.repo.find_all(self.scope, ids).await
}
pub async fn find_all_in_op ").concat(generics).concat("(
    &self,
    ").concat(op_param).concat(",
    ids: &[").concat(id).concat("]
) -> Result<std::collections::HashMap<").concat(id).concat(", Out>, ").concat(error).concat("> {
    self.repo.find_all_in_op(op, self.scope, ids).await
}")
}

impl<'a> FindAllFn<'a> {
    /// The query: `$1` are the ids, `$2` is the value of the scope.
    pub open spec fn query(&self, scope: Option<ScopeCol>) -> Seq<char> {
        "SELECT id FROM "@ + self.table_name@ + " WHERE id = ANY($1)"@ + (match scope {
            Some(col) => " AND "@ + col.condition(2),
            None => Seq::empty(),
        })
    }

    /// The call of the query.
    pub open spec fn call(&self, scope: Option<ScopeCol>) -> Seq<char> {
        find_all_call_code(
            crate::list_by_fn::es_query_code(
                crate::list_by_fn::query_subject(opt_str(self.prefix), self.entity@),
                ""@,
                ""@,
                literal(self.query(scope)),
                "ids as &["@ + self.id@ + "],"@ + (match scope {
                    Some(col) => " "@ + col.arg(),
                    None => Seq::empty(),
                }),
            ),
        )
    }

    /// The choice of the query by the scope.
    pub open spec fn find_code(&self) -> Seq<char> {
        match self.scope {
            Some(info) => info.dispatched(
                self.call(None),
                Seq::new(info.cols.len() as nat, |i: int| self.call(Some(info.cols@[i]))),
            ),
            None => self.call(None),
        }
    }

    pub open spec fn generics(&self) -> Seq<char> {
        if self.any_nested {
            "<Out: From<"@ + self.entity@ + ">>"@
        } else {
            "<'a, Out: From<"@ + self.entity@ + ">>"@
        }
    }

    pub open spec fn op_param(&self) -> Seq<char> {
        (if self.any_nested {
            "op: &mut impl "@
        } else {
            "op: impl "@
        }) + crate::options::repository::query_op_traits(self.any_nested)
    }

    /// The functions.
    #[verifier::opaque]
    pub open spec fn code(&self) -> Seq<char> {
        let scope = crate::scope::scope_parts(self.scope);
        find_all_fns_code(
            self.entity@,
            scope.0,
            self.id@,
            self.error@,
            crate::options::repository::query_get_op(self.any_nested),
            scope.1,
            only_if(
                self.instrument,
                find_all_attr_code(
                    literal("es."@ + cased(self.entity@, NameCase::Snake) + ".find_all"@),
                    literal(self.entity@),
                ),
            ),
            self.generics(),
            self.op_param(),
            scope.2,
            self.find_code(),
        )
    }

    /// The functions of the view that is bound to a scope.
    #[verifier::opaque]
    pub open spec fn delegates(&self) -> Seq<char> {
        only_if(
            self.scope is Some,
            find_all_delegates_code(
                self.entity@,
                self.id@,
                self.error@,
                self.generics(),
                self.op_param(),
            ),
        )
    }

    /// Whether this is what the options of a repository ask for.
    pub open spec fn made_from(&self, opts: &RepositoryOptions) -> bool {
        &&& opt_str(self.prefix) == opt_text(opts.prefix)
        &&& self.id@ == opts.id_text()
        &&& self.entity@ == opts.entity_ident@
        &&& self.table_name@ == opts.table_text()
        &&& self.error@ == opts.entity_ident@ + "QueryError"@
        &&& self.any_nested == (opts.nested().len() > 0)
        &&& self.scope is Some <==> opts.columns.picks(Pick::Scope).len() > 0
        &&& self.scope matches Some(info) ==> info.scope_of(opts)
        &&& self.instrument == opts.features.instrument
    }

    pub fn from(opts: &'a RepositoryOptions) -> (res: Self)
        requires
            opts.ready(),
            opts.is_struct(),
        ensures
            res.made_from(opts),
    {
        FindAllFn {
            prefix: opts.table_prefix(),
            id: opts.id(),
            entity: opts.entity(),
            table_name: opts.table_name(),
            error: opts.query_error(),
            any_nested: opts.any_nested(),
            scope: ScopeInfo::from_opts(opts),
            instrument: opts.features.instrument,
        }
    }

    fn call_text(&self, scope: Option<&ScopeCol<'a>>) -> (res: String)
        ensures
            res@ == self.call(
                match scope {
                    Some(col) => Some(*col),
                    None => None,
                },
            ),
    {
        let (condition, arg) = match scope {
            Some(col) => (
                " AND ".to_string().concat(col.predicate(2).as_str()),
                " ".to_string().concat(col.arg_tokens().as_str()),
            ),
            None => (String::new(), String::new()),
        };
        let query = "SELECT id FROM ".to_string().concat(self.table_name).concat(
            " WHERE id = ANY($1)",
        ).concat(condition.as_str());
        let args = "ids as &[".to_string().concat(self.id).concat("],").concat(arg.as_str());
        find_all_call(
            es_query(
                query_subject_text(self.prefix, self.entity).as_str(),
                "",
                "",
                quote(query.as_str()).as_str(),
                args.as_str(),
            ).as_str(),
        )
    }

    fn find_text(&self) -> (res: String)
        ensures
            res@ == self.find_code(),
    {
        let all_arm = self.call_text(None);
        match &self.scope {
            Some(info) => {
                let mut bodies: Vec<String> = Vec::new();
                let mut i: usize = 0;
                while i < info.cols.len()
                    invariant
                        i <= info.cols.len(),
                        bodies.len() == i,
                        forall|j: int|
                            0 <= j < i ==> (#[trigger] bodies@[j])@ == self.call(
                                Some(info.cols@[j]),
                            ),
                    decreases info.cols.len() - i,
                {
                    bodies.push(self.call_text(Some(&info.cols[i])));
                    i = i + 1;
                }
                assert(bodies.deep_view() =~= Seq::new(
                    info.cols.len() as nat,
                    |i: int| self.call(Some(info.cols@[i])),
                ));
                info.dispatch(all_arm.as_str(), &bodies)
            },
            None => all_arm,
        }
    }

    fn generics_text(&self) -> (res: String)
        ensures
            res@ == self.generics(),
    {
        if self.any_nested {
            "<Out: From<".to_string().concat(self.entity).concat(">>")
        } else {
            "<'a, Out: From<".to_string().concat(self.entity).concat(">>")
        }
    }

    fn op_param_text(&self) -> (res: String)
        ensures
            res@ == self.op_param(),
    {
        let front = if self.any_nested {
            "op: &mut impl "
        } else {
            "op: impl "
        };
        front.to_string().concat(RepositoryOptions::query_fn_op_traits(self.any_nested))
    }

    /// Appends the functions.
    pub fn to_tokens(&self, tokens: &mut String)
        ensures
            final(tokens)@ == old(tokens)@ + self.code(),
    {
        proof {
            reveal(FindAllFn::code);
        }
        let (scope_fn_arg, scope_fn_pass, scope_convert) = scope_texts(&self.scope);
        let span_name = "es.".to_string().concat(
            to_case(self.entity, NameCase::Snake).as_str(),
        ).concat(".find_all");
        let attr = find_all_attr(quote(span_name.as_str()).as_str(), quote(self.entity).as_str());
        let code = find_all_fns(
            self.entity,
            scope_fn_arg.as_str(),
            self.id,
            self.error.as_str(),
            RepositoryOptions::query_fn_get_op(self.any_nested),
            scope_fn_pass.as_str(),
            given(self.instrument, attr.as_str()).as_str(),
            self.generics_text().as_str(),
            self.op_param_text().as_str(),
            scope_convert.as_str(),
            self.find_text().as_str(),
        );
        tokens.append(code.as_str());
    }

    /// The functions of the view that is bound to a scope; none without a
    /// scope.
    pub fn scoped_delegates(&self) -> (res: String)
        ensures
            res@ == self.delegates(),
    {
        proof {
            reveal(FindAllFn::delegates);
        }
        let code = find_all_delegates(
            self.entity,
            self.id,
            self.error.as_str(),
            self.generics_text().as_str(),
            self.op_param_text().as_str(),
        );
        given(self.scope.is_some(), code.as_str())
    }
}

/// Without a restriction a repository that has scopes runs the query that one
/// without scopes runs.
pub proof fn all_scopes_find_all_as_unscoped(f: &FindAllFn, plain: &FindAllFn)
    requires
        f.scope is Some,
        *plain == (FindAllFn { scope: None, ..*f }),
    ensures
        f.find_code() == f.scope->0.dispatched(
            plain.find_code(),
            Seq::new(f.scope->0.cols.len() as nat, |i: int| f.call(Some(f.scope->0.cols@[i]))),
        ),
{
}

/// The query that is restricted to a scope is the one that is not, with the
/// condition on the scope column behind it.
pub proof fn scope_adds_a_condition_to_all(f: &FindAllFn, col: ScopeCol)
    ensures
        f.query(Some(col)) == f.query(None) + (" AND "@ + col.condition(2)),
{
    assert(f.query(None) =~= "SELECT id FROM "@ + f.table_name@ + " WHERE id = ANY($1)"@);
}

} // verus!
