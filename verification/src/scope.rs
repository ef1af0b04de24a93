//! Restricting every read of a repository to the rows of one scope.

use vstd::prelude::*;
use vstd::string::*;

use crate::options::column::Column;
use crate::options::columns::{columns_of, Pick};
use crate::options::repository::RepositoryOptions;
use crate::text::{join, joined, literal, param, param_text, quote};

verus! {

/// A column that reads can be restricted to one value of.
pub struct ScopeCol<'a> {
    /// The variant of the scope type that stands for the column.
    pub variant: String,
    pub column_name: &'a str,
    /// The type of the value that the column is compared with.
    pub column_ty: String,
}

impl<'a> ScopeCol<'a> {
    /// The condition that restricts a query, with the value in `$idx`.
    pub open spec fn condition(&self, idx: nat) -> Seq<char> {
        self.column_name@ + " = "@ + param(idx)
    }

    /// The argument of a query that is restricted.
    pub open spec fn arg(&self) -> Seq<char> {
        "__scope_val as &"@ + self.column_ty@ + ","@
    }

    /// Whether this is the scope column for the column `c`.
    pub open spec fn stands_for(&self, c: Column) -> bool {
        &&& self.variant@ == c.scope_variant_name()
        &&& self.column_name@ == c.name@
        &&& self.column_ty@ == c.scope_type()
    }

    /// The condition that restricts a query, with the value in `$param_idx`.
    pub fn predicate(&self, param_idx: u32) -> (res: String)
        ensures
            res@ == self.condition(param_idx as nat),
    {
        self.column_name.to_string().concat(" = ").concat(param_text(param_idx as usize).as_str())
    }

    /// The argument of a query that is restricted.
    pub fn arg_tokens(&self) -> (res: String)
        ensures
            res@ == self.arg(),
    {
        "__scope_val as &".to_string().concat(self.column_ty.as_str()).concat(",")
    }
}

/// The scope of a repository: a type with a variant for each scope column, and
/// one for no restriction.
pub struct ScopeInfo<'a> {
    pub scope_ty: String,
    /// The scope columns, in the order in which they were declared.
    pub cols: Vec<ScopeCol<'a>>,
}

/// The choice of a query by the scope.
pub open spec fn dispatch_match_code(
    scope_ty: Seq<char>,
    all_arm: Seq<char>,
    arms: Seq<char>,
) -> Seq<char> {
    "match &__scope {
    "@ + scope_ty + "::All => "@ + all_arm + ",
    "@ + arms + "
}"@
}

/// The choice of a query by the scope.
fn dispatch_match(scope_ty: &str, all_arm: &str, arms: &str) -> (res: String)
    ensures
        res@ == dispatch_match_code(scope_ty@, all_arm@, arms@),
{
    "match &__scope {
    ".to_string().concat(scope_ty).concat("::All => ").concat(all_arm).concat(",
    ").concat(arms).concat("
}")
}

/// What is chosen for one of the scope columns.
pub open spec fn dispatch_arm_code(
    scope_ty: Seq<char>,
    variant: Seq<char>,
    body: Seq<char>,
) -> Seq<char> {
    scope_ty + "::"@ + variant + "(__scope_val) => "@ + body + ","@
}

/// What is chosen for one of the scope columns.
fn dispatch_arm(scope_ty: &str, variant: &str, body: &str) -> (res: String)
    ensures
        res@ == dispatch_arm_code(scope_ty@, variant@, body@),
{
    scope_ty.to_string().concat("::").concat(variant).concat("(__scope_val) => ").concat(body).concat(",")
}

/// What is chosen for each of the scope columns.
pub open spec fn dispatch_arms(
    scope_ty: Seq<char>,
    cols: Seq<ScopeCol>,
    bodies: Seq<Seq<char>>,
) -> Seq<Seq<char>> {
    Seq::new(
        cols.len(),
        |i: int| dispatch_arm_code(scope_ty, cols[i].variant@, bodies[i]),
    )
}

impl<'a> ScopeInfo<'a> {
    /// The choice of `all_arm` without a restriction, and of the body at a
    /// column's place for that column.
    pub open spec fn dispatched(&self, all_arm: Seq<char>, bodies: Seq<Seq<char>>) -> Seq<char> {
        dispatch_match_code(
            self.scope_ty@,
            all_arm,
            joined(dispatch_arms(self.scope_ty@, self.cols@, bodies), "\n"@),
        )
    }

    /// Whether this is the scope of a repository.
    pub open spec fn scope_of(&self, opts: &RepositoryOptions) -> bool {
        &&& self.scope_ty@ == opts.entity_ident@ + "Scope"@
        &&& self.cols.len() == opts.columns.picks(Pick::Scope).len()
        &&& forall|i: int|
            0 <= i < self.cols.len() ==> (#[trigger] self.cols@[i]).stands_for(
                opts.columns.picks(Pick::Scope)[i],
            )
    }

    /// The scope of a repository; none where no column is marked `scope`.
    pub fn from_opts(opts: &'a RepositoryOptions) -> (res: Option<Self>)
        ensures
            res is Some <==> opts.columns.picks(Pick::Scope).len() > 0,
            res matches Some(info) ==> info.scope_of(opts),
    {
        let columns = opts.columns.scope_columns();
        let ghost picks = opts.columns.picks(Pick::Scope);
        assert(columns_of(columns@).len() == columns.len());
        if columns.len() == 0 {
            return None;
        }
        let mut cols: Vec<ScopeCol<'a>> = Vec::new();
        let mut i: usize = 0;
        while i < columns.len()
            invariant
                i <= columns.len(),
                picks == columns_of(columns@),
                cols.len() == i,
                forall|j: int| 0 <= j < i ==> (#[trigger] cols@[j]).stands_for(picks[j]),
            decreases columns.len() - i,
        {
            let col = columns[i];
            cols.push(
                ScopeCol {
                    variant: col.scope_variant(),
                    column_name: col.name(),
                    column_ty: col.scope_ty(),
                },
            );
            i = i + 1;
        }
        Some(ScopeInfo { scope_ty: opts.scope_type_ident(), cols })
    }

    /// The parameter of a read function that is its scope.
    pub fn fn_arg(&self) -> (res: String)
        ensures
            res@ == "scope: impl Into<"@ + self.scope_ty@ + ">,"@,
    {
        "scope: impl Into<".to_string().concat(self.scope_ty.as_str()).concat(">,")
    }

    /// The argument by which a read function hands its scope on.
    pub fn fn_pass(&self) -> (res: String)
        ensures
            res@ == "scope,"@,
    {
        "scope,".to_string()
    }

    /// The statement that converts the scope of a read function.
    pub fn convert(&self) -> (res: String)
        ensures
            res@ == "let __scope = scope.into();"@,
    {
        "let __scope = scope.into();".to_string()
    }

    /// The choice between the query without a restriction and one for each of
    /// the scope columns. In the latter `__scope_val` is bound to the value.
    pub fn dispatch(&self, all_arm: &str, bodies: &Vec<String>) -> (res: String)
        requires
            bodies.len() == self.cols.len(),
        ensures
            res@ == self.dispatched(all_arm@, bodies.deep_view()),
    {
        let mut arms: Vec<String> = Vec::new();
        let mut i: usize = 0;
        while i < self.cols.len()
            invariant
                i <= self.cols.len(),
                bodies.len() == self.cols.len(),
                arms.len() == i,
                forall|j: int|
                    0 <= j < i ==> (#[trigger] arms@[j])@ == dispatch_arm_code(
                        self.scope_ty@,
                        self.cols@[j].variant@,
                        bodies@[j]@,
                    ),
            decreases self.cols.len() - i,
        {
            arms.push(
                dispatch_arm(
                    self.scope_ty.as_str(),
                    self.cols[i].variant.as_str(),
                    bodies[i].as_str(),
                ),
            );
            i = i + 1;
        }
        assert(arms.deep_view() =~= dispatch_arms(
            self.scope_ty@,
            self.cols@,
            bodies.deep_view(),
        ));
        dispatch_match(self.scope_ty.as_str(), all_arm, join(&arms, "\n").as_str())
    }
}

/// What a read function has for its scope: a parameter, the argument that
/// hands it on, and the statement that converts it. Nothing without a scope.
pub open spec fn scope_parts(scope: Option<ScopeInfo>) -> (Seq<char>, Seq<char>, Seq<char>) {
    match scope {
        Some(info) => (
            "scope: impl Into<"@ + info.scope_ty@ + ">,"@,
            "scope,"@,
            "let __scope = scope.into();"@,
        ),
        None => (Seq::empty(), Seq::empty(), Seq::empty()),
    }
}

/// What a read function has for its scope.
pub fn scope_texts(scope: &Option<ScopeInfo<'_>>) -> (res: (String, String, String))
    ensures
        (res.0@, res.1@, res.2@) == scope_parts(*scope),
{
    match scope {
        Some(info) => (info.fn_arg(), info.fn_pass(), info.convert()),
        None => (String::new(), String::new(), String::new()),
    }
}

/// The scope type of a repository. There is no conversion from an `Option`,
/// which would make a missing value lift the restriction.
pub struct ScopeType<'a> {
    pub entity: &'a str,
    pub info: ScopeInfo<'a>,
}

/// What the scope type documents.
pub open spec fn scope_doc_code(entity: Seq<char>) -> Seq<char> {
    "Scope argument for [`"@ + entity + "`] repository reads: each column variant filters every query by that scope column, `All` reads across all scopes (audited escape hatch)."@
}

/// What the scope type documents.
fn scope_doc(entity: &str) -> (res: String)
    ensures
        res@ == scope_doc_code(entity@),
{
    "Scope argument for [`".to_string().concat(entity).concat("`] repository reads: each column variant filters every query by that scope column, `All` reads across all scopes (audited escape hatch).")
}

/// What a variant of the scope type documents.
pub open spec fn variant_doc_code(column: Seq<char>) -> Seq<char> {
    "Restricts every read to rows whose `"@ + column + "` column equals the value."@
}

/// What a variant of the scope type documents.
fn variant_doc(column: &str) -> (res: String)
    ensures
        res@ == variant_doc_code(column@),
{
    "Restricts every read to rows whose `".to_string().concat(column).concat("` column equals the value.")
}

/// A variant of the scope type.
pub open spec fn scope_variant_code(
    doc: Seq<char>,
    variant: Seq<char>,
    column_ty: Seq<char>,
) -> Seq<char> {
    "#[doc = "@ + doc + "]
"@ + variant + "("@ + column_ty + "),"@
}

/// A variant of the scope type.
fn scope_variant(doc: &str, variant: &str, column_ty: &str) -> (res: String)
    ensures
        res@ == scope_variant_code(doc@, variant@, column_ty@),
{
    "#[doc = ".to_string().concat(doc).concat("]
").concat(variant).concat("(").concat(column_ty).concat("),")
}

/// The conversions into a variant of the scope type.
pub open spec fn scope_from_impls_code(
    scope_ty: Seq<char>,
    variant: Seq<char>,
    column_ty: Seq<char>,
) -> Seq<char> {
    "impl From<"@ + column_ty + "> for "@ + scope_ty + " {
    fn from(value: "@ + column_ty + ") -> Self {
        "@ + scope_ty + "::"@ + variant + "(value)
    }
}
impl From<&"@ + column_ty + "> for "@ + scope_ty + " {
    fn from(value: &"@ + column_ty + ") -> Self {
        "@ + scope_ty + "::"@ + variant + "(*value)
    }
}"@
}

/// The conversions into a variant of the scope type.
fn scope_from_impls(scope_ty: &str, variant: &str, column_ty: &str) -> (res: String)
    ensures
        res@ == scope_from_impls_code(scope_ty@, variant@, column_ty@),
{
    "impl From<".to_string().concat(column_ty).concat("> for ").concat(scope_ty).concat(" {
    fn from(value: ").concat(column_ty).concat(") -> Self {
        ").concat(scope_ty).concat("::").concat(variant).concat("(value)
    }
}
impl From<&").concat(column_ty).concat("> for ").concat(scope_ty).concat(" {
    fn from(value: &").concat(column_ty).concat(") -> Self {
        ").concat(scope_ty).concat("::").concat(variant).concat("(*value)
    }
}")
}

/// The scope type.
pub open spec fn scope_enum_code(
    doc: Seq<char>,
    scope_ty: Seq<char>,
    variants: Seq<char>,
    from_impls: Seq<char>,
) -> Seq<char> {
    "#[doc = "@ + doc + "]
#[derive(Debug, Clone, Copy)]
pub enum "@ + scope_ty + " {
    /// No scope filter — reads across all scopes.
    All,
    "@ + variants + "
}
"@ + from_impls + "
impl From<&"@ + scope_ty + "> for "@ + scope_ty + " {
    fn from(value: &"@ + scope_ty + ") -> Self {
        *value
    }
}"@
}

/// The scope type.
fn scope_enum(doc: &str, scope_ty: &str, variants: &str, from_impls: &str) -> (res: String)
    ensures
        res@ == scope_enum_code(doc@, scope_ty@, variants@, from_impls@),
{
    "#[doc = ".to_string().concat(doc).concat("]
#[derive(Debug, Clone, Copy)]
pub enum ").concat(scope_ty).concat(" {
    /// No scope filter — reads across all scopes.
    All,
    ").concat(variants).concat("
}
").concat(from_impls).concat("
impl From<&").concat(scope_ty).concat("> for ").concat(scope_ty).concat(" {
    fn from(value: &").concat(scope_ty).concat(") -> Self {
        *value
    }
}")
}

impl<'a> ScopeType<'a> {
    pub open spec fn variants(&self) -> Seq<Seq<char>> {
        Seq::new(
            self.info.cols.len() as nat,
            |i: int|
                scope_variant_code(
                    literal(variant_doc_code(self.info.cols@[i].column_name@)),
                    self.info.cols@[i].variant@,
                    self.info.cols@[i].column_ty@,
                ),
        )
    }

    pub open spec fn conversions(&self) -> Seq<Seq<char>> {
        Seq::new(
            self.info.cols.len() as nat,
            |i: int|
                scope_from_impls_code(
                    self.info.scope_ty@,
                    self.info.cols@[i].variant@,
                    self.info.cols@[i].column_ty@,
                ),
        )
    }

    /// The type with its conversions.
    #[verifier::opaque]
    pub open spec fn code(&self) -> Seq<char> {
        scope_enum_code(
            literal(scope_doc_code(self.entity@)),
            self.info.scope_ty@,
            joined(self.variants(), "\n"@),
            joined(self.conversions(), "\n"@),
        )
    }

    /// The scope type of a repository; none without scope columns.
    pub fn new(opts: &'a RepositoryOptions) -> (res: Option<Self>)
        ensures
            res is Some <==> opts.columns.picks(Pick::Scope).len() > 0,
            res matches Some(t) ==> t.entity@ == opts.entity_ident@ && t.info.scope_of(opts),
    {
        match ScopeInfo::from_opts(opts) {
            Some(info) => Some(ScopeType { entity: opts.entity(), info }),
            None => None,
        }
    }

    /// Appends the type with its conversions.
    pub fn to_tokens(&self, tokens: &mut String)
        ensures
            final(tokens)@ == old(tokens)@ + self.code(),
    {
        proof {
            reveal(ScopeType::code);
        }
        let scope_ty = self.info.scope_ty.as_str();
        let mut variants: Vec<String> = Vec::new();
        let mut from_impls: Vec<String> = Vec::new();
        let mut i: usize = 0;
        while i < self.info.cols.len()
            invariant
                i <= self.info.cols.len(),
                scope_ty@ == self.info.scope_ty@,
                variants.len() == i,
                from_impls.len() == i,
                forall|j: int| 0 <= j < i ==> (#[trigger] variants@[j])@ == self.variants()[j],
                forall|j: int|
                    0 <= j < i ==> (#[trigger] from_impls@[j])@ == self.conversions()[j],
            decreases self.info.cols.len() - i,
        {
            let col = &self.info.cols[i];
            let doc = variant_doc(col.column_name);
            variants.push(
                scope_variant(
                    quote(doc.as_str()).as_str(),
                    col.variant.as_str(),
                    col.column_ty.as_str(),
                ),
            );
            from_impls.push(
                scope_from_impls(scope_ty, col.variant.as_str(), col.column_ty.as_str()),
            );
            i = i + 1;
        }
        assert(variants.deep_view() =~= self.variants());
        assert(from_impls.deep_view() =~= self.conversions());
        let doc = scope_doc(self.entity);
        let code = scope_enum(
            quote(doc.as_str()).as_str(),
            scope_ty,
            join(&variants, "\n").as_str(),
            join(&from_impls, "\n").as_str(),
        );
        tokens.append(code.as_str());
    }
}

} // verus!
