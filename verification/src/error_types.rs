//! The error types of a repository.

use vstd::prelude::*;
use vstd::string::*;

use crate::naming::{cased, number_form, pluralize, to_case, NameCase};
use crate::options::column::Column;
use crate::options::columns::{columns_of, Pick};
use crate::options::repository::{fields_of, nested_have_names, RepoField, RepositoryOptions};
use crate::text::{end_each, ended, literal, quote, same};
use crate::tokens::{mentions, token_stream_contains_any, TokenTree};
use crate::types::{opt_str, TypeExpr};

verus! {

/// The error types of a repository.
pub struct ErrorTypes<'a> {
    pub entity: &'a str,
    pub column_enum: String,
    pub create_error: String,
    pub modify_error: String,
    pub find_error: String,
    pub query_error: String,
    pub column_variants: Vec<ColumnVariant>,
    pub nested: Vec<NestedErrorInfo>,
    /// The error of the hook that runs when an entity was read.
    pub post_hydrate_error: Option<&'a str>,
}

/// A column as errors name it, and the constraints whose violation is one of
/// its uniqueness.
pub struct ColumnVariant {
    pub variant_name: String,
    pub column_name: String,
    pub constraint_names: Vec<String>,
}

/// A nested repository as errors name it.
pub struct NestedErrorInfo {
    pub child_repo_ty: String,
    pub variant_name: String,
    /// The entity of the nested repository, where errors are named after it.
    /// Otherwise they are types that belong to the repository's type.
    pub nested_entity: Option<String>,
}

/// The constraints whose violation is one of the column's uniqueness.
pub open spec fn constraints_of(c: Column, table: Seq<char>) -> Seq<Seq<char>> {
    let key = seq![table + "_"@ + c.name@ + "_key"@];
    let own = if c.opts.is_id {
        key.push(table + "_pkey"@)
    } else {
        key
    };
    match c.opts.constraint {
        Some(custom) => own.push(custom@),
        None => own,
    }
}

impl ColumnVariant {
    /// Whether this stands for the column `c` of a table.
    pub open spec fn stands_for(&self, c: Column, table: Seq<char>) -> bool {
        &&& self.variant_name@ == cased(c.name@, NameCase::UpperCamel)
        &&& self.column_name@ == c.name@
        &&& self.constraint_names.deep_view() == constraints_of(c, table)
    }

    /// What stands for a column of a table.
    pub fn for_column(col: &Column, table_name: &str) -> (res: ColumnVariant)
        ensures
            res.stands_for(*col, table_name@),
    {
        let mut constraint_names: Vec<String> = Vec::new();
        constraint_names.push(
            table_name.to_string().concat("_").concat(col.name()).concat("_key"),
        );
        if col.opts.is_id {
            constraint_names.push(table_name.to_string().concat("_pkey"));
        }
        match col.custom_constraint() {
            Some(custom) => constraint_names.push(custom.to_string()),
            None => {},
        }
        assert(constraint_names.deep_view() =~= constraints_of(*col, table_name@));
        ColumnVariant {
            variant_name: to_case(col.name(), NameCase::UpperCamel),
            column_name: col.name().to_string(),
            constraint_names,
        }
    }
}

/// Whether the name ends in `Repo`.
pub open spec fn ends_in_repo(name: Seq<char>) -> bool {
    name.len() >= 4 && name.skip(name.len() - 4) == "Repo"@
}

/// The entity that a repository is named after: its name without `Repo` at the
/// end, or else its singular. None where neither changes the name.
pub open spec fn entity_by_convention(name: Seq<char>, singular: Seq<char>) -> Option<Seq<char>> {
    if ends_in_repo(name) && name.len() > 4 {
        Some(name.take(name.len() - 4))
    } else if singular != name {
        Some(singular)
    } else {
        None
    }
}

/// The entity that a repository of this type is named after.
pub open spec fn entity_of_type(ty: TypeExpr, singular: Seq<char>) -> Option<Seq<char>> {
    if ty.segments.len() == 0 {
        None
    } else {
        entity_by_convention(ty.segments@.last()@, singular)
    }
}

/// Whether this is a singular of the name of the type, where it has one.
pub open spec fn singular_fits(ty: TypeExpr, singular: Seq<char>) -> bool {
    ty.segments.len() > 0 ==> number_form(ty.segments@.last()@, 1, singular)
}

/// The word and the count that the singular of the type's name is asked with;
/// nothing for a type that is no path.
pub fn singular_request(ty: &TypeExpr) -> (res: Option<(&str, isize)>)
    ensures
        match res {
            Some((word, count)) => ty.segments.len() > 0 && word@ == ty.segments@.last()@ && count
                == 1,
            None => ty.segments.len() == 0,
        },
{
    if ty.segments.len() == 0 {
        None
    } else {
        Some((ty.segments[ty.segments.len() - 1].as_str(), 1))
    }
}

/// The entity that a repository is named after, where the singular of its name
/// is `singular`.
pub fn entity_from_name(name: &str, singular: &str) -> (res: Option<String>)
    ensures
        crate::types::opt_text(res) == entity_by_convention(name@, singular@),
{
    let n: usize = name.unicode_len();
    if n >= 4 {
        let end = name.substring_char(n - 4, n);
        assert(end@ =~= name@.skip(n - 4));
        if n > 4 && same(end, "Repo") {
            let front = name.substring_char(0, n - 4);
            assert(front@ =~= name@.take(n - 4));
            return Some(front.to_string());
        }
    }
    if same(singular, name) {
        None
    } else {
        Some(singular.to_string())
    }
}

/// The entity that a repository of this type is named after: the type's name
/// without `Repo` at the end, or else the singular of the name. None where
/// neither changes the name, and for a type that is no path.
pub fn derive_entity_from_repo_type(ty: &TypeExpr) -> (res: Option<String>)
    ensures
        exists|singular: Seq<char>|
            singular_fits(*ty, singular) && crate::types::opt_text(res)
                == #[trigger] entity_of_type(*ty, singular),
{
    match singular_request(ty) {
        None => {
            assert(crate::types::opt_text(None) == entity_of_type(*ty, Seq::empty()));
            None
        },
        Some((name, count)) => {
            let singular = pluralize(name, count);
            let res = entity_from_name(name, singular.as_str());
            assert(crate::types::opt_text(res) == entity_of_type(*ty, singular@));
            res
        },
    }
}

/// Whether a type mentions one of the generic parameters.
pub fn type_uses_any_generic(ty: &Vec<TokenTree>, names: &Vec<String>) -> (res: bool)
    ensures
        res == mentions(ty@, names.deep_view()),
{
    token_stream_contains_any(ty, names)
}

/// The entity that errors of a nested repository are named after: the one that
/// is given; or, where the repository's type mentions a generic parameter, the
/// one that it is named after.
pub open spec fn nested_entity_of(f: RepoField, generics: Seq<Seq<char>>, singular: Seq<char>) -> Option<
    Seq<char>,
> {
    match f.entity {
        Some(entity) => Some(entity@),
        None => if mentions(f.ty_tokens@, generics) {
            entity_of_type(f.ty, singular)
        } else {
            None
        },
    }
}

/// A part of an error type that there is for each nested repository.
#[derive(Clone, Copy)]
pub enum NestedPart {
    Variant,
    Display,
    Source,
    FromImpl,
    Concurrent,
    Duplicate,
}

/// The variant of an error type for a nested repository.
pub open spec fn nested_variant_code(
    variant: Seq<char>,
    child_error_ty: Seq<char>,
) -> Seq<char> {
    variant + "("@ + child_error_ty + "),"@
}

/// The variant of an error type for a nested repository.
fn nested_variant(variant: &str, child_error_ty: &str) -> (res: String)
    ensures
        res@ == nested_variant_code(variant@, child_error_ty@),
{
    variant.to_string().concat("(").concat(child_error_ty).concat("),")
}

/// How an error of a nested repository is displayed.
pub open spec fn nested_display_code(variant: Seq<char>) -> Seq<char> {
    "Self::"@ + variant + "(e) => write!(f, \"{}: {}\", stringify!("@ + variant + "), e),"@
}

/// How an error of a nested repository is displayed.
fn nested_display(variant: &str) -> (res: String)
    ensures
        res@ == nested_display_code(variant@),
{
    "Self::".to_string().concat(variant).concat("(e) => write!(f, \"{}: {}\", stringify!(").concat(variant).concat("), e),")
}

/// The source of an error of a nested repository.
pub open spec fn nested_source_code(variant: Seq<char>) -> Seq<char> {
    "Self::"@ + variant + "(e) => Some(e),"@
}

/// The source of an error of a nested repository.
fn nested_source(variant: &str) -> (res: String)
    ensures
        res@ == nested_source_code(variant@),
{
    "Self::".to_string().concat(variant).concat("(e) => Some(e),")
}

/// The conversion of an error of a nested repository.
pub open spec fn nested_from_code(
    child_error_ty: Seq<char>,
    error: Seq<char>,
    variant: Seq<char>,
) -> Seq<char> {
    "impl From<"@ + child_error_ty + "> for "@ + error + " {
    fn from(e: "@ + child_error_ty + ") -> Self {
        Self::"@ + variant + "(e)
    }
}"@
}

/// The conversion of an error of a nested repository.
fn nested_from(child_error_ty: &str, error: &str, variant: &str) -> (res: String)
    ensures
        res@ == nested_from_code(child_error_ty@, error@, variant@),
{
    "impl From<".to_string().concat(child_error_ty).concat("> for ").concat(error).concat(" {
    fn from(e: ").concat(child_error_ty).concat(") -> Self {
        Self::").concat(variant).concat("(e)
    }
}")
}

/// Whether an error of a nested repository is a concurrent modification.
pub open spec fn nested_concurrent_code(variant: Seq<char>) -> Seq<char> {
    "Self::"@ + variant + "(e) => e.was_concurrent_modification(),"@
}

/// Whether an error of a nested repository is a concurrent modification.
fn nested_concurrent(variant: &str) -> (res: String)
    ensures
        res@ == nested_concurrent_code(variant@),
{
    "Self::".to_string().concat(variant).concat("(e) => e.was_concurrent_modification(),")
}

/// The duplicate value of an error of a nested repository.
pub open spec fn nested_duplicate_code(variant: Seq<char>) -> Seq<char> {
    "Self::"@ + variant + "(e) => e.duplicate_value(),"@
}

/// The duplicate value of an error of a nested repository.
fn nested_duplicate(variant: &str) -> (res: String)
    ensures
        res@ == nested_duplicate_code(variant@),
{
    "Self::".to_string().concat(variant).concat("(e) => e.duplicate_value(),")
}

/// A part of an error type for the variant of a nested repository.
pub open spec fn nested_part(
    part: NestedPart,
    variant: Seq<char>,
    ty: Seq<char>,
    error: Seq<char>,
) -> Seq<char> {
    match part {
        NestedPart::Variant => nested_variant_code(variant, ty),
        NestedPart::Display => nested_display_code(variant),
        NestedPart::Source => nested_source_code(variant),
        NestedPart::FromImpl => nested_from_code(ty, error, variant),
        NestedPart::Concurrent => nested_concurrent_code(variant),
        NestedPart::Duplicate => nested_duplicate_code(variant),
    }
}

fn nested_part_text(part: NestedPart, variant: &str, ty: &str, error: &str) -> (res: String)
    ensures
        res@ == nested_part(part, variant@, ty@, error@),
{
    match part {
        NestedPart::Variant => nested_variant(variant, ty),
        NestedPart::Display => nested_display(variant),
        NestedPart::Source => nested_source(variant),
        NestedPart::FromImpl => nested_from(ty, error, variant),
        NestedPart::Concurrent => nested_concurrent(variant),
        NestedPart::Duplicate => nested_duplicate(variant),
    }
}

impl NestedErrorInfo {
    /// An error type of the nested repository.
    pub open spec fn error_ty(&self, kind: Seq<char>) -> Seq<char> {
        match self.nested_entity {
            Some(entity) => entity@ + kind,
            None => "<"@ + self.child_repo_ty@ + " as es_entity::EsRepo>::"@ + kind,
        }
    }

    /// A part of the error of creating an entity.
    pub open spec fn create_part(&self, part: NestedPart, error: Seq<char>) -> Seq<char> {
        nested_part(part, self.variant_name@, self.error_ty("CreateError"@), error)
    }

    /// A part of the error of changing an entity, which can change nested ones
    /// and create them.
    pub open spec fn modify_part(&self, part: NestedPart, error: Seq<char>) -> Seq<char> {
        nested_part(
            part,
            self.variant_name@ + "Modify"@,
            self.error_ty("ModifyError"@),
            error,
        ) + "\n"@ + nested_part(
            part,
            self.variant_name@ + "Create"@,
            self.error_ty("CreateError"@),
            error,
        )
    }

    /// Whether this stands for a nested repository.
    pub open spec fn stands_for(
        &self,
        f: RepoField,
        generics: Seq<Seq<char>>,
        singular: Seq<char>,
    ) -> bool {
        &&& self.child_repo_ty@ == f.ty.text@
        &&& self.variant_name@ == cased(f.label(), NameCase::UpperCamel)
        &&& crate::types::opt_text(self.nested_entity) == nested_entity_of(f, generics, singular)
    }

    /// Whether this stands for a nested repository, for some singular of the
    /// name of its type.
    pub open spec fn stands(&self, f: RepoField, generics: Seq<Seq<char>>) -> bool {
        exists|singular: Seq<char>|
            singular_fits(f.ty, singular) && #[trigger] self.stands_for(f, generics, singular)
    }

    /// What stands for a nested repository, where the singular of the name of
    /// its type is `singular`.
    pub fn for_field(f: &RepoField, generics: &Vec<String>, singular: &str) -> (res: Self)
        requires
            f.ident is Some,
        ensures
            res.stands_for(*f, generics.deep_view(), singular@),
    {
        let nested_entity = match &f.entity {
            Some(entity) => Some(entity.clone()),
            None => if type_uses_any_generic(&f.ty_tokens, generics) && f.ty.segments.len() > 0 {
                entity_from_name(f.ty.segments[f.ty.segments.len() - 1].as_str(), singular)
            } else {
                None
            },
        };
        NestedErrorInfo {
            child_repo_ty: f.ty.text.clone(),
            variant_name: f.nested_variant_name(),
            nested_entity,
        }
    }

    fn error_ty_text(&self, kind: &str) -> (res: String)
        ensures
            res@ == self.error_ty(kind@),
    {
        match &self.nested_entity {
            Some(entity) => entity.clone().concat(kind),
            None => "<".to_string().concat(self.child_repo_ty.as_str()).concat(
                " as es_entity::EsRepo>::",
            ).concat(kind),
        }
    }

    /// The error of creating an entity of the nested repository.
    pub fn create_error_ty(&self) -> (res: String)
        ensures
            res@ == self.error_ty("CreateError"@),
    {
        self.error_ty_text("CreateError")
    }

    /// The error of changing an entity of the nested repository.
    pub fn modify_error_ty(&self) -> (res: String)
        ensures
            res@ == self.error_ty("ModifyError"@),
    {
        self.error_ty_text("ModifyError")
    }

    fn part_text(&self, part: NestedPart, error: &str, modify: bool) -> (res: String)
        ensures
            res@ == if modify {
                self.modify_part(part, error@)
            } else {
                self.create_part(part, error@)
            },
    {
        let create_ty = self.create_error_ty();
        if modify {
            let modify_variant = self.variant_name.clone().concat("Modify");
            let create_variant = self.variant_name.clone().concat("Create");
            nested_part_text(
                part,
                modify_variant.as_str(),
                self.modify_error_ty().as_str(),
                error,
            ).concat("\n").concat(
                nested_part_text(
                    part,
                    create_variant.as_str(),
                    create_ty.as_str(),
                    error,
                ).as_str(),
            )
        } else {
            nested_part_text(part, self.variant_name.as_str(), create_ty.as_str(), error)
        }
    }
}

/// A part of the errors for all nested repositories.
pub open spec fn nested_parts(
    nested: Seq<NestedErrorInfo>,
    part: NestedPart,
    error: Seq<char>,
    modify: bool,
) -> Seq<char> {
    ended(
        Seq::new(
            nested.len(),
            |i: int|
                if modify {
                    nested[i].modify_part(part, error)
                } else {
                    nested[i].create_part(part, error)
                },
        ),
        "\n"@,
    )
}

/// The columns as errors name them.
pub open spec fn column_enum_type_code(
    column_enum: Seq<char>,
    variants: Seq<char>,
    display_arms: Seq<char>,
) -> Seq<char> {
    "#[derive(Debug, Clone, Copy, PartialEq, Eq)]
pub enum "@ + column_enum + " {
    "@ + variants + "
}
impl std::fmt::Display for "@ + column_enum + " {
    fn fmt(&self, f: &mut std::fmt::Formatter<'_>) -> std::fmt::Result {
        match self {
            "@ + display_arms + "
        }
    }
}"@
}

/// The columns as errors name them.
pub fn column_enum_type(column_enum: &str, variants: &str, display_arms: &str) -> (res: String)
    ensures
        res@ == column_enum_type_code(column_enum@, variants@, display_arms@),
{
    "#[derive(Debug, Clone, Copy, PartialEq, Eq)]
pub enum ".to_string().concat(column_enum).concat(" {
    ").concat(variants).concat("
}
impl std::fmt::Display for ").concat(column_enum).concat(" {
    fn fmt(&self, f: &mut std::fmt::Formatter<'_>) -> std::fmt::Result {
        match self {
            ").concat(display_arms).concat("
        }
    }
}")
}

/// How a column is displayed.
pub open spec fn column_display_code(variant: Seq<char>, name: Seq<char>) -> Seq<char> {
    "Self::"@ + variant + " => write!(f, "@ + name + "),"@
}

/// How a column is displayed.
fn column_display(variant: &str, name: &str) -> (res: String)
    ensures
        res@ == column_display_code(variant@, name@),
{
    "Self::".to_string().concat(variant).concat(" => write!(f, ").concat(name).concat("),")
}

/// The column that a constraint is about.
pub open spec fn constraint_arm_code(
    name: Seq<char>,
    column_enum: Seq<char>,
    variant: Seq<char>,
) -> Seq<char> {
    "Some("@ + name + ") => Some("@ + column_enum + "::"@ + variant + "),"@
}

/// The column that a constraint is about.
fn constraint_arm(name: &str, column_enum: &str, variant: &str) -> (res: String)
    ensures
        res@ == constraint_arm_code(name@, column_enum@, variant@),
{
    "Some(".to_string().concat(name).concat(") => Some(").concat(column_enum).concat("::").concat(variant).concat("),")
}

/// The function that tells which column a constraint is about.
pub open spec fn map_constraint_fn_code(
    column_enum: Seq<char>,
    match_arms: Seq<char>,
) -> Seq<char> {
    "#[inline(always)]
fn map_constraint_column(constraint: Option<&str>) -> Option<"@ + column_enum + "> {
    match constraint {
        "@ + match_arms + "
        _ => None,
    }
}"@
}

/// The function that tells which column a constraint is about.
fn map_constraint_fn(column_enum: &str, match_arms: &str) -> (res: String)
    ensures
        res@ == map_constraint_fn_code(column_enum@, match_arms@),
{
    "#[inline(always)]
fn map_constraint_column(constraint: Option<&str>) -> Option<".to_string().concat(column_enum).concat("> {
    match constraint {
        ").concat(match_arms).concat("
        _ => None,
    }
}")
}

/// The variant for the error of the hook that runs when an entity was read.
pub open spec fn hydrate_variant_code(error_ty: Seq<char>) -> Seq<char> {
    "PostHydrateError("@ + error_ty + "),"@
}

/// The variant for the error of the hook that runs when an entity was read.
fn hydrate_variant(error_ty: &str) -> (res: String)
    ensures
        res@ == hydrate_variant_code(error_ty@),
{
    "PostHydrateError(".to_string().concat(error_ty).concat("),")
}

/// How the error of the hook is displayed.
pub open spec fn hydrate_display_code(text: Seq<char>, entity_name: Seq<char>) -> Seq<char> {
    "Self::PostHydrateError(e) => write!(f, "@ + text + ", "@ + entity_name + ", e),"@
}

/// How the error of the hook is displayed.
fn hydrate_display(text: &str, entity_name: &str) -> (res: String)
    ensures
        res@ == hydrate_display_code(text@, entity_name@),
{
    "Self::PostHydrateError(e) => write!(f, ".to_string().concat(text).concat(", ").concat(entity_name).concat(", e),")
}

/// The source of the error of the hook.
pub const HYDRATE_SOURCE: &'static str = "Self::PostHydrateError(e) => Some(e),";

/// Whether an error is one of the hook.
pub const HYDRATE_HELPER: &'static str = "pub fn was_post_hydrate_error(&self) -> bool {
    matches!(self, Self::PostHydrateError(..))
}";

/// The conversion of the error of the hook.
pub open spec fn hydrate_from_code(query_error: Seq<char>) -> Seq<char> {
    query_error + "::PostHydrateError(e) => Self::PostHydrateError(e),"@
}

/// The conversion of the error of the hook.
fn hydrate_from(query_error: &str) -> (res: String)
    ensures
        res@ == hydrate_from_code(query_error@),
{
    query_error.to_string().concat("::PostHydrateError(e) => Self::PostHydrateError(e),")
}

/// The error of creating an entity.
pub open spec fn create_error_type_code(
    create_error: Seq<char>,
    column_enum: Seq<char>,
    ph_variant: Seq<char>,
    nested_variants: Seq<char>,
    entity_name: Seq<char>,
    ph_display_arm: Seq<char>,
    nested_display_arms: Seq<char>,
    ph_source_arm: Seq<char>,
    nested_source_arms: Seq<char>,
    nested_from_impls: Seq<char>,
    nested_cm_checks: Seq<char>,
    nested_dv_checks: Seq<char>,
) -> Seq<char> {
    "#[derive(Debug)]
pub enum "@ + create_error + " {
    Sqlx(sqlx::Error),
    ConstraintViolation { column: Option<"@ + column_enum + ">, value: Option<String>, inner: sqlx::Error },
    ConcurrentModification,
    HydrationError(es_entity::EntityHydrationError),
    PostPersistHookError(sqlx::Error),
    "@ + ph_variant + "
    "@ + nested_variants + "
}
impl std::fmt::Display for "@ + create_error + " {
    fn fmt(&self, f: &mut std::fmt::Formatter<'_>) -> std::fmt::Result {
        match self {
            Self::Sqlx(e) => write!(f, \"{}CreateError - Sqlx: {}\", "@ + entity_name + ", e),
            Self::ConstraintViolation { column, value, inner } => write!(f, \"{}CreateError - ConstraintViolation({:?}, {:?}): {}\", "@ + entity_name + ", column, value, inner),
            Self::ConcurrentModification => write!(f, \"{}CreateError - ConcurrentModification\", "@ + entity_name + "),
            Self::HydrationError(e) => write!(f, \"{}CreateError - HydrationError: {}\", "@ + entity_name + ", e),
            Self::PostPersistHookError(e) => write!(f, \"{}CreateError - PostPersistHookError: {}\", "@ + entity_name + ", e),
            "@ + ph_display_arm + "
            "@ + nested_display_arms + "
        }
    }
}
impl std::error::Error for "@ + create_error + " {
    fn source(&self) -> Option<&(dyn std::error::Error + 'static)> {
        match self {
            Self::Sqlx(e) => Some(e),
            Self::ConstraintViolation { inner, .. } => Some(inner),
            Self::ConcurrentModification => None,
            Self::HydrationError(e) => Some(e),
            Self::PostPersistHookError(e) => Some(e),
            "@ + ph_source_arm + "
            "@ + nested_source_arms + "
        }
    }
}
impl From<sqlx::Error> for "@ + create_error + " {
    fn from(e: sqlx::Error) -> Self {
        Self::Sqlx(e)
    }
}
impl From<es_entity::EntityHydrationError> for "@ + create_error + " {
    fn from(e: es_entity::EntityHydrationError) -> Self {
        Self::HydrationError(e)
    }
}
"@ + nested_from_impls + "
impl "@ + create_error + " {
    pub fn was_concurrent_modification(&self) -> bool {
        match self {
            Self::ConcurrentModification => true,
            "@ + nested_cm_checks + "
            _ => false,
        }
    }
    pub fn was_duplicate(&self) -> bool {
        matches!(self, Self::ConstraintViolation { .. })
    }
    pub fn was_duplicate_by(&self, column: "@ + column_enum + ") -> bool {
        matches!(self, Self::ConstraintViolation { column: Some(c), .. } if *c == column)
    }
    pub fn duplicate_value(&self) -> Option<&str> {
        match self {
            Self::ConstraintViolation { value: Some(v), .. } => Some(v.as_str()),
            "@ + nested_dv_checks + "
            _ => None,
        }
    }
}"@
}

/// The error of creating an entity.
pub fn create_error_type(
    create_error: &str,
    column_enum: &str,
    ph_variant: &str,
    nested_variants: &str,
    entity_name: &str,
    ph_display_arm: &str,
    nested_display_arms: &str,
    ph_source_arm: &str,
    nested_source_arms: &str,
    nested_from_impls: &str,
    nested_cm_checks: &str,
    nested_dv_checks: &str,
) -> (res: String)
    ensures
        res@ == create_error_type_code(
            create_error@,
            column_enum@,
            ph_variant@,
            nested_variants@,
            entity_name@,
            ph_display_arm@,
            nested_display_arms@,
            ph_source_arm@,
            nested_source_arms@,
            nested_from_impls@,
            nested_cm_checks@,
            nested_dv_checks@,
        ),
{
    "#[derive(Debug)]
pub enum ".to_string().concat(create_error).concat(" {
    Sqlx(sqlx::Error),
    ConstraintViolation { column: Option<").concat(column_enum).concat(">, value: Option<String>, inner: sqlx::Error },
    ConcurrentModification,
    HydrationError(es_entity::EntityHydrationError),
    PostPersistHookError(sqlx::Error),
    ").concat(ph_variant).concat("
    ").concat(nested_variants).concat("
}
impl std::fmt::Display for ").concat(create_error).concat(" {
    fn fmt(&self, f: &mut std::fmt::Formatter<'_>) -> std::fmt::Result {
        match self {
            Self::Sqlx(e) => write!(f, \"{}CreateError - Sqlx: {}\", ").concat(entity_name).concat(", e),
            Self::ConstraintViolation { column, value, inner } => write!(f, \"{}CreateError - ConstraintViolation({:?}, {:?}): {}\", ").concat(entity_name).concat(", column, value, inner),
            Self::ConcurrentModification => write!(f, \"{}CreateError - ConcurrentModification\", ").concat(entity_name).concat("),
            Self::HydrationError(e) => write!(f, \"{}CreateError - HydrationError: {}\", ").concat(entity_name).concat(", e),
            Self::PostPersistHookError(e) => write!(f, \"{}CreateError - PostPersistHookError: {}\", ").concat(entity_name).concat(", e),
            ").concat(ph_display_arm).concat("
            ").concat(nested_display_arms).concat("
        }
    }
}
impl std::error::Error for ").concat(create_error).concat(" {
    fn source(&self) -> Option<&(dyn std::error::Error + 'static)> {
        match self {
            Self::Sqlx(e) => Some(e),
            Self::ConstraintViolation { inner, .. } => Some(inner),
            Self::ConcurrentModification => None,
            Self::HydrationError(e) => Some(e),
            Self::PostPersistHookError(e) => Some(e),
            ").concat(ph_source_arm).concat("
            ").concat(nested_source_arms).concat("
        }
    }
}
impl From<sqlx::Error> for ").concat(create_error).concat(" {
    fn from(e: sqlx::Error) -> Self {
        Self::Sqlx(e)
    }
}
impl From<es_entity::EntityHydrationError> for ").concat(create_error).concat(" {
    fn from(e: es_entity::EntityHydrationError) -> Self {
        Self::HydrationError(e)
    }
}
").concat(nested_from_impls).concat("
impl ").concat(create_error).concat(" {
    pub fn was_concurrent_modification(&self) -> bool {
        match self {
            Self::ConcurrentModification => true,
            ").concat(nested_cm_checks).concat("
            _ => false,
        }
    }
    pub fn was_duplicate(&self) -> bool {
        matches!(self, Self::ConstraintViolation { .. })
    }
    pub fn was_duplicate_by(&self, column: ").concat(column_enum).concat(") -> bool {
        matches!(self, Self::ConstraintViolation { column: Some(c), .. } if *c == column)
    }
    pub fn duplicate_value(&self) -> Option<&str> {
        match self {
            Self::ConstraintViolation { value: Some(v), .. } => Some(v.as_str()),
            ").concat(nested_dv_checks).concat("
            _ => None,
        }
    }
}")
}

/// The error of changing an entity.
pub open spec fn modify_error_type_code(
    modify_error: Seq<char>,
    column_enum: Seq<char>,
    nested_variants: Seq<char>,
    entity_name: Seq<char>,
    nested_display_arms: Seq<char>,
    nested_source_arms: Seq<char>,
    nested_from_impls: Seq<char>,
    nested_cm_checks: Seq<char>,
    nested_dv_checks: Seq<char>,
) -> Seq<char> {
    "#[derive(Debug)]
pub enum "@ + modify_error + " {
    Sqlx(sqlx::Error),
    ConstraintViolation { column: Option<"@ + column_enum + ">, value: Option<String>, inner: sqlx::Error },
    ConcurrentModification,
    PostPersistHookError(sqlx::Error),
    "@ + nested_variants + "
}
impl std::fmt::Display for "@ + modify_error + " {
    fn fmt(&self, f: &mut std::fmt::Formatter<'_>) -> std::fmt::Result {
        match self {
            Self::Sqlx(e) => write!(f, \"{}ModifyError - Sqlx: {}\", "@ + entity_name + ", e),
            Self::ConstraintViolation { column, value, inner } => write!(f, \"{}ModifyError - ConstraintViolation({:?}, {:?}): {}\", "@ + entity_name + ", column, value, inner),
            Self::ConcurrentModification => write!(f, \"{}ModifyError - ConcurrentModification\", "@ + entity_name + "),
            Self::PostPersistHookError(e) => write!(f, \"{}ModifyError - PostPersistHookError: {}\", "@ + entity_name + ", e),
            "@ + nested_display_arms + "
        }
    }
}
impl std::error::Error for "@ + modify_error + " {
    fn source(&self) -> Option<&(dyn std::error::Error + 'static)> {
        match self {
            Self::Sqlx(e) => Some(e),
            Self::ConstraintViolation { inner, .. } => Some(inner),
            Self::ConcurrentModification => None,
            Self::PostPersistHookError(e) => Some(e),
            "@ + nested_source_arms + "
        }
    }
}
impl From<sqlx::Error> for "@ + modify_error + " {
    fn from(e: sqlx::Error) -> Self {
        Self::Sqlx(e)
    }
}
"@ + nested_from_impls + "
impl "@ + modify_error + " {
    pub fn was_concurrent_modification(&self) -> bool {
        match self {
            Self::ConcurrentModification => true,
            "@ + nested_cm_checks + "
            _ => false,
        }
    }
    pub fn was_duplicate(&self) -> bool {
        matches!(self, Self::ConstraintViolation { .. })
    }
    pub fn was_duplicate_by(&self, column: "@ + column_enum + ") -> bool {
        matches!(self, Self::ConstraintViolation { column: Some(c), .. } if *c == column)
    }
    pub fn duplicate_value(&self) -> Option<&str> {
        match self {
            Self::ConstraintViolation { value: Some(v), .. } => Some(v.as_str()),
            "@ + nested_dv_checks + "
            _ => None,
        }
    }
}"@
}

/// The error of changing an entity.
pub fn modify_error_type(
    modify_error: &str,
    column_enum: &str,
    nested_variants: &str,
    entity_name: &str,
    nested_display_arms: &str,
    nested_source_arms: &str,
    nested_from_impls: &str,
    nested_cm_checks: &str,
    nested_dv_checks: &str,
) -> (res: String)
    ensures
        res@ == modify_error_type_code(
            modify_error@,
            column_enum@,
            nested_variants@,
            entity_name@,
            nested_display_arms@,
            nested_source_arms@,
            nested_from_impls@,
            nested_cm_checks@,
            nested_dv_checks@,
        ),
{
    "#[derive(Debug)]
pub enum ".to_string().concat(modify_error).concat(" {
    Sqlx(sqlx::Error),
    ConstraintViolation { column: Option<").concat(column_enum).concat(">, value: Option<String>, inner: sqlx::Error },
    ConcurrentModification,
    PostPersistHookError(sqlx::Error),
    ").concat(nested_variants).concat("
}
impl std::fmt::Display for ").concat(modify_error).concat(" {
    fn fmt(&self, f: &mut std::fmt::Formatter<'_>) -> std::fmt::Result {
        match self {
            Self::Sqlx(e) => write!(f, \"{}ModifyError - Sqlx: {}\", ").concat(entity_name).concat(", e),
            Self::ConstraintViolation { column, value, inner } => write!(f, \"{}ModifyError - ConstraintViolation({:?}, {:?}): {}\", ").concat(entity_name).concat(", column, value, inner),
            Self::ConcurrentModification => write!(f, \"{}ModifyError - ConcurrentModification\", ").concat(entity_name).concat("),
            Self::PostPersistHookError(e) => write!(f, \"{}ModifyError - PostPersistHookError: {}\", ").concat(entity_name).concat(", e),
            ").concat(nested_display_arms).concat("
        }
    }
}
impl std::error::Error for ").concat(modify_error).concat(" {
    fn source(&self) -> Option<&(dyn std::error::Error + 'static)> {
        match self {
            Self::Sqlx(e) => Some(e),
            Self::ConstraintViolation { inner, .. } => Some(inner),
            Self::ConcurrentModification => None,
            Self::PostPersistHookError(e) => Some(e),
            ").concat(nested_source_arms).concat("
        }
    }
}
impl From<sqlx::Error> for ").concat(modify_error).concat(" {
    fn from(e: sqlx::Error) -> Self {
        Self::Sqlx(e)
    }
}
").concat(nested_from_impls).concat("
impl ").concat(modify_error).concat(" {
    pub fn was_concurrent_modification(&self) -> bool {
        match self {
            Self::ConcurrentModification => true,
            ").concat(nested_cm_checks).concat("
            _ => false,
        }
    }
    pub fn was_duplicate(&self) -> bool {
        matches!(self, Self::ConstraintViolation { .. })
    }
    pub fn was_duplicate_by(&self, column: ").concat(column_enum).concat(") -> bool {
        matches!(self, Self::ConstraintViolation { column: Some(c), .. } if *c == column)
    }
    pub fn duplicate_value(&self) -> Option<&str> {
        match self {
            Self::ConstraintViolation { value: Some(v), .. } => Some(v.as_str()),
            ").concat(nested_dv_checks).concat("
            _ => None,
        }
    }
}")
}

/// The error of finding an entity.
pub open spec fn find_error_type_code(
    find_error: Seq<char>,
    column_enum: Seq<char>,
    ph_variant: Seq<char>,
    entity_name: Seq<char>,
    ph_display_arm: Seq<char>,
    ph_source_arm: Seq<char>,
    query_error: Seq<char>,
    ph_from_arm: Seq<char>,
    ph_helper: Seq<char>,
) -> Seq<char> {
    "#[derive(Debug)]
pub enum "@ + find_error + " {
    Sqlx(sqlx::Error),
    NotFound { entity: &'static str, column: Option<"@ + column_enum + ">, value: String },
    HydrationError(es_entity::EntityHydrationError),
    "@ + ph_variant + "
}
impl std::fmt::Display for "@ + find_error + " {
    fn fmt(&self, f: &mut std::fmt::Formatter<'_>) -> std::fmt::Result {
        match self {
            Self::Sqlx(e) => write!(f, \"{}FindError - Sqlx: {}\", "@ + entity_name + ", e),
            Self::NotFound { entity, column: Some(column), value } => write!(f, \"{}FindError - NotFound({column}={value})\", entity),
            Self::NotFound { entity, column: None, value } => write!(f, \"{}FindError - NotFound({})\", entity, value),
            Self::HydrationError(e) => write!(f, \"{}FindError - HydrationError: {}\", "@ + entity_name + ", e),
            "@ + ph_display_arm + "
        }
    }
}
impl std::error::Error for "@ + find_error + " {
    fn source(&self) -> Option<&(dyn std::error::Error + 'static)> {
        match self {
            Self::Sqlx(e) => Some(e),
            Self::NotFound { .. } => None,
            Self::HydrationError(e) => Some(e),
            "@ + ph_source_arm + "
        }
    }
}
impl From<sqlx::Error> for "@ + find_error + " {
    fn from(e: sqlx::Error) -> Self {
        Self::Sqlx(e)
    }
}
impl From<es_entity::EntityHydrationError> for "@ + find_error + " {
    fn from(e: es_entity::EntityHydrationError) -> Self {
        Self::HydrationError(e)
    }
}
impl From<"@ + query_error + "> for "@ + find_error + " {
    fn from(e: "@ + query_error + ") -> Self {
        match e {
            "@ + query_error + "::Sqlx(e) => Self::Sqlx(e),
            "@ + query_error + "::HydrationError(e) => Self::HydrationError(e),
            "@ + query_error + "::CursorDestructureError(_) => unreachable!(\"CursorDestructureError cannot occur in find operations\"),
            "@ + ph_from_arm + "
        }
    }
}
impl "@ + find_error + " {
    pub fn was_not_found(&self) -> bool {
        matches!(self, Self::NotFound { .. })
    }
    pub fn was_not_found_by(&self, column: "@ + column_enum + ") -> bool {
        matches!(self, Self::NotFound { column: Some(c), .. } if *c == column)
    }
    pub fn not_found_value(&self) -> Option<&str> {
        match self {
            Self::NotFound { value, .. } => Some(value.as_str()),
            _ => None,
        }
    }
    "@ + ph_helper + "
}"@
}

/// The error of finding an entity.
pub fn find_error_type(
    find_error: &str,
    column_enum: &str,
    ph_variant: &str,
    entity_name: &str,
    ph_display_arm: &str,
    ph_source_arm: &str,
    query_error: &str,
    ph_from_arm: &str,
    ph_helper: &str,
) -> (res: String)
    ensures
        res@ == find_error_type_code(
            find_error@,
            column_enum@,
            ph_variant@,
            entity_name@,
            ph_display_arm@,
            ph_source_arm@,
            query_error@,
            ph_from_arm@,
            ph_helper@,
        ),
{
    "#[derive(Debug)]
pub enum ".to_string().concat(find_error).concat(" {
    Sqlx(sqlx::Error),
    NotFound { entity: &'static str, column: Option<").concat(column_enum).concat(">, value: String },
    HydrationError(es_entity::EntityHydrationError),
    ").concat(ph_variant).concat("
}
impl std::fmt::Display for ").concat(find_error).concat(" {
    fn fmt(&self, f: &mut std::fmt::Formatter<'_>) -> std::fmt::Result {
        match self {
            Self::Sqlx(e) => write!(f, \"{}FindError - Sqlx: {}\", ").concat(entity_name).concat(", e),
            Self::NotFound { entity, column: Some(column), value } => write!(f, \"{}FindError - NotFound({column}={value})\", entity),
            Self::NotFound { entity, column: None, value } => write!(f, \"{}FindError - NotFound({})\", entity, value),
            Self::HydrationError(e) => write!(f, \"{}FindError - HydrationError: {}\", ").concat(entity_name).concat(", e),
            ").concat(ph_display_arm).concat("
        }
    }
}
impl std::error::Error for ").concat(find_error).concat(" {
    fn source(&self) -> Option<&(dyn std::error::Error + 'static)> {
        match self {
            Self::Sqlx(e) => Some(e),
            Self::NotFound { .. } => None,
            Self::HydrationError(e) => Some(e),
            ").concat(ph_source_arm).concat("
        }
    }
}
impl From<sqlx::Error> for ").concat(find_error).concat(" {
    fn from(e: sqlx::Error) -> Self {
        Self::Sqlx(e)
    }
}
impl From<es_entity::EntityHydrationError> for ").concat(find_error).concat(" {
    fn from(e: es_entity::EntityHydrationError) -> Self {
        Self::HydrationError(e)
    }
}
impl From<").concat(query_error).concat("> for ").concat(find_error).concat(" {
    fn from(e: ").concat(query_error).concat(") -> Self {
        match e {
            ").concat(query_error).concat("::Sqlx(e) => Self::Sqlx(e),
            ").concat(query_error).concat("::HydrationError(e) => Self::HydrationError(e),
            ").concat(query_error).concat("::CursorDestructureError(_) => unreachable!(\"CursorDestructureError cannot occur in find operations\"),
            ").concat(ph_from_arm).concat("
        }
    }
}
impl ").concat(find_error).concat(" {
    pub fn was_not_found(&self) -> bool {
        matches!(self, Self::NotFound { .. })
    }
    pub fn was_not_found_by(&self, column: ").concat(column_enum).concat(") -> bool {
        matches!(self, Self::NotFound { column: Some(c), .. } if *c == column)
    }
    pub fn not_found_value(&self) -> Option<&str> {
        match self {
            Self::NotFound { value, .. } => Some(value.as_str()),
            _ => None,
        }
    }
    ").concat(ph_helper).concat("
}")
}

/// The error of reading entities.
pub open spec fn query_error_type_code(
    query_error: Seq<char>,
    ph_variant: Seq<char>,
    entity_name: Seq<char>,
    ph_display_arm: Seq<char>,
    ph_source_arm: Seq<char>,
    ph_helper: Seq<char>,
) -> Seq<char> {
    "#[derive(Debug)]
pub enum "@ + query_error + " {
    Sqlx(sqlx::Error),
    HydrationError(es_entity::EntityHydrationError),
    CursorDestructureError(es_entity::CursorDestructureError),
    "@ + ph_variant + "
}
impl std::fmt::Display for "@ + query_error + " {
    fn fmt(&self, f: &mut std::fmt::Formatter<'_>) -> std::fmt::Result {
        match self {
            Self::Sqlx(e) => write!(f, \"{}QueryError - Sqlx: {}\", "@ + entity_name + ", e),
            Self::HydrationError(e) => write!(f, \"{}QueryError - HydrationError: {}\", "@ + entity_name + ", e),
            Self::CursorDestructureError(e) => write!(f, \"{}QueryError - CursorDestructureError: {}\", "@ + entity_name + ", e),
            "@ + ph_display_arm + "
        }
    }
}
impl std::error::Error for "@ + query_error + " {
    fn source(&self) -> Option<&(dyn std::error::Error + 'static)> {
        match self {
            Self::Sqlx(e) => Some(e),
            Self::HydrationError(e) => Some(e),
            Self::CursorDestructureError(e) => Some(e),
            "@ + ph_source_arm + "
        }
    }
}
impl From<sqlx::Error> for "@ + query_error + " {
    fn from(e: sqlx::Error) -> Self {
        Self::Sqlx(e)
    }
}
impl From<es_entity::EntityHydrationError> for "@ + query_error + " {
    fn from(e: es_entity::EntityHydrationError) -> Self {
        Self::HydrationError(e)
    }
}
impl From<es_entity::CursorDestructureError> for "@ + query_error + " {
    fn from(e: es_entity::CursorDestructureError) -> Self {
        Self::CursorDestructureError(e)
    }
}
impl "@ + query_error + " {
    "@ + ph_helper + "
}"@
}

/// The error of reading entities.
pub fn query_error_type(
    query_error: &str,
    ph_variant: &str,
    entity_name: &str,
    ph_display_arm: &str,
    ph_source_arm: &str,
    ph_helper: &str,
) -> (res: String)
    ensures
        res@ == query_error_type_code(
            query_error@,
            ph_variant@,
            entity_name@,
            ph_display_arm@,
            ph_source_arm@,
            ph_helper@,
        ),
{
    "#[derive(Debug)]
pub enum ".to_string().concat(query_error).concat(" {
    Sqlx(sqlx::Error),
    HydrationError(es_entity::EntityHydrationError),
    CursorDestructureError(es_entity::CursorDestructureError),
    ").concat(ph_variant).concat("
}
impl std::fmt::Display for ").concat(query_error).concat(" {
    fn fmt(&self, f: &mut std::fmt::Formatter<'_>) -> std::fmt::Result {
        match self {
            Self::Sqlx(e) => write!(f, \"{}QueryError - Sqlx: {}\", ").concat(entity_name).concat(", e),
            Self::HydrationError(e) => write!(f, \"{}QueryError - HydrationError: {}\", ").concat(entity_name).concat(", e),
            Self::CursorDestructureError(e) => write!(f, \"{}QueryError - CursorDestructureError: {}\", ").concat(entity_name).concat(", e),
            ").concat(ph_display_arm).concat("
        }
    }
}
impl std::error::Error for ").concat(query_error).concat(" {
    fn source(&self) -> Option<&(dyn std::error::Error + 'static)> {
        match self {
            Self::Sqlx(e) => Some(e),
            Self::HydrationError(e) => Some(e),
            Self::CursorDestructureError(e) => Some(e),
            ").concat(ph_source_arm).concat("
        }
    }
}
impl From<sqlx::Error> for ").concat(query_error).concat(" {
    fn from(e: sqlx::Error) -> Self {
        Self::Sqlx(e)
    }
}
impl From<es_entity::EntityHydrationError> for ").concat(query_error).concat(" {
    fn from(e: es_entity::EntityHydrationError) -> Self {
        Self::HydrationError(e)
    }
}
impl From<es_entity::CursorDestructureError> for ").concat(query_error).concat(" {
    fn from(e: es_entity::CursorDestructureError) -> Self {
        Self::CursorDestructureError(e)
    }
}
impl ").concat(query_error).concat(" {
    ").concat(ph_helper).concat("
}")
}

/// The parts of an error type for the hook that runs when an entity was read:
/// the variant, how it is displayed, its source, and a function that tests for
/// it. Nothing without a hook.
pub open spec fn hydrate_parts(hook: Option<Seq<char>>, kind: Seq<char>, entity: Seq<char>) -> (
    Seq<char>,
    Seq<char>,
    Seq<char>,
    Seq<char>,
) {
    match hook {
        Some(error_ty) => (
            hydrate_variant_code(error_ty),
            hydrate_display_code(
                literal("{}"@ + kind + " - PostHydrateError: {}"@),
                literal(entity),
            ),
            HYDRATE_SOURCE@,
            HYDRATE_HELPER@,
        ),
        None => (Seq::empty(), Seq::empty(), Seq::empty(), Seq::empty()),
    }
}

fn hydrate_texts(hook: Option<&str>, kind: &str, entity: &str) -> (res: (
    String,
    String,
    String,
    String,
))
    ensures
        (res.0@, res.1@, res.2@, res.3@) == hydrate_parts(opt_str(hook), kind@, entity@),
{
    match hook {
        Some(error_ty) => {
            let text = "{}".to_string().concat(kind).concat(" - PostHydrateError: {}");
            (
                hydrate_variant(error_ty),
                hydrate_display(quote(text.as_str()).as_str(), quote(entity).as_str()),
                HYDRATE_SOURCE.to_string(),
                HYDRATE_HELPER.to_string(),
            )
        },
        None => (String::new(), String::new(), String::new(), String::new()),
    }
}

/// The match arms for the constraints of one column.
pub open spec fn column_constraint_arms(v: ColumnVariant, column_enum: Seq<char>) -> Seq<char> {
    ended(
        Seq::new(
            v.constraint_names.len() as nat,
            |k: int|
                constraint_arm_code(
                    literal(v.constraint_names@[k]@),
                    column_enum,
                    v.variant_name@,
                ),
        ),
        "\n"@,
    )
}

impl<'a> ErrorTypes<'a> {
    pub open spec fn variant_names(&self) -> Seq<Seq<char>> {
        Seq::new(
            self.column_variants.len() as nat,
            |i: int| self.column_variants@[i].variant_name@,
        )
    }

    pub open spec fn display_arms(&self) -> Seq<Seq<char>> {
        Seq::new(
            self.column_variants.len() as nat,
            |i: int|
                column_display_code(
                    self.column_variants@[i].variant_name@,
                    literal(self.column_variants@[i].column_name@),
                ),
        )
    }

    /// The columns as errors name them.
    pub open spec fn column_enum_code(&self) -> Seq<char> {
        column_enum_type_code(
            self.column_enum@,
            ended(self.variant_names(), ",\n"@),
            ended(self.display_arms(), "\n"@),
        )
    }

    pub open spec fn constraint_arms(&self) -> Seq<Seq<char>> {
        Seq::new(
            self.column_variants.len() as nat,
            |i: int| column_constraint_arms(self.column_variants@[i], self.column_enum@),
        )
    }

    /// The function that tells which column a constraint is about.
    pub open spec fn map_constraint_code(&self) -> Seq<char> {
        map_constraint_fn_code(self.column_enum@, ended(self.constraint_arms(), ""@))
    }

    /// The error of creating an entity.
    pub open spec fn create_code(&self) -> Seq<char> {
        let hook = hydrate_parts(opt_str(self.post_hydrate_error), "CreateError"@, self.entity@);
        let error = self.create_error@;
        create_error_type_code(
            error,
            self.column_enum@,
            hook.0,
            nested_parts(self.nested@, NestedPart::Variant, error, false),
            literal(self.entity@),
            hook.1,
            nested_parts(self.nested@, NestedPart::Display, error, false),
            hook.2,
            nested_parts(self.nested@, NestedPart::Source, error, false),
            nested_parts(self.nested@, NestedPart::FromImpl, error, false),
            nested_parts(self.nested@, NestedPart::Concurrent, error, false),
            nested_parts(self.nested@, NestedPart::Duplicate, error, false),
        )
    }

    /// The error of changing an entity.
    pub open spec fn modify_code(&self) -> Seq<char> {
        let error = self.modify_error@;
        modify_error_type_code(
            error,
            self.column_enum@,
            nested_parts(self.nested@, NestedPart::Variant, error, true),
            literal(self.entity@),
            nested_parts(self.nested@, NestedPart::Display, error, true),
            nested_parts(self.nested@, NestedPart::Source, error, true),
            nested_parts(self.nested@, NestedPart::FromImpl, error, true),
            nested_parts(self.nested@, NestedPart::Concurrent, error, true),
            nested_parts(self.nested@, NestedPart::Duplicate, error, true),
        )
    }

    /// The error of finding an entity.
    pub open spec fn find_code(&self) -> Seq<char> {
        let hook = hydrate_parts(opt_str(self.post_hydrate_error), "FindError"@, self.entity@);
        find_error_type_code(
            self.find_error@,
            self.column_enum@,
            hook.0,
            literal(self.entity@),
            hook.1,
            hook.2,
            self.query_error@,
            crate::text::only_if(
                self.post_hydrate_error is Some,
                hydrate_from_code(self.query_error@),
            ),
            hook.3,
        )
    }

    /// The error of reading entities.
    pub open spec fn query_code(&self) -> Seq<char> {
        let hook = hydrate_parts(opt_str(self.post_hydrate_error), "QueryError"@, self.entity@);
        query_error_type_code(
            self.query_error@,
            hook.0,
            literal(self.entity@),
            hook.1,
            hook.2,
            hook.3,
        )
    }

    /// The error types.
    #[verifier::opaque]
    pub open spec fn code(&self) -> Seq<char> {
        self.column_enum_code() + "\n"@ + self.create_code() + "\n"@ + self.modify_code() + "\n"@
            + self.find_code() + "\n"@ + self.query_code()
    }

    /// Whether this is what the options of a repository ask for.
    pub open spec fn made_from(&self, opts: &RepositoryOptions) -> bool {
        &&& self.entity@ == opts.entity_ident@
        &&& self.column_enum@ == opts.entity_ident@ + "Column"@
        &&& self.create_error@ == opts.entity_ident@ + "CreateError"@
        &&& self.modify_error@ == opts.entity_ident@ + "ModifyError"@
        &&& self.find_error@ == opts.entity_ident@ + "FindError"@
        &&& self.query_error@ == opts.entity_ident@ + "QueryError"@
        &&& self.column_variants.len() == opts.columns.picks(Pick::ColumnEnum).len()
        &&& forall|i: int|
            0 <= i < self.column_variants.len() ==> (
            #[trigger] self.column_variants@[i]).stands_for(
                opts.columns.picks(Pick::ColumnEnum)[i],
                opts.table_text(),
            )
        &&& self.nested.len() == opts.nested().len()
        &&& forall|i: int|
            0 <= i < self.nested.len() ==> (#[trigger] self.nested@[i]).stands(
                opts.nested()[i],
                opts.generics.type_names(),
            )
        &&& opt_str(self.post_hydrate_error) == opts.hydrate_error()
    }

    pub fn new(opts: &'a RepositoryOptions) -> (res: Self)
        requires
            opts.ready(),
            opts.is_struct(),
        ensures
            res.made_from(opts),
    {
        let table_name = opts.table_name();
        let columns = opts.columns.column_enum_columns();
        assert(columns_of(columns@).len() == columns.len());
        let mut column_variants: Vec<ColumnVariant> = Vec::new();
        let mut i: usize = 0;
        while i < columns.len()
            invariant
                i <= columns.len(),
                table_name@ == opts.table_text(),
                columns_of(columns@) == opts.columns.picks(Pick::ColumnEnum),
                column_variants.len() == i,
                forall|j: int|
                    0 <= j < i ==> (#[trigger] column_variants@[j]).stands_for(
                        opts.columns.picks(Pick::ColumnEnum)[j],
                        opts.table_text(),
                    ),
            decreases columns.len() - i,
        {
            assert(columns_of(columns@)[i as int] == *columns@[i as int]);
            column_variants.push(ColumnVariant::for_column(columns[i], table_name));
            i = i + 1;
        }
        let generics = opts.generics.type_param_names();
        let fields = opts.all_nested();
        proof {
            nested_have_names(opts.data->0@);
        }
        let mut nested: Vec<NestedErrorInfo> = Vec::new();
        let mut k: usize = 0;
        while k < fields.len()
            invariant
                k <= fields.len(),
                fields.len() == opts.nested().len(),
                fields_of(fields@) == opts.nested(),
                generics.deep_view() == opts.generics.type_names(),
                forall|j: int|
                    0 <= j < opts.nested().len() ==> (
                    #[trigger] opts.nested()[j]).ident is Some,
                nested.len() == k,
                forall|j: int|
                    0 <= j < k ==> (#[trigger] nested@[j]).stands(
                        opts.nested()[j],
                        opts.generics.type_names(),
                    ),
            decreases fields.len() - k,
        {
            let f = fields[k];
            assert(*f == fields_of(fields@)[k as int]);
            let singular = match singular_request(&f.ty) {
                Some((name, count)) => pluralize(name, count),
                None => String::new(),
            };
            let info = NestedErrorInfo::for_field(f, &generics, singular.as_str());
            assert(info.stands_for(
                opts.nested()[k as int],
                opts.generics.type_names(),
                singular@,
            ));
            nested.push(info);
            k = k + 1;
        }
        ErrorTypes {
            entity: opts.entity(),
            column_enum: opts.column_enum(),
            create_error: opts.create_error(),
            modify_error: opts.modify_error(),
            find_error: opts.find_error(),
            query_error: opts.query_error(),
            column_variants,
            nested,
            post_hydrate_error: opts.post_hydrate_error(),
        }
    }

    fn nested_text(&self, part: NestedPart, error: &str, modify: bool) -> (res: String)
        ensures
            res@ == nested_parts(self.nested@, part, error@, modify),
    {
        let mut parts: Vec<String> = Vec::new();
        let mut i: usize = 0;
        while i < self.nested.len()
            invariant
                i <= self.nested.len(),
                parts.len() == i,
                forall|j: int|
                    0 <= j < i ==> (#[trigger] parts@[j])@ == (if modify {
                        self.nested@[j].modify_part(part, error@)
                    } else {
                        self.nested@[j].create_part(part, error@)
                    }),
            decreases self.nested.len() - i,
        {
            parts.push(self.nested[i].part_text(part, error, modify));
            i = i + 1;
        }
        assert(parts.deep_view() =~= Seq::new(
            self.nested@.len(),
            |i: int|
                if modify {
                    self.nested@[i].modify_part(part, error@)
                } else {
                    self.nested@[i].create_part(part, error@)
                },
        ));
        end_each(&parts, "\n")
    }

    fn generate_column_enum(&self) -> (res: String)
        ensures
            res@ == self.column_enum_code(),
    {
        let mut variants: Vec<String> = Vec::new();
        let mut arms: Vec<String> = Vec::new();
        let mut i: usize = 0;
        while i < self.column_variants.len()
            invariant
                i <= self.column_variants.len(),
                variants.len() == i,
                arms.len() == i,
                forall|j: int| 0 <= j < i ==> (#[trigger] variants@[j])@ == self.variant_names()[j],
                forall|j: int| 0 <= j < i ==> (#[trigger] arms@[j])@ == self.display_arms()[j],
            decreases self.column_variants.len() - i,
        {
            let v = &self.column_variants[i];
            variants.push(v.variant_name.clone());
            arms.push(
                column_display(
                    v.variant_name.as_str(),
                    quote(v.column_name.as_str()).as_str(),
                ),
            );
            i = i + 1;
        }
        assert(variants.deep_view() =~= self.variant_names());
        assert(arms.deep_view() =~= self.display_arms());
        column_enum_type(
            self.column_enum.as_str(),
            end_each(&variants, ",\n").as_str(),
            end_each(&arms, "\n").as_str(),
        )
    }

    fn column_arms_text(&self, v: &ColumnVariant) -> (res: String)
        ensures
            res@ == column_constraint_arms(*v, self.column_enum@),
    {
        let mut arms: Vec<String> = Vec::new();
        let mut i: usize = 0;
        while i < v.constraint_names.len()
            invariant
                i <= v.constraint_names.len(),
                arms.len() == i,
                forall|j: int|
                    0 <= j < i ==> (#[trigger] arms@[j])@ == constraint_arm_code(
                        literal(v.constraint_names@[j]@),
                        self.column_enum@,
                        v.variant_name@,
                    ),
            decreases v.constraint_names.len() - i,
        {
            arms.push(
                constraint_arm(
                    quote(v.constraint_names[i].as_str()).as_str(),
                    self.column_enum.as_str(),
                    v.variant_name.as_str(),
                ),
            );
            i = i + 1;
        }
        assert(arms.deep_view() =~= Seq::new(
            v.constraint_names.len() as nat,
            |k: int|
                constraint_arm_code(
                    literal(v.constraint_names@[k]@),
                    self.column_enum@,
                    v.variant_name@,
                ),
        ));
        end_each(&arms, "\n")
    }

    /// The function that tells which column a constraint is about.
    pub fn generate_map_constraint_fn(&self) -> (res: String)
        ensures
            res@ == self.map_constraint_code(),
    {
        let mut arms: Vec<String> = Vec::new();
        let mut i: usize = 0;
        while i < self.column_variants.len()
            invariant
                i <= self.column_variants.len(),
                arms.len() == i,
                forall|j: int| 0 <= j < i ==> (#[trigger] arms@[j])@ == self.constraint_arms()[j],
            decreases self.column_variants.len() - i,
        {
            arms.push(self.column_arms_text(&self.column_variants[i]));
            i = i + 1;
        }
        assert(arms.deep_view() =~= self.constraint_arms());
        map_constraint_fn(self.column_enum.as_str(), end_each(&arms, "").as_str())
    }

    /// The error of creating an entity.
    pub fn generate_create_error(&self) -> (res: String)
        ensures
            res@ == self.create_code(),
    {
        let hook = hydrate_texts(self.post_hydrate_error, "CreateError", self.entity);
        let error = self.create_error.as_str();
        create_error_type(
            error,
            self.column_enum.as_str(),
            hook.0.as_str(),
            self.nested_text(NestedPart::Variant, error, false).as_str(),
            quote(self.entity).as_str(),
            hook.1.as_str(),
            self.nested_text(NestedPart::Display, error, false).as_str(),
            hook.2.as_str(),
            self.nested_text(NestedPart::Source, error, false).as_str(),
            self.nested_text(NestedPart::FromImpl, error, false).as_str(),
            self.nested_text(NestedPart::Concurrent, error, false).as_str(),
            self.nested_text(NestedPart::Duplicate, error, false).as_str(),
        )
    }

    /// The error of changing an entity.
    pub fn generate_modify_error(&self) -> (res: String)
        ensures
            res@ == self.modify_code(),
    {
        let error = self.modify_error.as_str();
        modify_error_type(
            error,
            self.column_enum.as_str(),
            self.nested_text(NestedPart::Variant, error, true).as_str(),
            quote(self.entity).as_str(),
            self.nested_text(NestedPart::Display, error, true).as_str(),
            self.nested_text(NestedPart::Source, error, true).as_str(),
            self.nested_text(NestedPart::FromImpl, error, true).as_str(),
            self.nested_text(NestedPart::Concurrent, error, true).as_str(),
            self.nested_text(NestedPart::Duplicate, error, true).as_str(),
        )
    }

    /// The error of finding an entity.
    pub fn generate_find_error(&self) -> (res: String)
        ensures
            res@ == self.find_code(),
    {
        let hook = hydrate_texts(self.post_hydrate_error, "FindError", self.entity);
        let from_arm = hydrate_from(self.query_error.as_str());
        find_error_type(
            self.find_error.as_str(),
            self.column_enum.as_str(),
            hook.0.as_str(),
            quote(self.entity).as_str(),
            hook.1.as_str(),
            hook.2.as_str(),
            self.query_error.as_str(),
            crate::text::given(self.post_hydrate_error.is_some(), from_arm.as_str()).as_str(),
            hook.3.as_str(),
        )
    }

    /// The error of reading entities.
    pub fn generate_query_error(&self) -> (res: String)
        ensures
            res@ == self.query_code(),
    {
        let hook = hydrate_texts(self.post_hydrate_error, "QueryError", self.entity);
        query_error_type(
            self.query_error.as_str(),
            hook.0.as_str(),
            quote(self.entity).as_str(),
            hook.1.as_str(),
            hook.2.as_str(),
            hook.3.as_str(),
        )
    }

    /// The error types.
    pub fn generate(&self) -> (res: String)
        ensures
            res@ == self.code(),
    {
        proof {
            reveal(ErrorTypes::code);
        }
        self.generate_column_enum().concat("\n").concat(
            self.generate_create_error().as_str(),
        ).concat("\n").concat(self.generate_modify_error().as_str()).concat("\n").concat(
            self.generate_find_error().as_str(),
        ).concat("\n").concat(self.generate_query_error().as_str())
    }
}

} // verus!
