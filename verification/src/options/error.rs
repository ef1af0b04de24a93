//! Options that are rejected.

use vstd::prelude::*;
use vstd::string::*;

use crate::text::{join, joined};

verus! {

/// Why the options of a repository are rejected.
#[derive(Debug, PartialEq, Eq)]
pub enum OptionsError {
    /// `list_for(by(..))` of a column names one that is no `list_by` column.
    NotListBy { by: String, column: String, available: Vec<String> },
    /// The `id` column is marked `scope` beside another one.
    OnlyOneScopeColumn,
    /// A scope column is marked `nullable` without being an `Option`.
    NullableScopeColumn { column: String },
    /// A scope column is forgettable.
    ForgettableScopeColumn { column: String },
    /// A scope column is the parent column.
    ParentScopeColumn { column: String },
    /// A repository of nested entities has a scope column.
    NestedScope,
    /// Two scope columns have one type.
    SameScopeType { first: String, second: String },
    /// A column is forgettable and the repository is not.
    ForgettableDisabled,
    /// A column that exists in filters alone is not filtered by.
    VirtualNotListFor { column: String },
    /// The condition of a column that takes a value has no place for it.
    VirtualWithoutValue { column: String },
    /// The `id` column is given twice.
    DuplicateIdColumn,
    /// The `id` column is given with anything but `scope`.
    IdColumnOnlyScope,
    /// A name is expected.
    ExpectedIdentifier,
    /// A name with a value, or one with a list, is expected.
    ExpectedNameValueOrList,
    /// The text is no type.
    InvalidType { text: String },
    /// The text that is given as the type of a hook's error is no type.
    InvalidErrorType { text: String },
    /// `list_for = false`.
    ListForFalse,
    /// `by(..)` is expected in `list_for(..)`.
    ExpectedBy,
    /// A literal stands where a named item is expected.
    UnexpectedLiteral,
    /// An item has a name that is not known.
    UnknownField,
    /// An item is given twice.
    DuplicateField { field: String },
    /// An item has a value that it cannot have.
    InvalidField { field: String },
    /// An item is not given.
    MissingField { field: String },
    /// A hook has no `method`.
    MissingMethod { hook: String },
    /// A hook has no `error`.
    MissingError { hook: String },
}

impl OptionsError {
    /// The text of the error.
    pub open spec fn text(&self) -> Seq<char> {
        match self {
            OptionsError::NotListBy { by, column, available } => "column '"@ + by@
                + "' in list_for(by(...)) on '"@ + column@
                + "' is not a list_by column. Available list_by columns: "@ + joined(
                available.deep_view(),
                ", "@,
            ),
            OptionsError::OnlyOneScopeColumn => "only one scope column per repo is supported"@,
            OptionsError::NullableScopeColumn { column } => "scope column '"@ + column@
                + "' must be non-nullable \u{2014} only syntactic Option<T> scope columns are supported"@,
            OptionsError::ForgettableScopeColumn { column } => "scope column '"@ + column@
                + "' cannot be Forgettable"@,
            OptionsError::ParentScopeColumn { column } => "scope column '"@ + column@
                + "' cannot be the parent column \u{2014} nested repos cannot be scoped"@,
            OptionsError::NestedScope =>
                "scope is not supported on nested repos \u{2014} children are custody-guarded via their (scoped) parent"@,
            OptionsError::SameScopeType { first, second } => "scope columns '"@ + first@
                + "' and '"@ + second@ + "' have the same Rust type"@,
            OptionsError::ForgettableDisabled =>
                "repo has Forgettable<T> index columns but does not enable `forgettable`; add `forgettable` to #[es_repo(...)]"@,
            OptionsError::VirtualNotListFor { column } => "virtual column '"@ + column@
                + "' must be marked `list_for`"@,
            OptionsError::VirtualWithoutValue { column } => "virtual column '"@ + column@
                + "' takes a value, but its predicate does not contain `{value}`"@,
            OptionsError::DuplicateIdColumn => "duplicate `id` column"@,
            OptionsError::IdColumnOnlyScope => "the `id` column only supports `id(scope)`"@,
            OptionsError::ExpectedIdentifier => "Expected identifier"@,
            OptionsError::ExpectedNameValueOrList =>
                "Expected name-value pair or attribute list"@,
            OptionsError::InvalidType { text } => "invalid type: "@ + text@,
            OptionsError::InvalidErrorType { text } => "invalid error type: "@ + text@,
            OptionsError::ListForFalse =>
                "list_for = false is not supported; remove list_for entirely to disable"@,
            OptionsError::ExpectedBy => "Expected `by(col1, col2, ...)`"@,
            OptionsError::UnexpectedLiteral => "Unexpected meta-item format `literal`"@,
            OptionsError::UnknownField => "Unknown field"@,
            OptionsError::DuplicateField { field } => "Duplicate field `"@ + field@ + "`"@,
            OptionsError::InvalidField { field } => "Unexpected value of field `"@ + field@
                + "`"@,
            OptionsError::MissingField { field } => "Missing field `"@ + field@ + "`"@,
            OptionsError::MissingMethod { hook } => "missing `method` in "@ + hook@,
            OptionsError::MissingError { hook } => "missing `error` in "@ + hook@,
        }
    }

    /// The text of the error.
    pub fn message(&self) -> (res: String)
        ensures
            res@ == self.text(),
    {
        match self {
            OptionsError::NotListBy { by, column, available } => "column '".to_string().concat(
                by.as_str(),
            ).concat("' in list_for(by(...)) on '").concat(column.as_str()).concat(
                "' is not a list_by column. Available list_by columns: ",
            ).concat(join(available, ", ").as_str()),
            OptionsError::OnlyOneScopeColumn =>
                "only one scope column per repo is supported".to_string(),
            OptionsError::NullableScopeColumn { column } => "scope column '".to_string().concat(
                column.as_str(),
            ).concat(
                "' must be non-nullable \u{2014} only syntactic Option<T> scope columns are supported",
            ),
            OptionsError::ForgettableScopeColumn { column } => "scope column '".to_string().concat(
                column.as_str(),
            ).concat("' cannot be Forgettable"),
            OptionsError::ParentScopeColumn { column } => "scope column '".to_string().concat(
                column.as_str(),
            ).concat("' cannot be the parent column \u{2014} nested repos cannot be scoped"),
            OptionsError::NestedScope =>
                "scope is not supported on nested repos \u{2014} children are custody-guarded via their (scoped) parent".to_string(),
            OptionsError::SameScopeType { first, second } => "scope columns '".to_string().concat(
                first.as_str(),
            ).concat("' and '").concat(second.as_str()).concat("' have the same Rust type"),
            OptionsError::ForgettableDisabled =>
                "repo has Forgettable<T> index columns but does not enable `forgettable`; add `forgettable` to #[es_repo(...)]".to_string(),
            OptionsError::VirtualNotListFor { column } => "virtual column '".to_string().concat(
                column.as_str(),
            ).concat("' must be marked `list_for`"),
            OptionsError::VirtualWithoutValue { column } => "virtual column '".to_string().concat(
                column.as_str(),
            ).concat("' takes a value, but its predicate does not contain `{value}`"),
            OptionsError::DuplicateIdColumn => "duplicate `id` column".to_string(),
            OptionsError::IdColumnOnlyScope =>
                "the `id` column only supports `id(scope)`".to_string(),
            OptionsError::ExpectedIdentifier => "Expected identifier".to_string(),
            OptionsError::ExpectedNameValueOrList =>
                "Expected name-value pair or attribute list".to_string(),
            OptionsError::InvalidType { text } => "invalid type: ".to_string().concat(
                text.as_str(),
            ),
            OptionsError::InvalidErrorType { text } => "invalid error type: ".to_string().concat(
                text.as_str(),
            ),
            OptionsError::ListForFalse =>
                "list_for = false is not supported; remove list_for entirely to disable".to_string(),
            OptionsError::ExpectedBy => "Expected `by(col1, col2, ...)`".to_string(),
            OptionsError::UnexpectedLiteral =>
                "Unexpected meta-item format `literal`".to_string(),
            OptionsError::UnknownField => "Unknown field".to_string(),
            OptionsError::DuplicateField { field } => "Duplicate field `".to_string().concat(
                field.as_str(),
            ).concat("`"),
            OptionsError::InvalidField { field } =>
                "Unexpected value of field `".to_string().concat(field.as_str()).concat("`"),
            OptionsError::MissingField { field } => "Missing field `".to_string().concat(
                field.as_str(),
            ).concat("`"),
            OptionsError::MissingMethod { hook } => "missing `method` in ".to_string().concat(
                hook.as_str(),
            ),
            OptionsError::MissingError { hook } => "missing `error` in ".to_string().concat(
                hook.as_str(),
            ),
        }
    }
}

} // verus!
