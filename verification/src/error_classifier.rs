//! How the errors of write statements are told apart.

use vstd::prelude::*;
use vstd::string::*;

use crate::options::repository::RepositoryOptions;
use crate::text::{component_after_last_dot, last_component, literal, only_if, quote, given};

verus! {

/// The name of a table as the database reports it in errors: without the
/// schema in front of it.
pub fn bare_table_name(events_table_name: &str) -> (res: &str)
    ensures
        res@ == last_component(events_table_name@),
{
    component_after_last_dot(events_table_name)
}

/// The function that turns a violated uniqueness into the error for a
/// concurrent modification.
pub const EXTRACT_CONCURRENT_MODIFICATION: &'static str = "fn extract_concurrent_modification<T, __EsErr: From<sqlx::Error>>(
    res: Result<T, sqlx::Error>,
    concurrent_modification: __EsErr,
) -> Result<T, __EsErr> {
    match res {
        Ok(v) => Ok(v),
        Err(sqlx::Error::Database(ref db_err)) if db_err.is_unique_violation() => {
            Err(concurrent_modification)
        }
        Err(e) => Err(__EsErr::from(e)),
    }
}";

/// Tells a concurrent modification from any other error.
pub open spec fn concurrent_modification_match_code(
    events_table: Seq<char>,
    error: Seq<char>,
) -> Seq<char> {
    "|e| match &e {
    sqlx::Error::Database(db_err)
        if db_err.is_unique_violation()
            && db_err.table() == Some("@ + events_table + ") =>
    {
        "@ + error + "::ConcurrentModification
    }
    _ => "@ + error + "::Sqlx(e),
}"@
}

/// Tells a concurrent modification from any other error.
fn concurrent_modification_match(events_table: &str, error: &str) -> (res: String)
    ensures
        res@ == concurrent_modification_match_code(events_table@, error@),
{
    "|e| match &e {
    sqlx::Error::Database(db_err)
        if db_err.is_unique_violation()
            && db_err.table() == Some(".to_string().concat(events_table).concat(") =>
    {
        ").concat(error).concat("::ConcurrentModification
    }
    _ => ").concat(error).concat("::Sqlx(e),
}")
}

/// Tells a concurrent modification, a violated constraint and any other error
/// apart.
pub open spec fn write_error_match_code(
    events_table: Seq<char>,
    error: Seq<char>,
) -> Seq<char> {
    "match &e {
    sqlx::Error::Database(db_err)
        if db_err.is_unique_violation()
            && db_err.table() == Some("@ + events_table + ") =>
    {
        "@ + error + "::ConcurrentModification
    }
    sqlx::Error::Database(db_err)
        if db_err.table() != Some("@ + events_table + ")
            && es_entity::is_classified_constraint_violation(db_err.as_ref()) =>
    {
        "@ + error + "::ConstraintViolation {
            column: Self::map_constraint_column(db_err.constraint()),
            value: es_entity::extract_constraint_value(db_err.as_ref()),
            inner: e,
        }
    }
    _ => "@ + error + "::Sqlx(e),
}"@
}

/// Tells a concurrent modification, a violated constraint and any other error
/// apart.
fn write_error_match(events_table: &str, error: &str) -> (res: String)
    ensures
        res@ == write_error_match_code(events_table@, error@),
{
    "match &e {
    sqlx::Error::Database(db_err)
        if db_err.is_unique_violation()
            && db_err.table() == Some(".to_string().concat(events_table).concat(") =>
    {
        ").concat(error).concat("::ConcurrentModification
    }
    sqlx::Error::Database(db_err)
        if db_err.table() != Some(").concat(events_table).concat(")
            && es_entity::is_classified_constraint_violation(db_err.as_ref()) =>
    {
        ").concat(error).concat("::ConstraintViolation {
            column: Self::map_constraint_column(db_err.constraint()),
            value: es_entity::extract_constraint_value(db_err.as_ref()),
            inner: e,
        }
    }
    _ => ").concat(error).concat("::Sqlx(e),
}")
}

/// The function that classifies the error of a create. A violated constraint
/// of either table is reported as such.
pub open spec fn create_classifier_code(create_error: Seq<char>) -> Seq<char> {
    "fn classify_create_error(e: sqlx::Error) -> "@ + create_error + " {
    match &e {
        sqlx::Error::Database(db_err)
            if es_entity::is_classified_constraint_violation(db_err.as_ref()) =>
        {
            "@ + create_error + "::ConstraintViolation {
                column: Self::map_constraint_column(db_err.constraint()),
                value: es_entity::extract_constraint_value(db_err.as_ref()),
                inner: e,
            }
        }
        _ => "@ + create_error + "::Sqlx(e),
    }
}"@
}

/// The function that classifies the error of a create. A violated constraint
/// of either table is reported as such.
fn create_classifier(create_error: &str) -> (res: String)
    ensures
        res@ == create_classifier_code(create_error@),
{
    "fn classify_create_error(e: sqlx::Error) -> ".to_string().concat(create_error).concat(" {
    match &e {
        sqlx::Error::Database(db_err)
            if es_entity::is_classified_constraint_violation(db_err.as_ref()) =>
        {
            ").concat(create_error).concat("::ConstraintViolation {
                column: Self::map_constraint_column(db_err.constraint()),
                value: es_entity::extract_constraint_value(db_err.as_ref()),
                inner: e,
            }
        }
        _ => ").concat(create_error).concat("::Sqlx(e),
    }
}")
}

/// The function that classifies the error of a write.
pub open spec fn write_classifier_code(modify_error: Seq<char>, body: Seq<char>) -> Seq<char> {
    "fn classify_write_error(e: sqlx::Error) -> "@ + modify_error + " {
    "@ + body + "
}"@
}

/// The function that classifies the error of a write.
fn write_classifier(modify_error: &str, body: &str) -> (res: String)
    ensures
        res@ == write_classifier_code(modify_error@, body@),
{
    "fn classify_write_error(e: sqlx::Error) -> ".to_string().concat(modify_error).concat(" {
    ").concat(body).concat("
}")
}

/// The function that turns a violated uniqueness into the error for a
/// concurrent modification.
pub fn extract_concurrent_modification_fn() -> (res: String)
    ensures
        res@ == EXTRACT_CONCURRENT_MODIFICATION@,
{
    EXTRACT_CONCURRENT_MODIFICATION.to_string()
}

/// The closure that classifies the error of a write statement whose error type
/// knows no violated constraints: a violated uniqueness of the events table is
/// a concurrent modification.
pub fn concurrent_modification_classifier(error: &str, events_table_name: &str) -> (res: String)
    ensures
        res@ == concurrent_modification_match_code(
            literal(last_component(events_table_name@)),
            error@,
        ),
{
    concurrent_modification_match(quote(bare_table_name(events_table_name)).as_str(), error)
}

/// The closure that classifies the error of a statement that writes both the
/// index and the events: a violated uniqueness of the events table is a
/// concurrent modification, a violated constraint elsewhere is one of the
/// index table.
pub fn write_error_classifier(error: &str, events_table_name: &str) -> (res: String)
    ensures
        res@ == "|e| "@ + write_error_match_code(
            literal(last_component(events_table_name@)),
            error@,
        ),
{
    let body = write_error_match(quote(bare_table_name(events_table_name)).as_str(), error);
    "|e| ".to_string().concat(body.as_str())
}

/// The functions of a repository that classify errors.
pub struct ErrorClassifier<'a> {
    pub create_error: String,
    pub modify_error: String,
    pub events_table_name: &'a str,
    /// Whether any function calls the one for writes.
    pub classifies_writes: bool,
}

impl<'a> ErrorClassifier<'a> {
    /// The functions: the one for creates, and the one for writes where it is
    /// called.
    #[verifier::opaque]
    pub open spec fn code(&self) -> Seq<char> {
        create_classifier_code(self.create_error@) + "\n"@ + only_if(
            self.classifies_writes,
            write_classifier_code(
                self.modify_error@,
                write_error_match_code(
                    literal(last_component(self.events_table_name@)),
                    self.modify_error@,
                ),
            ),
        )
    }

    /// Whether this is what the options of a repository ask for.
    pub open spec fn made_from(&self, opts: &RepositoryOptions) -> bool {
        &&& self.create_error@ == opts.entity_ident@ + "CreateError"@
        &&& self.modify_error@ == opts.entity_ident@ + "ModifyError"@
        &&& self.events_table_name@ == opts.events_table_text()
        &&& self.classifies_writes == (opts.columns.any_updated() || opts.delete.soft())
    }

    /// The functions for a repository. Writes are classified where an update
    /// writes columns, or entities are deleted by a flag.
    pub fn from(opts: &'a RepositoryOptions) -> (res: Self)
        requires
            opts.ready(),
        ensures
            res.made_from(opts),
    {
        ErrorClassifier {
            create_error: opts.create_error(),
            modify_error: opts.modify_error(),
            events_table_name: opts.events_table_name(),
            classifies_writes: opts.columns.updates_needed() || opts.delete.is_soft(),
        }
    }

    /// Appends the functions.
    pub fn to_tokens(&self, tokens: &mut String)
        ensures
            final(tokens)@ == old(tokens)@ + self.code(),
    {
        proof {
            reveal(ErrorClassifier::code);
        }
        let body = write_error_match(
            quote(bare_table_name(self.events_table_name)).as_str(),
            self.modify_error.as_str(),
        );
        let write = write_classifier(self.modify_error.as_str(), body.as_str());
        let code = create_classifier(self.create_error.as_str()).concat("\n").concat(
            given(self.classifies_writes, write.as_str()).as_str(),
        );
        tokens.append(code.as_str());
    }
}

} // verus!
