//! What is emitted to trace the calls of a function.

use vstd::prelude::*;
use vstd::string::*;

use crate::text::{literal, quote};

verus! {

/// Records the error of a function's result.
pub const ERROR_RECORDING: &'static str = "if let Err(ref e) = __result {
    tracing::Span::current().record(\"error\", true);
    tracing::Span::current().record(\"exception.message\", tracing::field::display(e));
    tracing::Span::current().record(\"exception.type\", std::any::type_name_of_val(e));
}";

/// Remembers whether a page follows another one.
pub const EXTRACT_HAS_CURSOR: &'static str = "let has_cursor = cursor.after.is_some();";

/// Records which page is read.
pub const RECORD_PAGE: &'static str = "tracing::Span::current().record(\"first\", first);
tracing::Span::current().record(\"has_cursor\", has_cursor);";

/// Records which entities were read.
pub const RECORD_ENTITIES: &'static str = "let result_ids: Vec<_> = entities.iter().map(|e| &e.id).collect();
tracing::Span::current().record(\"count\", result_ids.len());
tracing::Span::current().record(\"has_next_page\", has_next_page);
tracing::Span::current().record(\"ids\", tracing::field::debug(&result_ids));";

/// The attribute of a function that is traced: the name of its span, the
/// entity, and further fields.
pub open spec fn instrument_attr_code(
    span_name: Seq<char>,
    entity_name: Seq<char>,
    fields: Seq<char>,
) -> Seq<char> {
    "#[tracing::instrument(name = "@ + span_name + ", skip_all, fields(entity = "@ + entity_name + ", "@ + fields + " error = tracing::field::Empty, exception.message = tracing::field::Empty, exception.type = tracing::field::Empty))]"@
}

/// The attribute of a function that is traced: the name of its span, the
/// entity, and further fields.
fn instrument_attr(span_name: &str, entity_name: &str, fields: &str) -> (res: String)
    ensures
        res@ == instrument_attr_code(span_name@, entity_name@, fields@),
{
    "#[tracing::instrument(name = ".to_string().concat(span_name).concat(", skip_all, fields(entity = ").concat(entity_name).concat(", ").concat(fields).concat(" error = tracing::field::Empty, exception.message = tracing::field::Empty, exception.type = tracing::field::Empty))]")
}

/// What a function of the repository is traced with, where it is: `text`, or
/// nothing.
pub open spec fn traced(span_prefix: Option<Seq<char>>, text: Seq<char>) -> Seq<char> {
    match span_prefix {
        Some(_) => text,
        None => Seq::empty(),
    }
}

/// The attribute of the function `name` of the repository.
pub open spec fn span_attr(
    span_prefix: Option<Seq<char>>,
    name: Seq<char>,
    entity: Seq<char>,
    fields: Seq<char>,
) -> Seq<char> {
    match span_prefix {
        Some(repo) => instrument_attr_code(literal(repo + "."@ + name), literal(entity), fields),
        None => Seq::empty(),
    }
}

/// What a function of the repository is traced with, where it is.
pub fn trace(span_prefix: &Option<String>, text: &str) -> (res: String)
    ensures
        res@ == traced(crate::types::opt_text(*span_prefix), text@),
{
    match span_prefix {
        Some(_) => text.to_string(),
        None => String::new(),
    }
}

/// The attribute of the function `name` of the repository, where it is traced.
pub fn span_attribute(span_prefix: &Option<String>, name: &str, entity: &str, fields: &str) -> (res:
    String)
    ensures
        res@ == span_attr(crate::types::opt_text(*span_prefix), name@, entity@, fields@),
{
    match span_prefix {
        Some(repo) => {
            let span = repo.clone().concat(".").concat(name);
            instrument_attr(quote(span.as_str()).as_str(), quote(entity).as_str(), fields)
        },
        None => String::new(),
    }
}

} // verus!
