//! Names in other cases, and words in other numbers.

use convert_case::{Case, Casing};
use vstd::prelude::*;
use vstd::string::*;

verus! {

/// A way of writing a name that is made of several words.
#[derive(Clone, Copy, PartialEq, Eq, Structural)]
pub enum NameCase {
    /// `LineItems`
    UpperCamel,
    /// `line_items`
    Snake,
}

/// The name `name` written in `case`, as `convert_case` splits it into words.
pub uninterp spec fn cased(name: Seq<char>, case: NameCase) -> Seq<char>;

/// Calls `convert_case::Casing::to_case`. The contract only names the result:
/// it depends on the name and the case alone.
#[verifier::external_body]
pub(crate) fn to_case(name: &str, case: NameCase) -> (res: String)
    ensures
        res@ == cased(name@, case),
{
    match case {
        NameCase::UpperCamel => name.to_case(Case::UpperCamel),
        NameCase::Snake => name.to_case(Case::Snake),
    }
}

/// Whether `form` is what `pluralizer` makes of `word` for `count` with some
/// rules: the singular for one, the plural for any other count. Several forms
/// can be, because the rules can be extended while a program runs.
pub uninterp spec fn number_form(word: Seq<char>, count: int, form: Seq<char>) -> bool;

/// Calls `pluralizer::pluralize` without the count in front. The contract says
/// that the result is a form of that word for that count. It does not say
/// which one: that depends on the rules which the program has added.
#[verifier::external_body]
pub(crate) fn pluralize(word: &str, count: isize) -> (res: String)
    ensures
        number_form(word@, count as int, res@),
{
    pluralizer::pluralize(word, count, false)
}

} // verus!
