//! Tokens of Rust source text.

use vstd::prelude::*;
use vstd::string::*;

use crate::text::same;

verus! {

/// A token, or a group of tokens in brackets.
pub enum TokenTree {
    Ident(String),
    Group(Vec<TokenTree>),
    /// A punctuation mark or a literal.
    Other,
}

/// Whether one of the names stands anywhere in the tokens.
pub open spec fn mentions(tokens: Seq<TokenTree>, names: Seq<Seq<char>>) -> bool
    decreases tokens,
{
    exists|i: int|
        0 <= i < tokens.len() && match #[trigger] tokens[i] {
            TokenTree::Ident(name) => names.contains(name@),
            TokenTree::Group(inner) => mentions(inner@, names),
            TokenTree::Other => false,
        }
}

/// Whether `name` is one of the names.
pub fn is_one_of(name: &str, names: &Vec<String>) -> (res: bool)
    ensures
        res == names.deep_view().contains(name@),
{
    let ghost all = names.deep_view();
    let mut i: usize = 0;
    while i < names.len()
        invariant
            i <= names.len(),
            all == names.deep_view(),
            all.len() == names.len(),
            forall|j: int| 0 <= j < i ==> #[trigger] all[j] != name@,
        decreases names.len() - i,
    {
        if same(names[i].as_str(), name) {
            assert(all[i as int] == name@);
            return true;
        }
        i = i + 1;
    }
    false
}

/// Whether one of the names stands anywhere in the tokens, at any depth.
pub fn token_stream_contains_any(tokens: &Vec<TokenTree>, names: &Vec<String>) -> (res: bool)
    ensures
        res == mentions(tokens@, names.deep_view()),
    decreases tokens@,
{
    let mut i: usize = 0;
    while i < tokens.len()
        invariant
            i <= tokens.len(),
            forall|j: int|
                0 <= j < i ==> !(match #[trigger] tokens@[j] {
                    TokenTree::Ident(name) => names.deep_view().contains(name@),
                    TokenTree::Group(inner) => mentions(inner@, names.deep_view()),
                    TokenTree::Other => false,
                }),
        decreases tokens.len() - i,
    {
        let found = match &tokens[i] {
            TokenTree::Ident(name) => is_one_of(name.as_str(), names),
            TokenTree::Group(inner) => token_stream_contains_any(inner, names),
            TokenTree::Other => false,
        };
        if found {
            assert(match tokens@[i as int] {
                TokenTree::Ident(name) => names.deep_view().contains(name@),
                TokenTree::Group(inner) => mentions(inner@, names.deep_view()),
                TokenTree::Other => false,
            });
            return true;
        }
        i = i + 1;
    }
    false
}

} // verus!
