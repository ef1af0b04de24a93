//! Rust types as the options mention them: their text, and what of their form
//! the emitted code depends on.

use quote::ToTokens;
use syn::{GenericArgument, PathArguments, Type};
use vstd::prelude::*;
use vstd::string::*;

use crate::text::same;

verus! {

/// A type as it is seen: its text, the identifier that it consists of, the names
/// of its path's segments, and the texts of those generic arguments that are
/// types.
pub type TypeView = (Seq<char>, Option<Seq<char>>, Seq<Seq<char>>, Seq<Option<Seq<char>>>);

/// A Rust type.
pub struct TypeExpr {
    /// The type as its tokens are written.
    pub text: String,
    /// The identifier, where the type is a path that consists of just one.
    pub ident: Option<String>,
    /// The names of the path's segments; none where the type is no path.
    pub segments: Vec<String>,
    /// The generic arguments of the first segment, each as its tokens are
    /// written where it is a type.
    pub args: Vec<Option<String>>,
}

/// What is read off a type: its text, the names of its path's segments, and the
/// texts of the generic arguments that are types.
pub type TypeRead = (Seq<char>, Seq<Seq<char>>, Seq<Option<Seq<char>>>);

/// Whether `syn` can read `ty` as the type `read`, or as none. There can be
/// several readings: inside a macro the compiler splits a text into tokens and
/// writes them out, and elsewhere a library does.
pub uninterp spec fn type_read(ty: Seq<char>, read: Option<TypeRead>) -> bool;

/// The view of an optional text.
pub open spec fn opt_text(s: Option<String>) -> Option<Seq<char>> {
    match s {
        Some(s) => Some(s@),
        None => None,
    }
}

/// The view of an optional text.
pub open spec fn opt_str(s: Option<&str>) -> Option<Seq<char>> {
    match s {
        Some(s) => Some(s@),
        None => None,
    }
}

/// The views of optional texts.
pub open spec fn opt_texts(s: Seq<Option<String>>) -> Seq<Option<Seq<char>>> {
    Seq::new(s.len(), |i: int| opt_text(s[i]))
}

impl TypeExpr {
    /// The type as it is seen.
    pub open spec fn form(&self) -> TypeView {
        (
            self.text@,
            opt_text(self.ident),
            self.segments.deep_view(),
            opt_texts(self.args@),
        )
    }

    /// The identifier is the type where the type is written as its only segment.
    pub open spec fn ident_fits(&self) -> bool {
        opt_text(self.ident) == (if self.segments.deep_view() =~= seq![self.text@] {
            Some(self.text@)
        } else {
            None
        })
    }

    /// Whether the type is a path of the single segment `name`, with or
    /// without generic arguments.
    pub open spec fn has_single_segment(&self, name: Seq<char>) -> bool {
        self.segments.deep_view() =~= seq![name]
    }

    /// The argument of a type that is written `name<argument>`.
    pub open spec fn argument_of(&self, name: Seq<char>) -> Option<Seq<char>> {
        if self.has_single_segment(name) && self.args.len() == 1 {
            opt_text(self.args@[0])
        } else {
            None
        }
    }

    /// Whether the last segment of the type's path is `name`.
    pub open spec fn ends_in(&self, name: Seq<char>) -> bool {
        self.segments.len() > 0 && self.segments.deep_view().last() == name
    }

    /// Whether the type is the plain identifier `name`.
    pub open spec fn is_plain(&self, name: Seq<char>) -> bool {
        opt_text(self.ident) == Some(name)
    }
}

/// The type that is the plain identifier `name`.
pub open spec fn plain_form(name: Seq<char>) -> TypeView {
    (name, Some(name), seq![name], Seq::empty())
}

/// The type `Option<inner>`.
pub open spec fn option_form(inner: Seq<char>) -> TypeView {
    ("Option<"@ + inner + ">"@, None, seq!["Option"@], seq![Some(inner)])
}

/// What is read off a type, as a view.
pub open spec fn read_view(read: Option<(String, Vec<String>, Vec<Option<String>>)>) -> Option<
    TypeRead,
> {
    match read {
        Some(r) => Some((r.0@, r.1.deep_view(), opt_texts(r.2@))),
        None => None,
    }
}

/// Calls `syn::parse_str` for a type. The result is what `quote::ToTokens` writes
/// for the type, the identifiers of its path's segments, and what is written for
/// those arguments in angle brackets of the first segment that are
/// `GenericArgument::Type`. The contract says that this is a reading of the text.
/// It does not say which one: that depends on whether the program is a macro.
#[verifier::external_body]
fn read_type(ty: &str) -> (res: Option<(String, Vec<String>, Vec<Option<String>>)>)
    ensures
        type_read(ty@, read_view(res)),
{
    let parsed = syn::parse_str::<Type>(ty).ok()?;
    let text = parsed.to_token_stream().to_string();
    let path = match parsed {
        Type::Path(ty) => ty.path,
        _ => return Some((text, Vec::new(), Vec::new())),
    };
    let args = match path.segments.first().map(|s| &s.arguments) {
        Some(PathArguments::AngleBracketed(list)) => list.args.iter().map(|a| match a {
            GenericArgument::Type(t) => Some(t.to_token_stream().to_string()),
            _ => None,
        }).collect(),
        _ => Vec::new(),
    };
    Some((text, path.segments.iter().map(|s| s.ident.to_string()).collect(), args))
}

/// Whether `res` is what the text `ty` is read as.
pub open spec fn type_is_read(ty: Seq<char>, res: Option<TypeExpr>) -> bool {
    match res {
        Some(t) => t.ident_fits() && type_read(
            ty,
            Some((t.text@, t.segments.deep_view(), opt_texts(t.args@))),
        ),
        None => type_read(ty, None),
    }
}

impl TypeExpr {
    /// The type that `ty` is the text of; none where `ty` is not a type.
    pub fn parse(ty: &str) -> (res: Option<TypeExpr>)
        ensures
            type_is_read(ty@, res),
    {
        match read_type(ty) {
            Some((text, segments, args)) => Some(TypeExpr::of_parts(text, segments, args)),
            None => None,
        }
    }

    /// The type of which these are the text, the names of the path's segments,
    /// and the generic arguments.
    pub fn of_parts(text: String, segments: Vec<String>, args: Vec<Option<String>>) -> (res:
        TypeExpr)
        ensures
            res.text == text,
            res.segments == segments,
            res.args == args,
            res.ident_fits(),
    {
        let alone = segments.len() == 1 && same(segments[0].as_str(), text.as_str());
        proof {
            let view = segments.deep_view();
            if alone {
                assert(view =~= seq![text@]);
            } else if view =~= seq![text@] {
                assert(view[0] == text@);
            }
        }
        let ident = if alone {
            Some(text.clone())
        } else {
            None
        };
        TypeExpr { text, ident, segments, args }
    }

    /// The type that is the plain identifier `name`.
    pub fn plain(name: &str) -> (res: TypeExpr)
        ensures
            res.form() == plain_form(name@),
    {
        let res = TypeExpr {
            text: name.to_string(),
            ident: Some(name.to_string()),
            segments: vec![name.to_string()],
            args: Vec::new(),
        };
        assert(res.segments.deep_view() =~= seq![name@]);
        assert(opt_texts(res.args@) =~= Seq::empty());
        res
    }

    /// The type `Option<inner>`.
    pub fn option_of(inner: &str) -> (res: TypeExpr)
        ensures
            res.form() == option_form(inner@),
    {
        let res = TypeExpr {
            text: "Option<".to_string().concat(inner).concat(">"),
            ident: None,
            segments: vec!["Option".to_string()],
            args: vec![Some(inner.to_string())],
        };
        assert(res.segments.deep_view() =~= seq!["Option"@]);
        assert(opt_texts(res.args@) =~= seq![Some(inner@)]);
        res
    }

    /// Whether the type is a path of the single segment `name`.
    pub fn is_single_segment(&self, name: &str) -> (res: bool)
        ensures
            res == self.has_single_segment(name@),
    {
        let res = self.segments.len() == 1 && same(self.segments[0].as_str(), name);
        proof {
            let view = self.segments.deep_view();
            if res {
                assert(view =~= seq![name@]);
            } else if view =~= seq![name@] {
                assert(view[0] == name@);
            }
        }
        res
    }

    /// The argument of a type that is written `name<argument>`.
    pub fn sole_argument(&self, name: &str) -> (res: Option<String>)
        ensures
            opt_text(res) == self.argument_of(name@),
    {
        if self.is_single_segment(name) && self.args.len() == 1 {
            match &self.args[0] {
                Some(argument) => Some(argument.clone()),
                None => None,
            }
        } else {
            None
        }
    }

    /// Whether the last segment of the type's path is `name`.
    pub fn last_segment_is(&self, name: &str) -> (res: bool)
        ensures
            res == self.ends_in(name@),
    {
        let n: usize = self.segments.len();
        n > 0 && same(self.segments[n - 1].as_str(), name)
    }

    /// Whether the type is the plain identifier `name`.
    pub fn is_ident(&self, name: &str) -> (res: bool)
        ensures
            res == self.is_plain(name@),
    {
        match &self.ident {
            Some(ident) => same(ident.as_str(), name),
            None => false,
        }
    }

    /// A copy of the type.
    pub fn duplicate(&self) -> (res: TypeExpr)
        ensures
            res.form() == self.form(),
    {
        let mut args: Vec<Option<String>> = Vec::new();
        let mut i: usize = 0;
        while i < self.args.len()
            invariant
                i <= self.args.len(),
                args.len() == i,
                forall|j: int|
                    0 <= j < i ==> opt_text(#[trigger] args@[j]) == opt_text(self.args@[j]),
            decreases self.args.len() - i,
        {
            args.push(
                match &self.args[i] {
                    Some(arg) => Some(arg.clone()),
                    None => None,
                },
            );
            i = i + 1;
        }
        let res = TypeExpr {
            text: self.text.clone(),
            ident: self.ident.clone(),
            segments: self.segments.clone(),
            args,
        };
        assert(res.segments.deep_view() =~= self.segments.deep_view());
        assert(opt_texts(res.args@) =~= opt_texts(self.args@));
        res
    }
}

} // verus!
