//! Reading the texts among the items of an attribute: where an identifier, an
//! expression or a type is given as a text, the text is read as one.

use quote::ToTokens;
use syn::{Expr, Ident};
use vstd::prelude::*;
use vstd::string::*;

use crate::options::column::Accessor;
use crate::options::meta::{
    access_view, opt_access, AccessView, Meta, MetaKind, MetaValue, NestedMeta, Quoted, TextReading,
};
use crate::text::same;
use crate::types::{opt_text, type_is_read, TypeExpr};

verus! {

/// Whether `syn` can read `text` as the identifier `ident`, or as none. There can
/// be several readings: inside a macro the compiler splits a text into tokens,
/// and elsewhere a library does.
pub uninterp spec fn identifier_read(text: Seq<char>, ident: Option<Seq<char>>) -> bool;

/// Calls `syn::parse_str` for an identifier. The contract says that the result is
/// a reading of the text. It does not say which one: that depends on whether the
/// program is a macro.
#[verifier::external_body]
fn read_identifier(text: &str) -> (res: Option<String>)
    ensures
        identifier_read(text@, opt_text(res)),
{
    syn::parse_str::<Ident>(text).ok().map(|ident| ident.to_string())
}

/// Whether `syn` can read `text` as an expression that is written so, and is a
/// call or not; or as none. As with identifiers there can be several readings.
pub uninterp spec fn expression_read(text: Seq<char>, expression: Option<AccessView>) -> bool;

/// Calls `syn::parse_str` for an expression. The result is what
/// `quote::ToTokens` writes for it, and whether it is a call of a function or a
/// method. The contract says that this is a reading of the text. It does not say
/// which one: that depends on whether the program is a macro.
#[verifier::external_body]
fn read_expression(text: &str) -> (res: Option<Accessor>)
    ensures
        expression_read(text@, opt_access(res)),
{
    let expression = syn::parse_str::<Expr>(text).ok()?;
    let text = expression.to_token_stream().to_string();
    match expression {
        Expr::Call(_) => Some(Accessor { text, is_call: true }),
        Expr::MethodCall(_) => Some(Accessor { text, is_call: true }),
        _ => Some(Accessor { text, is_call: false }),
    }
}

/// What a text is to be read as.
pub enum TextForm {
    Plain,
    Identifier,
    Expression,
    Type,
}

/// Where the items of a list stand.
pub enum Place {
    /// Among the options of a repository.
    Repository,
    /// Among the marks of a field.
    Field,
    /// Among the columns.
    Columns,
    /// Among the options of a column.
    Column,
    /// In `create(..)`, `update(..)` or `parent(..)` of a column.
    Access,
    /// Among the options of a hook.
    Hook,
    /// Where no text is read.
    Elsewhere,
}

impl Place {
    /// What the text of an item with that name is to be read as. Each column is
    /// given by its type.
    pub open spec fn form_of(&self, name: Option<Seq<char>>) -> TextForm {
        match self {
            Place::Repository => if name == Some("entity"@) || name == Some("event"@) || name
                == Some("id"@) {
                TextForm::Identifier
            } else {
                TextForm::Plain
            },
            Place::Field => if name == Some("entity"@) {
                TextForm::Identifier
            } else {
                TextForm::Plain
            },
            Place::Columns => TextForm::Type,
            Place::Column => if name == Some("ty"@) {
                TextForm::Type
            } else {
                TextForm::Plain
            },
            Place::Access => if name == Some("accessor"@) {
                TextForm::Expression
            } else {
                TextForm::Plain
            },
            Place::Hook => if name == Some("error"@) {
                TextForm::Type
            } else {
                TextForm::Plain
            },
            Place::Elsewhere => TextForm::Plain,
        }
    }

    /// Where the items in the list of an item with that name stand.
    pub open spec fn inside(&self, name: Option<Seq<char>>) -> Place {
        match self {
            Place::Repository => if name == Some("columns"@) {
                Place::Columns
            } else if name == Some("post_persist_hook"@) || name == Some("post_hydrate_hook"@) {
                Place::Hook
            } else {
                Place::Elsewhere
            },
            Place::Columns => Place::Column,
            Place::Column => if name == Some("create"@) || name == Some("update"@) || name == Some(
                "parent"@,
            ) {
                Place::Access
            } else {
                Place::Elsewhere
            },
            _ => Place::Elsewhere,
        }
    }

    fn text_form(&self, name: &Option<String>) -> (res: TextForm)
        ensures
            res == self.form_of(opt_text(*name)),
    {
        match self {
            Place::Repository => if is_given_name(name, "entity") || is_given_name(name, "event")
                || is_given_name(name, "id") {
                TextForm::Identifier
            } else {
                TextForm::Plain
            },
            Place::Field => if is_given_name(name, "entity") {
                TextForm::Identifier
            } else {
                TextForm::Plain
            },
            Place::Columns => TextForm::Type,
            Place::Column => if is_given_name(name, "ty") {
                TextForm::Type
            } else {
                TextForm::Plain
            },
            Place::Access => if is_given_name(name, "accessor") {
                TextForm::Expression
            } else {
                TextForm::Plain
            },
            Place::Hook => if is_given_name(name, "error") {
                TextForm::Type
            } else {
                TextForm::Plain
            },
            Place::Elsewhere => TextForm::Plain,
        }
    }

    fn place_inside(&self, name: &Option<String>) -> (res: Place)
        ensures
            res == self.inside(opt_text(*name)),
    {
        match self {
            Place::Repository => if is_given_name(name, "columns") {
                Place::Columns
            } else if is_given_name(name, "post_persist_hook") || is_given_name(
                name,
                "post_hydrate_hook",
            ) {
                Place::Hook
            } else {
                Place::Elsewhere
            },
            Place::Columns => Place::Column,
            Place::Column => if is_given_name(name, "create") || is_given_name(name, "update")
                || is_given_name(name, "parent") {
                Place::Access
            } else {
                Place::Elsewhere
            },
            _ => Place::Elsewhere,
        }
    }
}

fn is_given_name(name: &Option<String>, expected: &str) -> (res: bool)
    ensures
        res == (opt_text(*name) == Some(expected@)),
{
    match name {
        Some(name) => same(name.as_str(), expected),
        None => false,
    }
}

/// Whether the text is left as it is and read as what it is to be read as.
pub open spec fn quoted_is_read(from: Quoted, to: Quoted, form: TextForm) -> bool {
    &&& to.text@ == from.text@
    &&& match form {
        TextForm::Plain => to.read is Plain,
        TextForm::Identifier => to.read matches TextReading::Identifier(ident) && identifier_read(
            from.text@,
            opt_text(ident),
        ),
        TextForm::Expression => to.read matches TextReading::Expression(expression)
            && expression_read(from.text@, opt_access(expression)),
        TextForm::Type => to.read matches TextReading::Type(ty) && type_is_read(from.text@, ty),
    }
}

/// Whether the value is left as it is, with its text read.
pub open spec fn value_is_read(from: MetaValue, to: MetaValue, form: TextForm) -> bool {
    match from {
        MetaValue::Text(t) => to matches MetaValue::Text(u) && quoted_is_read(t, u, form),
        MetaValue::Flag(b) => to == MetaValue::Flag(b),
        MetaValue::Name(n) => to matches MetaValue::Name(m) && m@ == n@,
        MetaValue::Expr(a) => to matches MetaValue::Expr(b) && access_view(b) == access_view(a),
    }
}

/// Whether the item is left as it is, with its texts read.
pub open spec fn item_is_read(from: NestedMeta, to: NestedMeta, place: Place) -> bool
    decreases from,
{
    match from {
        NestedMeta::Meta(m) => {
            &&& to matches NestedMeta::Meta(r)
            &&& opt_text(r.name) == opt_text(m.name)
            &&& match m.kind {
                MetaKind::Word => r.kind is Word,
                MetaKind::Value(v) => r.kind matches MetaKind::Value(w) && value_is_read(
                    v,
                    w,
                    place.form_of(opt_text(m.name)),
                ),
                MetaKind::List(items) => {
                    &&& r.kind matches MetaKind::List(read)
                    &&& read.len() == items.len()
                    &&& forall|i: int|
                        0 <= i < items.len() ==> item_is_read(
                            items@[i],
                            #[trigger] read@[i],
                            place.inside(opt_text(m.name)),
                        )
                },
            }
        },
        NestedMeta::Literal => to is Literal,
    }
}

/// Whether the items are left as they are, with the texts among them read.
pub open spec fn texts_are_read(
    from: Seq<NestedMeta>,
    to: Seq<NestedMeta>,
    place: Place,
) -> bool {
    &&& to.len() == from.len()
    &&& forall|i: int| 0 <= i < from.len() ==> item_is_read(from[i], #[trigger] to[i], place)
}

fn read_quoted(text: &Quoted, form: TextForm) -> (res: Quoted)
    ensures
        quoted_is_read(*text, res, form),
{
    let t = text.text.as_str();
    let read = match form {
        TextForm::Plain => TextReading::Plain,
        TextForm::Identifier => TextReading::Identifier(read_identifier(t)),
        TextForm::Expression => TextReading::Expression(read_expression(t)),
        TextForm::Type => TextReading::Type(TypeExpr::parse(t)),
    };
    Quoted { text: text.text.clone(), read }
}

fn read_item(item: &NestedMeta, place: &Place) -> (res: NestedMeta)
    ensures
        item_is_read(*item, res, *place),
    decreases *item,
{
    match item {
        NestedMeta::Meta(m) => {
            let kind = match &m.kind {
                MetaKind::Word => MetaKind::Word,
                MetaKind::Value(v) => MetaKind::Value(
                    match v {
                        MetaValue::Text(t) => MetaValue::Text(
                            read_quoted(t, place.text_form(&m.name)),
                        ),
                        MetaValue::Flag(b) => MetaValue::Flag(*b),
                        MetaValue::Name(n) => MetaValue::Name(n.clone()),
                        MetaValue::Expr(a) => MetaValue::Expr(a.duplicate()),
                    },
                ),
                MetaKind::List(items) => {
                    let inside = place.place_inside(&m.name);
                    let mut read: Vec<NestedMeta> = Vec::new();
                    let mut i: usize = 0;
                    while i < items.len()
                        invariant
                            i <= items.len(),
                            read.len() == i,
                            *item == NestedMeta::Meta(*m),
                            m.kind == MetaKind::List(*items),
                            forall|j: int|
                                0 <= j < i ==> item_is_read(
                                    items@[j],
                                    #[trigger] read@[j],
                                    inside,
                                ),
                        decreases items.len() - i,
                    {
                        assert(decreases_to!(*item => item->Meta_0));
                        assert(decreases_to!(*m => m.kind));
                        assert(decreases_to!(m.kind => m.kind->List_0));
                        assert(decreases_to!(*items => items@[i as int]));
                        read.push(read_item(&items[i], &inside));
                        i = i + 1;
                    }
                    MetaKind::List(read)
                },
            };
            NestedMeta::Meta(Meta { name: m.name.clone(), kind })
        },
        NestedMeta::Literal => NestedMeta::Literal,
    }
}

/// The items with the texts among them read: each as what it is to be read as at
/// its place. What a text is read as is what `syn` makes of it.
pub fn read_texts(items: &Vec<NestedMeta>, place: &Place) -> (res: Vec<NestedMeta>)
    ensures
        texts_are_read(items@, res@, *place),
{
    let mut read: Vec<NestedMeta> = Vec::new();
    let mut i: usize = 0;
    while i < items.len()
        invariant
            i <= items.len(),
            read.len() == i,
            forall|j: int| 0 <= j < i ==> item_is_read(items@[j], #[trigger] read@[j], *place),
        decreases items.len() - i,
    {
        read.push(read_item(&items[i], place));
        i = i + 1;
    }
    read
}

} // verus!
