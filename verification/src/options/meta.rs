//! The items of an attribute.

use vstd::prelude::*;
use vstd::string::*;

use crate::options::column::Accessor;
use crate::options::error::OptionsError;
use crate::text::same;
use crate::types::{opt_text, TypeExpr, TypeView};

verus! {

/// What a text is read as: an identifier, an expression or a type, where it is
/// one.
pub enum TextReading {
    /// A text that stands for itself.
    Plain,
    Identifier(Option<String>),
    Expression(Option<Accessor>),
    Type(Option<TypeExpr>),
}

/// A string literal.
pub struct Quoted {
    pub text: String,
    pub read: TextReading,
}

/// The value behind a name.
pub enum MetaValue {
    /// A string literal.
    Text(Quoted),
    /// `true` or `false`.
    Flag(bool),
    /// An identifier.
    Name(String),
    /// Any other expression.
    Expr(Accessor),
}

/// What follows a name.
pub enum MetaKind {
    Word,
    Value(MetaValue),
    List(Vec<NestedMeta>),
}

/// A named item of an attribute.
pub struct Meta {
    /// The name, where it is a single identifier.
    pub name: Option<String>,
    pub kind: MetaKind,
}

/// An item of an attribute.
pub enum NestedMeta {
    Meta(Meta),
    /// A literal without a name.
    Literal,
}

/// What is wrong with the items of an attribute.
pub enum MetaProblem {
    DuplicateIdColumn,
    IdColumnOnlyScope,
    ExpectedIdentifier,
    ExpectedNameValueOrList,
    InvalidType(Seq<char>),
    InvalidErrorType(Seq<char>),
    ListForFalse,
    ExpectedBy,
    Literal,
    UnknownField,
    DuplicateField(Seq<char>),
    InvalidField(Seq<char>),
    MissingField(Seq<char>),
    MissingMethod(Seq<char>),
    MissingError(Seq<char>),
}

impl OptionsError {
    /// What the error says is wrong with the items of an attribute.
    pub open spec fn meta_problem(&self) -> Option<MetaProblem> {
        match self {
            OptionsError::DuplicateIdColumn => Some(MetaProblem::DuplicateIdColumn),
            OptionsError::IdColumnOnlyScope => Some(MetaProblem::IdColumnOnlyScope),
            OptionsError::ExpectedIdentifier => Some(MetaProblem::ExpectedIdentifier),
            OptionsError::ExpectedNameValueOrList => Some(MetaProblem::ExpectedNameValueOrList),
            OptionsError::InvalidType { text } => Some(MetaProblem::InvalidType(text@)),
            OptionsError::InvalidErrorType { text } => Some(
                MetaProblem::InvalidErrorType(text@),
            ),
            OptionsError::ListForFalse => Some(MetaProblem::ListForFalse),
            OptionsError::ExpectedBy => Some(MetaProblem::ExpectedBy),
            OptionsError::UnexpectedLiteral => Some(MetaProblem::Literal),
            OptionsError::UnknownField => Some(MetaProblem::UnknownField),
            OptionsError::DuplicateField { field } => Some(MetaProblem::DuplicateField(field@)),
            OptionsError::InvalidField { field } => Some(MetaProblem::InvalidField(field@)),
            OptionsError::MissingField { field } => Some(MetaProblem::MissingField(field@)),
            OptionsError::MissingMethod { hook } => Some(MetaProblem::MissingMethod(hook@)),
            OptionsError::MissingError { hook } => Some(MetaProblem::MissingError(hook@)),
            _ => None,
        }
    }
}

/// The views of an accessor: its text, and whether it is a call.
pub type AccessView = (Seq<char>, bool);

/// The view of an accessor.
pub open spec fn access_view(a: Accessor) -> AccessView {
    (a.text@, a.is_call)
}

/// The view of an optional accessor.
pub open spec fn opt_access(a: Option<Accessor>) -> Option<AccessView> {
    match a {
        Some(a) => Some(access_view(a)),
        None => None,
    }
}

impl Quoted {
    /// The text, as it was not read yet.
    pub fn new(text: String) -> (res: Quoted)
        ensures
            res.text == text,
            res.read is Plain,
    {
        Quoted { text, read: TextReading::Plain }
    }

    /// The identifier that the text was read as.
    pub open spec fn identifier(&self) -> Option<Seq<char>> {
        match self.read {
            TextReading::Identifier(ident) => opt_text(ident),
            _ => None,
        }
    }

    /// The expression that the text was read as.
    pub open spec fn expression(&self) -> Option<AccessView> {
        match self.read {
            TextReading::Expression(expression) => opt_access(expression),
            _ => None,
        }
    }

    /// The type that the text was read as.
    pub open spec fn ty(&self) -> Option<TypeView> {
        match self.read {
            TextReading::Type(Some(ty)) => Some(ty.form()),
            _ => None,
        }
    }

    pub(crate) fn read_type(&self) -> (res: Option<TypeExpr>)
        ensures
            self.ty() == (match res {
                Some(ty) => Some(ty.form()),
                None => None,
            }),
    {
        match &self.read {
            TextReading::Type(Some(ty)) => Some(ty.duplicate()),
            _ => None,
        }
    }
}

impl Accessor {
    pub(crate) fn duplicate(&self) -> (res: Accessor)
        ensures
            access_view(res) == access_view(*self),
    {
        Accessor { text: self.text.clone(), is_call: self.is_call }
    }
}

impl Meta {
    /// Whether the item has that name.
    pub open spec fn is_named(&self, name: Seq<char>) -> bool {
        opt_text(self.name) == Some(name)
    }

    /// The flag that the item sets: a word sets it, and so does the text
    /// `true`.
    pub open spec fn flag(&self) -> Option<bool> {
        match self.kind {
            MetaKind::Word => Some(true),
            MetaKind::Value(MetaValue::Flag(b)) => Some(b),
            MetaKind::Value(MetaValue::Text(t)) => if t.text@ == "true"@ {
                Some(true)
            } else if t.text@ == "false"@ {
                Some(false)
            } else {
                None
            },
            _ => None,
        }
    }

    /// The text that the item gives.
    pub open spec fn text(&self) -> Option<Seq<char>> {
        match self.kind {
            MetaKind::Value(MetaValue::Text(t)) => Some(t.text@),
            _ => None,
        }
    }

    /// The identifier that the item gives, as it is or as a text.
    pub open spec fn identifier(&self) -> Option<Seq<char>> {
        match self.kind {
            MetaKind::Value(MetaValue::Text(t)) => t.identifier(),
            MetaKind::Value(MetaValue::Name(n)) => Some(n@),
            _ => None,
        }
    }

    /// The type that the item gives, as a text.
    pub open spec fn ty(&self) -> Option<TypeView> {
        match self.kind {
            MetaKind::Value(MetaValue::Text(t)) => t.ty(),
            _ => None,
        }
    }

    /// The expression that the item gives, as it is or as a text.
    pub open spec fn expression(&self) -> Option<AccessView> {
        match self.kind {
            MetaKind::Value(MetaValue::Text(t)) => t.expression(),
            MetaKind::Value(MetaValue::Expr(a)) => Some(access_view(a)),
            MetaKind::Value(MetaValue::Name(n)) => Some((n@, false)),
            MetaKind::Value(MetaValue::Flag(b)) => Some(
                (
                    if b {
                        "true"@
                    } else {
                        "false"@
                    },
                    false,
                ),
            ),
            _ => None,
        }
    }

    pub(crate) fn has_name(&self, name: &str) -> (res: bool)
        ensures
            res == self.is_named(name@),
    {
        match &self.name {
            Some(n) => same(n.as_str(), name),
            None => false,
        }
    }

    pub(crate) fn read_flag(&self) -> (res: Option<bool>)
        ensures
            res == self.flag(),
    {
        match &self.kind {
            MetaKind::Word => Some(true),
            MetaKind::Value(MetaValue::Flag(b)) => Some(*b),
            MetaKind::Value(MetaValue::Text(t)) => if same(t.text.as_str(), "true") {
                Some(true)
            } else if same(t.text.as_str(), "false") {
                Some(false)
            } else {
                None
            },
            _ => None,
        }
    }

    pub(crate) fn read_text(&self) -> (res: Option<String>)
        ensures
            opt_text(res) == self.text(),
    {
        match &self.kind {
            MetaKind::Value(MetaValue::Text(t)) => Some(t.text.clone()),
            _ => None,
        }
    }

    pub(crate) fn read_identifier(&self) -> (res: Option<String>)
        ensures
            opt_text(res) == self.identifier(),
    {
        match &self.kind {
            MetaKind::Value(MetaValue::Text(t)) => match &t.read {
                TextReading::Identifier(Some(ident)) => Some(ident.clone()),
                _ => None,
            },
            MetaKind::Value(MetaValue::Name(n)) => Some(n.clone()),
            _ => None,
        }
    }

    pub(crate) fn read_type(&self) -> (res: Option<TypeExpr>)
        ensures
            self.ty() == (match res {
                Some(ty) => Some(ty.form()),
                None => None,
            }),
    {
        match &self.kind {
            MetaKind::Value(MetaValue::Text(t)) => t.read_type(),
            _ => None,
        }
    }

    pub(crate) fn read_expression(&self) -> (res: Option<Accessor>)
        ensures
            opt_access(res) == self.expression(),
    {
        match &self.kind {
            MetaKind::Value(MetaValue::Text(t)) => match &t.read {
                TextReading::Expression(Some(a)) => Some(a.duplicate()),
                _ => None,
            },
            MetaKind::Value(MetaValue::Expr(a)) => Some(a.duplicate()),
            MetaKind::Value(MetaValue::Name(n)) => Some(
                Accessor { text: n.clone(), is_call: false },
            ),
            MetaKind::Value(MetaValue::Flag(b)) => Some(
                Accessor {
                    text: if *b {
                        "true".to_string()
                    } else {
                        "false".to_string()
                    },
                    is_call: false,
                },
            ),
            _ => None,
        }
    }
}

/// What is read of the items: a value, or all that is wrong.
pub type Reading<T> = Result<T, Seq<MetaProblem>>;

/// The reading of a value that there is or not.
pub open spec fn valid<T>(field: Seq<char>, value: Option<T>) -> Reading<T> {
    match value {
        Some(x) => Ok(x),
        None => Err(seq![MetaProblem::InvalidField(field)]),
    }
}

/// What is wrong with what is read.
pub open spec fn problems<T>(reading: Reading<T>) -> Seq<MetaProblem> {
    match reading {
        Ok(_) => Seq::empty(),
        Err(ps) => ps,
    }
}

/// Whether the errors say just what is wrong, in that order.
pub open spec fn say(errors: Seq<OptionsError>, ps: Seq<MetaProblem>) -> bool {
    &&& errors.len() == ps.len()
    &&& forall|i: int|
        0 <= i < ps.len() ==> (#[trigger] errors[i]).meta_problem() == Some(ps[i])
}

/// Whether the outcome of reading is what is read.
pub open spec fn outcome<T, V>(res: Result<T, Vec<OptionsError>>, reading: Reading<V>, v: spec_fn(
    T,
) -> V) -> bool {
    match reading {
        Ok(x) => res matches Ok(t) && v(t) == x,
        Err(ps) => res matches Err(errors) && say(errors@, ps),
    }
}

pub(crate) fn duplicate(field: &str) -> (res: OptionsError)
    ensures
        res.meta_problem() == Some(MetaProblem::DuplicateField(field@)),
{
    OptionsError::DuplicateField { field: field.to_string() }
}

pub(crate) fn invalid(field: &str) -> (res: OptionsError)
    ensures
        res.meta_problem() == Some(MetaProblem::InvalidField(field@)),
{
    OptionsError::InvalidField { field: field.to_string() }
}

pub(crate) fn missing(field: &str) -> (res: OptionsError)
    ensures
        res.meta_problem() == Some(MetaProblem::MissingField(field@)),
{
    OptionsError::MissingField { field: field.to_string() }
}

/// The error for a value that there is or not.
pub(crate) fn unless(is_valid: bool, field: &str) -> (res: Vec<OptionsError>)
    ensures
        is_valid ==> say(res@, Seq::empty()),
        !is_valid ==> say(res@, seq![MetaProblem::InvalidField(field@)]),
{
    let mut errors: Vec<OptionsError> = Vec::new();
    if !is_valid {
        errors.push(invalid(field));
    }
    errors
}

/// What went wrong in reading a value.
pub(crate) fn errors_of<T>(res: Result<T, Vec<OptionsError>>) -> (errors: Vec<OptionsError>)
    ensures
        match res {
            Ok(_) => errors@ == Seq::<OptionsError>::empty(),
            Err(es) => errors == es,
        },
{
    match res {
        Ok(_) => Vec::new(),
        Err(errors) => errors,
    }
}

impl NestedMeta {
    /// Whether the item has that name.
    pub open spec fn is_named(&self, name: Seq<char>) -> bool {
        match self {
            NestedMeta::Meta(m) => m.is_named(name),
            NestedMeta::Literal => false,
        }
    }

    fn has_name(&self, name: &str) -> (res: bool)
        ensures
            res == self.is_named(name@),
    {
        match self {
            NestedMeta::Meta(m) => m.has_name(name),
            NestedMeta::Literal => false,
        }
    }
}

/// The item with that name: the first one, where there are several.
pub open spec fn given(items: Seq<NestedMeta>, name: Seq<char>) -> Option<Meta>
    decreases items.len(),
{
    if items.len() == 0 {
        None
    } else {
        match items[0] {
            NestedMeta::Meta(m) if m.is_named(name) => Some(m),
            _ => given(items.drop_first(), name),
        }
    }
}

pub(crate) fn find<'a>(items: &'a Vec<NestedMeta>, name: &str) -> (res: Option<&'a Meta>)
    ensures
        match res {
            Some(m) => given(items@, name@) == Some(*m),
            None => given(items@, name@) is None,
        },
{
    let mut i: usize = 0;
    assert(items@.skip(0) =~= items@);
    while i < items.len()
        invariant
            i <= items.len(),
            given(items@, name@) == given(items@.skip(i as int), name@),
        decreases items.len() - i,
    {
        assert(items@.skip(i as int).drop_first() =~= items@.skip(i + 1));
        match &items[i] {
            NestedMeta::Meta(m) => {
                if m.has_name(name) {
                    return Some(m);
                }
            },
            NestedMeta::Literal => {},
        }
        i = i + 1;
    }
    None
}

/// Whether an item has that name.
pub open spec fn is_given(items: Seq<NestedMeta>, name: Seq<char>) -> bool {
    exists|i: int| 0 <= i < items.len() && (#[trigger] items[i]).is_named(name)
}

fn given_before(items: &Vec<NestedMeta>, n: usize, name: &str) -> (res: bool)
    requires
        n <= items.len(),
    ensures
        res == is_given(items@.take(n as int), name@),
{
    let mut i: usize = 0;
    while i < n
        invariant
            i <= n <= items.len(),
            forall|k: int| 0 <= k < i ==> !(#[trigger] items@[k]).is_named(name@),
        decreases n - i,
    {
        if items[i].has_name(name) {
            assert(items@.take(n as int)[i as int].is_named(name@));
            return true;
        }
        i = i + 1;
    }
    false
}

/// For an item what is wrong with its value; nothing where no item may have its
/// name.
pub type Schema = spec_fn(Meta) -> Option<Seq<MetaProblem>>;

/// What is wrong with an item that stands behind others: a name is given at
/// most once.
pub open spec fn item_problems(
    earlier: Seq<NestedMeta>,
    item: NestedMeta,
    schema: Schema,
) -> Seq<MetaProblem> {
    match item {
        NestedMeta::Literal => seq![MetaProblem::Literal],
        NestedMeta::Meta(m) => match (opt_text(m.name), schema(m)) {
            (Some(name), Some(ps)) => if is_given(earlier, name) {
                seq![MetaProblem::DuplicateField(name)]
            } else {
                ps
            },
            _ => seq![MetaProblem::UnknownField],
        },
    }
}

/// All that is wrong with the items.
pub open spec fn items_problems(items: Seq<NestedMeta>, schema: Schema) -> Seq<MetaProblem>
    decreases items.len(),
{
    if items.len() == 0 {
        Seq::empty()
    } else {
        items_problems(items.drop_last(), schema) + item_problems(
            items.drop_last(),
            items.last(),
            schema,
        )
    }
}

/// Whether this is what the schema says of an item.
pub open spec fn told(res: Option<Vec<OptionsError>>, ps: Option<Seq<MetaProblem>>) -> bool {
    match ps {
        Some(ps) => res matches Some(errors) && say(errors@, ps),
        None => res is None,
    }
}

/// All that is wrong with the items.
pub(crate) fn check_items<F: Fn(&Meta) -> Option<Vec<OptionsError>>>(
    items: &Vec<NestedMeta>,
    check: F,
    Ghost(schema): Ghost<Schema>,
) -> (res: Vec<OptionsError>)
    requires
        forall|m: &Meta| #[trigger] call_requires(check, (m,)),
        forall|m: &Meta, r: Option<Vec<OptionsError>>| #[trigger]
            call_ensures(check, (m,), r) ==> told(r, schema(*m)),
    ensures
        say(res@, items_problems(items@, schema)),
{
    let mut errors: Vec<OptionsError> = Vec::new();
    let mut i: usize = 0;
    while i < items.len()
        invariant
            i <= items.len(),
            say(errors@, items_problems(items@.take(i as int), schema)),
            forall|m: &Meta| #[trigger] call_requires(check, (m,)),
            forall|m: &Meta, r: Option<Vec<OptionsError>>| #[trigger]
                call_ensures(check, (m,), r) ==> told(r, schema(*m)),
        decreases items.len() - i,
    {
        proof {
            assert(items@.take(i + 1).drop_last() =~= items@.take(i as int));
            assert(items@.take(i + 1).last() == items@[i as int]);
        }
        match &items[i] {
            NestedMeta::Literal => {
                errors.push(OptionsError::UnexpectedLiteral);
            },
            NestedMeta::Meta(m) => {
                let told = check(m);
                match (&m.name, told) {
                    (Some(name), Some(mut found)) => {
                        if given_before(items, i, name.as_str()) {
                            errors.push(duplicate(name.as_str()));
                        } else {
                            errors.append(&mut found);
                        }
                    },
                    _ => {
                        errors.push(OptionsError::UnknownField);
                    },
                }
            },
        }
        i = i + 1;
    }
    assert(items@.take(items.len() as int) =~= items@);
    errors
}

/// Of the items with a name the first is not told to be a duplicate.
proof fn given_is_first(items: Seq<NestedMeta>, name: Seq<char>) -> (i: int)
    requires
        given(items, name) is Some,
    ensures
        0 <= i < items.len(),
        items[i] == NestedMeta::Meta(given(items, name)->0),
        given(items, name)->0.is_named(name),
        !is_given(items.take(i), name),
    decreases items.len(),
{
    if items[0].is_named(name) {
        0
    } else {
        let rest = items.drop_first();
        let i = given_is_first(rest, name);
        assert forall|k: int| 0 <= k < i + 1 implies !(#[trigger] items.take(i + 1)[k]).is_named(
            name,
        ) by {
            if k > 0 {
                assert(rest.take(i)[k - 1] == items[k]);
            }
        }
        i + 1
    }
}

/// What is wrong with one item is wrong with all of them.
proof fn item_counts(items: Seq<NestedMeta>, i: int, schema: Schema)
    requires
        0 <= i < items.len(),
    ensures
        forall|p: MetaProblem|
            item_problems(items.take(i), items[i], schema).contains(p) ==> #[trigger]
            items_problems(items, schema).contains(p),
    decreases items.len(),
{
    let front = items.drop_last();
    let front_problems = items_problems(front, schema);
    let own = item_problems(front, items.last(), schema);
    if i < front.len() {
        item_counts(front, i, schema);
        assert(front.take(i) =~= items.take(i));
    } else {
        assert(items.take(i) =~= front);
    }
    assert forall|p: MetaProblem|
        item_problems(items.take(i), items[i], schema).contains(p) implies #[trigger] items_problems(
        items,
        schema,
    ).contains(p) by {
        if i < front.len() {
            assert(front[i] == items[i]);
            assert(items_problems(front, schema).contains(p));
            let k = choose|k: int| 0 <= k < front_problems.len() && front_problems[k] == p;
            assert((front_problems + own)[k] == p);
        } else {
            let k = choose|k: int| 0 <= k < own.len() && own[k] == p;
            assert((front_problems + own)[front_problems.len() + k] == p);
        }
    }
}

/// Where nothing is wrong with the items, nothing is wrong with the value of
/// one that is given.
pub proof fn given_is_valid(items: Seq<NestedMeta>, name: Seq<char>, schema: Schema)
    requires
        items_problems(items, schema) == Seq::<MetaProblem>::empty(),
        given(items, name) is Some,
    ensures
        given(items, name)->0.is_named(name),
        schema(given(items, name)->0) == Some(Seq::<MetaProblem>::empty()),
{
    let i = given_is_first(items, name);
    item_counts(items, i, schema);
    let own = item_problems(items.take(i), items[i], schema);
    if own.len() > 0 {
        assert(own.contains(own[0]));
        assert(items_problems(items, schema).contains(own[0]));
    }
    assert(own =~= Seq::empty());
}

/// A name that is given twice is told, whatever the items give.
pub proof fn named_twice(
    items: Seq<NestedMeta>,
    i: int,
    j: int,
    a: Meta,
    b: Meta,
    schema: Schema,
)
    requires
        0 <= i < j < items.len(),
        items[i] == NestedMeta::Meta(a),
        items[j] == NestedMeta::Meta(b),
        opt_text(a.name) == opt_text(b.name),
    ensures
        items_problems(items, schema).contains(
            if b.name is Some && schema(b) is Some {
                MetaProblem::DuplicateField(opt_text(b.name)->0)
            } else {
                MetaProblem::UnknownField
            },
        ),
{
    let own = item_problems(items.take(j), items[j], schema);
    if b.name is Some {
        assert(items.take(j)[i].is_named(opt_text(b.name)->0));
    }
    assert(own.contains(own[0]));
    item_counts(items, j, schema);
}

} // verus!
