//! Reading the columns of a repository, and its hooks, from the items of an
//! attribute.

use vstd::prelude::*;
use vstd::string::*;

use crate::options::column::{
    Accessor, Column, ColumnOpts, CreateOpts, ListForOpts, ParentOpts, UpdateOpts,
};
use crate::options::columns::Columns;
use crate::options::error::OptionsError;
use crate::options::meta::{
    check_items, errors_of, find, given, given_is_valid, invalid, items_problems, missing,
    named_twice, opt_access, outcome, problems, say, told, unless, valid, AccessView, Meta,
    MetaKind, MetaProblem, MetaValue, NestedMeta, Reading, Schema,
};
use crate::options::repository::{PostHydrateHookConfig, PostPersistHookConfig};
use crate::text::same;
use crate::types::{opt_text, TypeView};

verus! {

/// The names in `by(..)`.
pub open spec fn by_names(items: Seq<NestedMeta>) -> Reading<Seq<Seq<char>>>
    decreases items.len(),
{
    if items.len() == 0 {
        Ok(Seq::empty())
    } else {
        match by_names(items.drop_last()) {
            Err(ps) => Err(ps),
            Ok(front) => match items.last() {
                NestedMeta::Meta(Meta { name: Some(name), kind: MetaKind::Word }) => Ok(
                    front.push(name@),
                ),
                _ => Err(seq![MetaProblem::ExpectedIdentifier]),
            },
        }
    }
}

/// The names in `list_for(by(..), ..)`.
pub open spec fn sort_names(items: Seq<NestedMeta>) -> Reading<Seq<Seq<char>>>
    decreases items.len(),
{
    if items.len() == 0 {
        Ok(Seq::empty())
    } else {
        match sort_names(items.drop_last()) {
            Err(ps) => Err(ps),
            Ok(front) => match items.last() {
                NestedMeta::Meta(Meta { name: Some(name), kind: MetaKind::List(inner) }) => {
                    if name@ == "by"@ {
                        match by_names(inner@) {
                            Ok(names) => Ok(front + names),
                            Err(ps) => Err(ps),
                        }
                    } else {
                        Err(seq![MetaProblem::ExpectedBy])
                    }
                },
                _ => Err(seq![MetaProblem::ExpectedBy]),
            },
        }
    }
}

/// The columns that a list for a column is sorted by: `id` where nothing is
/// given.
pub open spec fn list_for_reading(m: Meta) -> Reading<Seq<Seq<char>>> {
    match m.kind {
        MetaKind::Word => Ok(seq!["id"@]),
        MetaKind::Value(MetaValue::Flag(b)) => if b {
            Ok(seq!["id"@])
        } else {
            Err(seq![MetaProblem::ListForFalse])
        },
        MetaKind::Value(_) => Err(seq![MetaProblem::InvalidField("list_for"@)]),
        MetaKind::List(items) => sort_names(items@),
    }
}

/// Whether a column is written, and how it is read.
pub type PersistView = (Option<bool>, Option<AccessView>);

/// What may stand in `create(..)` and `update(..)`.
pub open spec fn persist_schema() -> Schema {
    |m: Meta|
        if m.is_named("persist"@) {
            Some(problems(valid("persist"@, m.flag())))
        } else if m.is_named("accessor"@) {
            Some(problems(valid("accessor"@, m.expression())))
        } else {
            None
        }
}

/// The flag that the item with that name gives.
pub open spec fn flag_given(items: Seq<NestedMeta>, name: Seq<char>) -> Option<bool> {
    match given(items, name) {
        Some(m) => m.flag(),
        None => None,
    }
}

/// The text that the item with that name gives.
pub open spec fn text_given(items: Seq<NestedMeta>, name: Seq<char>) -> Option<Seq<char>> {
    match given(items, name) {
        Some(m) => m.text(),
        None => None,
    }
}

/// The expression that the item with that name gives.
pub open spec fn expression_given(items: Seq<NestedMeta>, name: Seq<char>) -> Option<AccessView> {
    match given(items, name) {
        Some(m) => m.expression(),
        None => None,
    }
}

/// What `create(..)` or `update(..)` gives.
pub open spec fn persist_items(items: Seq<NestedMeta>) -> Reading<PersistView> {
    let ps = items_problems(items, persist_schema());
    if ps.len() == 0 {
        Ok((flag_given(items, "persist"@), expression_given(items, "accessor"@)))
    } else {
        Err(ps)
    }
}

/// What `create(..)` or `update(..)` gives.
pub open spec fn persist_reading(m: Meta, field: Seq<char>) -> Reading<PersistView> {
    match m.kind {
        MetaKind::List(items) => persist_items(items@),
        _ => Err(seq![MetaProblem::InvalidField(field)]),
    }
}

/// What may stand in `parent(..)`.
pub open spec fn parent_schema() -> Schema {
    |m: Meta|
        if m.is_named("accessor"@) {
            Some(problems(valid("accessor"@, m.expression())))
        } else {
            None
        }
}

/// What `parent(..)` gives.
pub open spec fn parent_items(items: Seq<NestedMeta>) -> Reading<Option<AccessView>> {
    let ps = items_problems(items, parent_schema());
    if ps.len() == 0 {
        Ok(expression_given(items, "accessor"@))
    } else {
        Err(ps)
    }
}

/// What `parent` gives: how the parent's id is read, where that is given.
pub open spec fn parent_reading(m: Meta) -> Reading<Option<AccessView>> {
    match m.kind {
        MetaKind::Word => Ok(None),
        MetaKind::List(items) => parent_items(items@),
        MetaKind::Value(_) => Err(seq![MetaProblem::InvalidField("parent"@)]),
    }
}

/// Whether a column is a scope column, and the variant that stands for it.
pub type ScopeView = (bool, Option<Seq<char>>);

/// What `scope` gives: a flag, or the variant in `scope(variant = "..")`.
pub open spec fn scope_reading(m: Meta) -> Option<ScopeView> {
    match m.kind {
        MetaKind::List(items) => if items.len() == 1 {
            match items@[0] {
                NestedMeta::Meta(v) => if v.is_named("variant"@) {
                    match v.text() {
                        Some(t) => Some((true, Some(t))),
                        None => None,
                    }
                } else {
                    None
                },
                NestedMeta::Literal => None,
            }
        } else {
            None
        },
        _ => match m.flag() {
            Some(b) => Some((b, None)),
            None => None,
        },
    }
}

/// What is read of a column's options.
pub struct OptsView {
    pub ty: Option<TypeView>,
    pub scope: Option<ScopeView>,
    pub find_by: Option<bool>,
    pub list_by: Option<bool>,
    pub nullable: Option<bool>,
    pub list_for: Option<Seq<Seq<char>>>,
    pub parent: Option<Option<AccessView>>,
    pub create: Option<PersistView>,
    pub update: Option<PersistView>,
    pub constraint: Option<Seq<char>>,
    pub virtual_sql: Option<Seq<char>>,
}

/// Nothing is read yet.
pub open spec fn nothing_read() -> OptsView {
    OptsView {
        ty: None,
        scope: None,
        find_by: None,
        list_by: None,
        nullable: None,
        list_for: None,
        parent: None,
        create: None,
        update: None,
        constraint: None,
        virtual_sql: None,
    }
}

/// What may stand among the options of a column.
pub open spec fn column_schema() -> Schema {
    |m: Meta|
        if m.is_named("ty"@) {
            Some(problems(valid("ty"@, m.ty())))
        } else if m.is_named("scope"@) {
            Some(problems(valid("scope"@, scope_reading(m))))
        } else if m.is_named("find_by"@) {
            Some(problems(valid("find_by"@, m.flag())))
        } else if m.is_named("list_by"@) {
            Some(problems(valid("list_by"@, m.flag())))
        } else if m.is_named("nullable"@) {
            Some(problems(valid("nullable"@, m.flag())))
        } else if m.is_named("list_for"@) {
            Some(problems(list_for_reading(m)))
        } else if m.is_named("parent"@) {
            Some(problems(parent_reading(m)))
        } else if m.is_named("create"@) {
            Some(problems(persist_reading(m, "create"@)))
        } else if m.is_named("update"@) {
            Some(problems(persist_reading(m, "update"@)))
        } else if m.is_named("constraint"@) {
            Some(problems(valid("constraint"@, m.text())))
        } else if m.is_named("virtual"@) {
            Some(problems(valid("virtual"@, m.text())))
        } else {
            None
        }
}

/// What is read, where nothing is wrong.
pub open spec fn readable<T>(reading: Reading<T>) -> Option<T> {
    match reading {
        Ok(x) => Some(x),
        Err(_) => None,
    }
}

/// What the items of a column give.
pub open spec fn opts_given(items: Seq<NestedMeta>) -> OptsView {
    OptsView {
        ty: match given(items, "ty"@) {
            Some(m) => m.ty(),
            None => None,
        },
        scope: match given(items, "scope"@) {
            Some(m) => scope_reading(m),
            None => None,
        },
        find_by: flag_given(items, "find_by"@),
        list_by: flag_given(items, "list_by"@),
        nullable: flag_given(items, "nullable"@),
        list_for: match given(items, "list_for"@) {
            Some(m) => readable(list_for_reading(m)),
            None => None,
        },
        parent: match given(items, "parent"@) {
            Some(m) => readable(parent_reading(m)),
            None => None,
        },
        create: match given(items, "create"@) {
            Some(m) => readable(persist_reading(m, "create"@)),
            None => None,
        },
        update: match given(items, "update"@) {
            Some(m) => readable(persist_reading(m, "update"@)),
            None => None,
        },
        constraint: text_given(items, "constraint"@),
        virtual_sql: text_given(items, "virtual"@),
    }
}

/// What is wrong where an item is not given.
pub open spec fn absence(items: Seq<NestedMeta>, name: Seq<char>) -> Seq<MetaProblem> {
    if given(items, name) is Some {
        Seq::empty()
    } else {
        seq![MetaProblem::MissingField(name)]
    }
}

/// What is read of the items of a column: its type must be there.
pub open spec fn opts_reading(items: Seq<NestedMeta>) -> Reading<OptsView> {
    let ps = items_problems(items, column_schema()) + absence(items, "ty"@);
    if ps.len() == 0 {
        Ok(opts_given(items))
    } else {
        Err(ps)
    }
}

/// The view of the sort columns.
pub open spec fn opt_sorts(o: Option<ListForOpts>) -> Option<Seq<Seq<char>>> {
    match o {
        Some(o) => Some(o.by_columns.deep_view()),
        None => None,
    }
}

/// The view of how the parent's id is read.
pub open spec fn opt_parent(o: Option<ParentOpts>) -> Option<Option<AccessView>> {
    match o {
        Some(o) => Some(opt_access(o.accessor)),
        None => None,
    }
}

/// The view of what happens when an entity is created.
pub open spec fn opt_create(o: Option<CreateOpts>) -> Option<PersistView> {
    match o {
        Some(o) => Some((o.persist, opt_access(o.accessor))),
        None => None,
    }
}

/// The view of what happens when an entity is updated.
pub open spec fn opt_update(o: Option<UpdateOpts>) -> Option<PersistView> {
    match o {
        Some(o) => Some((o.persist, opt_access(o.accessor))),
        None => None,
    }
}

proof fn by_names_fail(items: Seq<NestedMeta>, n: int)
    requires
        0 <= n <= items.len(),
        by_names(items.take(n)) is Err,
    ensures
        by_names(items) == by_names(items.take(n)),
    decreases items.len() - n,
{
    if n < items.len() {
        assert(items.take(n + 1).drop_last() =~= items.take(n));
        by_names_fail(items, n + 1);
    } else {
        assert(items.take(n) =~= items);
    }
}

proof fn sort_names_fail(items: Seq<NestedMeta>, n: int)
    requires
        0 <= n <= items.len(),
        sort_names(items.take(n)) is Err,
    ensures
        sort_names(items) == sort_names(items.take(n)),
    decreases items.len() - n,
{
    if n < items.len() {
        assert(items.take(n + 1).drop_last() =~= items.take(n));
        sort_names_fail(items, n + 1);
    } else {
        assert(items.take(n) =~= items);
    }
}

fn read_by_names(items: &Vec<NestedMeta>) -> (res: Result<Vec<String>, Vec<OptionsError>>)
    ensures
        outcome(res, by_names(items@), |v: Vec<String>| v.deep_view()),
{
    let mut names: Vec<String> = Vec::new();
    let mut i: usize = 0;
    assert(names.deep_view() =~= Seq::<Seq<char>>::empty());
    while i < items.len()
        invariant
            i <= items.len(),
            by_names(items@.take(i as int)) == Reading::<Seq<Seq<char>>>::Ok(names.deep_view()),
        decreases items.len() - i,
    {
        let ghost before = names.deep_view();
        proof {
            assert(items@.take(i + 1).drop_last() =~= items@.take(i as int));
            assert(items@.take(i + 1).last() == items@[i as int]);
        }
        match &items[i] {
            NestedMeta::Meta(Meta { name: Some(name), kind: MetaKind::Word }) => {
                names.push(name.clone());
                assert(names.deep_view() =~= before.push(name@));
            },
            _ => {
                proof {
                    by_names_fail(items@, i + 1);
                }
                return Err(vec![OptionsError::ExpectedIdentifier]);
            },
        }
        i = i + 1;
    }
    assert(items@.take(items.len() as int) =~= items@);
    Ok(names)
}

impl ListForOpts {
    /// Sorted by `id`.
    pub fn from_word() -> (res: Self)
        ensures
            res.by_columns.deep_view() == seq!["id"@],
    {
        let by_columns = vec!["id".to_string()];
        assert(by_columns.deep_view() =~= seq!["id"@]);
        ListForOpts { by_columns }
    }

    /// Sorted by `id`; there is no list where nothing is given, so `false` is
    /// rejected.
    pub fn from_bool(value: bool) -> (res: Result<Self, OptionsError>)
        ensures
            value ==> (res matches Ok(o) && o.by_columns.deep_view() == seq!["id"@]),
            !value ==> (res matches Err(e) && e is ListForFalse),
    {
        if value {
            Ok(ListForOpts::from_word())
        } else {
            Err(OptionsError::ListForFalse)
        }
    }

    /// Sorted by the columns in each `by(..)`.
    pub fn from_list(items: &Vec<NestedMeta>) -> (res: Result<Self, Vec<OptionsError>>)
        ensures
            outcome(res, sort_names(items@), |o: ListForOpts| o.by_columns.deep_view()),
    {
        let mut by_columns: Vec<String> = Vec::new();
        let mut i: usize = 0;
        assert(by_columns.deep_view() =~= Seq::<Seq<char>>::empty());
        while i < items.len()
            invariant
                i <= items.len(),
                sort_names(items@.take(i as int)) == Reading::<Seq<Seq<char>>>::Ok(
                    by_columns.deep_view(),
                ),
            decreases items.len() - i,
        {
            let ghost before = by_columns.deep_view();
            proof {
                assert(items@.take(i + 1).drop_last() =~= items@.take(i as int));
                assert(items@.take(i + 1).last() == items@[i as int]);
            }
            let mut is_by = false;
            match &items[i] {
                NestedMeta::Meta(Meta { name: Some(name), kind: MetaKind::List(inner) }) => {
                    if same(name.as_str(), "by") {
                        is_by = true;
                        match read_by_names(inner) {
                            Ok(mut names) => {
                                let ghost added = names.deep_view();
                                by_columns.append(&mut names);
                                assert(by_columns.deep_view() =~= before + added);
                            },
                            Err(e) => {
                                proof {
                                    sort_names_fail(items@, i + 1);
                                }
                                return Err(e);
                            },
                        }
                    }
                },
                _ => {},
            }
            if !is_by {
                proof {
                    sort_names_fail(items@, i + 1);
                }
                return Err(vec![OptionsError::ExpectedBy]);
            }
            i = i + 1;
        }
        assert(items@.take(items.len() as int) =~= items@);
        Ok(ListForOpts { by_columns })
    }

    /// The sort columns that an item gives.
    pub fn from_meta(m: &Meta) -> (res: Result<Self, Vec<OptionsError>>)
        ensures
            outcome(res, list_for_reading(*m), |o: ListForOpts| o.by_columns.deep_view()),
    {
        match &m.kind {
            MetaKind::Word => Ok(ListForOpts::from_word()),
            MetaKind::Value(MetaValue::Flag(b)) => match ListForOpts::from_bool(*b) {
                Ok(o) => Ok(o),
                Err(e) => Err(vec![e]),
            },
            MetaKind::Value(_) => Err(vec![invalid("list_for")]),
            MetaKind::List(items) => ListForOpts::from_list(items),
        }
    }
}

pub(crate) fn find_flag(items: &Vec<NestedMeta>, name: &str) -> (res: Option<bool>)
    ensures
        res == flag_given(items@, name@),
{
    match find(items, name) {
        Some(m) => m.read_flag(),
        None => None,
    }
}

pub(crate) fn find_text(items: &Vec<NestedMeta>, name: &str) -> (res: Option<String>)
    ensures
        opt_text(res) == text_given(items@, name@),
{
    match find(items, name) {
        Some(m) => m.read_text(),
        None => None,
    }
}

fn find_expression(items: &Vec<NestedMeta>, name: &str) -> (res: Option<Accessor>)
    ensures
        opt_access(res) == expression_given(items@, name@),
{
    match find(items, name) {
        Some(m) => m.read_expression(),
        None => None,
    }
}

fn check_persist(m: &Meta) -> (res: Option<Vec<OptionsError>>)
    ensures
        told(res, persist_schema()(*m)),
{
    if m.has_name("persist") {
        Some(unless(m.read_flag().is_some(), "persist"))
    } else if m.has_name("accessor") {
        Some(unless(m.read_expression().is_some(), "accessor"))
    } else {
        None
    }
}

fn read_persist(items: &Vec<NestedMeta>) -> (res: Result<
    (Option<bool>, Option<Accessor>),
    Vec<OptionsError>,
>)
    ensures
        outcome(
            res,
            persist_items(items@),
            |o: (Option<bool>, Option<Accessor>)| (o.0, opt_access(o.1)),
        ),
{
    let errors = check_items(items, check_persist, Ghost(persist_schema()));
    if errors.len() > 0 {
        return Err(errors);
    }
    Ok((find_flag(items, "persist"), find_expression(items, "accessor")))
}

fn check_parent(m: &Meta) -> (res: Option<Vec<OptionsError>>)
    ensures
        told(res, parent_schema()(*m)),
{
    if m.has_name("accessor") {
        Some(unless(m.read_expression().is_some(), "accessor"))
    } else {
        None
    }
}

impl ParentOpts {
    /// The parent's id is read as the column is.
    pub fn from_word() -> (res: Self)
        ensures
            res.accessor is None,
    {
        ParentOpts { accessor: None }
    }

    /// How the parent's id is read. The errors are all that is wrong with the
    /// items.
    pub fn from_list(items: &Vec<NestedMeta>) -> (res: Result<Self, Vec<OptionsError>>)
        ensures
            outcome(res, parent_items(items@), |o: ParentOpts| opt_access(o.accessor)),
    {
        let errors = check_items(items, check_parent, Ghost(parent_schema()));
        if errors.len() > 0 {
            return Err(errors);
        }
        Ok(ParentOpts { accessor: find_expression(items, "accessor") })
    }

    /// How the parent's id is read, as an item gives it.
    pub fn from_meta(m: &Meta) -> (res: Result<Self, Vec<OptionsError>>)
        ensures
            outcome(res, parent_reading(*m), |o: ParentOpts| opt_access(o.accessor)),
    {
        match &m.kind {
            MetaKind::Word => Ok(ParentOpts::from_word()),
            MetaKind::List(items) => ParentOpts::from_list(items),
            MetaKind::Value(_) => Err(vec![invalid("parent")]),
        }
    }
}

impl CreateOpts {
    /// What happens when an entity is created, as an item gives it.
    pub fn from_meta(m: &Meta) -> (res: Result<Self, Vec<OptionsError>>)
        ensures
            outcome(
                res,
                persist_reading(*m, "create"@),
                |o: CreateOpts| (o.persist, opt_access(o.accessor)),
            ),
    {
        match &m.kind {
            MetaKind::List(items) => match read_persist(items) {
                Ok((persist, accessor)) => Ok(CreateOpts { persist, accessor }),
                Err(errors) => Err(errors),
            },
            _ => Err(vec![invalid("create")]),
        }
    }
}

impl UpdateOpts {
    /// What happens when an entity is updated, as an item gives it.
    pub fn from_meta(m: &Meta) -> (res: Result<Self, Vec<OptionsError>>)
        ensures
            outcome(
                res,
                persist_reading(*m, "update"@),
                |o: UpdateOpts| (o.persist, opt_access(o.accessor)),
            ),
    {
        match &m.kind {
            MetaKind::List(items) => match read_persist(items) {
                Ok((persist, accessor)) => Ok(UpdateOpts { persist, accessor }),
                Err(errors) => Err(errors),
            },
            _ => Err(vec![invalid("update")]),
        }
    }
}

fn read_scope(m: &Meta) -> (res: Option<(bool, Option<String>)>)
    ensures
        scope_reading(*m) == (match res {
            Some(s) => Some((s.0, opt_text(s.1))),
            None => None,
        }),
{
    match &m.kind {
        MetaKind::List(items) => {
            if items.len() != 1 {
                return None;
            }
            match &items[0] {
                NestedMeta::Meta(v) => {
                    if !v.has_name("variant") {
                        return None;
                    }
                    match v.read_text() {
                        Some(t) => Some((true, Some(t))),
                        None => None,
                    }
                },
                NestedMeta::Literal => None,
            }
        },
        _ => match m.read_flag() {
            Some(b) => Some((b, None)),
            None => None,
        },
    }
}

fn check_column(m: &Meta) -> (res: Option<Vec<OptionsError>>)
    ensures
        told(res, column_schema()(*m)),
{
    if m.has_name("ty") {
        Some(unless(m.read_type().is_some(), "ty"))
    } else if m.has_name("scope") {
        Some(unless(read_scope(m).is_some(), "scope"))
    } else if m.has_name("find_by") {
        Some(unless(m.read_flag().is_some(), "find_by"))
    } else if m.has_name("list_by") {
        Some(unless(m.read_flag().is_some(), "list_by"))
    } else if m.has_name("nullable") {
        Some(unless(m.read_flag().is_some(), "nullable"))
    } else if m.has_name("list_for") {
        Some(errors_of(ListForOpts::from_meta(m)))
    } else if m.has_name("parent") {
        Some(errors_of(ParentOpts::from_meta(m)))
    } else if m.has_name("create") {
        Some(errors_of(CreateOpts::from_meta(m)))
    } else if m.has_name("update") {
        Some(errors_of(UpdateOpts::from_meta(m)))
    } else if m.has_name("constraint") {
        Some(unless(m.read_text().is_some(), "constraint"))
    } else if m.has_name("virtual") {
        Some(unless(m.read_text().is_some(), "virtual"))
    } else {
        None
    }
}

/// Whether these are the options that were read.
pub open spec fn reads_as(o: ColumnOpts, v: OptsView) -> bool {
    &&& v.ty == Some(o.ty.form())
    &&& !o.is_id
    &&& !o.forgettable
    &&& o.scope == (v.scope matches Some(s) && s.0)
    &&& opt_text(o.scope_variant) == (match v.scope {
        Some(s) => s.1,
        None => None,
    })
    &&& o.find_by == v.find_by
    &&& o.list_by == v.list_by
    &&& o.nullable == v.nullable
    &&& opt_sorts(o.list_for_opts) == v.list_for
    &&& opt_parent(o.parent_opts) == v.parent
    &&& opt_create(o.create_opts) == v.create
    &&& opt_update(o.update_opts) == v.update
    &&& opt_text(o.constraint) == v.constraint
    &&& opt_text(o.virtual_sql) == v.virtual_sql
}

impl ColumnOpts {
    /// The options of a column, as the items of an attribute give them. The
    /// errors are all that is wrong with the items.
    pub fn from_list(items: &Vec<NestedMeta>) -> (res: Result<Self, Vec<OptionsError>>)
        ensures
            match opts_reading(items@) {
                Ok(v) => res matches Ok(o) && reads_as(o, v),
                Err(ps) => res matches Err(errors) && say(errors@, ps),
            },
    {
        let mut errors = check_items(items, check_column, Ghost(column_schema()));
        let ty = match find(items, "ty") {
            Some(m) => {
                proof {
                    if items_problems(items@, column_schema()).len() == 0 {
                        assert(items_problems(items@, column_schema()) =~= Seq::empty());
                        given_is_valid(items@, "ty"@, column_schema());
                        assert(problems(valid("ty"@, m.ty())).len() == 0);
                    }
                }
                m.read_type()
            },
            None => {
                errors.push(missing("ty"));
                None
            },
        };
        let ty = match ty {
            Some(ty) => ty,
            None => {
                return Err(errors);
            },
        };
        if errors.len() > 0 {
            return Err(errors);
        }
        let (scope, scope_variant) = match find(items, "scope") {
            Some(m) => match read_scope(m) {
                Some((scope, variant)) => (scope, variant),
                None => (false, None),
            },
            None => (false, None),
        };
        Ok(
            ColumnOpts {
                ty,
                is_id: false,
                forgettable: false,
                scope,
                scope_variant,
                find_by: find_flag(items, "find_by"),
                list_by: find_flag(items, "list_by"),
                nullable: find_flag(items, "nullable"),
                list_for_opts: match find(items, "list_for") {
                    Some(m) => ListForOpts::from_meta(m).ok(),
                    None => None,
                },
                parent_opts: match find(items, "parent") {
                    Some(m) => ParentOpts::from_meta(m).ok(),
                    None => None,
                },
                create_opts: match find(items, "create") {
                    Some(m) => CreateOpts::from_meta(m).ok(),
                    None => None,
                },
                update_opts: match find(items, "update") {
                    Some(m) => UpdateOpts::from_meta(m).ok(),
                    None => None,
                },
                constraint: find_text(items, "constraint"),
                virtual_sql: find_text(items, "virtual"),
            },
        )
    }
}

/// What is read of a column: its name, and its options.
pub type ColumnView = (Seq<char>, OptsView);

/// What is read of a column: `name = "Type"` or `name(..)`.
pub open spec fn column_reading(item: NestedMeta) -> Reading<ColumnView> {
    match item {
        NestedMeta::Meta(Meta { name, kind: MetaKind::Value(MetaValue::Text(t)) }) => match name {
            None => Err(seq![MetaProblem::ExpectedIdentifier]),
            Some(name) => match t.ty() {
                Some(ty) => Ok((name@, OptsView { ty: Some(ty), ..nothing_read() })),
                None => Err(seq![MetaProblem::InvalidType(t.text@)]),
            },
        },
        NestedMeta::Meta(Meta { name, kind: MetaKind::List(items) }) => match name {
            None => Err(seq![MetaProblem::ExpectedIdentifier]),
            Some(name) => match opts_reading(items@) {
                Ok(v) => Ok((name@, v)),
                Err(ps) => Err(ps),
            },
        },
        _ => Err(seq![MetaProblem::ExpectedNameValueOrList]),
    }
}

/// Whether this is the column that was read: with the type `Forgettable<Inner>`
/// it is a forgettable column of the type `Option<Inner>`.
pub open spec fn column_is(c: Column, v: ColumnView) -> bool {
    &&& c.name@ == v.0
    &&& exists|o: ColumnOpts| #[trigger]
        reads_as(o, v.1) && c.opts.normalized(&o) && c.opts.same_but_type(&o)
}

impl Column {
    /// A column, as an item gives it.
    pub fn from_nested_meta(item: &NestedMeta) -> (res: Result<Self, Vec<OptionsError>>)
        ensures
            match column_reading(*item) {
                Ok(v) => res matches Ok(c) && column_is(c, v),
                Err(ps) => res matches Err(errors) && say(errors@, ps),
            },
    {
        match item {
            NestedMeta::Meta(Meta { name, kind: MetaKind::Value(MetaValue::Text(t)) }) => {
                let name = match name {
                    Some(name) => name.clone(),
                    None => {
                        return Err(vec![OptionsError::ExpectedIdentifier]);
                    },
                };
                match t.read_type() {
                    Some(ty) => {
                        let mut opts = ColumnOpts {
                            ty,
                            is_id: false,
                            forgettable: false,
                            scope: false,
                            scope_variant: None,
                            find_by: None,
                            list_by: None,
                            nullable: None,
                            list_for_opts: None,
                            parent_opts: None,
                            create_opts: None,
                            update_opts: None,
                            constraint: None,
                            virtual_sql: None,
                        };
                        let ghost read = opts;
                        opts.normalize_forgettable();
                        proof {
                            let v = column_reading(*item)->Ok_0;
                            assert(reads_as(read, v.1));
                        }
                        Ok(Column { name, opts })
                    },
                    None => Err(vec![OptionsError::InvalidType { text: t.text.clone() }]),
                }
            },
            NestedMeta::Meta(Meta { name, kind: MetaKind::List(items) }) => {
                let name = match name {
                    Some(name) => name.clone(),
                    None => {
                        return Err(vec![OptionsError::ExpectedIdentifier]);
                    },
                };
                match ColumnOpts::from_list(items) {
                    Ok(mut opts) => {
                        let ghost read = opts;
                        opts.normalize_forgettable();
                        proof {
                            let v = column_reading(*item)->Ok_0;
                            assert(reads_as(read, v.1));
                        }
                        Ok(Column { name, opts })
                    },
                    Err(e) => Err(e),
                }
            },
            _ => Err(vec![OptionsError::ExpectedNameValueOrList]),
        }
    }
}

/// What is read of the `id` column: `id(scope)`, or `id(scope(variant = ".."))`
/// with the variant that stands for it.
pub open spec fn id_scope_reading(m: Meta) -> Option<Option<Seq<char>>> {
    match m.kind {
        MetaKind::List(items) => if items.len() == 1 {
            match items@[0] {
                NestedMeta::Meta(inner) => if inner.is_named("scope"@) {
                    match inner.kind {
                        MetaKind::Word => Some(None),
                        MetaKind::List(_) => match scope_reading(inner) {
                            Some(s) => Some(s.1),
                            None => None,
                        },
                        MetaKind::Value(_) => None,
                    }
                } else {
                    None
                },
                NestedMeta::Literal => None,
            }
        } else {
            None
        },
        _ => None,
    }
}

/// The variant that stands for the `id` column. Nothing but its being a scope
/// column can be given of it.
pub fn id_scope_from_meta(m: &Meta) -> (res: Result<Option<String>, OptionsError>)
    ensures
        match id_scope_reading(*m) {
            Some(v) => res matches Ok(variant) && opt_text(variant) == v,
            None => res matches Err(e) && e is IdColumnOnlyScope,
        },
{
    match &m.kind {
        MetaKind::List(items) => {
            if items.len() != 1 {
                return Err(OptionsError::IdColumnOnlyScope);
            }
            match &items[0] {
                NestedMeta::Meta(inner) => {
                    if !inner.has_name("scope") {
                        return Err(OptionsError::IdColumnOnlyScope);
                    }
                    match &inner.kind {
                        MetaKind::Word => Ok(None),
                        MetaKind::List(_) => match read_scope(inner) {
                            Some((_, variant)) => Ok(variant),
                            None => Err(OptionsError::IdColumnOnlyScope),
                        },
                        MetaKind::Value(_) => Err(OptionsError::IdColumnOnlyScope),
                    }
                },
                NestedMeta::Literal => Err(OptionsError::IdColumnOnlyScope),
            }
        },
        _ => Err(OptionsError::IdColumnOnlyScope),
    }
}

/// What is read of the columns of a repository.
pub struct ColumnsView {
    pub all: Seq<ColumnView>,
    /// Whether the `id` column is the scope column.
    pub id_scope: bool,
    pub id_variant: Option<Seq<char>>,
}

/// What is read of the columns of a repository: the `id` column at most once,
/// and each of the others.
pub open spec fn columns_reading(items: Seq<NestedMeta>) -> Reading<ColumnsView>
    decreases items.len(),
{
    if items.len() == 0 {
        Ok(ColumnsView { all: Seq::empty(), id_scope: false, id_variant: None })
    } else {
        match columns_reading(items.drop_last()) {
            Err(ps) => Err(ps),
            Ok(v) => {
                let item = items.last();
                match item {
                    NestedMeta::Meta(m) if m.is_named("id"@) => if v.id_scope {
                        Err(seq![MetaProblem::DuplicateIdColumn])
                    } else {
                        match id_scope_reading(m) {
                            Some(variant) => Ok(
                                ColumnsView { id_scope: true, id_variant: variant, ..v },
                            ),
                            None => Err(seq![MetaProblem::IdColumnOnlyScope]),
                        }
                    },
                    _ => match column_reading(item) {
                        Ok(c) => Ok(ColumnsView { all: v.all.push(c), ..v }),
                        Err(ps) => Err(ps),
                    },
                }
            },
        }
    }
}

proof fn columns_reading_fail(items: Seq<NestedMeta>, n: int)
    requires
        0 <= n <= items.len(),
        columns_reading(items.take(n)) is Err,
    ensures
        columns_reading(items) == columns_reading(items.take(n)),
    decreases items.len() - n,
{
    if n < items.len() {
        assert(items.take(n + 1).drop_last() =~= items.take(n));
        columns_reading_fail(items, n + 1);
    } else {
        assert(items.take(n) =~= items);
    }
}

/// Columns are rejected with a reason.
pub proof fn columns_are_rejected_for(items: Seq<NestedMeta>)
    ensures
        columns_reading(items) matches Err(ps) ==> ps.len() > 0,
    decreases items.len(),
{
    if items.len() > 0 {
        columns_are_rejected_for(items.drop_last());
    }
}

/// Whether these are the columns that were read.
pub open spec fn columns_are(c: Columns, v: ColumnsView) -> bool {
    &&& c.id_scope == v.id_scope
    &&& opt_text(c.id_scope_variant) == v.id_variant
    &&& c.all.len() == v.all.len()
    &&& forall|i: int| 0 <= i < v.all.len() ==> column_is(#[trigger] c.all@[i], v.all[i])
}

impl Columns {
    /// The columns of a repository, as the items of an attribute give them. The
    /// errors are those of the first item with which something is wrong.
    pub fn from_list(items: &Vec<NestedMeta>) -> (res: Result<Self, Vec<OptionsError>>)
        ensures
            match columns_reading(items@) {
                Ok(v) => res matches Ok(c) && columns_are(c, v),
                Err(ps) => res matches Err(errors) && say(errors@, ps),
            },
    {
        let mut c = Columns { all: Vec::new(), id_scope: false, id_scope_variant: None };
        let ghost mut v = ColumnsView { all: Seq::empty(), id_scope: false, id_variant: None };
        let mut i: usize = 0;
        while i < items.len()
            invariant
                i <= items.len(),
                columns_reading(items@.take(i as int)) == Reading::<ColumnsView>::Ok(v),
                columns_are(c, v),
            decreases items.len() - i,
        {
            let item = &items[i];
            proof {
                assert(items@.take(i + 1).drop_last() =~= items@.take(i as int));
                assert(items@.take(i + 1).last() == *item);
            }
            let is_id = match item {
                NestedMeta::Meta(m) => m.has_name("id"),
                NestedMeta::Literal => false,
            };
            if is_id {
                match item {
                    NestedMeta::Meta(m) => {
                        if c.id_scope {
                            proof {
                                columns_reading_fail(items@, i + 1);
                            }
                            return Err(vec![OptionsError::DuplicateIdColumn]);
                        }
                        match id_scope_from_meta(m) {
                            Ok(variant) => {
                                c.id_scope = true;
                                c.id_scope_variant = variant;
                                proof {
                                    v = columns_reading(items@.take(i + 1))->Ok_0;
                                }
                            },
                            Err(e) => {
                                proof {
                                    columns_reading_fail(items@, i + 1);
                                }
                                return Err(vec![e]);
                            },
                        }
                    },
                    NestedMeta::Literal => {},
                }
            } else {
                match Column::from_nested_meta(item) {
                    Ok(column) => {
                        let ghost before = v;
                        let ghost cols = c.all@;
                        c.all.push(column);
                        proof {
                            v = columns_reading(items@.take(i + 1))->Ok_0;
                            assert forall|k: int| 0 <= k < v.all.len() implies column_is(
                                #[trigger] c.all@[k],
                                v.all[k],
                            ) by {
                                if k < before.all.len() {
                                    assert(column_is(cols[k], before.all[k]));
                                }
                            }
                        }
                    },
                    Err(e) => {
                        proof {
                            columns_reading_fail(items@, i + 1);
                        }
                        return Err(e);
                    },
                }
            }
            i = i + 1;
        }
        assert(items@.take(items.len() as int) =~= items@);
        Ok(c)
    }
}

/// What is read of a hook: its method, and the type of its error. Items of any
/// other form are passed over, and the last of several counts.
pub type HookView = (Option<Seq<char>>, Option<Seq<char>>);

/// What is read of a hook.
pub open spec fn hook_reading(items: Seq<NestedMeta>) -> Reading<HookView>
    decreases items.len(),
{
    if items.len() == 0 {
        Ok((None, None))
    } else {
        match hook_reading(items.drop_last()) {
            Err(ps) => Err(ps),
            Ok(front) => match items.last() {
                NestedMeta::Meta(m) => match m.text() {
                    Some(t) => if m.is_named("method"@) {
                        Ok((Some(t), front.1))
                    } else if m.is_named("error"@) {
                        match m.ty() {
                            Some(ty) => Ok((front.0, Some(ty.0))),
                            None => Err(seq![MetaProblem::InvalidErrorType(t)]),
                        }
                    } else {
                        Ok(front)
                    },
                    None => Ok(front),
                },
                NestedMeta::Literal => Ok(front),
            },
        }
    }
}

proof fn hook_reading_fail(items: Seq<NestedMeta>, n: int)
    requires
        0 <= n <= items.len(),
        hook_reading(items.take(n)) is Err,
    ensures
        hook_reading(items) == hook_reading(items.take(n)),
    decreases items.len() - n,
{
    if n < items.len() {
        assert(items.take(n + 1).drop_last() =~= items.take(n));
        hook_reading_fail(items, n + 1);
    } else {
        assert(items.take(n) =~= items);
    }
}

fn read_hook(items: &Vec<NestedMeta>) -> (res: Result<
    (Option<String>, Option<String>),
    Vec<OptionsError>,
>)
    ensures
        outcome(
            res,
            hook_reading(items@),
            |h: (Option<String>, Option<String>)| (opt_text(h.0), opt_text(h.1)),
        ),
{
    let mut method: Option<String> = None;
    let mut error: Option<String> = None;
    let mut i: usize = 0;
    while i < items.len()
        invariant
            i <= items.len(),
            hook_reading(items@.take(i as int)) == Reading::<HookView>::Ok(
                (opt_text(method), opt_text(error)),
            ),
        decreases items.len() - i,
    {
        proof {
            assert(items@.take(i + 1).drop_last() =~= items@.take(i as int));
            assert(items@.take(i + 1).last() == items@[i as int]);
        }
        match &items[i] {
            NestedMeta::Meta(m) => {
                match m.read_text() {
                    Some(t) => {
                        if m.has_name("method") {
                            method = Some(t);
                        } else if m.has_name("error") {
                            match m.read_type() {
                                Some(ty) => {
                                    error = Some(ty.text);
                                },
                                None => {
                                    proof {
                                        hook_reading_fail(items@, i + 1);
                                    }
                                    return Err(vec![OptionsError::InvalidErrorType { text: t }]);
                                },
                            }
                        }
                    },
                    None => {},
                }
            },
            NestedMeta::Literal => {},
        }
        i = i + 1;
    }
    assert(items@.take(items.len() as int) =~= items@);
    Ok((method, error))
}

/// What is read of the hook that runs when events were written: the error is
/// `sqlx::Error` where none is given.
pub open spec fn persist_hook_reading(items: Seq<NestedMeta>) -> Reading<(Seq<char>, Seq<char>)> {
    match hook_reading(items) {
        Err(ps) => Err(ps),
        Ok(h) => match h.0 {
            Some(method) => Ok(
                (
                    method,
                    match h.1 {
                        Some(error) => error,
                        None => "sqlx::Error"@,
                    },
                ),
            ),
            None => Err(seq![MetaProblem::MissingMethod("post_persist_hook"@)]),
        },
    }
}

/// What is read of the hook that runs when an entity was read.
pub open spec fn hydrate_hook_reading(items: Seq<NestedMeta>) -> Reading<(Seq<char>, Seq<char>)> {
    match hook_reading(items) {
        Err(ps) => Err(ps),
        Ok(h) => match h.0 {
            Some(method) => match h.1 {
                Some(error) => Ok((method, error)),
                None => Err(seq![MetaProblem::MissingError("post_hydrate_hook"@)]),
            },
            None => Err(seq![MetaProblem::MissingMethod("post_hydrate_hook"@)]),
        },
    }
}

impl PostPersistHookConfig {
    /// The hook with that method, whose error is `sqlx::Error`.
    pub fn from_string(value: &str) -> (res: Self)
        ensures
            res.method@ == value@,
            res.error@ == "sqlx::Error"@,
    {
        PostPersistHookConfig { method: value.to_string(), error: "sqlx::Error".to_string() }
    }

    /// The hook, as the items of an attribute give it.
    pub fn from_list(items: &Vec<NestedMeta>) -> (res: Result<Self, Vec<OptionsError>>)
        ensures
            outcome(
                res,
                persist_hook_reading(items@),
                |h: PostPersistHookConfig| (h.method@, h.error@),
            ),
    {
        match read_hook(items) {
            Err(e) => Err(e),
            Ok((method, error)) => {
                let error = match error {
                    Some(error) => error,
                    None => "sqlx::Error".to_string(),
                };
                match method {
                    Some(method) => Ok(PostPersistHookConfig { method, error }),
                    None => Err(
                        vec![OptionsError::MissingMethod { hook: "post_persist_hook".to_string() }],
                    ),
                }
            },
        }
    }
}

impl PostHydrateHookConfig {
    /// The hook, as the items of an attribute give it.
    pub fn from_list(items: &Vec<NestedMeta>) -> (res: Result<Self, Vec<OptionsError>>)
        ensures
            outcome(
                res,
                hydrate_hook_reading(items@),
                |h: PostHydrateHookConfig| (h.method@, h.error@),
            ),
    {
        match read_hook(items) {
            Err(e) => Err(e),
            Ok((method, error)) => match method {
                Some(method) => match error {
                    Some(error) => Ok(PostHydrateHookConfig { method, error }),
                    None => Err(
                        vec![OptionsError::MissingError { hook: "post_hydrate_hook".to_string() }],
                    ),
                },
                None => Err(vec![OptionsError::MissingMethod { hook: "post_hydrate_hook".to_string() }]),
            },
        }
    }
}

/// Of two items of a column with the same name the second is rejected, whatever
/// they give.
pub proof fn column_option_named_twice(
    items: Seq<NestedMeta>,
    i: int,
    j: int,
    a: Meta,
    b: Meta,
)
    requires
        0 <= i < j < items.len(),
        items[i] == NestedMeta::Meta(a),
        items[j] == NestedMeta::Meta(b),
        opt_text(a.name) == opt_text(b.name),
    ensures
        opts_reading(items) is Err,
{
    named_twice(items, i, j, a, b, column_schema());
}

} // verus!
