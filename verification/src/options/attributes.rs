//! Reading the options of a repository, and those of its fields, from their
//! attributes.

use vstd::prelude::*;
use vstd::string::*;

use crate::naming::number_form;
use crate::options::column::Column;
use crate::options::columns::Columns;
use crate::options::delete::DeleteOption;
use crate::options::error::OptionsError;
use crate::options::meta::{
    check_items, errors_of, find, given, given_is_valid, invalid, items_problems, missing,
    named_twice, outcome, problems, say, told, unless, valid, Meta, MetaKind, MetaProblem,
    MetaValue, NestedMeta, Reading, Schema,
};
use crate::options::reading::{
    absence, column_is, columns_are, columns_are_rejected_for, columns_reading, find_flag,
    find_text, flag_given, hydrate_hook_reading, persist_hook_reading, readable, text_given,
    ColumnsView,
};
use crate::options::repository::{
    defaulted_is_ready, Features, Generics, PostHydrateHookConfig, PostPersistHookConfig, RepoField,
    RepositoryOptions,
};
use crate::options::texts::{item_is_read, read_texts, texts_are_read, Place};
use crate::text::same;
use crate::tokens::TokenTree;
use crate::types::{opt_text, TypeExpr};

verus! {

/// What is read of the options of a repository.
pub struct RepoView {
    pub entity: Option<Seq<char>>,
    pub event: Option<Seq<char>>,
    pub id: Option<Seq<char>>,
    pub prefix: Option<Seq<char>>,
    pub table: Option<Seq<char>>,
    pub events_table: Option<Seq<char>>,
    pub forgettable_table: Option<Seq<char>>,
    pub migrations_dir: Option<Seq<char>>,
    pub columns: Option<ColumnsView>,
    pub post_persist_hook: Option<(Seq<char>, Seq<char>)>,
    pub post_hydrate_hook: Option<(Seq<char>, Seq<char>)>,
    pub delete: Option<DeleteOption>,
    pub persist_event_context: Option<bool>,
    pub forgettable: Option<bool>,
}

/// What `columns(..)` gives.
pub open spec fn columns_item(m: Meta) -> Reading<ColumnsView> {
    match m.kind {
        MetaKind::List(items) => columns_reading(items@),
        _ => Err(seq![MetaProblem::InvalidField("columns"@)]),
    }
}

/// What `post_persist_hook` gives: `= "method"`, or `(..)`.
pub open spec fn persist_hook_item(m: Meta) -> Reading<(Seq<char>, Seq<char>)> {
    match m.kind {
        MetaKind::Value(MetaValue::Text(t)) => Ok((t.text@, "sqlx::Error"@)),
        MetaKind::List(items) => persist_hook_reading(items@),
        _ => Err(seq![MetaProblem::InvalidField("post_persist_hook"@)]),
    }
}

/// What `post_hydrate_hook(..)` gives.
pub open spec fn hydrate_hook_item(m: Meta) -> Reading<(Seq<char>, Seq<char>)> {
    match m.kind {
        MetaKind::List(items) => hydrate_hook_reading(items@),
        _ => Err(seq![MetaProblem::InvalidField("post_hydrate_hook"@)]),
    }
}

/// How entities are deleted, as it is written.
pub open spec fn delete_item(m: Meta) -> Option<DeleteOption> {
    match m.text() {
        Some(t) => if t == "no"@ {
            Some(DeleteOption::No)
        } else if t == "soft"@ {
            Some(DeleteOption::Soft)
        } else if t == "soft_without_queries"@ {
            Some(DeleteOption::SoftWithoutQueries)
        } else {
            None
        },
        None => None,
    }
}

/// What may stand among the options of a repository.
pub open spec fn repository_schema() -> Schema {
    |m: Meta|
        if m.is_named("entity"@) {
            Some(problems(valid("entity"@, m.identifier())))
        } else if m.is_named("event"@) {
            Some(problems(valid("event"@, m.identifier())))
        } else if m.is_named("id"@) {
            Some(problems(valid("id"@, m.identifier())))
        } else if m.is_named("tbl_prefix"@) {
            Some(problems(valid("tbl_prefix"@, m.text())))
        } else if m.is_named("tbl"@) {
            Some(problems(valid("tbl"@, m.text())))
        } else if m.is_named("events_tbl"@) {
            Some(problems(valid("events_tbl"@, m.text())))
        } else if m.is_named("forgettable_tbl"@) {
            Some(problems(valid("forgettable_tbl"@, m.text())))
        } else if m.is_named("migrations_dir"@) {
            Some(problems(valid("migrations_dir"@, m.text())))
        } else if m.is_named("columns"@) {
            Some(problems(columns_item(m)))
        } else if m.is_named("post_persist_hook"@) {
            Some(problems(persist_hook_item(m)))
        } else if m.is_named("post_hydrate_hook"@) {
            Some(problems(hydrate_hook_item(m)))
        } else if m.is_named("delete"@) {
            Some(problems(valid("delete"@, delete_item(m))))
        } else if m.is_named("persist_event_context"@) {
            Some(problems(valid("persist_event_context"@, m.flag())))
        } else if m.is_named("forgettable"@) {
            Some(problems(valid("forgettable"@, m.flag())))
        } else {
            None
        }
}

/// An item `columns` is held to what columns are.
proof fn columns_are_checked(m: Meta)
    requires
        m.is_named("columns"@),
    ensures
        repository_schema()(m) == Some(problems(columns_item(m))),
{
    reveal_strlit("columns");
    reveal_strlit("entity");
    reveal_strlit("event");
    reveal_strlit("id");
    reveal_strlit("tbl_prefix");
    reveal_strlit("tbl");
    reveal_strlit("events_tbl");
    reveal_strlit("forgettable_tbl");
    reveal_strlit("migrations_dir");
    assert("columns"@.len() == 7 && "entity"@.len() == 6 && "event"@.len() == 5 && "id"@.len() == 2
        && "tbl_prefix"@.len() == 10 && "tbl"@.len() == 3 && "events_tbl"@.len() == 10
        && "forgettable_tbl"@.len() == 15 && "migrations_dir"@.len() == 14);
}

/// The identifier that the item with that name gives.
pub open spec fn identifier_given(items: Seq<NestedMeta>, name: Seq<char>) -> Option<Seq<char>> {
    match given(items, name) {
        Some(m) => m.identifier(),
        None => None,
    }
}

/// What the items of a repository give.
pub open spec fn options_given(items: Seq<NestedMeta>) -> RepoView {
    RepoView {
        entity: identifier_given(items, "entity"@),
        event: identifier_given(items, "event"@),
        id: identifier_given(items, "id"@),
        prefix: text_given(items, "tbl_prefix"@),
        table: text_given(items, "tbl"@),
        events_table: text_given(items, "events_tbl"@),
        forgettable_table: text_given(items, "forgettable_tbl"@),
        migrations_dir: text_given(items, "migrations_dir"@),
        columns: match given(items, "columns"@) {
            Some(m) => readable(columns_item(m)),
            None => None,
        },
        post_persist_hook: match given(items, "post_persist_hook"@) {
            Some(m) => readable(persist_hook_item(m)),
            None => None,
        },
        post_hydrate_hook: match given(items, "post_hydrate_hook"@) {
            Some(m) => readable(hydrate_hook_item(m)),
            None => None,
        },
        delete: match given(items, "delete"@) {
            Some(m) => delete_item(m),
            None => None,
        },
        persist_event_context: flag_given(items, "persist_event_context"@),
        forgettable: flag_given(items, "forgettable"@),
    }
}

/// What is read of the items of a repository: the entity must be there.
pub open spec fn options_reading(items: Seq<NestedMeta>) -> Reading<RepoView> {
    let ps = items_problems(items, repository_schema()) + absence(items, "entity"@);
    if ps.len() == 0 {
        Ok(options_given(items))
    } else {
        Err(ps)
    }
}

fn find_identifier(items: &Vec<NestedMeta>, name: &str) -> (res: Option<String>)
    ensures
        opt_text(res) == identifier_given(items@, name@),
{
    match find(items, name) {
        Some(m) => m.read_identifier(),
        None => None,
    }
}

fn read_columns(m: &Meta) -> (res: Result<Columns, Vec<OptionsError>>)
    ensures
        match columns_item(*m) {
            Ok(v) => res matches Ok(c) && columns_are(c, v),
            Err(ps) => res matches Err(errors) && say(errors@, ps),
        },
{
    match &m.kind {
        MetaKind::List(items) => Columns::from_list(items),
        _ => Err(vec![invalid("columns")]),
    }
}

fn read_persist_hook(m: &Meta) -> (res: Result<PostPersistHookConfig, Vec<OptionsError>>)
    ensures
        outcome(res, persist_hook_item(*m), |h: PostPersistHookConfig| (h.method@, h.error@)),
{
    match &m.kind {
        MetaKind::Value(MetaValue::Text(t)) => Ok(
            PostPersistHookConfig::from_string(t.text.as_str()),
        ),
        MetaKind::List(items) => PostPersistHookConfig::from_list(items),
        _ => Err(vec![invalid("post_persist_hook")]),
    }
}

fn read_hydrate_hook(m: &Meta) -> (res: Result<PostHydrateHookConfig, Vec<OptionsError>>)
    ensures
        outcome(res, hydrate_hook_item(*m), |h: PostHydrateHookConfig| (h.method@, h.error@)),
{
    match &m.kind {
        MetaKind::List(items) => PostHydrateHookConfig::from_list(items),
        _ => Err(vec![invalid("post_hydrate_hook")]),
    }
}

fn read_delete(m: &Meta) -> (res: Option<DeleteOption>)
    ensures
        res == delete_item(*m),
{
    match m.read_text() {
        Some(t) => if same(t.as_str(), "no") {
            Some(DeleteOption::No)
        } else if same(t.as_str(), "soft") {
            Some(DeleteOption::Soft)
        } else if same(t.as_str(), "soft_without_queries") {
            Some(DeleteOption::SoftWithoutQueries)
        } else {
            None
        },
        None => None,
    }
}

fn check_option(m: &Meta) -> (res: Option<Vec<OptionsError>>)
    ensures
        told(res, repository_schema()(*m)),
{
    if m.has_name("entity") {
        Some(unless(m.read_identifier().is_some(), "entity"))
    } else if m.has_name("event") {
        Some(unless(m.read_identifier().is_some(), "event"))
    } else if m.has_name("id") {
        Some(unless(m.read_identifier().is_some(), "id"))
    } else if m.has_name("tbl_prefix") {
        Some(unless(m.read_text().is_some(), "tbl_prefix"))
    } else if m.has_name("tbl") {
        Some(unless(m.read_text().is_some(), "tbl"))
    } else if m.has_name("events_tbl") {
        Some(unless(m.read_text().is_some(), "events_tbl"))
    } else if m.has_name("forgettable_tbl") {
        Some(unless(m.read_text().is_some(), "forgettable_tbl"))
    } else if m.has_name("migrations_dir") {
        Some(unless(m.read_text().is_some(), "migrations_dir"))
    } else if m.has_name("columns") {
        Some(errors_of(read_columns(m)))
    } else if m.has_name("post_persist_hook") {
        Some(errors_of(read_persist_hook(m)))
    } else if m.has_name("post_hydrate_hook") {
        Some(errors_of(read_hydrate_hook(m)))
    } else if m.has_name("delete") {
        Some(unless(read_delete(m).is_some(), "delete"))
    } else if m.has_name("persist_event_context") {
        Some(unless(m.read_flag().is_some(), "persist_event_context"))
    } else if m.has_name("forgettable") {
        Some(unless(m.read_flag().is_some(), "forgettable"))
    } else {
        None
    }
}

/// Whether these are the options that were read, before the defaults are filled
/// in.
pub open spec fn options_are(o: RepositoryOptions, v: RepoView) -> bool {
    &&& (match v.columns {
        Some(c) => columns_are(o.columns, c),
        None => o.columns.all@ == Seq::<Column>::empty()
            && !o.columns.id_scope && o.columns.id_scope_variant is None,
    })
    &&& v.post_persist_hook == (match o.post_persist_hook {
        Some(h) => Some((h.method@, h.error@)),
        None => None,
    })
    &&& v.post_hydrate_hook == (match o.post_hydrate_hook {
        Some(h) => Some((h.method@, h.error@)),
        None => None,
    })
    &&& o.delete == (match v.delete {
        Some(d) => d,
        None => DeleteOption::No,
    })
    &&& v.entity == Some(o.entity_ident@)
    &&& opt_text(o.event_ident) == v.event
    &&& opt_text(o.id_ty) == v.id
    &&& opt_text(o.prefix) == v.prefix
    &&& opt_text(o.table_name) == v.table
    &&& opt_text(o.events_table_name) == v.events_table
    &&& o.persist_event_context == v.persist_event_context
    &&& o.forgettable == (v.forgettable == Some(true))
    &&& opt_text(o.forgettable_table_name) == v.forgettable_table
    &&& o.snapshot_table_name is None
    &&& !o.in_op_only
    &&& opt_text(o.migrations_dir) == v.migrations_dir
}

impl RepositoryOptions {
    /// The options of a repository, as the items of its attributes give them,
    /// before the defaults are filled in. The errors are all that is wrong with
    /// the items.
    pub fn from_list(
        ident: String,
        generics: Generics,
        data: Option<Vec<RepoField>>,
        features: Features,
        items: &Vec<NestedMeta>,
    ) -> (res: Result<Self, Vec<OptionsError>>)
        ensures
            match options_reading(items@) {
                Ok(v) => res matches Ok(o) && options_are(o, v) && o.ident == ident && o.generics
                    == generics && o.data == data && o.features == features,
                Err(ps) => res matches Err(errors) && say(errors@, ps),
            },
    {
        let mut errors = check_items(items, check_option, Ghost(repository_schema()));
        let entity = match find(items, "entity") {
            Some(m) => {
                proof {
                    if items_problems(items@, repository_schema()).len() == 0 {
                        assert(items_problems(items@, repository_schema()) =~= Seq::empty());
                        given_is_valid(items@, "entity"@, repository_schema());
                        assert(problems(valid("entity"@, m.identifier())).len() == 0);
                    }
                }
                m.read_identifier()
            },
            None => {
                errors.push(missing("entity"));
                None
            },
        };
        let entity_ident = match entity {
            Some(entity) => entity,
            None => {
                return Err(errors);
            },
        };
        if errors.len() > 0 {
            return Err(errors);
        }
        let columns = match find(items, "columns") {
            Some(m) => {
                proof {
                    assert(items_problems(items@, repository_schema()) =~= Seq::empty());
                    given_is_valid(items@, "columns"@, repository_schema());
                    columns_are_checked(*m);
                    assert(problems(columns_item(*m)).len() == 0);
                    if let MetaKind::List(inner) = &m.kind {
                        columns_are_rejected_for(inner@);
                    }
                }
                match read_columns(m) {
                    Ok(columns) => columns,
                    Err(errors) => {
                        return Err(errors);
                    },
                }
            },
            None => Columns { all: Vec::new(), id_scope: false, id_scope_variant: None },
        };
        let delete = match find(items, "delete") {
            Some(m) => read_delete(m),
            None => None,
        };
        Ok(
            RepositoryOptions {
                ident,
                generics,
                columns,
                post_persist_hook: match find(items, "post_persist_hook") {
                    Some(m) => read_persist_hook(m).ok(),
                    None => None,
                },
                post_hydrate_hook: match find(items, "post_hydrate_hook") {
                    Some(m) => read_hydrate_hook(m).ok(),
                    None => None,
                },
                delete: match delete {
                    Some(delete) => delete,
                    None => DeleteOption::No,
                },
                data,
                entity_ident,
                event_ident: find_identifier(items, "event"),
                id_ty: find_identifier(items, "id"),
                prefix: find_text(items, "tbl_prefix"),
                table_name: find_text(items, "tbl"),
                events_table_name: find_text(items, "events_tbl"),
                persist_event_context: find_flag(items, "persist_event_context"),
                forgettable: find_flag(items, "forgettable") == Some(true),
                forgettable_table_name: find_text(items, "forgettable_tbl"),
                snapshot_table_name: None,
                in_op_only: false,
                migrations_dir: find_text(items, "migrations_dir"),
                features,
            },
        )
    }
}

/// Columns that were read are none of them the id column.
proof fn read_columns_are_not_id(o: RepositoryOptions, v: RepoView)
    requires
        options_are(o, v),
    ensures
        forall|i: int|
            0 <= i < o.columns.all.len() ==> !(#[trigger] o.columns.all@[i]).opts.is_id,
{
    assert forall|i: int| 0 <= i < o.columns.all.len() implies !(
    #[trigger] o.columns.all@[i]).opts.is_id by {
        assert(column_is(o.columns.all@[i], v.columns->0.all[i]));
    }
}

impl RepositoryOptions {
    /// The options of a repository, as the items of its attributes give them,
    /// with the defaults filled in. The name of the table is made of the
    /// entity's plural, where it is not given. What the texts among the items are
    /// read as is what `syn` makes of them.
    pub fn from_attributes(
        ident: String,
        generics: Generics,
        data: Option<Vec<RepoField>>,
        features: Features,
        items: &Vec<NestedMeta>,
    ) -> (res: Result<Self, Vec<OptionsError>>)
        ensures
            exists|read: Seq<NestedMeta>| #[trigger]
                texts_are_read(items@, read, Place::Repository) && (match options_reading(read) {
                    Ok(v) => {
                        &&& res matches Ok(o)
                        &&& exists|given: RepositoryOptions, plural: Seq<char>| #[trigger]
                            o.defaulted(&given, plural) && number_form(
                                given.entity_ident@,
                                2,
                                plural,
                            ) && options_are(given, v) && given.ident == ident
                                && given.generics == generics && given.data == data
                                && given.features == features
                        &&& o.columns.all.len() + 16 <= usize::MAX ==> o.ready()
                    },
                    Err(ps) => res matches Err(errors) && say(errors@, ps),
                }),
    {
        let read = read_texts(items, &Place::Repository);
        assert(texts_are_read(items@, read@, Place::Repository));
        match RepositoryOptions::from_list(ident, generics, data, features, &read) {
            Ok(given) => {
                let ghost before = given;
                let res = given.update_defaults();
                proof {
                    let plural = choose|plural: Seq<char>|
                        number_form(before.entity_ident@, 2, plural) && #[trigger] res.defaulted(
                            &before,
                            plural,
                        );
                    read_columns_are_not_id(before, options_reading(read@)->Ok_0);
                    if res.columns.all.len() + 16 <= usize::MAX {
                        defaulted_is_ready(&before, &res, plural);
                    }
                }
                Ok(res)
            },
            Err(errors) => Err(errors),
        }
    }
}

/// What is read of a field of a repository: whether it is marked `pool`,
/// `clock` and `nested`, and the entity that is given.
pub struct FieldView {
    pub pool: Option<bool>,
    pub clock: Option<bool>,
    pub nested: Option<bool>,
    pub entity: Option<Seq<char>>,
}

/// What may stand among the marks of a field.
pub open spec fn field_schema() -> Schema {
    |m: Meta|
        if m.is_named("pool"@) {
            Some(problems(valid("pool"@, m.flag())))
        } else if m.is_named("clock"@) {
            Some(problems(valid("clock"@, m.flag())))
        } else if m.is_named("nested"@) {
            Some(problems(valid("nested"@, m.flag())))
        } else if m.is_named("entity"@) {
            Some(problems(valid("entity"@, m.identifier())))
        } else {
            None
        }
}

/// What is read of the items of a field.
pub open spec fn field_reading(items: Seq<NestedMeta>) -> Reading<FieldView> {
    let ps = items_problems(items, field_schema());
    if ps.len() == 0 {
        Ok(
            FieldView {
                pool: flag_given(items, "pool"@),
                clock: flag_given(items, "clock"@),
                nested: flag_given(items, "nested"@),
                entity: identifier_given(items, "entity"@),
            },
        )
    } else {
        Err(ps)
    }
}

fn check_mark(m: &Meta) -> (res: Option<Vec<OptionsError>>)
    ensures
        told(res, field_schema()(*m)),
{
    if m.has_name("pool") {
        Some(unless(m.read_flag().is_some(), "pool"))
    } else if m.has_name("clock") {
        Some(unless(m.read_flag().is_some(), "clock"))
    } else if m.has_name("nested") {
        Some(unless(m.read_flag().is_some(), "nested"))
    } else if m.has_name("entity") {
        Some(unless(m.read_identifier().is_some(), "entity"))
    } else {
        None
    }
}

/// Whether this is the field that was read.
pub open spec fn field_is(f: RepoField, v: FieldView) -> bool {
    &&& f.pool == (v.pool == Some(true))
    &&& f.clock == (v.clock == Some(true))
    &&& f.nested == (v.nested == Some(true))
    &&& opt_text(f.entity) == v.entity
}

impl RepoField {
    /// A field of a repository, as the items of its attributes give it. The
    /// errors are all that is wrong with the items.
    pub fn from_list(
        ident: Option<String>,
        ty: TypeExpr,
        ty_tokens: Vec<TokenTree>,
        items: &Vec<NestedMeta>,
    ) -> (res: Result<Self, Vec<OptionsError>>)
        ensures
            match field_reading(items@) {
                Ok(v) => res matches Ok(f) && f.ident == ident && f.ty == ty && f.ty_tokens
                    == ty_tokens && field_is(f, v),
                Err(ps) => res matches Err(errors) && say(errors@, ps),
            },
    {
        let errors = check_items(items, check_mark, Ghost(field_schema()));
        if errors.len() > 0 {
            return Err(errors);
        }
        Ok(
            RepoField {
                ident,
                ty,
                ty_tokens,
                pool: find_flag(items, "pool") == Some(true),
                clock: find_flag(items, "clock") == Some(true),
                nested: find_flag(items, "nested") == Some(true),
                entity: find_identifier(items, "entity"),
            },
        )
    }

    /// A field of a repository, as the items of its attributes give it, with the
    /// texts among them not read yet.
    pub fn from_attributes(
        ident: Option<String>,
        ty: TypeExpr,
        ty_tokens: Vec<TokenTree>,
        items: &Vec<NestedMeta>,
    ) -> (res: Result<Self, Vec<OptionsError>>)
        ensures
            exists|read: Seq<NestedMeta>| #[trigger]
                texts_are_read(items@, read, Place::Field) && (match field_reading(read) {
                    Ok(v) => res matches Ok(f) && f.ident == ident && f.ty == ty && f.ty_tokens
                        == ty_tokens && field_is(f, v),
                    Err(ps) => res matches Err(errors) && say(errors@, ps),
                }),
    {
        let read = read_texts(items, &Place::Field);
        assert(texts_are_read(items@, read@, Place::Field));
        RepoField::from_list(ident, ty, ty_tokens, &read)
    }
}

/// Of two items with the same name the second is rejected, whatever they give.
pub proof fn option_named_twice(items: Seq<NestedMeta>, i: int, j: int, a: Meta, b: Meta)
    requires
        0 <= i < j < items.len(),
        items[i] == NestedMeta::Meta(a),
        items[j] == NestedMeta::Meta(b),
        opt_text(a.name) == opt_text(b.name),
    ensures
        options_reading(items) is Err,
{
    named_twice(items, i, j, a, b, repository_schema());
}

/// Of two items with the same name the second is rejected, whatever the texts
/// among them are read as.
pub proof fn option_named_twice_unread(
    items: Seq<NestedMeta>,
    read: Seq<NestedMeta>,
    i: int,
    j: int,
    a: Meta,
    b: Meta,
)
    requires
        texts_are_read(items, read, Place::Repository),
        0 <= i < j < items.len(),
        items[i] == NestedMeta::Meta(a),
        items[j] == NestedMeta::Meta(b),
        opt_text(a.name) == opt_text(b.name),
    ensures
        options_reading(read) is Err,
{
    assert(item_is_read(items[i], read[i], Place::Repository));
    assert(item_is_read(items[j], read[j], Place::Repository));
    option_named_twice(read, i, j, read[i]->Meta_0, read[j]->Meta_0);
}

/// Of two items of a field with the same name the second is rejected.
pub proof fn mark_named_twice(items: Seq<NestedMeta>, i: int, j: int, a: Meta, b: Meta)
    requires
        0 <= i < j < items.len(),
        items[i] == NestedMeta::Meta(a),
        items[j] == NestedMeta::Meta(b),
        opt_text(a.name) == opt_text(b.name),
    ensures
        field_reading(items) is Err,
{
    named_twice(items, i, j, a, b, field_schema());
}

} // verus!
