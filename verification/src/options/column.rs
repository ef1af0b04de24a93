//! One index column of a repository.

use vstd::prelude::*;
use vstd::string::*;

use crate::naming::{cased, to_case, NameCase};
use crate::text::same;
use crate::types::{opt_str, opt_text, option_form, plain_form, TypeExpr};

verus! {

/// An expression that reads a column's value off an entity.
pub struct Accessor {
    /// The expression, as it stands behind the entity and a dot.
    pub text: String,
    /// Whether the expression is a call, and so yields an owned value.
    pub is_call: bool,
}

/// What happens to a column when an entity is created.
pub struct CreateOpts {
    pub persist: Option<bool>,
    pub accessor: Option<Accessor>,
}

/// What happens to a column when an entity is updated.
pub struct UpdateOpts {
    pub persist: Option<bool>,
    pub accessor: Option<Accessor>,
}

/// The columns that a list for a column's value is sorted by.
pub struct ListForOpts {
    pub by_columns: Vec<String>,
}

/// The column that holds the parent's id.
pub struct ParentOpts {
    pub accessor: Option<Accessor>,
}

/// The options of one column.
pub struct ColumnOpts {
    pub ty: TypeExpr,
    pub is_id: bool,
    /// Whether the column was declared as `Forgettable<Inner>`; `ty` is then
    /// `Option<Inner>`.
    pub forgettable: bool,
    pub scope: bool,
    /// The variant of the scope type, where it is not derived from the name.
    pub scope_variant: Option<String>,
    pub find_by: Option<bool>,
    pub list_by: Option<bool>,
    /// Whether the column can hold NULL although its type is no `Option`.
    pub nullable: Option<bool>,
    pub list_for_opts: Option<ListForOpts>,
    pub parent_opts: Option<ParentOpts>,
    pub create_opts: Option<CreateOpts>,
    pub update_opts: Option<UpdateOpts>,
    /// The constraint that a violation of this column's uniqueness names,
    /// where it is not derived from the names of table and column.
    pub constraint: Option<String>,
    /// The condition that a column which exists in filters alone stands for.
    pub virtual_sql: Option<String>,
}

/// An index column.
pub struct Column {
    pub name: String,
    pub opts: ColumnOpts,
}

/// The accessor's text, or the column's name where there is none.
pub open spec fn access(accessor: Option<Accessor>, name: Seq<char>) -> Seq<char> {
    match accessor {
        Some(a) => a.text@,
        None => name,
    }
}

impl ColumnOpts {
    pub open spec fn finds(&self) -> bool {
        match self.find_by {
            Some(b) => b,
            None => !self.scope,
        }
    }

    pub open spec fn lists(&self) -> bool {
        self.list_by == Some(true)
    }

    pub open spec fn filters(&self) -> bool {
        self.list_for_opts is Some
    }

    pub open spec fn sort_columns(&self) -> Seq<Seq<char>> {
        match self.list_for_opts {
            Some(o) => o.by_columns.deep_view(),
            None => Seq::empty(),
        }
    }

    pub open spec fn created(&self) -> bool {
        match self.create_opts {
            Some(o) => o.persist != Some(false),
            None => true,
        }
    }

    pub open spec fn updated(&self) -> bool {
        match self.update_opts {
            Some(o) => o.persist != Some(false),
            None => true,
        }
    }

    pub open spec fn create_access(&self) -> Option<Accessor> {
        match self.create_opts {
            Some(o) => o.accessor,
            None => None,
        }
    }

    pub open spec fn update_access(&self) -> Option<Accessor> {
        match self.update_opts {
            Some(o) => o.accessor,
            None => None,
        }
    }

    /// The expression that reads the column off an entity that is updated.
    pub open spec fn update_text(&self, name: Seq<char>) -> Seq<char> {
        if self.forgettable {
            name + ".value().map(|v| v.clone())"@
        } else {
            access(self.update_access(), name)
        }
    }

    /// The expression that reads the parent's id off an entity.
    pub open spec fn parent_text(&self, name: Seq<char>) -> Seq<char> {
        match self.parent_opts {
            Some(o) => match o.accessor {
                Some(a) => a.text@,
                None => self.update_text(name),
            },
            None => self.update_text(name),
        }
    }

    /// The options with the type `ty` and nothing else said.
    pub open spec fn is_bare(&self) -> bool {
        &&& !self.is_id
        &&& !self.scope
        &&& self.scope_variant is None
        &&& self.find_by is None
        &&& self.list_by is None
        &&& self.nullable is None
        &&& self.list_for_opts is None
        &&& self.parent_opts is None
        &&& self.create_opts is None
        &&& self.update_opts is None
        &&& self.constraint is None
        &&& self.virtual_sql is None
    }

    /// How a `Forgettable<Inner>` column is kept: as `Option<Inner>`, with a
    /// mark.
    pub open spec fn normalized(&self, from: &ColumnOpts) -> bool {
        match from.ty.argument_of("Forgettable"@) {
            Some(inner) => {
                &&& self.forgettable
                &&& self.ty.form() == option_form(inner)
            },
            None => {
                &&& self.forgettable == from.forgettable
                &&& self.ty == from.ty
            },
        }
    }

    /// Everything but the type and the mark `forgettable` is the same.
    pub open spec fn same_but_type(&self, from: &ColumnOpts) -> bool {
        &&& self.is_id == from.is_id
        &&& self.scope == from.scope
        &&& self.scope_variant == from.scope_variant
        &&& self.find_by == from.find_by
        &&& self.list_by == from.list_by
        &&& self.nullable == from.nullable
        &&& self.list_for_opts == from.list_for_opts
        &&& self.parent_opts == from.parent_opts
        &&& self.create_opts == from.create_opts
        &&& self.update_opts == from.update_opts
        &&& self.constraint == from.constraint
        &&& self.virtual_sql == from.virtual_sql
    }

    /// The options of a column of which only the type is given.
    pub fn new(ty: TypeExpr) -> (res: ColumnOpts)
        ensures
            res.is_bare(),
            match ty.argument_of("Forgettable"@) {
                Some(inner) => {
                    &&& res.forgettable
                    &&& res.ty.form() == option_form(inner)
                },
                None => !res.forgettable && res.ty == ty,
            },
    {
        let mut opts = ColumnOpts {
            ty,
            is_id: false,
            forgettable: false,
            scope: false,
            scope_variant: None,
            find_by: None,
            list_by: None,
            nullable: None,
            list_for_opts: None,
            parent_opts: None,
            create_opts: None,
            update_opts: None,
            constraint: None,
            virtual_sql: None,
        };
        opts.normalize_forgettable();
        opts
    }

    /// Rewrites the type `Forgettable<Inner>` to `Option<Inner>` and marks the
    /// column as forgettable; leaves every other type alone.
    pub fn normalize_forgettable(&mut self)
        ensures
            final(self).normalized(old(self)),
            final(self).same_but_type(old(self)),
    {
        let inner = self.ty.sole_argument("Forgettable");
        match inner {
            Some(inner) => {
                self.forgettable = true;
                self.ty = TypeExpr::option_of(inner.as_str());
            },
            None => {},
        }
    }

    /// Whether functions that find by this column are emitted.
    pub fn find_by(&self) -> (res: bool)
        ensures
            res == self.finds(),
    {
        match self.find_by {
            Some(b) => b,
            None => !self.scope,
        }
    }

    /// Whether functions that list by this column are emitted.
    pub fn list_by(&self) -> (res: bool)
        ensures
            res == self.lists(),
    {
        match self.list_by {
            Some(b) => b,
            None => false,
        }
    }

    /// Whether the column is marked `nullable`.
    pub fn nullable(&self) -> (res: bool)
        ensures
            res == (self.nullable == Some(true)),
    {
        match self.nullable {
            Some(b) => b,
            None => false,
        }
    }

    /// Whether functions that list for a value of this column are emitted.
    pub fn list_for(&self) -> (res: bool)
        ensures
            res == self.filters(),
    {
        self.list_for_opts.is_some()
    }

    /// The columns that lists for a value of this column are sorted by.
    pub fn list_for_by_columns(&self) -> (res: Vec<String>)
        ensures
            res.deep_view() == self.sort_columns(),
    {
        match &self.list_for_opts {
            Some(o) => {
                let res = o.by_columns.clone();
                assert(res.deep_view() =~= o.by_columns.deep_view());
                res
            },
            None => {
                let res: Vec<String> = Vec::new();
                assert(res.deep_view() =~= Seq::<Seq<char>>::empty());
                res
            },
        }
    }

    /// Whether the column is written when an entity is created.
    pub fn persist_on_create(&self) -> (res: bool)
        ensures
            res == self.created(),
    {
        match &self.create_opts {
            Some(o) => match o.persist {
                Some(b) => b,
                None => true,
            },
            None => true,
        }
    }

    /// Whether the column is written when an entity is updated.
    pub fn persist_on_update(&self) -> (res: bool)
        ensures
            res == self.updated(),
    {
        match &self.update_opts {
            Some(o) => match o.persist {
                Some(b) => b,
                None => true,
            },
            None => true,
        }
    }

    /// The expression that reads the column off a new entity.
    pub fn create_accessor(&self, name: &str) -> (res: String)
        ensures
            res@ == access(self.create_access(), name@),
    {
        match &self.create_opts {
            Some(o) => match &o.accessor {
                Some(a) => a.text.clone(),
                None => name.to_string(),
            },
            None => name.to_string(),
        }
    }

    /// The expression that reads the column off an entity.
    pub fn update_accessor(&self, name: &str) -> (res: String)
        ensures
            res@ == self.update_text(name@),
    {
        if self.forgettable {
            return name.to_string().concat(".value().map(|v| v.clone())");
        }
        match &self.update_opts {
            Some(o) => match &o.accessor {
                Some(a) => a.text.clone(),
                None => name.to_string(),
            },
            None => name.to_string(),
        }
    }

    /// Whether reading the column off a new entity yields an owned value.
    pub fn create_accessor_returns_owned(&self) -> (res: bool)
        ensures
            res == (self.create_access() matches Some(a) && a.is_call),
    {
        match &self.create_opts {
            Some(o) => match &o.accessor {
                Some(a) => a.is_call,
                None => false,
            },
            None => false,
        }
    }

    /// Whether reading the column off an entity yields an owned value.
    pub fn update_accessor_returns_owned(&self) -> (res: bool)
        ensures
            res == (self.forgettable || (self.update_access() matches Some(a) && a.is_call)),
    {
        if self.forgettable {
            return true;
        }
        match &self.update_opts {
            Some(o) => match &o.accessor {
                Some(a) => a.is_call,
                None => false,
            },
            None => false,
        }
    }

    /// The expression that reads the parent's id off an entity.
    pub fn parent_accessor(&self, name: &str) -> (res: String)
        ensures
            res@ == self.parent_text(name@),
    {
        match &self.parent_opts {
            Some(o) => match &o.accessor {
                Some(a) => a.text.clone(),
                None => self.update_accessor(name),
            },
            None => self.update_accessor(name),
        }
    }
}

impl Column {
    /// Whether the type is written `Option<..>`.
    pub open spec fn optional(&self) -> bool {
        self.opts.ty.has_single_segment("Option"@)
    }

    /// Whether the column can hold NULL.
    pub open spec fn null_allowed(&self) -> bool {
        self.optional() || self.opts.nullable == Some(true)
    }

    /// The type that a value which is looked up has.
    pub open spec fn query_type(&self) -> Seq<char> {
        if self.opts.forgettable {
            match self.opts.ty.argument_of("Option"@) {
                Some(inner) => inner,
                None => self.opts.ty.text@,
            }
        } else {
            self.opts.ty.text@
        }
    }

    /// Whether the value that is looked up is a `String`.
    pub open spec fn queried_by_string(&self) -> bool {
        if self.opts.forgettable && self.opts.ty.argument_of("Option"@) is Some {
            self.query_type() == "String"@
        } else {
            self.opts.ty.is_plain("String"@)
        }
    }

    /// The type that the column is looked up by.
    pub open spec fn lookup_type(&self) -> Seq<char> {
        if self.queried_by_string() {
            "str"@
        } else {
            self.query_type()
        }
    }

    /// The type of the parameter that takes a value to look up.
    pub open spec fn lookup_param(&self) -> Seq<char> {
        if self.queried_by_string() {
            "impl std::convert::AsRef<str>"@
        } else {
            "impl std::borrow::Borrow<"@ + self.query_type() + ">"@
        }
    }

    /// The call that borrows a value to look up.
    pub open spec fn lookup_access(&self) -> Seq<char> {
        if self.queried_by_string() {
            "as_ref()"@
        } else {
            "borrow()"@
        }
    }

    /// The type of the scope value that the column is compared with.
    pub open spec fn scope_type(&self) -> Seq<char> {
        match self.opts.ty.argument_of("Option"@) {
            Some(inner) => inner,
            None => self.opts.ty.text@,
        }
    }

    /// The variant of the scope type that stands for the column.
    pub open spec fn scope_variant_name(&self) -> Seq<char> {
        match self.opts.scope_variant {
            Some(v) => v@,
            None => cased(self.name@, NameCase::UpperCamel),
        }
    }

    /// Whether a virtual column takes a value.
    pub open spec fn takes_value(&self) -> bool {
        !self.opts.ty.is_plain("bool"@)
    }

    /// The condition that a virtual column stands for.
    pub open spec fn virtual_text(&self) -> Seq<char> {
        match self.opts.virtual_sql {
            Some(sql) => sql@,
            None => ""@,
        }
    }

    /// Whether the column exists in filters alone, for the condition `sql`.
    pub open spec fn is_virtual_column(&self, sql: Seq<char>) -> bool {
        &&& self.opts.virtual_sql is Some
        &&& self.virtual_text() == sql
        &&& self.opts.filters()
        &&& self.opts.sort_columns() =~= Seq::<Seq<char>>::empty()
        &&& !self.opts.is_id
        &&& !self.opts.forgettable
        &&& !self.opts.scope
        &&& self.opts.scope_variant is None
        &&& !self.opts.lists()
        &&& !self.opts.finds()
        &&& self.opts.nullable is None
        &&& self.opts.parent_opts is None
        &&& !self.opts.created()
        &&& !self.opts.updated()
        &&& self.opts.constraint is None
    }

    /// Whether this is the implicit `created_at` column.
    pub open spec fn is_created_at_column(&self) -> bool {
        &&& self.name@ == "created_at"@
        &&& self.opts.ty.text@
            == "es_entity::prelude::chrono::DateTime<es_entity::prelude::chrono::Utc>"@
        &&& self.opts.ty.segments.deep_view() == seq![
            "es_entity"@,
            "prelude"@,
            "chrono"@,
            "DateTime"@,
        ]
        &&& self.opts.ty.ident is None
        &&& self.opts.ty.args.len() == 0
        &&& !self.opts.is_id
        &&& !self.opts.forgettable
        &&& !self.opts.scope
        &&& self.opts.scope_variant is None
        &&& self.opts.list_by == Some(true)
        &&& self.opts.find_by == Some(false)
        &&& self.opts.nullable is None
        &&& self.opts.list_for_opts is None
        &&& self.opts.parent_opts is None
        &&& !self.opts.created()
        &&& self.opts.create_access() is None
        &&& !self.opts.updated()
        &&& (self.opts.update_access() matches Some(a) && a.is_call && a.text@
            == "events().entity_first_persisted_at().expect(\"entity not persisted\")"@)
        &&& self.opts.constraint is None
        &&& self.opts.virtual_sql is None
    }

    /// Whether this is the implicit `id` column of the type `ty`.
    pub open spec fn is_id_column(
        &self,
        ty: Seq<char>,
        scope: bool,
        variant: Option<Seq<char>>,
    ) -> bool {
        &&& self.name@ == "id"@
        &&& self.opts.ty.form() == plain_form(ty)
        &&& self.opts.is_id
        &&& !self.opts.forgettable
        &&& self.opts.scope == scope
        &&& opt_text(self.opts.scope_variant) == variant
        &&& self.opts.list_by == Some(true)
        &&& self.opts.find_by == Some(true)
        &&& self.opts.nullable is None
        &&& self.opts.list_for_opts is None
        &&& self.opts.parent_opts is None
        &&& self.opts.created()
        &&& self.opts.create_access() is None
        &&& !self.opts.updated()
        &&& self.opts.update_access() is None
        &&& self.opts.constraint is None
        &&& self.opts.virtual_sql is None
    }

    /// The binding of the column's value of a new entity.
    pub open spec fn create_binding(&self, entity: Seq<char>) -> Seq<char> {
        if self.opts.forgettable {
            "let "@ + self.name@ + " = &Some("@ + entity + "."@ + self.name@ + ".clone());"@
        } else {
            "let "@ + self.name@ + " = &"@ + entity + "."@ + access(
                self.opts.create_access(),
                self.name@,
            ) + ";"@
        }
    }

    /// The binding of the column's value of one of several new entities.
    pub open spec fn create_all_binding(&self, entity: Seq<char>) -> Seq<char> {
        if self.opts.forgettable {
            "let "@ + self.name@ + ": "@ + self.opts.ty.text@ + " = Some("@ + entity + "."@
                + self.name@ + ".clone());"@
        } else if self.opts.create_access() matches Some(a) && a.is_call {
            "let "@ + self.name@ + ": "@ + self.opts.ty.text@ + " = "@ + entity + "."@ + access(
                self.opts.create_access(),
                self.name@,
            ) + ";"@
        } else {
            "let "@ + self.name@ + ": &"@ + self.opts.ty.text@ + " = &"@ + entity + "."@ + access(
                self.opts.create_access(),
                self.name@,
            ) + ";"@
        }
    }

    /// The binding of the column's value of an entity that is written again.
    pub open spec fn update_binding(&self, entity: Seq<char>) -> Seq<char> {
        "let "@ + self.name@ + " = &"@ + entity + "."@ + self.opts.update_text(self.name@) + ";"@
    }

    /// The binding of the column's value of one of several such entities.
    pub open spec fn update_all_binding(&self, entity: Seq<char>) -> Seq<char> {
        if self.opts.forgettable || (self.opts.update_access() matches Some(a) && a.is_call) {
            "let "@ + self.name@ + " = "@ + entity + "."@ + self.opts.update_text(self.name@)
                + ";"@
        } else {
            self.update_binding(entity)
        }
    }

    /// The statement that adds the column's value to the arguments of a query.
    pub open spec fn arg_add(&self) -> Seq<char> {
        "__query_args.add("@ + self.name@ + " as &"@ + self.opts.ty.text@
            + ").map_err(sqlx::Error::Encode)?;"@
    }

    /// The column's value as an argument of a query.
    pub open spec fn arg(&self) -> Seq<char> {
        self.name@ + " as &"@ + self.opts.ty.text@
    }

    /// The vector that the column's values are collected in.
    pub open spec fn collection(&self) -> Seq<char> {
        self.name@ + "_collection"@
    }

    /// A column of which only name and type are given.
    pub fn new(name: String, ty: TypeExpr) -> (res: Column)
        ensures
            res.name == name,
            res.opts.is_bare(),
            match ty.argument_of("Forgettable"@) {
                Some(inner) => {
                    &&& res.opts.forgettable
                    &&& res.opts.ty.form() == option_form(inner)
                },
                None => !res.opts.forgettable && res.opts.ty == ty,
            },
    {
        Column { name, opts: ColumnOpts::new(ty) }
    }

    /// A column that lists can be filtered by, sorted by `by_columns`.
    pub fn new_list_for(name: String, ty: TypeExpr, by_columns: Vec<String>) -> (res: Column)
        requires
            ty.argument_of("Forgettable"@) is None,
        ensures
            res.name == name,
            res.opts.ty == ty,
            !res.opts.forgettable,
            res.opts.list_for_opts == Some((ListForOpts { by_columns })),
            res.opts.finds() && !res.opts.lists() && res.opts.created() && res.opts.updated(),
            !res.opts.is_id && !res.opts.scope && res.opts.nullable is None,
            res.opts.parent_opts is None && res.opts.create_access() is None,
            res.opts.update_access() is None && res.opts.constraint is None,
            res.opts.virtual_sql is None,
    {
        let mut opts = ColumnOpts::new(ty);
        opts.list_for_opts = Some(ListForOpts { by_columns });
        Column { name, opts }
    }

    /// A column that can hold NULL although its type is no `Option`.
    pub fn new_nullable(name: String, ty: TypeExpr) -> (res: Column)
        requires
            ty.argument_of("Forgettable"@) is None,
        ensures
            res.name == name,
            res.opts.ty == ty,
            !res.opts.forgettable,
            res.opts.nullable == Some(true),
            res.opts.finds() && !res.opts.lists() && res.opts.created() && res.opts.updated(),
            !res.opts.is_id && !res.opts.scope && res.opts.list_for_opts is None,
            res.opts.parent_opts is None && res.opts.create_access() is None,
            res.opts.update_access() is None && res.opts.constraint is None,
            res.opts.virtual_sql is None,
    {
        let mut opts = ColumnOpts::new(ty);
        opts.nullable = Some(true);
        Column { name, opts }
    }

    /// A column that exists in filters alone: it filters by whether the
    /// condition `sql` holds.
    pub fn new_virtual(name: String, sql: &str) -> (res: Column)
        ensures
            res.name == name,
            res.opts.ty.form() == plain_form("bool"@),
            res.is_virtual_column(sql@),
    {
        Column::new_virtual_value(name, TypeExpr::plain("bool"), sql)
    }

    /// A column that exists in filters alone: it filters by the condition
    /// `sql`, in which `{value}` stands for the value.
    pub fn new_virtual_value(name: String, ty: TypeExpr, sql: &str) -> (res: Column)
        ensures
            res.name == name,
            res.opts.ty == ty,
            res.is_virtual_column(sql@),
    {
        Column {
            name,
            opts: ColumnOpts {
                ty,
                is_id: false,
                forgettable: false,
                scope: false,
                scope_variant: None,
                list_by: Some(false),
                find_by: Some(false),
                nullable: None,
                list_for_opts: Some(ListForOpts { by_columns: Vec::new() }),
                parent_opts: None,
                create_opts: Some(CreateOpts { persist: Some(false), accessor: None }),
                update_opts: Some(UpdateOpts { persist: Some(false), accessor: None }),
                constraint: None,
                virtual_sql: Some(sql.to_string()),
            },
        }
    }

    /// The constraint that the column names of its own.
    pub fn custom_constraint(&self) -> (res: Option<&str>)
        ensures
            opt_str(res) == opt_text(self.opts.constraint),
    {
        match &self.opts.constraint {
            Some(name) => Some(name.as_str()),
            None => None,
        }
    }

    /// Whether the column is virtual and takes a value, which a column of the
    /// type `bool` does not.
    pub fn is_value_virtual(&self) -> (res: bool)
        ensures
            res == self.takes_value(),
    {
        !self.opts.ty.is_ident("bool")
    }

    /// The condition that a virtual column stands for.
    pub fn virtual_predicate(&self) -> (res: &str)
        ensures
            res@ == self.virtual_text(),
    {
        match &self.opts.virtual_sql {
            Some(sql) => sql.as_str(),
            None => "",
        }
    }

    /// The implicit `id` column.
    pub fn for_id(ty: &str) -> (res: Column)
        ensures
            res.is_id_column(ty@, false, None),
    {
        Column {
            name: "id".to_string(),
            opts: ColumnOpts {
                ty: TypeExpr::plain(ty),
                is_id: true,
                forgettable: false,
                scope: false,
                scope_variant: None,
                list_by: Some(true),
                find_by: Some(true),
                nullable: None,
                list_for_opts: None,
                parent_opts: None,
                create_opts: Some(CreateOpts { persist: Some(true), accessor: None }),
                update_opts: Some(UpdateOpts { persist: Some(false), accessor: None }),
                constraint: None,
                virtual_sql: None,
            },
        }
    }

    /// The implicit `created_at` column.
    pub fn for_created_at() -> (res: Column)
        ensures
            res.is_created_at_column(),
    {
        let segments = vec![
            "es_entity".to_string(),
            "prelude".to_string(),
            "chrono".to_string(),
            "DateTime".to_string(),
        ];
        assert(segments.deep_view() =~= seq![
            "es_entity"@,
            "prelude"@,
            "chrono"@,
            "DateTime"@,
        ]);
        Column {
            name: "created_at".to_string(),
            opts: ColumnOpts {
                ty: TypeExpr {
                    text:
                        "es_entity::prelude::chrono::DateTime<es_entity::prelude::chrono::Utc>".to_string(),
                    ident: None,
                    segments,
                    args: Vec::new(),
                },
                is_id: false,
                forgettable: false,
                scope: false,
                scope_variant: None,
                list_by: Some(true),
                find_by: Some(false),
                nullable: None,
                list_for_opts: None,
                parent_opts: None,
                create_opts: Some(CreateOpts { persist: Some(false), accessor: None }),
                update_opts: Some(
                    UpdateOpts {
                        persist: Some(false),
                        accessor: Some(
                            Accessor {
                                text:
                                    "events().entity_first_persisted_at().expect(\"entity not persisted\")".to_string(),
                                is_call: true,
                            },
                        ),
                    },
                ),
                constraint: None,
                virtual_sql: None,
            },
        }
    }

    /// The columns that lists for a value of this column are sorted by.
    pub fn list_for_by_columns(&self) -> (res: Vec<String>)
        ensures
            res.deep_view() == self.opts.sort_columns(),
    {
        self.opts.list_for_by_columns()
    }

    /// Whether this is the `id` column.
    pub fn is_id(&self) -> (res: bool)
        ensures
            res == self.opts.is_id,
    {
        self.opts.is_id
    }

    /// Whether the type is written `Option<..>`.
    pub fn is_optional(&self) -> (res: bool)
        ensures
            res == self.optional(),
    {
        self.opts.ty.is_single_segment("Option")
    }

    /// Whether the column can hold NULL: its type is an `Option`, or it is
    /// marked `nullable`.
    pub fn is_nullable_column(&self) -> (res: bool)
        ensures
            res == self.null_allowed(),
    {
        self.is_optional() || self.opts.nullable()
    }

    /// The name of the column.
    pub fn name(&self) -> (res: &str)
        ensures
            res@ == self.name@,
    {
        self.name.as_str()
    }

    /// The type of the column.
    pub fn ty(&self) -> (res: &TypeExpr)
        ensures
            *res == self.opts.ty,
    {
        &self.opts.ty
    }

    /// The type that the column is looked up by, the type of the parameter
    /// that takes such a value, and the call that borrows it.
    pub fn ty_for_find_by(&self) -> (res: (String, String, String))
        ensures
            res.0@ == self.lookup_type(),
            res.1@ == self.lookup_param(),
            res.2@ == self.lookup_access(),
    {
        let inner = if self.opts.forgettable {
            self.opts.ty.sole_argument("Option")
        } else {
            None
        };
        let (query_ty, is_string) = match inner {
            Some(inner) => {
                let is_string = same(inner.as_str(), "String");
                (inner, is_string)
            },
            None => (self.opts.ty.text.clone(), self.opts.ty.is_ident("String")),
        };
        if is_string {
            (
                "str".to_string(),
                "impl std::convert::AsRef<str>".to_string(),
                "as_ref()".to_string(),
            )
        } else {
            let bound = "impl std::borrow::Borrow<".to_string().concat(query_ty.as_str()).concat(
                ">",
            );
            (query_ty, bound, "borrow()".to_string())
        }
    }

    /// The expression that reads the column off an entity.
    pub fn accessor(&self) -> (res: String)
        ensures
            res@ == self.opts.update_text(self.name@),
    {
        self.opts.update_accessor(self.name.as_str())
    }

    /// The expression that reads the parent's id off an entity.
    pub fn parent_accessor(&self) -> (res: String)
        ensures
            res@ == self.opts.parent_text(self.name@),
    {
        self.opts.parent_accessor(self.name.as_str())
    }

    /// The variant of the scope type that stands for this column: the one that
    /// was given, or the column's name in camel case.
    pub fn scope_variant(&self) -> (res: String)
        ensures
            res@ == self.scope_variant_name(),
    {
        match &self.opts.scope_variant {
            Some(v) => v.clone(),
            None => to_case(self.name.as_str(), NameCase::UpperCamel),
        }
    }

    /// The type of the scope value that the column is compared with: for an
    /// `Option` column the bare inner type.
    pub fn scope_ty(&self) -> (res: String)
        ensures
            res@ == self.scope_type(),
    {
        match self.opts.ty.sole_argument("Option") {
            Some(inner) => inner,
            None => self.opts.ty.text.clone(),
        }
    }

    /// The binding of the column's value of a new entity.
    pub fn variable_assignment_for_create(&self, ident: &str) -> (res: String)
        ensures
            res@ == self.create_binding(ident@),
    {
        let name = self.name.as_str();
        if self.opts.forgettable {
            return "let ".to_string().concat(name).concat(" = &Some(").concat(ident).concat(
                ".",
            ).concat(name).concat(".clone());");
        }
        let accessor = self.opts.create_accessor(name);
        "let ".to_string().concat(name).concat(" = &").concat(ident).concat(".").concat(
            accessor.as_str(),
        ).concat(";")
    }

    /// The binding of the column's value of one of several new entities.
    pub fn variable_assignment_for_create_all(&self, ident: &str) -> (res: String)
        ensures
            res@ == self.create_all_binding(ident@),
    {
        let name = self.name.as_str();
        let ty = self.opts.ty.text.as_str();
        if self.opts.forgettable {
            return "let ".to_string().concat(name).concat(": ").concat(ty).concat(
                " = Some(",
            ).concat(ident).concat(".").concat(name).concat(".clone());");
        }
        let accessor = self.opts.create_accessor(name);
        if self.opts.create_accessor_returns_owned() {
            "let ".to_string().concat(name).concat(": ").concat(ty).concat(" = ").concat(
                ident,
            ).concat(".").concat(accessor.as_str()).concat(";")
        } else {
            "let ".to_string().concat(name).concat(": &").concat(ty).concat(" = &").concat(
                ident,
            ).concat(".").concat(accessor.as_str()).concat(";")
        }
    }

    /// The binding of the column's value of an entity that is written again.
    pub fn variable_assignment_for_update(&self, ident: &str) -> (res: String)
        ensures
            res@ == self.update_binding(ident@),
    {
        let accessor = self.opts.update_accessor(self.name.as_str());
        "let ".to_string().concat(self.name.as_str()).concat(" = &").concat(ident).concat(
            ".",
        ).concat(accessor.as_str()).concat(";")
    }

    /// The binding of the column's value of one of several such entities.
    pub fn variable_assignment_for_update_all(&self, ident: &str) -> (res: String)
        ensures
            res@ == self.update_all_binding(ident@),
    {
        if self.opts.update_accessor_returns_owned() {
            let accessor = self.opts.update_accessor(self.name.as_str());
            "let ".to_string().concat(self.name.as_str()).concat(" = ").concat(ident).concat(
                ".",
            ).concat(accessor.as_str()).concat(";")
        } else {
            self.variable_assignment_for_update(ident)
        }
    }
}

/// What is kept of a column's type is not changed again: normalizing a second
/// time changes nothing.
pub proof fn normalized_once(from: &ColumnOpts, once: &ColumnOpts, twice: &ColumnOpts)
    requires
        once.normalized(from),
        once.same_but_type(from),
        twice.normalized(once),
        twice.same_but_type(once),
    ensures
        twice == once,
{
    option_is_not_forgettable();
    if from.ty.argument_of("Forgettable"@) is Some {
        assert(once.ty.segments.deep_view()[0] == "Option"@);
    }
}

/// A column of the type `Forgettable<Inner>` can hold NULL.
pub proof fn forgettable_holds_null(from: &ColumnOpts, c: &Column)
    requires
        from.ty.argument_of("Forgettable"@) is Some,
        c.opts.normalized(from),
    ensures
        c.optional(),
        c.null_allowed(),
{
}

proof fn option_is_not_forgettable()
    ensures
        "Option"@ != "Forgettable"@,
{
    reveal_strlit("Option");
    reveal_strlit("Forgettable");
    assert("Option"@.len() != "Forgettable"@.len());
}

} // verus!
