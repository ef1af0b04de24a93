//! The options of a repository as a whole.

use vstd::prelude::*;
use vstd::string::*;

use crate::naming::{cased, number_form, pluralize, to_case, NameCase};
use crate::options::columns::{Columns, Pick};
use crate::options::delete::DeleteOption;
use crate::options::error::OptionsError;
use crate::text::{join, joined, literal, quote, same};
use crate::tokens::TokenTree;
use crate::types::{opt_str, opt_text, TypeExpr};

verus! {

/// The hook that runs when events were written.
pub struct PostPersistHookConfig {
    pub method: String,
    pub error: String,
}

/// The hook that runs when an entity was read.
pub struct PostHydrateHookConfig {
    pub method: String,
    pub error: String,
}

/// The field of a repository that holds its clock.
pub enum ClockFieldInfo<'a> {
    /// There is none.
    Absent,
    /// It is an `Option`.
    Optional(&'a str),
    /// It is a clock.
    Required(&'a str),
}

/// A field of the struct that a repository is derived from.
pub struct RepoField {
    pub ident: Option<String>,
    pub ty: TypeExpr,
    /// The tokens of the type.
    pub ty_tokens: Vec<TokenTree>,
    pub pool: bool,
    pub clock: bool,
    pub nested: bool,
    /// The entity of a nested repository, where it is given.
    pub entity: Option<String>,
}

/// A generic parameter of the struct that a repository is derived from.
pub struct GenericParam {
    /// The parameter as the struct declares it.
    pub declaration: String,
    /// The parameter as an impl declares it, without a default.
    pub impl_declaration: String,
    /// The name of the parameter.
    pub name: String,
    /// Whether it is a type.
    pub is_type: bool,
}

/// The generic parameters of a struct, and its `where` clause.
pub struct Generics {
    pub params: Vec<GenericParam>,
    pub where_clause: String,
}

/// What the emitted code is to support beyond the repository itself.
#[derive(Clone, Copy)]
pub struct Features {
    /// Whether functions are instrumented for tracing.
    pub instrument: bool,
    /// Whether cursors can be used in GraphQL connections.
    pub graphql: bool,
    /// Whether the contexts of events are written unless an option says
    /// otherwise.
    pub event_context: bool,
}

/// The options of a repository.
pub struct RepositoryOptions {
    pub ident: String,
    pub generics: Generics,
    pub columns: Columns,
    pub post_persist_hook: Option<PostPersistHookConfig>,
    pub post_hydrate_hook: Option<PostHydrateHookConfig>,
    pub delete: DeleteOption,
    /// The fields of the struct; none where it is no struct.
    pub data: Option<Vec<RepoField>>,
    pub entity_ident: String,
    pub event_ident: Option<String>,
    pub id_ty: Option<String>,
    pub prefix: Option<String>,
    pub table_name: Option<String>,
    pub events_table_name: Option<String>,
    pub persist_event_context: Option<bool>,
    pub forgettable: bool,
    pub forgettable_table_name: Option<String>,
    pub snapshot_table_name: Option<String>,
    /// Whether only functions that take an operation are emitted for lists
    /// with filters.
    pub in_op_only: bool,
    pub migrations_dir: Option<String>,
    pub features: Features,
}

/// Each of the parts of a list of parameters.
#[derive(Clone, Copy, PartialEq, Eq, Structural)]
pub enum ParamPart {
    Declaration,
    ImplDeclaration,
    Name,
}

impl ParamPart {
    pub open spec fn of(self, p: GenericParam) -> Seq<char> {
        match self {
            ParamPart::Declaration => p.declaration@,
            ParamPart::ImplDeclaration => p.impl_declaration@,
            ParamPart::Name => p.name@,
        }
    }
}

/// The parameters in angle brackets, or nothing where there are none.
pub open spec fn in_angles(parts: Seq<Seq<char>>) -> Seq<char> {
    if parts.len() == 0 {
        Seq::empty()
    } else {
        "<"@ + joined(parts, ", "@) + ">"@
    }
}

/// The names of the parameters that are types.
pub open spec fn type_names_of(params: Seq<GenericParam>) -> Seq<Seq<char>>
    decreases params.len(),
{
    if params.len() == 0 {
        Seq::empty()
    } else {
        let front = type_names_of(params.drop_last());
        if params.last().is_type {
            front.push(params.last().name@)
        } else {
            front
        }
    }
}

impl Generics {
    /// The names of the parameters that are types.
    pub open spec fn type_names(&self) -> Seq<Seq<char>> {
        type_names_of(self.params@)
    }

    /// The names of the parameters that are types.
    pub fn type_param_names(&self) -> (res: Vec<String>)
        ensures
            res.deep_view() == self.type_names(),
    {
        let mut res: Vec<String> = Vec::new();
        let mut i: usize = 0;
        assert(res.deep_view() =~= type_names_of(self.params@.take(0)));
        while i < self.params.len()
            invariant
                i <= self.params.len(),
                res.deep_view() == type_names_of(self.params@.take(i as int)),
            decreases self.params.len() - i,
        {
            let p = &self.params[i];
            let ghost before = res.deep_view();
            assert(self.params@.take(i + 1).drop_last() =~= self.params@.take(i as int));
            if p.is_type {
                res.push(p.name.clone());
                assert(res.deep_view() =~= before.push(p.name@));
            }
            i = i + 1;
        }
        assert(self.params@.take(self.params.len() as int) =~= self.params@);
        res
    }

    pub open spec fn parts(&self, part: ParamPart) -> Seq<Seq<char>> {
        Seq::new(self.params.len() as nat, |i: int| part.of(self.params@[i]))
    }

    fn part_texts(&self, first: Option<&str>, part: ParamPart) -> (res: Vec<String>)
        ensures
            res.deep_view() == (match first {
                Some(f) => seq![f@] + self.parts(part),
                None => self.parts(part),
            }),
    {
        let mut res: Vec<String> = Vec::new();
        match first {
            Some(f) => res.push(f.to_string()),
            None => {},
        }
        let ghost start = res.deep_view();
        let mut i: usize = 0;
        while i < self.params.len()
            invariant
                i <= self.params.len(),
                res.deep_view() == start + self.parts(part).take(i as int),
            decreases self.params.len() - i,
        {
            let p = &self.params[i];
            let text = match part {
                ParamPart::Declaration => p.declaration.clone(),
                ParamPart::ImplDeclaration => p.impl_declaration.clone(),
                ParamPart::Name => p.name.clone(),
            };
            let ghost before = res.deep_view();
            res.push(text);
            proof {
                assert(res.deep_view() =~= before.push(part.of(*p)));
                assert(self.parts(part).take(i + 1) =~= self.parts(part).take(i as int).push(
                    part.of(*p),
                ));
                assert(start + self.parts(part).take(i + 1) =~= (start + self.parts(part).take(
                    i as int,
                )).push(part.of(*p)));
            }
            i = i + 1;
        }
        assert(self.parts(part).take(self.params.len() as int) =~= self.parts(part));
        assert(start + self.parts(part) =~= (match first {
            Some(f) => seq![f@] + self.parts(part),
            None => self.parts(part),
        }));
        res
    }

    /// The parameters as they follow a name: `part` of each in angle brackets,
    /// `first` in front of them.
    pub open spec fn listed(&self, first: Option<Seq<char>>, part: ParamPart) -> Seq<char> {
        in_angles(
            match first {
                Some(f) => seq![f] + self.parts(part),
                None => self.parts(part),
            },
        )
    }

    /// The parameters in angle brackets, with `first` in front of them.
    pub fn list(&self, first: Option<&str>, part: ParamPart) -> (res: String)
        ensures
            res@ == self.listed(
                opt_str(first),
                part,
            ),
    {
        let parts = self.part_texts(first, part);
        if parts.len() == 0 {
            String::new()
        } else {
            "<".to_string().concat(join(&parts, ", ").as_str()).concat(">")
        }
    }
}

impl RepoField {
    /// The name of the field.
    pub open spec fn label(&self) -> Seq<char>
        recommends
            self.ident is Some,
    {
        self.ident->0@
    }

    pub open spec fn holds_pool(&self) -> bool {
        self.pool || opt_text(self.ident) == Some("pool"@)
    }

    pub open spec fn holds_clock(&self) -> bool {
        self.clock || opt_text(self.ident) == Some("clock"@)
    }

    /// The name of the field.
    pub fn ident(&self) -> (res: &str)
        requires
            self.ident is Some,
        ensures
            res@ == self.label(),
    {
        match &self.ident {
            Some(i) => i.as_str(),
            None => "",
        }
    }

    /// Whether the field holds the pool: it is marked so, or named `pool`.
    pub fn is_pool_field(&self) -> (res: bool)
        ensures
            res == self.holds_pool(),
    {
        self.pool || (match &self.ident {
            Some(i) => same(i.as_str(), "pool"),
            None => false,
        })
    }

    /// Whether the field holds the clock: it is marked so, or named `clock`.
    pub fn is_clock_field(&self) -> (res: bool)
        ensures
            res == self.holds_clock(),
    {
        self.clock || (match &self.ident {
            Some(i) => same(i.as_str(), "clock"),
            None => false,
        })
    }

    /// Whether the field's type is an `Option`.
    pub fn is_option_type(&self) -> (res: bool)
        ensures
            res == self.ty.ends_in("Option"@),
    {
        self.ty.last_segment_is("Option")
    }

    /// The function that creates the nested entities.
    pub fn create_nested_fn_name(&self) -> (res: String)
        requires
            self.ident is Some,
        ensures
            res@ == "create_nested_"@ + self.label() + "_in_op"@,
    {
        "create_nested_".to_string().concat(self.ident()).concat("_in_op")
    }

    /// The function that updates the nested entities.
    pub fn update_nested_fn_name(&self) -> (res: String)
        requires
            self.ident is Some,
        ensures
            res@ == "update_nested_"@ + self.label() + "_in_op"@,
    {
        "update_nested_".to_string().concat(self.ident()).concat("_in_op")
    }

    /// The function that finds the nested entities.
    pub fn find_nested_fn_name(&self) -> (res: String)
        requires
            self.ident is Some,
        ensures
            res@ == "find_nested_"@ + self.label() + "_in_op"@,
    {
        "find_nested_".to_string().concat(self.ident()).concat("_in_op")
    }

    /// The function that finds the nested entities, deleted ones too.
    pub fn find_nested_include_deleted_fn_name(&self) -> (res: String)
        requires
            self.ident is Some,
        ensures
            res@ == "find_nested_"@ + self.label() + "_include_deleted_in_op"@,
    {
        "find_nested_".to_string().concat(self.ident()).concat("_include_deleted_in_op")
    }

    /// The function that deletes the nested entities.
    pub fn delete_nested_fn_name(&self) -> (res: String)
        requires
            self.ident is Some,
        ensures
            res@ == "delete_nested_"@ + self.label() + "_in_op"@,
    {
        "delete_nested_".to_string().concat(self.ident()).concat("_in_op")
    }

    /// The function that tells whether nested entities are to be written.
    pub fn pending_nested_work_fn_name(&self) -> (res: String)
        requires
            self.ident is Some,
        ensures
            res@ == "has_pending_nested_"@ + self.label() + "_work"@,
    {
        "has_pending_nested_".to_string().concat(self.ident()).concat("_work")
    }

    /// The function that forgets the nested entities.
    pub fn forget_nested_fn_name(&self) -> (res: String)
        requires
            self.ident is Some,
        ensures
            res@ == "forget_nested_"@ + self.label() + "_in_op"@,
    {
        "forget_nested_".to_string().concat(self.ident()).concat("_in_op")
    }

    /// The variant of an error that stands for the nested entities: the name
    /// of the field in camel case.
    pub fn nested_variant_name(&self) -> (res: String)
        requires
            self.ident is Some,
        ensures
            res@ == cased(self.label(), NameCase::UpperCamel),
    {
        to_case(self.ident(), NameCase::UpperCamel)
    }
}

/// A function that a repository has for each nested one.
#[derive(Clone, Copy, PartialEq, Eq, Structural)]
pub enum NestedFn {
    Create,
    Update,
    Find,
    FindIncludeDeleted,
    Delete,
    PendingWork,
    Forget,
}

impl NestedFn {
    /// The function's name for the field `label`.
    pub open spec fn name(self, label: Seq<char>) -> Seq<char> {
        match self {
            NestedFn::Create => "create_nested_"@ + label + "_in_op"@,
            NestedFn::Update => "update_nested_"@ + label + "_in_op"@,
            NestedFn::Find => "find_nested_"@ + label + "_in_op"@,
            NestedFn::FindIncludeDeleted => "find_nested_"@ + label
                + "_include_deleted_in_op"@,
            NestedFn::Delete => "delete_nested_"@ + label + "_in_op"@,
            NestedFn::PendingWork => "has_pending_nested_"@ + label + "_work"@,
            NestedFn::Forget => "forget_nested_"@ + label + "_in_op"@,
        }
    }
}

/// Fields of nested repositories are fields.
pub proof fn nested_have_names(fields: Seq<RepoField>)
    requires
        forall|i: int| 0 <= i < fields.len() ==> (#[trigger] fields[i]).ident is Some,
    ensures
        forall|i: int|
            0 <= i < nested_of(fields).len() ==> (#[trigger] nested_of(fields)[i]).ident is Some,
    decreases fields.len(),
{
    if fields.len() > 0 {
        let front = fields.drop_last();
        assert forall|i: int| 0 <= i < front.len() implies (
        #[trigger] front[i]).ident is Some by {
            assert(front[i] == fields[i]);
        }
        nested_have_names(front);
        assert(fields.last() == fields[fields.len() - 1]);
    }
}

/// The fields of nested repositories, in order.
pub open spec fn nested_of(fields: Seq<RepoField>) -> Seq<RepoField>
    decreases fields.len(),
{
    if fields.len() == 0 {
        Seq::empty()
    } else {
        let rest = nested_of(fields.drop_last());
        if fields.last().nested {
            rest.push(fields.last())
        } else {
            rest
        }
    }
}

/// The fields that references stand for.
pub open spec fn fields_of(refs: Seq<&RepoField>) -> Seq<RepoField> {
    Seq::new(refs.len(), |i: int| *refs[i])
}

/// Where the migrations of a repository are looked for.
#[derive(Clone, Copy, PartialEq, Eq, Structural, Debug)]
pub enum MigrationsDir {
    /// The directory that the environment names.
    Environment,
    /// The directory that the options name.
    Attribute,
    /// `migrations` in the directory that is so many levels above the crate's.
    Ancestor(usize),
    /// Nowhere.
    Unknown,
}

/// What is known of the crate's directory or one above it.
#[derive(Clone, Copy)]
pub struct DirFacts {
    /// Whether it holds a directory `migrations`.
    pub has_migrations: bool,
    /// Whether it is the root of a version-controlled tree.
    pub is_root: bool,
}

/// The directory `i` is the nearest one with migrations, and no root is
/// nearer.
pub open spec fn nearest(dirs: Seq<DirFacts>, i: int) -> bool {
    &&& 0 <= i < dirs.len()
    &&& dirs[i].has_migrations
    &&& forall|j: int| 0 <= j < i ==> !(#[trigger] dirs[j]).has_migrations && !dirs[j].is_root
}

impl RepositoryOptions {
    /// The defaults have been filled in.
    pub open spec fn ready(&self) -> bool {
        &&& self.event_ident is Some
        &&& self.id_ty is Some
        &&& self.table_name is Some
        &&& self.events_table_name is Some
        &&& self.forgettable ==> self.forgettable_table_name is Some
        &&& self.columns.complete(self.id_ty->0@)
        &&& self.columns.all.len() + 16 <= usize::MAX
    }

    /// The repository is a struct with named fields, and has a pool.
    pub open spec fn is_struct(&self) -> bool {
        &&& self.data is Some
        &&& forall|i: int|
            0 <= i < self.data->0.len() ==> (#[trigger] self.data->0@[i]).ident is Some
        &&& exists|i: int| 0 <= i < self.data->0.len() && (#[trigger] self.data->0@[i]).holds_pool()
    }

    pub open spec fn id_text(&self) -> Seq<char> {
        self.id_ty->0@
    }

    pub open spec fn event_text(&self) -> Seq<char> {
        self.event_ident->0@
    }

    pub open spec fn table_text(&self) -> Seq<char> {
        self.table_name->0@
    }

    pub open spec fn events_table_text(&self) -> Seq<char> {
        self.events_table_name->0@
    }

    pub open spec fn writes_contexts(&self) -> bool {
        match self.persist_event_context {
            Some(b) => b,
            None => self.features.event_context,
        }
    }

    pub open spec fn forgettable_table(&self) -> Option<Seq<char>> {
        if self.forgettable {
            Some(self.forgettable_table_name->0@)
        } else {
            None
        }
    }

    /// The name of the repository in snake case, where functions are
    /// instrumented.
    pub open spec fn span_prefix(&self) -> Option<Seq<char>> {
        if self.features.instrument {
            Some(cased(self.ident@, NameCase::Snake))
        } else {
            None
        }
    }

    pub open spec fn nested(&self) -> Seq<RepoField> {
        nested_of(self.data->0@)
    }

    /// Whether the repository owns nested entities and is not itself nested.
    pub open spec fn root(&self) -> bool {
        self.nested().len() > 0 && !self.columns.has_parent()
    }

    /// The prefix of the tables, with the underscore behind it.
    pub open spec fn prefix_text(&self) -> Seq<char> {
        match self.prefix {
            Some(p) => p@ + "_"@,
            None => Seq::empty(),
        }
    }

    /// What the options are with the defaults filled in, where the plural of
    /// the entity's name is `plural`.
    pub open spec fn defaulted(&self, from: &RepositoryOptions, plural: Seq<char>) -> bool {
        &&& self.event_ident is Some
        &&& self.event_text() == (match from.event_ident {
            Some(e) => e@,
            None => from.entity_ident@ + "Event"@,
        })
        &&& self.id_ty is Some
        &&& self.id_text() == (match from.id_ty {
            Some(t) => t@,
            None => from.entity_ident@ + "Id"@,
        })
        &&& self.table_name is Some
        &&& self.table_text() == (match from.table_name {
            Some(t) => t@,
            None => from.prefix_text() + cased(plural, NameCase::Snake),
        })
        &&& self.events_table_name is Some
        &&& self.events_table_text() == (match from.events_table_name {
            Some(t) => t@,
            None => cased(from.prefix_text() + from.entity_ident@ + "Events"@, NameCase::Snake),
        })
        &&& opt_text(self.forgettable_table_name) == (if from.forgettable
            && from.forgettable_table_name is None {
            Some(self.table_text() + "_forgettable_payloads"@)
        } else {
            opt_text(from.forgettable_table_name)
        })
        &&& self.columns.all.len() == from.columns.all.len() + 2
        &&& self.columns.all@.skip(2) == from.columns.all@
        &&& self.columns.all@[0].is_created_at_column()
        &&& self.columns.all@[1].is_id_column(
            self.id_text(),
            from.columns.id_scope,
            opt_text(from.columns.id_scope_variant),
        )
        &&& self.columns.id_scope == from.columns.id_scope
        &&& self.columns.id_scope_variant == from.columns.id_scope_variant
        &&& self.ident == from.ident
        &&& self.generics == from.generics
        &&& self.post_persist_hook == from.post_persist_hook
        &&& self.post_hydrate_hook == from.post_hydrate_hook
        &&& self.delete == from.delete
        &&& self.data == from.data
        &&& self.entity_ident == from.entity_ident
        &&& self.prefix == from.prefix
        &&& self.persist_event_context == from.persist_event_context
        &&& self.forgettable == from.forgettable
        &&& self.snapshot_table_name == from.snapshot_table_name
        &&& self.in_op_only == from.in_op_only
        &&& self.migrations_dir == from.migrations_dir
        &&& self.features == from.features
    }

    /// The word and the count that the plural of the entity's name is asked
    /// with.
    pub fn plural_request(&self) -> (res: (&str, isize))
        ensures
            res.0@ == self.entity_ident@,
            res.1 == 2,
    {
        (self.entity_ident.as_str(), 2)
    }

    /// The options with the defaults filled in: the names of the event, the id
    /// and the tables, and the implicit columns.
    pub fn update_defaults(self) -> (res: RepositoryOptions)
        ensures
            exists|plural: Seq<char>|
                number_form(self.entity_ident@, 2, plural) && #[trigger] res.defaulted(
                    &self,
                    plural,
                ),
    {
        let (word, count) = self.plural_request();
        let plural = pluralize(word, count);
        self.with_defaults(plural.as_str())
    }

    /// The options with the defaults filled in, where the plural of the
    /// entity's name is `plural`.
    pub fn with_defaults(self, plural: &str) -> (res: RepositoryOptions)
        ensures
            res.defaulted(&self, plural@),
    {
        let mut o = self;
        if o.event_ident.is_none() {
            o.event_ident = Some(o.entity_ident.clone().concat("Event"));
        }
        if o.id_ty.is_none() {
            o.id_ty = Some(o.entity_ident.clone().concat("Id"));
        }
        let prefix = match &o.prefix {
            Some(p) => p.clone().concat("_"),
            None => String::new(),
        };
        let table = match &o.table_name {
            Some(t) => t.clone(),
            None => prefix.clone().concat(to_case(plural, NameCase::Snake).as_str()),
        };
        if o.events_table_name.is_none() {
            let name = prefix.concat(o.entity_ident.as_str()).concat("Events");
            o.events_table_name = Some(to_case(name.as_str(), NameCase::Snake));
        }
        if o.forgettable && o.forgettable_table_name.is_none() {
            o.forgettable_table_name = Some(table.clone().concat("_forgettable_payloads"));
        }
        o.table_name = Some(table);
        let id = match &o.id_ty {
            Some(t) => t.clone(),
            None => String::new(),
        };
        o.columns.set_id_column(id.as_str());
        o
    }

    /// The entity.
    pub fn entity(&self) -> (res: &str)
        ensures
            res@ == self.entity_ident@,
    {
        self.entity_ident.as_str()
    }

    /// The index table.
    pub fn table_name(&self) -> (res: &str)
        requires
            self.table_name is Some,
        ensures
            res@ == self.table_text(),
    {
        match &self.table_name {
            Some(t) => t.as_str(),
            None => "",
        }
    }

    /// The prefix of the tables.
    pub fn table_prefix(&self) -> (res: Option<&str>)
        ensures
            opt_str(res) == opt_text(self.prefix),
    {
        match &self.prefix {
            Some(p) => Some(p.as_str()),
            None => None,
        }
    }

    /// The type of the id.
    pub fn id(&self) -> (res: &str)
        requires
            self.id_ty is Some,
        ensures
            res@ == self.id_text(),
    {
        match &self.id_ty {
            Some(t) => t.as_str(),
            None => "",
        }
    }

    /// The type of the events.
    pub fn event(&self) -> (res: &str)
        requires
            self.event_ident is Some,
        ensures
            res@ == self.event_text(),
    {
        match &self.event_ident {
            Some(t) => t.as_str(),
            None => "",
        }
    }

    /// Whether the contexts of events are written.
    pub fn event_context_enabled(&self) -> (res: bool)
        ensures
            res == self.writes_contexts(),
    {
        match self.persist_event_context {
            Some(b) => b,
            None => self.features.event_context,
        }
    }

    /// The events table.
    pub fn events_table_name(&self) -> (res: &str)
        requires
            self.events_table_name is Some,
        ensures
            res@ == self.events_table_text(),
    {
        match &self.events_table_name {
            Some(t) => t.as_str(),
            None => "",
        }
    }

    /// Where the migrations are looked for. `environment` tells whether the
    /// directory that the environment names exists, where it names one;
    /// `manifest_known` whether the crate's directory is known; `attribute`
    /// whether the directory that the options name exists, where they name
    /// one; and `ancestors` what is known of the crate's directory and those
    /// above it.
    pub fn migrations_dir(
        environment: Option<bool>,
        manifest_known: bool,
        attribute: Option<bool>,
        ancestors: &Vec<DirFacts>,
    ) -> (res: MigrationsDir)
        ensures
            environment == Some(true) ==> res == MigrationsDir::Environment,
            environment == Some(false) ==> res == MigrationsDir::Unknown,
            environment is None && !manifest_known ==> res == MigrationsDir::Unknown,
            environment is None && manifest_known && attribute == Some(true) ==> res
                == MigrationsDir::Attribute,
            environment is None && manifest_known && attribute == Some(false) ==> res
                == MigrationsDir::Unknown,
            environment is None && manifest_known && attribute is None ==> match res {
                MigrationsDir::Ancestor(i) => nearest(ancestors@, i as int),
                MigrationsDir::Unknown => forall|i: int| !#[trigger] nearest(ancestors@, i),
                _ => false,
            },
    {
        match environment {
            Some(is_dir) => {
                return if is_dir {
                    MigrationsDir::Environment
                } else {
                    MigrationsDir::Unknown
                };
            },
            None => {},
        }
        if !manifest_known {
            return MigrationsDir::Unknown;
        }
        match attribute {
            Some(is_dir) => {
                return if is_dir {
                    MigrationsDir::Attribute
                } else {
                    MigrationsDir::Unknown
                };
            },
            None => {},
        }
        let mut i: usize = 0;
        while i < ancestors.len()
            invariant
                i <= ancestors.len(),
                environment is None && manifest_known && attribute is None,
                forall|j: int|
                    0 <= j < i ==> !(#[trigger] ancestors@[j]).has_migrations
                        && !ancestors@[j].is_root,
            decreases ancestors.len() - i,
        {
            let dir = ancestors[i];
            if dir.has_migrations {
                assert(nearest(ancestors@, i as int));
                return MigrationsDir::Ancestor(i);
            }
            if dir.is_root {
                assert forall|k: int| !#[trigger] nearest(ancestors@, k) by {
                    assert(ancestors@[i as int].is_root);
                    if nearest(ancestors@, k) {
                        assert(k != i);
                        if k < i {
                            assert(!ancestors@[k].has_migrations);
                        } else {
                            assert(!ancestors@[i as int].is_root);
                        }
                    }
                }
                return MigrationsDir::Unknown;
            }
            i = i + 1;
        }
        MigrationsDir::Unknown
    }

    /// What makes the code depend on the migrations: nothing where the
    /// environment names their directory, and otherwise a constant for each of
    /// the files.
    pub fn migrations_rerun_tokens(environment: bool, files: &Vec<String>) -> (res: String)
        ensures
            environment ==> res@ == Seq::<char>::empty(),
            !environment ==> res@ == joined(
                Seq::new(files.len() as nat, |i: int| watched_file_code(literal(files@[i]@))),
                "\n"@,
            ),
    {
        if environment {
            return String::new();
        }
        let mut parts: Vec<String> = Vec::new();
        let mut i: usize = 0;
        while i < files.len()
            invariant
                i <= files.len(),
                parts.len() == i,
                forall|j: int|
                    0 <= j < i ==> (#[trigger] parts@[j])@ == watched_file_code(
                        literal(files@[j]@),
                    ),
            decreases files.len() - i,
        {
            parts.push(watched_file(quote(files[i].as_str()).as_str()));
            i = i + 1;
        }
        assert(parts.deep_view() =~= Seq::new(
            files.len() as nat,
            |i: int| watched_file_code(literal(files@[i]@)),
        ));
        join(&parts, "\n")
    }

    /// The module of the cursors.
    pub fn cursor_mod(&self) -> (res: String)
        ensures
            res@ == cased(self.entity_ident@ + "Cursor"@, NameCase::Snake),
    {
        to_case(self.entity_ident.clone().concat("Cursor").as_str(), NameCase::Snake)
    }

    /// The module of the repository's types.
    pub fn repo_types_mod(&self) -> (res: String)
        ensures
            res@ == cased(self.entity_ident@ + "RepoTypes"@, NameCase::Snake),
    {
        to_case(self.entity_ident.clone().concat("RepoTypes").as_str(), NameCase::Snake)
    }

    /// The name of the repository in snake case.
    pub fn repo_name_snake_case(&self) -> (res: String)
        ensures
            res@ == cased(self.ident@, NameCase::Snake),
    {
        to_case(self.ident.as_str(), NameCase::Snake)
    }

    /// The name of the repository in snake case, where functions are
    /// instrumented.
    pub fn instrumented_as(&self) -> (res: Option<String>)
        ensures
            opt_text(res) == self.span_prefix(),
    {
        if self.features.instrument {
            Some(self.repo_name_snake_case())
        } else {
            None
        }
    }

    /// Whether the repository is a struct with named fields, and has a pool.
    pub fn has_pool(&self) -> (res: bool)
        ensures
            res == self.is_struct(),
    {
        let fields = match &self.data {
            Some(fields) => fields,
            None => {
                return false;
            },
        };
        let mut found = false;
        let mut i: usize = 0;
        while i < fields.len()
            invariant
                i <= fields.len(),
                self.data == Some(*fields),
                forall|j: int| 0 <= j < i ==> (#[trigger] fields@[j]).ident is Some,
                found <==> exists|j: int| 0 <= j < i && (#[trigger] fields@[j]).holds_pool(),
            decreases fields.len() - i,
        {
            let f = &fields[i];
            if f.ident.is_none() {
                assert(self.data->0@[i as int].ident is None);
                return false;
            }
            if f.is_pool_field() {
                assert(fields@[i as int].holds_pool());
                found = true;
            }
            i = i + 1;
        }
        found
    }

    /// The first field that holds the pool.
    pub fn pool_field(&self) -> (res: &str)
        requires
            self.is_struct(),
        ensures
            exists|i: int|
                0 <= i < self.data->0.len() && (#[trigger] self.data->0@[i]).holds_pool()
                    && self.data->0@[i].label() == res@ && (forall|j: int|
                    0 <= j < i ==> !(#[trigger] self.data->0@[j]).holds_pool()),
    {
        match &self.data {
            Some(fields) => {
                let mut i: usize = 0;
                while i < fields.len()
                    invariant
                        i <= fields.len(),
                        self.data == Some(*fields),
                        self.is_struct(),
                        forall|j: int| 0 <= j < i ==> !(#[trigger] fields@[j]).holds_pool(),
                    decreases fields.len() - i,
                {
                    let f = &fields[i];
                    if f.is_pool_field() {
                        assert(self.data->0@[i as int].holds_pool());
                        return f.ident();
                    }
                    i = i + 1;
                }
                assert(false);
                ""
            },
            None => "",
        }
    }

    /// The first field that holds the clock.
    pub fn clock_field(&self) -> (res: ClockFieldInfo<'_>)
        requires
            self.data matches Some(fields) ==> forall|i: int|
                0 <= i < fields.len() ==> (#[trigger] fields@[i]).holds_clock()
                    ==> fields@[i].ident is Some,
        ensures
            match res {
                ClockFieldInfo::Absent => self.data matches Some(fields) ==> forall|i: int|
                    0 <= i < fields.len() ==> !(#[trigger] fields@[i]).holds_clock(),
                ClockFieldInfo::Optional(name) => self.data is Some && exists|i: int|
                    0 <= i < self.data->0.len() && (#[trigger] self.data->0@[i]).holds_clock()
                        && self.data->0@[i].label() == name@ && self.data->0@[i].ty.ends_in(
                        "Option"@,
                    ) && (forall|j: int|
                        0 <= j < i ==> !(#[trigger] self.data->0@[j]).holds_clock()),
                ClockFieldInfo::Required(name) => self.data is Some && exists|i: int|
                    0 <= i < self.data->0.len() && (#[trigger] self.data->0@[i]).holds_clock()
                        && self.data->0@[i].label() == name@ && !self.data->0@[i].ty.ends_in(
                        "Option"@,
                    ) && (forall|j: int|
                        0 <= j < i ==> !(#[trigger] self.data->0@[j]).holds_clock()),
            },
    {
        match &self.data {
            Some(fields) => {
                let mut i: usize = 0;
                while i < fields.len()
                    invariant
                        i <= fields.len(),
                        self.data == Some(*fields),
                        forall|i: int|
                            0 <= i < fields.len() ==> (#[trigger] fields@[i]).holds_clock()
                                ==> fields@[i].ident is Some,
                        forall|j: int| 0 <= j < i ==> !(#[trigger] fields@[j]).holds_clock(),
                    decreases fields.len() - i,
                {
                    let f = &fields[i];
                    if f.is_clock_field() {
                        assert(self.data->0@[i as int].holds_clock());
                        return if f.is_option_type() {
                            ClockFieldInfo::Optional(f.ident())
                        } else {
                            ClockFieldInfo::Required(f.ident())
                        };
                    }
                    i = i + 1;
                }
                ClockFieldInfo::Absent
            },
            None => ClockFieldInfo::Absent,
        }
    }

    /// Whether the repository owns nested entities.
    pub fn any_nested(&self) -> (res: bool)
        requires
            self.data is Some,
        ensures
            res == (self.nested().len() > 0),
    {
        self.all_nested().len() > 0
    }

    /// The fields of nested repositories.
    pub fn all_nested(&self) -> (res: Vec<&RepoField>)
        requires
            self.data is Some,
        ensures
            fields_of(res@) == self.nested(),
            res.len() == self.nested().len(),
    {
        let mut res: Vec<&RepoField> = Vec::new();
        match &self.data {
            Some(fields) => {
                let mut i: usize = 0;
                assert(fields@.take(0) =~= Seq::<RepoField>::empty());
                assert(fields_of(res@) =~= Seq::<RepoField>::empty());
                while i < fields.len()
                    invariant
                        i <= fields.len(),
                        fields_of(res@) == nested_of(fields@.take(i as int)),
                    decreases fields.len() - i,
                {
                    let f = &fields[i];
                    proof {
                        let next = fields@.take(i + 1);
                        assert(next.drop_last() =~= fields@.take(i as int));
                        assert(next.last() == *f);
                        assert(fields_of(res@.push(f)) =~= fields_of(res@).push(*f));
                    }
                    if f.nested {
                        res.push(f);
                    }
                    i = i + 1;
                }
                assert(fields@.take(fields.len() as int) =~= fields@);
            },
            None => {},
        }
        assert(fields_of(res@).len() == res.len());
        res
    }

    /// The names of a function for each of the nested repositories.
    pub open spec fn nested_names(&self, which: NestedFn) -> Seq<Seq<char>> {
        Seq::new(self.nested().len(), |i: int| which.name(self.nested()[i].label()))
    }

    /// The names of a function for each of the nested repositories.
    pub fn nested_fn_names(&self, which: NestedFn) -> (res: Vec<String>)
        requires
            self.is_struct(),
        ensures
            res.deep_view() == self.nested_names(which),
    {
        let nested = self.all_nested();
        proof {
            nested_have_names(self.data->0@);
        }
        let mut res: Vec<String> = Vec::new();
        let mut i: usize = 0;
        while i < nested.len()
            invariant
                i <= nested.len(),
                nested.len() == self.nested().len(),
                fields_of(nested@) == self.nested(),
                forall|j: int|
                    0 <= j < self.nested().len() ==> (
                    #[trigger] self.nested()[j]).ident is Some,
                res.len() == i,
                forall|j: int|
                    0 <= j < i ==> (#[trigger] res@[j])@ == which.name(self.nested()[j].label()),
            decreases nested.len() - i,
        {
            let field = nested[i];
            assert(*field == fields_of(nested@)[i as int]);
            let name = match which {
                NestedFn::Create => field.create_nested_fn_name(),
                NestedFn::Update => field.update_nested_fn_name(),
                NestedFn::Find => field.find_nested_fn_name(),
                NestedFn::FindIncludeDeleted => field.find_nested_include_deleted_fn_name(),
                NestedFn::Delete => field.delete_nested_fn_name(),
                NestedFn::PendingWork => field.pending_nested_work_fn_name(),
                NestedFn::Forget => field.forget_nested_fn_name(),
            };
            res.push(name);
            i = i + 1;
        }
        assert(res.deep_view() =~= self.nested_names(which));
        res
    }

    /// The error of the hook that runs when an entity was read.
    pub open spec fn hydrate_error(&self) -> Option<Seq<char>> {
        match self.post_hydrate_hook {
            Some(h) => Some(h.error@),
            None => None,
        }
    }

    /// The error of the hook that runs when events were written.
    pub open spec fn persist_error(&self) -> Option<Seq<char>> {
        match self.post_persist_hook {
            Some(h) => Some(h.error@),
            None => None,
        }
    }

    /// The error of the hook that runs when an entity was read.
    pub fn post_hydrate_error(&self) -> (res: Option<&str>)
        ensures
            opt_str(res) == self.hydrate_error(),
    {
        match &self.post_hydrate_hook {
            Some(h) => Some(h.error.as_str()),
            None => None,
        }
    }

    /// The error of the hook that runs when events were written.
    pub fn post_persist_error(&self) -> (res: Option<&str>)
        ensures
            opt_str(res) == self.persist_error(),
    {
        match &self.post_persist_hook {
            Some(h) => Some(h.error.as_str()),
            None => None,
        }
    }

    /// Whether the repository is the root of an aggregate: it owns nested
    /// entities, and none of its columns holds a parent's id.
    pub fn is_root(&self) -> (res: bool)
        requires
            self.data is Some,
        ensures
            res == self.root(),
    {
        self.any_nested() && self.columns.parent().is_none()
    }

    /// The generic parameters of a query function.
    pub fn query_fn_generics(nested: bool) -> (res: &'static str)
        ensures
            res@ == query_generics(nested),
    {
        if nested {
            "<OP>"
        } else {
            "<'a, OP>"
        }
    }

    /// The parameter of a query function that is the operation.
    pub fn query_fn_op_arg(nested: bool) -> (res: &'static str)
        ensures
            res@ == query_op_arg(nested),
    {
        if nested {
            "op: &mut OP"
        } else {
            "op: OP"
        }
    }

    /// The bound on the operation of a query function.
    pub fn query_fn_op_traits(nested: bool) -> (res: &'static str)
        ensures
            res@ == query_op_traits(nested),
    {
        if nested {
            "es_entity::AtomicOperation"
        } else {
            "es_entity::IntoOneTimeExecutor<'a>"
        }
    }

    /// The operation that a query function without one starts.
    pub fn query_fn_get_op(nested: bool) -> (res: &'static str)
        ensures
            res@ == query_get_op(nested),
    {
        if nested {
            "&mut self.pool().begin().await?"
        } else {
            "self.pool()"
        }
    }

    /// The error of a create.
    pub fn create_error(&self) -> (res: String)
        ensures
            res@ == self.entity_ident@ + "CreateError"@,
    {
        self.entity_ident.clone().concat("CreateError")
    }

    /// The error of a write.
    pub fn modify_error(&self) -> (res: String)
        ensures
            res@ == self.entity_ident@ + "ModifyError"@,
    {
        self.entity_ident.clone().concat("ModifyError")
    }

    /// The error of a find.
    pub fn find_error(&self) -> (res: String)
        ensures
            res@ == self.entity_ident@ + "FindError"@,
    {
        self.entity_ident.clone().concat("FindError")
    }

    /// The error of a query.
    pub fn query_error(&self) -> (res: String)
        ensures
            res@ == self.entity_ident@ + "QueryError"@,
    {
        self.entity_ident.clone().concat("QueryError")
    }

    /// The error of a forget.
    pub fn forget_error(&self) -> (res: String)
        ensures
            res@ == self.entity_ident@ + "ForgetError"@,
    {
        self.entity_ident.clone().concat("ForgetError")
    }

    /// The enum of the columns.
    pub fn column_enum(&self) -> (res: String)
        ensures
            res@ == self.entity_ident@ + "Column"@,
    {
        self.entity_ident.clone().concat("Column")
    }

    /// The scope type.
    pub fn scope_type_ident(&self) -> (res: String)
        ensures
            res@ == self.entity_ident@ + "Scope"@,
    {
        self.entity_ident.clone().concat("Scope")
    }

    /// The view of the repository that is bound to a scope.
    pub fn scoped_view_ident(&self) -> (res: String)
        ensures
            res@ == "Scoped"@ + self.ident@,
    {
        "Scoped".to_string().concat(self.ident.as_str())
    }

    /// Whether data of the entities can be forgotten.
    pub fn forgettable_enabled(&self) -> (res: bool)
        ensures
            res == self.forgettable,
    {
        self.forgettable
    }

    /// Rejects options with forgettable columns where nothing can be
    /// forgotten.
    pub fn validate_forgettable(&self) -> (res: Result<(), OptionsError>)
        ensures
            res is Err <==> !self.forgettable && self.columns.picks(Pick::Forgettable).len() > 0,
            res matches Err(e) ==> e is ForgettableDisabled,
    {
        let names = self.columns.forgettable_column_names();
        assert(names.deep_view().len() == names.len());
        if !self.forgettable && names.len() > 0 {
            return Err(OptionsError::ForgettableDisabled);
        }
        Ok(())
    }

    /// The table of the payloads that can be forgotten.
    pub fn forgettable_table_name(&self) -> (res: Option<&str>)
        requires
            self.forgettable ==> self.forgettable_table_name is Some,
        ensures
            opt_str(res) == self.forgettable_table(),
    {
        if !self.forgettable {
            return None;
        }
        match &self.forgettable_table_name {
            Some(t) => Some(t.as_str()),
            None => None,
        }
    }

    /// The table of the snapshots.
    pub fn snapshot_table_name(&self) -> (res: Option<&str>)
        ensures
            opt_str(res) == opt_text(self.snapshot_table_name),
    {
        match &self.snapshot_table_name {
            Some(t) => Some(t.as_str()),
            None => None,
        }
    }

    /// Whether only functions that take an operation are emitted for lists
    /// with filters.
    pub fn in_op_only(&self) -> (res: bool)
        ensures
            res == self.in_op_only,
    {
        self.in_op_only
    }
}

/// A constant that makes the code depend on a file.
pub open spec fn watched_file_code(path: Seq<char>) -> Seq<char> {
    "const _: &[u8] = include_bytes!("@ + path + ");"@
}

/// A constant that makes the code depend on a file.
fn watched_file(path: &str) -> (res: String)
    ensures
        res@ == watched_file_code(path@),
{
    "const _: &[u8] = include_bytes!(".to_string().concat(path).concat(");")
}

pub open spec fn query_generics(nested: bool) -> Seq<char> {
    if nested {
        "<OP>"@
    } else {
        "<'a, OP>"@
    }
}

pub open spec fn query_op_arg(nested: bool) -> Seq<char> {
    if nested {
        "op: &mut OP"@
    } else {
        "op: OP"@
    }
}

pub open spec fn query_op_traits(nested: bool) -> Seq<char> {
    if nested {
        "es_entity::AtomicOperation"@
    } else {
        "es_entity::IntoOneTimeExecutor<'a>"@
    }
}

pub open spec fn query_get_op(nested: bool) -> Seq<char> {
    if nested {
        "&mut self.pool().begin().await?"@
    } else {
        "self.pool()"@
    }
}

/// Options with the defaults filled in are ready, where none of the given
/// columns is an id column and there are not too many of them.
pub proof fn defaulted_is_ready(from: &RepositoryOptions, to: &RepositoryOptions, plural: Seq<char>)
    requires
        to.defaulted(from, plural),
        from.columns.all.len() + 18 <= usize::MAX,
        forall|i: int|
            0 <= i < from.columns.all.len() ==> !(#[trigger] from.columns.all@[i]).opts.is_id,
    ensures
        to.ready(),
{
    assert forall|i: int| 2 <= i < to.columns.all.len() implies !(
    #[trigger] to.columns.all@[i]).opts.is_id by {
        assert(to.columns.all@.skip(2)[i - 2] == to.columns.all@[i]);
        assert(from.columns.all@[i - 2] == to.columns.all@[i]);
    }
}

} // verus!
