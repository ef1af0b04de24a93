//! The index columns of a repository, and the parts of statements that are
//! made of them.

use vstd::prelude::*;
use vstd::string::*;

use crate::options::column::Column;
use crate::text::{join, joined, param, param_text, same};
use crate::types::opt_text;

verus! {

/// The index columns of a repository.
pub struct Columns {
    pub all: Vec<Column>,
    /// Whether the `id` column is the scope column.
    pub id_scope: bool,
    /// The variant of the scope type for the `id` column.
    pub id_scope_variant: Option<String>,
}

/// What columns are picked for.
#[derive(Clone, Copy, PartialEq, Eq, Structural)]
pub enum Pick {
    /// Finding an entity by the column's value.
    FindBy,
    /// Listing entities sorted by the column.
    ListBy,
    /// Listing the entities that have a value of the column.
    ListFor,
    /// Filtering by a condition.
    Virtual,
    /// Restricting every read to one value of the column.
    Scope,
    /// The column enum of the emitted errors.
    ColumnEnum,
    /// The insert of a new entity.
    Create,
    /// The `SET` list of an update.
    Update,
    /// The arguments of an update.
    UpdateArgs,
    /// The `SET` list of a bulk update.
    BulkUpdate,
    /// The arguments of a soft delete.
    DeleteArgs,
    /// Forgetting an entity.
    Forgettable,
}

impl Pick {
    /// Whether the column `c` is picked.
    pub open spec fn admits(self, c: Column) -> bool {
        match self {
            Pick::FindBy => c.opts.finds(),
            Pick::ListBy => c.opts.lists(),
            Pick::ListFor => c.opts.filters() && c.opts.virtual_sql is None,
            Pick::Virtual => c.opts.virtual_sql is Some,
            Pick::Scope => c.opts.scope,
            Pick::ColumnEnum => c.name@ != "created_at"@ && c.opts.virtual_sql is None,
            Pick::Create => c.opts.created(),
            Pick::Update => c.opts.updated(),
            Pick::UpdateArgs => c.opts.updated() || c.opts.is_id,
            Pick::BulkUpdate => c.opts.updated() && !c.opts.is_id,
            Pick::DeleteArgs => (c.opts.updated() && !c.opts.forgettable) || c.opts.is_id,
            Pick::Forgettable => c.opts.forgettable && !c.opts.is_id,
        }
    }

    fn takes(self, c: &Column) -> (res: bool)
        ensures
            res == self.admits(*c),
    {
        match self {
            Pick::FindBy => c.opts.find_by(),
            Pick::ListBy => c.opts.list_by(),
            Pick::ListFor => c.opts.list_for() && c.opts.virtual_sql.is_none(),
            Pick::Virtual => c.opts.virtual_sql.is_some(),
            Pick::Scope => c.opts.scope,
            Pick::ColumnEnum => !same(c.name.as_str(), "created_at")
                && c.opts.virtual_sql.is_none(),
            Pick::Create => c.opts.persist_on_create(),
            Pick::Update => c.opts.persist_on_update(),
            Pick::UpdateArgs => c.opts.persist_on_update() || c.opts.is_id,
            Pick::BulkUpdate => c.opts.persist_on_update() && !c.opts.is_id,
            Pick::DeleteArgs => (c.opts.persist_on_update() && !c.opts.forgettable)
                || c.opts.is_id,
            Pick::Forgettable => c.opts.forgettable && !c.opts.is_id,
        }
    }
}

/// The columns that are picked, in order.
pub open spec fn picked(all: Seq<Column>, pick: Pick) -> Seq<Column>
    decreases all.len(),
{
    if all.len() == 0 {
        Seq::empty()
    } else {
        let rest = picked(all.drop_last(), pick);
        if pick.admits(all.last()) {
            rest.push(all.last())
        } else {
            rest
        }
    }
}

/// The columns that references stand for.
pub open spec fn columns_of(refs: Seq<&Column>) -> Seq<Column> {
    Seq::new(refs.len(), |i: int| *refs[i])
}

/// What is emitted for a column.
#[derive(Clone, Copy, PartialEq, Eq, Structural)]
pub enum Piece {
    Name,
    CreateBinding,
    CreateAllBinding,
    UpdateBinding,
    UpdateAllBinding,
    ArgAdd,
    Arg,
    NewCollection,
    PushToCollection,
    AddCollection,
    BindCollection,
    SetFromUnnested,
}

impl Piece {
    /// The text for the column `c` of the entity `entity`.
    pub open spec fn of(self, c: Column, entity: Seq<char>) -> Seq<char> {
        match self {
            Piece::Name => c.name@,
            Piece::CreateBinding => c.create_binding(entity),
            Piece::CreateAllBinding => c.create_all_binding(entity),
            Piece::UpdateBinding => c.update_binding(entity),
            Piece::UpdateAllBinding => c.update_all_binding(entity),
            Piece::ArgAdd => c.arg_add(),
            Piece::Arg => c.arg(),
            Piece::NewCollection => "let mut "@ + c.collection() + " = Vec::new();"@,
            Piece::PushToCollection => c.collection() + ".push("@ + c.name@ + ");"@,
            Piece::AddCollection => "__query_args.add("@ + c.collection()
                + ").map_err(sqlx::Error::Encode)?;"@,
            Piece::BindCollection => ".bind("@ + c.collection() + ")"@,
            Piece::SetFromUnnested => c.name@ + " = unnested."@ + c.name@,
        }
    }

    fn text(self, c: &Column, entity: &str) -> (res: String)
        ensures
            res@ == self.of(*c, entity@),
    {
        let name = c.name.as_str();
        let ty = c.opts.ty.text.as_str();
        let collection = name.to_string().concat("_collection");
        match self {
            Piece::Name => name.to_string(),
            Piece::CreateBinding => c.variable_assignment_for_create(entity),
            Piece::CreateAllBinding => c.variable_assignment_for_create_all(entity),
            Piece::UpdateBinding => c.variable_assignment_for_update(entity),
            Piece::UpdateAllBinding => c.variable_assignment_for_update_all(entity),
            Piece::ArgAdd => "__query_args.add(".to_string().concat(name).concat(" as &").concat(
                ty,
            ).concat(").map_err(sqlx::Error::Encode)?;"),
            Piece::Arg => name.to_string().concat(" as &").concat(ty),
            Piece::NewCollection => "let mut ".to_string().concat(collection.as_str()).concat(
                " = Vec::new();",
            ),
            Piece::PushToCollection => collection.concat(".push(").concat(name).concat(");"),
            Piece::AddCollection => "__query_args.add(".to_string().concat(
                collection.as_str(),
            ).concat(").map_err(sqlx::Error::Encode)?;"),
            Piece::BindCollection => ".bind(".to_string().concat(collection.as_str()).concat(")"),
            Piece::SetFromUnnested => name.to_string().concat(" = unnested.").concat(name),
        }
    }
}

/// What is emitted for each of the columns, in order.
pub open spec fn pieces(cols: Seq<Column>, piece: Piece, entity: Seq<char>) -> Seq<Seq<char>> {
    Seq::new(cols.len(), |i: int| piece.of(cols[i], entity))
}

/// The parameters `$from`, `$from + 1`, .. of which there are `count`.
pub open spec fn params_from(from: nat, count: nat) -> Seq<Seq<char>> {
    Seq::new(count, |i: int| param((from + i) as nat))
}

/// The assignments of an update: the first column takes `$2`, the next `$3`.
pub open spec fn set_parts(cols: Seq<Column>) -> Seq<Seq<char>> {
    Seq::new(cols.len(), |i: int| cols[i].name@ + " = "@ + param((i + 2) as nat))
}

/// How many of the columns are bound when the others are set to NULL.
pub open spec fn bound(cols: Seq<Column>) -> nat
    decreases cols.len(),
{
    if cols.len() == 0 {
        0
    } else {
        bound(cols.drop_last()) + (if cols.last().opts.forgettable {
            0nat
        } else {
            1nat
        })
    }
}

/// The assignments of a soft delete: NULL for a forgettable column, and for
/// the others `$2`, `$3`, ..
pub open spec fn delete_set_parts(cols: Seq<Column>) -> Seq<Seq<char>> {
    Seq::new(
        cols.len(),
        |i: int|
            if cols[i].opts.forgettable {
                cols[i].name@ + " = NULL"@
            } else {
                cols[i].name@ + " = "@ + param(bound(cols.take(i)) + 2)
            },
    )
}

fn render(cols: &Vec<&Column>, piece: Piece, entity: &str) -> (res: Vec<String>)
    ensures
        res.deep_view() == pieces(columns_of(cols@), piece, entity@),
{
    let mut res: Vec<String> = Vec::new();
    let mut i: usize = 0;
    while i < cols.len()
        invariant
            i <= cols.len(),
            res.len() == i,
            forall|j: int| 0 <= j < i ==> #[trigger] res@[j]@ == piece.of(*cols@[j], entity@),
        decreases cols.len() - i,
    {
        res.push(piece.text(cols[i], entity));
        i = i + 1;
    }
    assert(res.deep_view() =~= pieces(columns_of(cols@), piece, entity@));
    res
}

impl Columns {
    /// The list starts with the implicit columns, and the rest are others: the
    /// form that `set_id_column` gives it.
    pub open spec fn complete(&self, id: Seq<char>) -> bool {
        &&& self.all.len() >= 2
        &&& self.all@[0].is_created_at_column()
        &&& self.all@[1].is_id_column(id, self.id_scope, opt_text(self.id_scope_variant))
        &&& forall|i: int| 2 <= i < self.all.len() ==> !(#[trigger] self.all@[i]).opts.is_id
    }

    pub open spec fn picks(&self, pick: Pick) -> Seq<Column> {
        picked(self.all@, pick)
    }

    /// The columns of the `SET` list of an update: all that are written on an
    /// update, but the first.
    pub open spec fn set_columns(&self) -> Seq<Column> {
        picked(self.all@.skip(1), Pick::Update)
    }

    /// What is emitted for each of the columns that are picked.
    pub open spec fn emitted(&self, pick: Pick, piece: Piece, entity: Seq<char>) -> Seq<
        Seq<char>,
    > {
        pieces(self.picks(pick), piece, entity)
    }

    pub open spec fn has_parent(&self) -> bool {
        exists|i: int| 0 <= i < self.all.len() && (#[trigger] self.all@[i]).opts.parent_opts is Some
    }

    pub open spec fn any_updated(&self) -> bool {
        exists|i: int| 0 <= i < self.all.len() && (#[trigger] self.all@[i]).opts.updated()
    }

    /// The column at `i` is the first one by the name of `name` that lists are
    /// sorted by.
    pub open spec fn first_list_by(&self, name: Seq<char>, i: int) -> bool {
        &&& 0 <= i < self.all.len()
        &&& self.all@[i].name@ == name
        &&& self.all@[i].opts.lists()
        &&& forall|j: int|
            0 <= j < i ==> !((#[trigger] self.all@[j]).name@ == name && self.all@[j].opts.lists())
    }

    pub open spec fn has_list_by(&self, name: Seq<char>) -> bool {
        exists|i: int|
            0 <= i < self.all.len() && (#[trigger] self.all@[i]).name@ == name
                && self.all@[i].opts.lists()
    }

    /// The names of the columns that are picked.
    pub open spec fn names(&self, pick: Pick) -> Seq<Seq<char>> {
        self.emitted(pick, Piece::Name, ""@)
    }

    /// The given columns behind the implicit ones.
    pub fn new(id: &str, columns: Vec<Column>) -> (res: Columns)
        ensures
            res.all.len() == columns.len() + 2,
            res.all@.skip(2) == columns@,
            res.all@[0].is_created_at_column(),
            res.all@[1].is_id_column(id@, false, None),
            !res.id_scope,
            res.id_scope_variant is None,
    {
        let mut res = Columns { all: columns, id_scope: false, id_scope_variant: None };
        res.set_id_column(id);
        res
    }

    /// No columns.
    pub fn empty() -> (res: Columns)
        ensures
            res.all@ == Seq::<Column>::empty(),
            !res.id_scope,
            res.id_scope_variant is None,
    {
        Columns { all: Vec::new(), id_scope: false, id_scope_variant: None }
    }

    /// Puts the implicit columns in front: `created_at`, and `id` of the type
    /// `ty`.
    pub fn set_id_column(&mut self, ty: &str)
        ensures
            final(self).all.len() == old(self).all.len() + 2,
            final(self).all@.skip(2) == old(self).all@,
            final(self).all@[0].is_created_at_column(),
            final(self).all@[1].is_id_column(
                ty@,
                old(self).id_scope,
                opt_text(old(self).id_scope_variant),
            ),
            final(self).id_scope == old(self).id_scope,
            final(self).id_scope_variant == old(self).id_scope_variant,
    {
        let mut id_column = Column::for_id(ty);
        id_column.opts.scope = self.id_scope;
        id_column.opts.scope_variant = self.id_scope_variant.clone();
        let mut all = vec![Column::for_created_at(), id_column];
        all.append(&mut self.all);
        assert(all@.skip(2) =~= old(self).all@);
        self.all = all;
    }

    /// The columns that are picked, in order.
    pub fn select(&self, pick: Pick) -> (res: Vec<&Column>)
        ensures
            columns_of(res@) == self.picks(pick),
    {
        assert(self.all@.skip(0) =~= self.all@);
        self.select_behind(0, pick)
    }

    fn select_behind(&self, from: usize, pick: Pick) -> (res: Vec<&Column>)
        ensures
            columns_of(res@) == picked(self.all@.skip(from as int), pick) || from
                > self.all.len(),
            from > self.all.len() ==> res.len() == 0,
    {
        let mut res: Vec<&Column> = Vec::new();
        let mut i: usize = from;
        let ghost tail = self.all@.skip(from as int);
        assert(from <= self.all.len() ==> tail.take(0) =~= Seq::<Column>::empty());
        assert(columns_of(res@) =~= Seq::<Column>::empty());
        while i < self.all.len()
            invariant
                from <= i,
                from <= self.all.len() ==> i <= self.all.len(),
                from > self.all.len() ==> i == from && res.len() == 0,
                tail == self.all@.skip(from as int),
                from <= self.all.len() ==> columns_of(res@) == picked(tail.take(i - from), pick),
            decreases self.all.len() - i,
        {
            let c = &self.all[i];
            proof {
                let next = tail.take(i - from + 1);
                assert(next.drop_last() =~= tail.take(i - from));
                assert(next.last() == *c);
                assert(columns_of(res@.push(c)) =~= columns_of(res@).push(*c));
            }
            if pick.takes(c) {
                res.push(c);
            }
            i = i + 1;
        }
        assert(from <= self.all.len() ==> tail.take(tail.len() as int) =~= tail);
        res
    }

    pub fn render_picked(&self, pick: Pick, piece: Piece, entity: &str) -> (res: Vec<String>)
        ensures
            res.deep_view() == self.emitted(pick, piece, entity@),
    {
        render(&self.select(pick), piece, entity)
    }

    fn render_block(&self, pick: Pick, piece: Piece, entity: &str) -> (res: String)
        ensures
            res@ == joined(self.emitted(pick, piece, entity@), "\n"@),
    {
        join(&self.render_picked(pick, piece, entity), "\n")
    }

    /// The columns that entities are found by.
    pub fn all_find_by(&self) -> (res: Vec<&Column>)
        ensures
            columns_of(res@) == self.picks(Pick::FindBy),
    {
        self.select(Pick::FindBy)
    }

    /// The columns that lists are sorted by.
    pub fn all_list_by(&self) -> (res: Vec<&Column>)
        ensures
            columns_of(res@) == self.picks(Pick::ListBy),
    {
        self.select(Pick::ListBy)
    }

    /// The columns that lists are filtered by.
    pub fn all_list_for(&self) -> (res: Vec<&Column>)
        ensures
            columns_of(res@) == self.picks(Pick::ListFor),
    {
        self.select(Pick::ListFor)
    }

    /// The columns that exist in filters alone.
    pub fn all_virtual(&self) -> (res: Vec<&Column>)
        ensures
            columns_of(res@) == self.picks(Pick::Virtual),
    {
        self.select(Pick::Virtual)
    }

    /// The columns marked `scope`.
    pub fn scope_columns(&self) -> (res: Vec<&Column>)
        ensures
            columns_of(res@) == self.picks(Pick::Scope),
    {
        self.select(Pick::Scope)
    }

    /// The first column marked `scope`.
    pub fn scope_column(&self) -> (res: Option<&Column>)
        ensures
            res is Some <==> self.picks(Pick::Scope).len() > 0,
            res matches Some(c) ==> *c == self.picks(Pick::Scope)[0],
    {
        let cols = self.select(Pick::Scope);
        if cols.len() > 0 {
            let first = cols[0];
            assert(columns_of(cols@)[0] == *first);
            Some(first)
        } else {
            None
        }
    }

    /// The columns of the column enum: all but `created_at`.
    pub fn column_enum_columns(&self) -> (res: Vec<&Column>)
        ensures
            columns_of(res@) == self.picks(Pick::ColumnEnum),
    {
        self.select(Pick::ColumnEnum)
    }

    /// The first column by that name which lists are sorted by.
    pub fn find_list_by(&self, name: &str) -> (res: Option<&Column>)
        ensures
            res is Some <==> self.has_list_by(name@),
            res matches Some(c) ==> exists|i: int|
                #[trigger] self.first_list_by(name@, i) && *c == self.all@[i],
    {
        let mut i: usize = 0;
        while i < self.all.len()
            invariant
                i <= self.all.len(),
                forall|j: int|
                    0 <= j < i ==> !((#[trigger] self.all@[j]).name@ == name@
                        && self.all@[j].opts.lists()),
            decreases self.all.len() - i,
        {
            let c = &self.all[i];
            if same(c.name.as_str(), name) && c.opts.list_by() {
                assert(self.first_list_by(name@, i as int));
                return Some(c);
            }
            i = i + 1;
        }
        None
    }

    /// The first column that holds a parent's id.
    pub fn parent(&self) -> (res: Option<&Column>)
        ensures
            res is Some <==> self.has_parent(),
            res matches Some(c) ==> exists|i: int|
                0 <= i < self.all.len() && *c == #[trigger] self.all@[i]
                    && c.opts.parent_opts is Some && (forall|j: int|
                    0 <= j < i ==> (#[trigger] self.all@[j]).opts.parent_opts is None),
    {
        let mut i: usize = 0;
        while i < self.all.len()
            invariant
                i <= self.all.len(),
                forall|j: int|
                    0 <= j < i ==> (#[trigger] self.all@[j]).opts.parent_opts is None,
            decreases self.all.len() - i,
        {
            let c = &self.all[i];
            if c.opts.parent_opts.is_some() {
                assert(*c == self.all@[i as int]);
                return Some(c);
            }
            i = i + 1;
        }
        None
    }

    /// Whether any column is written when an entity is updated.
    pub fn updates_needed(&self) -> (res: bool)
        ensures
            res == self.any_updated(),
    {
        let mut i: usize = 0;
        while i < self.all.len()
            invariant
                i <= self.all.len(),
                forall|j: int| 0 <= j < i ==> !(#[trigger] self.all@[j]).opts.updated(),
            decreases self.all.len() - i,
        {
            if self.all[i].opts.persist_on_update() {
                assert(self.all@[i as int].opts.updated());
                return true;
            }
            i = i + 1;
        }
        false
    }

    /// The bindings of what an update writes.
    pub fn variable_assignments_for_update(&self, ident: &str) -> (res: String)
        ensures
            res@ == joined(
                self.emitted(Pick::UpdateArgs, Piece::UpdateBinding, ident@),
                "\n"@,
            ),
    {
        self.render_block(Pick::UpdateArgs, Piece::UpdateBinding, ident)
    }

    /// The bindings of what the insert of a new entity writes.
    pub fn variable_assignments_for_create(&self, ident: &str) -> (res: String)
        ensures
            res@ == joined(self.emitted(Pick::Create, Piece::CreateBinding, ident@), "\n"@),
    {
        self.render_block(Pick::Create, Piece::CreateBinding, ident)
    }

    /// The bindings of what the insert of several new entities writes.
    pub fn variable_assignments_for_create_all(&self, ident: &str) -> (res: String)
        ensures
            res@ == joined(self.emitted(Pick::Create, Piece::CreateAllBinding, ident@), "\n"@),
    {
        self.render_block(Pick::Create, Piece::CreateAllBinding, ident)
    }

    /// The statements that encode what the insert of a new entity writes. They
    /// run before the new entity is consumed into its events.
    pub fn create_query_arg_adds(&self) -> (res: Vec<String>)
        ensures
            res.deep_view() == self.emitted(Pick::Create, Piece::ArgAdd, ""@),
    {
        self.render_picked(Pick::Create, Piece::ArgAdd, "")
    }

    /// The statements that collect the columns of several new entities, and
    /// those that encode the collections.
    pub fn create_all_arg_collection(&self, ident: &str) -> (res: (String, Vec<String>))
        ensures
            res.0@ == joined(self.emitted(Pick::Create, Piece::NewCollection, ident@), "\n"@)
                + "\nfor "@ + ident@ + " in new_entities.iter() {\n"@ + joined(
                self.emitted(Pick::Create, Piece::CreateAllBinding, ident@),
                "\n"@,
            ) + "\n"@ + joined(
                self.emitted(Pick::Create, Piece::PushToCollection, ident@),
                "\n"@,
            ) + "\n}"@,
            res.1.deep_view() == self.emitted(Pick::Create, Piece::AddCollection, ident@),
    {
        let assignments = self.variable_assignments_for_create_all(ident);
        let vecs = self.render_block(Pick::Create, Piece::NewCollection, ident);
        let pushes = self.render_block(Pick::Create, Piece::PushToCollection, ident);
        let bindings = self.render_picked(Pick::Create, Piece::AddCollection, ident);
        let collection = vecs.concat("\nfor ").concat(ident).concat(
            " in new_entities.iter() {\n",
        ).concat(assignments.as_str()).concat("\n").concat(pushes.as_str()).concat("\n}");
        (collection, bindings)
    }

    /// The names of the columns that the insert of a new entity writes.
    pub fn insert_column_names(&self) -> (res: Vec<String>)
        ensures
            res.deep_view() == self.names(Pick::Create),
    {
        self.render_picked(Pick::Create, Piece::Name, "")
    }

    /// One parameter for each column that the insert of a new entity writes,
    /// from the one behind `$offset` on.
    pub fn insert_placeholders(&self, offset: usize) -> (res: String)
        requires
            offset + self.picks(Pick::Create).len() < usize::MAX,
        ensures
            res@ == joined(params_from((offset + 1) as nat, self.picks(Pick::Create).len()), ", "@),
    {
        let cols = self.select(Pick::Create);
        let count: usize = cols.len();
        assert(columns_of(cols@).len() == count);
        let mut parts: Vec<String> = Vec::new();
        let mut i: usize = 0;
        while i < count
            invariant
                i <= count,
                offset + count < usize::MAX,
                parts.len() == i,
                forall|j: int|
                    0 <= j < i ==> (#[trigger] parts@[j])@ == param((offset + 1 + j) as nat),
            decreases count - i,
        {
            parts.push(param_text(offset + 1 + i));
            i = i + 1;
        }
        assert(parts.deep_view() =~= params_from((offset + 1) as nat, count as nat));
        join(&parts, ", ")
    }

    /// The `SET` list of an update. The parameter `$1` is the id.
    pub fn sql_updates(&self) -> (res: String)
        requires
            self.all.len() < usize::MAX,
        ensures
            self.all.len() > 0 ==> res@ == joined(set_parts(self.set_columns()), ", "@),
            self.all.len() == 0 ==> res@ == Seq::<char>::empty(),
    {
        let cols = self.select_behind(1, Pick::Update);
        proof {
            if self.all.len() > 0 {
                picked_len(self.all@.skip(1), Pick::Update);
            }
        }
        let ghost picks = columns_of(cols@);
        assert(picks.len() == cols.len());
        let mut parts: Vec<String> = Vec::new();
        let mut i: usize = 0;
        while i < cols.len()
            invariant
                i <= cols.len(),
                cols.len() + 2 <= usize::MAX,
                picks == columns_of(cols@),
                parts.len() == i,
                forall|j: int|
                    0 <= j < i ==> (#[trigger] parts@[j])@ == picks[j].name@ + " = "@ + param(
                        (j + 2) as nat,
                    ),
            decreases cols.len() - i,
        {
            let c = cols[i];
            parts.push(c.name.clone().concat(" = ").concat(param_text(i + 2).as_str()));
            i = i + 1;
        }
        assert(parts.deep_view() =~= set_parts(picks));
        join(&parts, ", ")
    }

    /// The arguments of an update.
    pub fn update_query_args(&self) -> (res: Vec<String>)
        ensures
            res.deep_view() == self.emitted(Pick::UpdateArgs, Piece::Arg, ""@),
    {
        self.render_picked(Pick::UpdateArgs, Piece::Arg, "")
    }

    /// The names of the forgettable columns.
    pub fn forgettable_column_names(&self) -> (res: Vec<String>)
        ensures
            res.deep_view() == self.names(Pick::Forgettable),
    {
        self.render_picked(Pick::Forgettable, Piece::Name, "")
    }

    /// The `SET` list of a soft delete: as that of an update, but a forgettable
    /// column is set to NULL and takes no parameter.
    pub fn sql_updates_for_delete(&self) -> (res: String)
        requires
            self.all.len() < usize::MAX,
        ensures
            self.all.len() > 0 ==> res@ == joined(delete_set_parts(self.set_columns()), ", "@),
            self.all.len() == 0 ==> res@ == Seq::<char>::empty(),
    {
        let cols = self.select_behind(1, Pick::Update);
        proof {
            if self.all.len() > 0 {
                picked_len(self.all@.skip(1), Pick::Update);
            }
        }
        let ghost picks = columns_of(cols@);
        assert(picks.len() == cols.len());
        let mut placeholder: usize = 2;
        let mut parts: Vec<String> = Vec::new();
        let mut i: usize = 0;
        assert(picks.take(0) =~= Seq::<Column>::empty());
        while i < cols.len()
            invariant
                i <= cols.len(),
                cols.len() + 2 <= usize::MAX,
                picks == columns_of(cols@),
                picks.len() == cols.len(),
                parts.len() == i,
                placeholder == bound(picks.take(i as int)) + 2,
                placeholder <= i + 2,
                forall|j: int|
                    0 <= j < i ==> (#[trigger] parts@[j])@ == delete_set_parts(picks)[j],
            decreases cols.len() - i,
        {
            let c = cols[i];
            proof {
                let next = picks.take(i + 1);
                assert(next.drop_last() =~= picks.take(i as int));
                assert(next.last() == *c);
            }
            if c.opts.forgettable {
                parts.push(c.name.clone().concat(" = NULL"));
            } else {
                parts.push(c.name.clone().concat(" = ").concat(param_text(placeholder).as_str()));
                placeholder = placeholder + 1;
            }
            i = i + 1;
        }
        assert(parts.deep_view() =~= delete_set_parts(picks));
        join(&parts, ", ")
    }

    /// The arguments of a soft delete: those of an update without the
    /// forgettable columns.
    pub fn update_query_args_for_delete(&self) -> (res: Vec<String>)
        ensures
            res.deep_view() == self.emitted(Pick::DeleteArgs, Piece::Arg, ""@),
    {
        self.render_picked(Pick::DeleteArgs, Piece::Arg, "")
    }

    /// The bindings of what a soft delete writes.
    pub fn variable_assignments_for_delete(&self, ident: &str) -> (res: String)
        ensures
            res@ == joined(
                self.emitted(Pick::DeleteArgs, Piece::UpdateBinding, ident@),
                "\n"@,
            ),
    {
        self.render_block(Pick::DeleteArgs, Piece::UpdateBinding, ident)
    }

    /// For a bulk update the declarations of the collections, the statements
    /// that fill them for one entity, and their bindings to the query.
    pub fn update_all_arg_parts(&self, ident: &str) -> (res: (String, String, Vec<String>))
        ensures
            res.0@ == joined(
                self.emitted(Pick::UpdateArgs, Piece::NewCollection, ident@),
                "\n"@,
            ),
            res.1@ == joined(
                self.emitted(Pick::UpdateArgs, Piece::UpdateAllBinding, ident@),
                "\n"@,
            ) + "\n"@ + joined(
                self.emitted(Pick::UpdateArgs, Piece::PushToCollection, ident@),
                "\n"@,
            ),
            res.2.deep_view() == self.emitted(Pick::UpdateArgs, Piece::BindCollection, ident@),
    {
        let assignments = self.render_block(Pick::UpdateArgs, Piece::UpdateAllBinding, ident);
        let vecs = self.render_block(Pick::UpdateArgs, Piece::NewCollection, ident);
        let pushes = self.render_block(Pick::UpdateArgs, Piece::PushToCollection, ident);
        let bindings = self.render_picked(Pick::UpdateArgs, Piece::BindCollection, ident);
        (vecs, assignments.concat("\n").concat(pushes.as_str()), bindings)
    }

    /// The `SET` list of a bulk update.
    pub fn sql_bulk_update_set(&self) -> (res: String)
        ensures
            res@ == joined(self.emitted(Pick::BulkUpdate, Piece::SetFromUnnested, ""@), ", "@),
    {
        join(&self.render_picked(Pick::BulkUpdate, Piece::SetFromUnnested, ""), ", ")
    }

    /// The names of the columns that a bulk update takes.
    pub fn update_all_column_names(&self) -> (res: Vec<String>)
        ensures
            res.deep_view() == self.names(Pick::UpdateArgs),
    {
        self.render_picked(Pick::UpdateArgs, Piece::Name, "")
    }
}

/// No more columns are picked than there are.
pub proof fn picked_len(all: Seq<Column>, pick: Pick)
    ensures
        picked(all, pick).len() <= all.len(),
    decreases all.len(),
{
    if all.len() > 0 {
        picked_len(all.drop_last(), pick);
    }
}

/// Picking from two lists in a row is picking from each.
pub proof fn picked_add(a: Seq<Column>, b: Seq<Column>, pick: Pick)
    ensures
        picked(a + b, pick) == picked(a, pick) + picked(b, pick),
    decreases b.len(),
{
    if b.len() == 0 {
        assert(a + b =~= a);
        assert(picked(a, pick) + picked(b, pick) =~= picked(a, pick));
    } else {
        picked_add(a, b.drop_last(), pick);
        assert((a + b).drop_last() =~= a + b.drop_last());
        assert(picked(a + b, pick) =~= picked(a, pick) + picked(b, pick));
    }
}

/// Two picks that agree on every column of a list pick the same.
pub proof fn picked_same(all: Seq<Column>, p: Pick, q: Pick)
    requires
        forall|i: int|
            0 <= i < all.len() ==> p.admits(#[trigger] all[i]) == q.admits(all[i]),
    ensures
        picked(all, p) == picked(all, q),
    decreases all.len(),
{
    if all.len() > 0 {
        let front = all.drop_last();
        assert forall|i: int| 0 <= i < front.len() implies p.admits(#[trigger] front[i])
            == q.admits(front[i]) by {
            assert(front[i] == all[i]);
        }
        picked_same(front, p, q);
        assert(all.last() == all[all.len() - 1]);
    }
}

proof fn picked_two(a: Column, b: Column, rest: Seq<Column>, pick: Pick)
    ensures
        picked(seq![a, b] + rest, pick) == picked(seq![a], pick) + picked(seq![b], pick) + picked(
            rest,
            pick,
        ),
{
    picked_add(seq![a, b], rest, pick);
    assert(seq![a, b] =~= seq![a] + seq![b]);
    picked_add(seq![a], seq![b], pick);
}

proof fn picked_one(a: Column, pick: Pick)
    ensures
        picked(seq![a], pick) == (if pick.admits(a) {
            seq![a]
        } else {
            Seq::empty()
        }),
{
    assert(seq![a].drop_last() =~= Seq::<Column>::empty());
    assert(picked(seq![a].drop_last(), pick) =~= Seq::<Column>::empty());
    assert(picked(seq![a], pick) =~= (if pick.admits(a) {
        seq![a]
    } else {
        Seq::empty()
    }));
}

proof fn parts_of_complete(columns: &Columns, id: Seq<char>, pick: Pick)
    requires
        columns.complete(id),
    ensures
        columns.all@ == seq![columns.all@[0], columns.all@[1]] + columns.all@.skip(2),
        columns.all@.skip(1) == seq![columns.all@[1]] + columns.all@.skip(2),
        columns.picks(pick) == picked(seq![columns.all@[0]], pick) + picked(
            seq![columns.all@[1]],
            pick,
        ) + picked(columns.all@.skip(2), pick),
{
    let all = columns.all@;
    assert(all =~= seq![all[0], all[1]] + all.skip(2));
    assert(all.skip(1) =~= seq![all[1]] + all.skip(2));
    picked_two(all[0], all[1], all.skip(2), pick);
}

/// The parameters of an insert are in step with its columns: the parameter
/// that stands at the place of a column's name is the one that the statement
/// at the same place fills with that column's value.
pub proof fn insert_in_step(columns: &Columns, offset: nat, i: int)
    requires
        0 <= i < columns.picks(Pick::Create).len(),
    ensures
        columns.names(Pick::Create)[i] == columns.picks(Pick::Create)[i].name@,
        params_from(offset + 1, columns.picks(Pick::Create).len())[i] == param(
            (offset + 1 + i) as nat,
        ),
        columns.emitted(Pick::Create, Piece::ArgAdd, ""@)[i] == columns.picks(
            Pick::Create,
        )[i].arg_add(),
        columns.names(Pick::Create).len() == columns.picks(Pick::Create).len(),
        columns.emitted(Pick::Create, Piece::ArgAdd, ""@).len() == columns.picks(
            Pick::Create,
        ).len(),
{
}

/// The parameters of an update are in step with its arguments: `$1` is the id,
/// and the parameter that a column is set to is the argument that holds that
/// column's value.
pub proof fn update_in_step(columns: &Columns, id: Seq<char>)
    requires
        columns.complete(id),
    ensures
        columns.picks(Pick::UpdateArgs) == seq![columns.all@[1]] + columns.set_columns(),
        columns.emitted(Pick::UpdateArgs, Piece::Arg, ""@)[0] == columns.all@[1].arg(),
        forall|i: int|
            0 <= i < columns.set_columns().len() ==> {
                &&& #[trigger] set_parts(columns.set_columns())[i]
                    == columns.set_columns()[i].name@ + " = "@ + param((i + 2) as nat)
                &&& columns.emitted(Pick::UpdateArgs, Piece::Arg, ""@)[(i + 2) - 1]
                    == columns.set_columns()[i].arg()
            },
        columns.emitted(Pick::UpdateArgs, Piece::Arg, ""@).len() == columns.set_columns().len()
            + 1,
{
    let all = columns.all@;
    let rest = all.skip(2);
    parts_of_complete(columns, id, Pick::UpdateArgs);
    picked_one(all[0], Pick::UpdateArgs);
    picked_one(all[1], Pick::UpdateArgs);
    picked_one(all[1], Pick::Update);
    picked_add(seq![all[1]], rest, Pick::Update);
    assert forall|i: int| 0 <= i < rest.len() implies Pick::UpdateArgs.admits(#[trigger] rest[i])
        == Pick::Update.admits(rest[i]) by {
        assert(rest[i] == all[i + 2]);
    }
    picked_same(rest, Pick::UpdateArgs, Pick::Update);
    assert(columns.set_columns() =~= picked(rest, Pick::Update));
    assert(columns.picks(Pick::UpdateArgs) =~= seq![all[1]] + columns.set_columns());
}

/// Among columns that are written on an update, those that are bound on a
/// delete stand in order, each behind as many as are bound before it.
proof fn bound_columns(cols: Seq<Column>)
    requires
        forall|i: int|
            0 <= i < cols.len() ==> (#[trigger] cols[i]).opts.updated() && !cols[i].opts.is_id,
    ensures
        picked(cols, Pick::DeleteArgs).len() == bound(cols),
        forall|i: int|
            0 <= i < cols.len() && !(#[trigger] cols[i]).opts.forgettable ==> bound(cols.take(i))
                < bound(cols) && picked(cols, Pick::DeleteArgs)[bound(cols.take(i)) as int]
                == cols[i],
    decreases cols.len(),
{
    if cols.len() > 0 {
        let front = cols.drop_last();
        assert forall|i: int| 0 <= i < front.len() implies (#[trigger] front[i]).opts.updated()
            && !front[i].opts.is_id by {
            assert(front[i] == cols[i]);
        }
        bound_columns(front);
        assert(cols.last() == cols[cols.len() - 1]);
        assert forall|i: int|
            0 <= i < cols.len() && !(#[trigger] cols[i]).opts.forgettable implies bound(
            cols.take(i),
        ) < bound(cols) && picked(cols, Pick::DeleteArgs)[bound(cols.take(i)) as int]
            == cols[i] by {
            if i < front.len() {
                assert(front[i] == cols[i]);
                assert(front.take(i) =~= cols.take(i));
            } else {
                assert(cols.take(i) =~= front);
            }
        }
    }
}

/// Picking for a delete from the columns that are written on an update is
/// picking for a delete.
proof fn delete_args_of_updates(all: Seq<Column>)
    requires
        forall|i: int| 0 <= i < all.len() ==> !(#[trigger] all[i]).opts.is_id,
    ensures
        picked(all, Pick::DeleteArgs) == picked(picked(all, Pick::Update), Pick::DeleteArgs),
        forall|i: int|
            0 <= i < picked(all, Pick::Update).len() ==> (#[trigger] picked(
                all,
                Pick::Update,
            )[i]).opts.updated() && !picked(all, Pick::Update)[i].opts.is_id,
    decreases all.len(),
{
    if all.len() > 0 {
        let front = all.drop_last();
        assert forall|i: int| 0 <= i < front.len() implies !(#[trigger] front[i]).opts.is_id by {
            assert(front[i] == all[i]);
        }
        delete_args_of_updates(front);
        assert(all.last() == all[all.len() - 1]);
        let ups = picked(front, Pick::Update);
        assert(ups.push(all.last()).drop_last() =~= ups);
    }
}

/// The parameters of a soft delete are in step with its arguments: `$1` is the
/// id, a forgettable column takes none, and the parameter that another column
/// is set to is the argument that holds that column's value. No argument is
/// left over.
pub proof fn delete_in_step(columns: &Columns, id: Seq<char>)
    requires
        columns.complete(id),
    ensures
        columns.emitted(Pick::DeleteArgs, Piece::Arg, ""@).len() == bound(columns.set_columns())
            + 1,
        columns.emitted(Pick::DeleteArgs, Piece::Arg, ""@)[0] == columns.all@[1].arg(),
        forall|i: int|
            0 <= i < columns.set_columns().len() ==> #[trigger] delete_set_parts(
                columns.set_columns(),
            )[i] == (if columns.set_columns()[i].opts.forgettable {
                columns.set_columns()[i].name@ + " = NULL"@
            } else {
                columns.set_columns()[i].name@ + " = "@ + param(
                    bound(columns.set_columns().take(i)) + 2,
                )
            }),
        forall|i: int|
            0 <= i < columns.set_columns().len() && !(
            #[trigger] columns.set_columns()[i]).opts.forgettable ==> columns.emitted(
                Pick::DeleteArgs,
                Piece::Arg,
                ""@,
            )[(bound(columns.set_columns().take(i)) + 2) - 1] == columns.set_columns()[i].arg(),
{
    let all = columns.all@;
    let rest = all.skip(2);
    parts_of_complete(columns, id, Pick::DeleteArgs);
    picked_one(all[0], Pick::DeleteArgs);
    picked_one(all[1], Pick::DeleteArgs);
    picked_one(all[1], Pick::Update);
    picked_add(seq![all[1]], rest, Pick::Update);
    let ups = picked(rest, Pick::Update);
    assert(columns.set_columns() =~= ups);
    assert forall|i: int| 0 <= i < rest.len() implies !(#[trigger] rest[i]).opts.is_id by {
        assert(rest[i] == all[i + 2]);
    }
    delete_args_of_updates(rest);
    bound_columns(ups);
    assert(columns.picks(Pick::DeleteArgs) =~= seq![all[1]] + picked(ups, Pick::DeleteArgs));
}

} // verus!
