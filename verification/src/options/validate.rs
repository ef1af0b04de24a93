//! Rejecting columns that do not go together.

use vstd::prelude::*;
use vstd::string::*;

use crate::filters_struct::{placeholder_at, substitute_value_placeholder};
use crate::options::column::Column;
use crate::options::columns::{columns_of, Columns, Pick, Piece};
use crate::options::error::OptionsError;
use crate::text::same;

verus! {

/// The names that are not among those that lists are sorted by.
pub open spec fn unlisted(columns: Columns, names: Seq<Seq<char>>) -> Seq<Seq<char>>
    decreases names.len(),
{
    if names.len() == 0 {
        Seq::empty()
    } else {
        let front = unlisted(columns, names.drop_last());
        if columns.has_list_by(names.last()) {
            front
        } else {
            front.push(names.last())
        }
    }
}

/// The names, each with the column that gives it.
pub open spec fn with_column(names: Seq<Seq<char>>, column: Seq<char>) -> Seq<
    (Seq<char>, Seq<char>),
> {
    Seq::new(names.len(), |i: int| (names[i], column))
}

/// The names in `list_for(by(..))` that are no `list_by` columns, each with the
/// column that gives it.
pub open spec fn bad_sorts(columns: Columns, all: Seq<Column>) -> Seq<(Seq<char>, Seq<char>)>
    decreases all.len(),
{
    if all.len() == 0 {
        Seq::empty()
    } else {
        let front = bad_sorts(columns, all.drop_last());
        if all.last().opts.filters() {
            front + with_column(
                unlisted(columns, all.last().opts.sort_columns()),
                all.last().name@,
            )
        } else {
            front
        }
    }
}

/// What is wrong with the scope columns.
pub enum ScopeProblem {
    OnlyOne,
    Nullable(Seq<char>),
    Forgettable(Seq<char>),
    Parent(Seq<char>),
    Nested,
    SameType(Seq<char>, Seq<char>),
}

/// What is wrong with a scope column: it is marked nullable without being an
/// `Option`, it is forgettable, or it is the parent column.
pub open spec fn column_problem(c: Column) -> Option<ScopeProblem> {
    if c.null_allowed() && !c.optional() {
        Some(ScopeProblem::Nullable(c.name@))
    } else if c.opts.forgettable {
        Some(ScopeProblem::Forgettable(c.name@))
    } else if c.opts.parent_opts is Some {
        Some(ScopeProblem::Parent(c.name@))
    } else {
        None
    }
}

/// What is wrong with the first scope column with which something is.
pub open spec fn first_problem(cols: Seq<Column>) -> Option<ScopeProblem>
    decreases cols.len(),
{
    if cols.len() == 0 {
        None
    } else {
        match first_problem(cols.drop_last()) {
            Some(p) => Some(p),
            None => column_problem(cols.last()),
        }
    }
}

/// The first of the columns whose scope values have that type.
pub open spec fn first_of_type(cols: Seq<Column>, ty: Seq<char>) -> Option<Seq<char>>
    decreases cols.len(),
{
    if cols.len() == 0 {
        None
    } else {
        match first_of_type(cols.drop_last(), ty) {
            Some(name) => Some(name),
            None => if cols.last().scope_type() == ty {
                Some(cols.last().name@)
            } else {
                None
            },
        }
    }
}

/// The first scope column whose values have the type of an earlier one's.
pub open spec fn same_type(cols: Seq<Column>) -> Option<ScopeProblem>
    decreases cols.len(),
{
    if cols.len() == 0 {
        None
    } else {
        match same_type(cols.drop_last()) {
            Some(p) => Some(p),
            None => match first_of_type(cols.drop_last(), cols.last().scope_type()) {
                Some(first) => Some(ScopeProblem::SameType(first, cols.last().name@)),
                None => None,
            },
        }
    }
}

/// What is wrong with the scope columns of a repository, whose columns have a
/// parent column or not.
pub open spec fn scope_problem(cols: Seq<Column>, has_parent: bool) -> Option<ScopeProblem> {
    if cols.len() == 0 {
        None
    } else if cols.len() > 1 && (exists|i: int|
        0 <= i < cols.len() && (#[trigger] cols[i]).opts.is_id) {
        Some(ScopeProblem::OnlyOne)
    } else {
        match first_problem(cols) {
            Some(p) => Some(p),
            None => if has_parent {
                Some(ScopeProblem::Nested)
            } else {
                same_type(cols)
            },
        }
    }
}

impl OptionsError {
    /// What the error says is wrong with the scope columns.
    pub open spec fn scope_problem(&self) -> Option<ScopeProblem> {
        match self {
            OptionsError::OnlyOneScopeColumn => Some(ScopeProblem::OnlyOne),
            OptionsError::NullableScopeColumn { column } => Some(ScopeProblem::Nullable(column@)),
            OptionsError::ForgettableScopeColumn { column } => Some(
                ScopeProblem::Forgettable(column@),
            ),
            OptionsError::ParentScopeColumn { column } => Some(ScopeProblem::Parent(column@)),
            OptionsError::NestedScope => Some(ScopeProblem::Nested),
            OptionsError::SameScopeType { first, second } => Some(
                ScopeProblem::SameType(first@, second@),
            ),
            _ => None,
        }
    }
}

fn column_error(c: &Column) -> (res: Option<OptionsError>)
    ensures
        res is Some <==> column_problem(*c) is Some,
        res matches Some(e) ==> e.scope_problem() == column_problem(*c),
{
    let column = c.name().to_string();
    if c.is_nullable_column() && !c.is_optional() {
        Some(OptionsError::NullableScopeColumn { column })
    } else if c.opts.forgettable {
        Some(OptionsError::ForgettableScopeColumn { column })
    } else if c.opts.parent_opts.is_some() {
        Some(OptionsError::ParentScopeColumn { column })
    } else {
        None
    }
}

/// A problem of the first columns stays the first problem.
proof fn first_problem_stays(cols: Seq<Column>, n: int)
    requires
        0 <= n <= cols.len(),
        first_problem(cols.take(n)) is Some,
    ensures
        first_problem(cols) == first_problem(cols.take(n)),
    decreases cols.len() - n,
{
    if n < cols.len() {
        assert(cols.take(n + 1).drop_last() =~= cols.take(n));
        first_problem_stays(cols, n + 1);
    } else {
        assert(cols.take(n) =~= cols);
    }
}

/// A repetition among the first columns stays the first repetition.
proof fn same_type_stays(cols: Seq<Column>, n: int)
    requires
        0 <= n <= cols.len(),
        same_type(cols.take(n)) is Some,
    ensures
        same_type(cols) == same_type(cols.take(n)),
    decreases cols.len() - n,
{
    if n < cols.len() {
        assert(cols.take(n + 1).drop_last() =~= cols.take(n));
        same_type_stays(cols, n + 1);
    } else {
        assert(cols.take(n) =~= cols);
    }
}

fn earlier_of_type<'a>(cols: &Vec<&'a Column>, end: usize, ty: &str) -> (res: Option<&'a Column>)
    requires
        end <= cols.len(),
    ensures
        res is Some <==> first_of_type(columns_of(cols@).take(end as int), ty@) is Some,
        res matches Some(c) ==> first_of_type(columns_of(cols@).take(end as int), ty@) == Some(
            c.name@,
        ),
{
    let ghost all = columns_of(cols@);
    let mut found: Option<&'a Column> = None;
    let mut i: usize = 0;
    while i < end
        invariant
            i <= end,
            end <= cols.len(),
            all == columns_of(cols@),
            found is Some <==> first_of_type(all.take(i as int), ty@) is Some,
            found matches Some(c) ==> first_of_type(all.take(i as int), ty@) == Some(c.name@),
        decreases end - i,
    {
        let c = cols[i];
        proof {
            assert(all.take(i + 1).drop_last() =~= all.take(i as int));
            assert(all.take(i + 1).last() == *c);
        }
        if found.is_none() && same(c.scope_ty().as_str(), ty) {
            found = Some(c);
        }
        i = i + 1;
    }
    found
}

impl Columns {
    /// The columns that are sorted by in `list_for(by(..))` must be `list_by`
    /// columns. There is an error for each that is not, in order.
    pub fn validate_list_for_by_columns(&self) -> (res: Result<(), Vec<OptionsError>>)
        ensures
            res is Ok <==> bad_sorts(*self, self.all@).len() == 0,
            res matches Err(errors) ==> {
                let bad = bad_sorts(*self, self.all@);
                &&& errors.len() == bad.len()
                &&& forall|i: int|
                    0 <= i < bad.len() ==> ((#[trigger] errors@[i]) matches
                        OptionsError::NotListBy { by, column, available } && by@ == bad[i].0
                        && column@ == bad[i].1 && available.deep_view() == self.names(
                        Pick::ListBy,
                    ))
            },
    {
        let mut errors: Vec<OptionsError> = Vec::new();
        let mut i: usize = 0;
        while i < self.all.len()
            invariant
                i <= self.all.len(),
                errors.len() == bad_sorts(*self, self.all@.take(i as int)).len(),
                forall|k: int|
                    0 <= k < errors.len() ==> ((#[trigger] errors@[k]) matches
                        OptionsError::NotListBy { by, column, available } && by@ == bad_sorts(
                        *self,
                        self.all@.take(i as int),
                    )[k].0 && column@ == bad_sorts(*self, self.all@.take(i as int))[k].1
                        && available.deep_view() == self.names(Pick::ListBy)),
            decreases self.all.len() - i,
        {
            let col = &self.all[i];
            let ghost before = bad_sorts(*self, self.all@.take(i as int));
            let ghost names = col.opts.sort_columns();
            proof {
                assert(self.all@.take(i + 1).drop_last() =~= self.all@.take(i as int));
                assert(self.all@.take(i + 1).last() == *col);
            }
            match &col.opts.list_for_opts {
                Some(list_for) => {
                    let mut j: usize = 0;
                    assert(before + with_column(unlisted(*self, names.take(0)), col.name@)
                        =~= before);
                    while j < list_for.by_columns.len()
                        invariant
                            j <= list_for.by_columns.len(),
                            names == list_for.by_columns.deep_view(),
                            errors.len() == before.len() + unlisted(
                                *self,
                                names.take(j as int),
                            ).len(),
                            forall|k: int|
                                0 <= k < errors.len() ==> ((#[trigger] errors@[k]) matches
                                    OptionsError::NotListBy { by, column, available } && by@ == (
                                before + with_column(
                                    unlisted(*self, names.take(j as int)),
                                    col.name@,
                                ))[k].0 && column@ == (before + with_column(
                                    unlisted(*self, names.take(j as int)),
                                    col.name@,
                                ))[k].1 && available.deep_view() == self.names(Pick::ListBy)),
                        decreases list_for.by_columns.len() - j,
                    {
                        let by = list_for.by_columns[j].as_str();
                        proof {
                            assert(names.take(j + 1).drop_last() =~= names.take(j as int));
                            assert(names.take(j + 1).last() == by@);
                        }
                        if self.find_list_by(by).is_none() {
                            errors.push(
                                OptionsError::NotListBy {
                                    by: by.to_string(),
                                    column: col.name().to_string(),
                                    available: self.render_picked(
                                        Pick::ListBy,
                                        Piece::Name,
                                        "",
                                    ),
                                },
                            );
                        }
                        j = j + 1;
                    }
                    assert(names.take(names.len() as int) =~= names);
                },
                None => {},
            }
            i = i + 1;
        }
        assert(self.all@.take(self.all.len() as int) =~= self.all@);
        if errors.len() == 0 {
            Ok(())
        } else {
            Err(errors)
        }
    }

    /// Rejects scope columns that nothing can be restricted by: the `id` column
    /// beside another one, a column that is marked nullable without being an
    /// `Option`, a forgettable column, the parent column, any in a repository
    /// of nested entities, and two whose values have one type.
    pub fn validate_scope(&self) -> (res: Result<(), OptionsError>)
        ensures
            res is Ok <==> scope_problem(self.picks(Pick::Scope), self.has_parent()) is None,
            res matches Err(e) ==> e.scope_problem() == scope_problem(
                self.picks(Pick::Scope),
                self.has_parent(),
            ),
    {
        let cols = self.scope_columns();
        let ghost all = self.picks(Pick::Scope);
        assert(columns_of(cols@).len() == cols.len());
        if cols.len() == 0 {
            return Ok(());
        }
        if cols.len() > 1 {
            let mut i: usize = 0;
            while i < cols.len()
                invariant
                    i <= cols.len(),
                    1 < cols.len(),
                    all == columns_of(cols@),
                    all == self.picks(Pick::Scope),
                    forall|j: int| 0 <= j < i ==> !(#[trigger] all[j]).opts.is_id,
                decreases cols.len() - i,
            {
                if cols[i].opts.is_id {
                    assert(all[i as int].opts.is_id);
                    return Err(OptionsError::OnlyOneScopeColumn);
                }
                i = i + 1;
            }
        }
        let mut k: usize = 0;
        assert(all.take(0) =~= Seq::<Column>::empty());
        while k < cols.len()
            invariant
                k <= cols.len(),
                0 < cols.len(),
                all == columns_of(cols@),
                all == self.picks(Pick::Scope),
                !(cols.len() > 1 && (exists|i: int|
                    0 <= i < all.len() && (#[trigger] all[i]).opts.is_id)),
                first_problem(all.take(k as int)) is None,
            decreases cols.len() - k,
        {
            proof {
                assert(all.take(k + 1).drop_last() =~= all.take(k as int));
                assert(all.take(k + 1).last() == *cols@[k as int]);
            }
            match column_error(cols[k]) {
                Some(e) => {
                    proof {
                        first_problem_stays(all, k + 1);
                    }
                    return Err(e);
                },
                None => {},
            }
            k = k + 1;
        }
        assert(all.take(all.len() as int) =~= all);
        if self.parent().is_some() {
            return Err(OptionsError::NestedScope);
        }
        let mut m: usize = 0;
        while m < cols.len()
            invariant
                m <= cols.len(),
                0 < cols.len(),
                all == columns_of(cols@),
                all == self.picks(Pick::Scope),
                !(cols.len() > 1 && (exists|i: int|
                    0 <= i < all.len() && (#[trigger] all[i]).opts.is_id)),
                first_problem(all) is None,
                !self.has_parent(),
                same_type(all.take(m as int)) is None,
            decreases cols.len() - m,
        {
            proof {
                assert(all.take(m + 1).drop_last() =~= all.take(m as int));
                assert(all.take(m + 1).last() == *cols@[m as int]);
            }
            let ty = cols[m].scope_ty();
            match earlier_of_type(&cols, m, ty.as_str()) {
                Some(first) => {
                    proof {
                        same_type_stays(all, m + 1);
                    }
                    return Err(
                        OptionsError::SameScopeType {
                            first: first.name().to_string(),
                            second: cols[m].name().to_string(),
                        },
                    );
                },
                None => {},
            }
            m = m + 1;
        }
        assert(all.take(all.len() as int) =~= all);
        Ok(())
    }

    /// Rejects columns that exist in filters alone and are not filtered by.
    pub fn validate_virtual(&self) -> (res: Result<(), OptionsError>)
        ensures
            match first_unfiltered(self.all@) {
                None => res is Ok,
                Some(name) => res matches Err(OptionsError::VirtualNotListFor { column })
                    && column@ == name,
            },
    {
        let ghost all = self.all@;
        let mut i: usize = 0;
        while i < self.all.len()
            invariant
                i <= self.all.len(),
                all == self.all@,
                first_unfiltered(all.take(i as int)) is None,
            decreases self.all.len() - i,
        {
            let c = &self.all[i];
            proof {
                assert(all.take(i + 1).drop_last() =~= all.take(i as int));
                assert(all.take(i + 1).last() == *c);
            }
            if c.opts.virtual_sql.is_some() && !c.opts.list_for() {
                proof {
                    first_unfiltered_stays(all, i + 1);
                }
                return Err(OptionsError::VirtualNotListFor { column: c.name().to_string() });
            }
            i = i + 1;
        }
        assert(all.take(all.len() as int) =~= all);
        Ok(())
    }
}

impl Columns {
    /// Rejects conditions that take a value and have no place for it.
    pub fn validate_virtual_values(&self) -> (res: Result<(), OptionsError>)
        ensures
            match first_without_value(self.all@) {
                None => res is Ok,
                Some(name) => res matches Err(OptionsError::VirtualWithoutValue { column })
                    && column@ == name,
            },
    {
        let ghost all = self.all@;
        let mut i: usize = 0;
        while i < self.all.len()
            invariant
                i <= self.all.len(),
                all == self.all@,
                first_without_value(all.take(i as int)) is None,
            decreases self.all.len() - i,
        {
            let c = &self.all[i];
            proof {
                assert(all.take(i + 1).drop_last() =~= all.take(i as int));
                assert(all.take(i + 1).last() == *c);
            }
            if c.opts.virtual_sql.is_some() && c.is_value_virtual()
                && substitute_value_placeholder(c.virtual_predicate(), 1).is_none() {
                proof {
                    first_without_value_stays(all, i + 1);
                }
                return Err(OptionsError::VirtualWithoutValue { column: c.name().to_string() });
            }
            i = i + 1;
        }
        assert(all.take(all.len() as int) =~= all);
        Ok(())
    }
}

/// Whether the condition of a column takes a value and has no place for it.
pub open spec fn lacks_value(c: Column) -> bool {
    c.opts.virtual_sql is Some && c.takes_value() && !exists|i: int|
        placeholder_at(c.virtual_text(), i)
}

/// The name of the first column whose condition takes a value and has no place
/// for it.
pub open spec fn first_without_value(all: Seq<Column>) -> Option<Seq<char>>
    decreases all.len(),
{
    if all.len() == 0 {
        None
    } else {
        match first_without_value(all.drop_last()) {
            Some(name) => Some(name),
            None => if lacks_value(all.last()) {
                Some(all.last().name@)
            } else {
                None
            },
        }
    }
}

proof fn first_without_value_stays(all: Seq<Column>, n: int)
    requires
        0 <= n <= all.len(),
        first_without_value(all.take(n)) is Some,
    ensures
        first_without_value(all) == first_without_value(all.take(n)),
    decreases all.len() - n,
{
    if n < all.len() {
        assert(all.take(n + 1).drop_last() =~= all.take(n));
        first_without_value_stays(all, n + 1);
    } else {
        assert(all.take(n) =~= all);
    }
}

/// Every condition that takes a value has a place for it, exactly where there
/// is no first one that has none.
pub proof fn values_have_a_place(all: Seq<Column>)
    ensures
        first_without_value(all) is None <==> forall|i: int|
            0 <= i < all.len() ==> !lacks_value(#[trigger] all[i]),
    decreases all.len(),
{
    if all.len() > 0 {
        let front = all.drop_last();
        values_have_a_place(front);
        if first_without_value(all) is None {
            assert forall|i: int| 0 <= i < all.len() implies !lacks_value(#[trigger] all[i]) by {
                if i < front.len() {
                    assert(!lacks_value(front[i]));
                }
            }
        } else if first_without_value(front) is Some {
            let i = choose|i: int| 0 <= i < front.len() && lacks_value(#[trigger] front[i]);
            assert(lacks_value(all[i]));
        } else {
            assert(lacks_value(all[all.len() - 1]));
        }
    }
}

/// The name of the first column that exists in filters alone and is not
/// filtered by.
pub open spec fn first_unfiltered(all: Seq<Column>) -> Option<Seq<char>>
    decreases all.len(),
{
    if all.len() == 0 {
        None
    } else {
        match first_unfiltered(all.drop_last()) {
            Some(name) => Some(name),
            None => if all.last().opts.virtual_sql is Some && !all.last().opts.filters() {
                Some(all.last().name@)
            } else {
                None
            },
        }
    }
}

proof fn first_unfiltered_stays(all: Seq<Column>, n: int)
    requires
        0 <= n <= all.len(),
        first_unfiltered(all.take(n)) is Some,
    ensures
        first_unfiltered(all) == first_unfiltered(all.take(n)),
    decreases all.len() - n,
{
    if n < all.len() {
        assert(all.take(n + 1).drop_last() =~= all.take(n));
        first_unfiltered_stays(all, n + 1);
    } else {
        assert(all.take(n) =~= all);
    }
}

/// Every column that exists in filters alone is filtered by, exactly where
/// there is no first one that is not.
pub proof fn virtuals_are_filtered(all: Seq<Column>)
    ensures
        first_unfiltered(all) is None <==> forall|i: int|
            0 <= i < all.len() && (#[trigger] all[i]).opts.virtual_sql is Some
                ==> all[i].opts.filters(),
    decreases all.len(),
{
    if all.len() > 0 {
        let front = all.drop_last();
        virtuals_are_filtered(front);
        if first_unfiltered(all) is None {
            assert forall|i: int|
                0 <= i < all.len() && (#[trigger] all[i]).opts.virtual_sql is Some implies
                all[i].opts.filters() by {
                if i < front.len() {
                    assert(front[i].opts.filters());
                }
            }
        } else if first_unfiltered(front) is Some {
            let i = choose|i: int|
                0 <= i < front.len() && (#[trigger] front[i]).opts.virtual_sql is Some
                    && !front[i].opts.filters();
            assert(all[i].opts.virtual_sql is Some);
        } else {
            assert(all[all.len() - 1].opts.virtual_sql is Some);
        }
    }
}

proof fn no_column_problem(cols: Seq<Column>)
    ensures
        first_problem(cols) is None <==> forall|i: int|
            0 <= i < cols.len() ==> column_problem(#[trigger] cols[i]) is None,
    decreases cols.len(),
{
    if cols.len() > 0 {
        let front = cols.drop_last();
        no_column_problem(front);
        if first_problem(cols) is None {
            assert forall|i: int| 0 <= i < cols.len() implies column_problem(
                #[trigger] cols[i],
            ) is None by {
                if i < front.len() {
                    assert(column_problem(front[i]) is None);
                }
            }
        } else if first_problem(front) is Some {
            let i = choose|i: int|
                0 <= i < front.len() && column_problem(#[trigger] front[i]) is Some;
            assert(column_problem(cols[i]) is Some);
        } else {
            assert(column_problem(cols[cols.len() - 1]) is Some);
        }
    }
}

proof fn no_column_of_type(cols: Seq<Column>, ty: Seq<char>)
    ensures
        first_of_type(cols, ty) is None <==> forall|i: int|
            0 <= i < cols.len() ==> (#[trigger] cols[i]).scope_type() != ty,
    decreases cols.len(),
{
    if cols.len() > 0 {
        let front = cols.drop_last();
        no_column_of_type(front, ty);
        if first_of_type(cols, ty) is None {
            assert forall|i: int| 0 <= i < cols.len() implies (#[trigger] cols[i]).scope_type()
                != ty by {
                if i < front.len() {
                    assert(front[i].scope_type() != ty);
                }
            }
        } else if first_of_type(front, ty) is Some {
            let i = choose|i: int| 0 <= i < front.len() && (#[trigger] front[i]).scope_type() == ty;
            assert(cols[i].scope_type() == ty);
        } else {
            assert(cols[cols.len() - 1].scope_type() == ty);
        }
    }
}

proof fn types_differ(cols: Seq<Column>)
    ensures
        same_type(cols) is None <==> forall|i: int, j: int|
            0 <= i < j < cols.len() ==> (#[trigger] cols[i]).scope_type() != (
            #[trigger] cols[j]).scope_type(),
    decreases cols.len(),
{
    if cols.len() > 0 {
        let front = cols.drop_last();
        let last = cols.last();
        types_differ(front);
        no_column_of_type(front, last.scope_type());
        if same_type(cols) is None {
            assert forall|i: int, j: int| 0 <= i < j < cols.len() implies (
            #[trigger] cols[i]).scope_type() != (#[trigger] cols[j]).scope_type() by {
                if j < front.len() {
                    assert(front[i].scope_type() != front[j].scope_type());
                } else {
                    assert(front[i].scope_type() != last.scope_type());
                }
            }
        } else if same_type(front) is Some {
            let (i, j) = choose|i: int, j: int|
                0 <= i < j < front.len() && (#[trigger] front[i]).scope_type() == (
                #[trigger] front[j]).scope_type();
            assert(cols[i].scope_type() == cols[j].scope_type());
        } else {
            let i = choose|i: int|
                0 <= i < front.len() && (#[trigger] front[i]).scope_type() == last.scope_type();
            assert(cols[i].scope_type() == cols[cols.len() - 1].scope_type());
        }
    }
}

/// Scope columns go together exactly where they are not the columns of a nested
/// repository; the id, where it is one, is the only one; each is an `Option`
/// where it can hold NULL, and neither forgettable nor the parent column; and
/// no two have values of the same type, so that a value tells which column it
/// restricts.
pub proof fn scopes_go_together(cols: Seq<Column>, has_parent: bool)
    requires
        cols.len() > 0,
    ensures
        scope_problem(cols, has_parent) is None <==> {
            &&& !has_parent
            &&& cols.len() > 1 ==> forall|i: int|
                0 <= i < cols.len() ==> !(#[trigger] cols[i]).opts.is_id
            &&& forall|i: int|
                0 <= i < cols.len() ==> {
                    &&& (#[trigger] cols[i]).null_allowed() ==> cols[i].optional()
                    &&& !cols[i].opts.forgettable
                    &&& cols[i].opts.parent_opts is None
                }
            &&& forall|i: int, j: int|
                0 <= i < j < cols.len() ==> (#[trigger] cols[i]).scope_type() != (
                #[trigger] cols[j]).scope_type()
        },
{
    no_column_problem(cols);
    types_differ(cols);
    assert forall|i: int| 0 <= i < cols.len() implies (column_problem(#[trigger] cols[i]) is None
        <==> {
        &&& cols[i].null_allowed() ==> cols[i].optional()
        &&& !cols[i].opts.forgettable
        &&& cols[i].opts.parent_opts is None
    }) by {}
}

/// There is no bad sort column exactly where every column that is sorted by in
/// `list_for(by(..))` is a `list_by` column.
pub proof fn sorts_are_listed(columns: Columns, all: Seq<Column>)
    ensures
        bad_sorts(columns, all).len() == 0 <==> forall|i: int, k: int|
            0 <= i < all.len() && all[i].opts.filters() && 0 <= k
                < all[i].opts.sort_columns().len() ==> columns.has_list_by(
                #[trigger] all[i].opts.sort_columns()[k],
            ),
    decreases all.len(),
{
    if all.len() > 0 {
        let front = all.drop_last();
        let last = all.last();
        sorts_are_listed(columns, front);
        unlisted_are_none(columns, last.opts.sort_columns());
        let good = |s: Seq<Column>|
            forall|i: int, k: int|
                0 <= i < s.len() && s[i].opts.filters() && 0 <= k < s[i].opts.sort_columns().len()
                    ==> columns.has_list_by(#[trigger] s[i].opts.sort_columns()[k]);
        if good(all) {
            assert forall|i: int, k: int|
                0 <= i < front.len() && front[i].opts.filters() && 0 <= k
                    < front[i].opts.sort_columns().len() implies columns.has_list_by(
                #[trigger] front[i].opts.sort_columns()[k],
            ) by {
                assert(columns.has_list_by(all[i].opts.sort_columns()[k]));
            }
            if last.opts.filters() {
                assert forall|k: int| 0 <= k < last.opts.sort_columns().len() implies
                    columns.has_list_by(#[trigger] last.opts.sort_columns()[k]) by {
                    assert(columns.has_list_by(all[all.len() - 1].opts.sort_columns()[k]));
                }
            }
        }
        if bad_sorts(columns, all).len() == 0 {
            assert forall|i: int, k: int|
                0 <= i < all.len() && all[i].opts.filters() && 0 <= k
                    < all[i].opts.sort_columns().len() implies columns.has_list_by(
                #[trigger] all[i].opts.sort_columns()[k],
            ) by {
                if i < front.len() {
                    assert(columns.has_list_by(front[i].opts.sort_columns()[k]));
                } else {
                    assert(columns.has_list_by(last.opts.sort_columns()[k]));
                }
            }
        }
    }
}

proof fn unlisted_are_none(columns: Columns, names: Seq<Seq<char>>)
    ensures
        unlisted(columns, names).len() == 0 <==> forall|k: int|
            0 <= k < names.len() ==> columns.has_list_by(#[trigger] names[k]),
    decreases names.len(),
{
    if names.len() > 0 {
        let front = names.drop_last();
        unlisted_are_none(columns, front);
        if forall|k: int| 0 <= k < names.len() ==> columns.has_list_by(#[trigger] names[k]) {
            assert forall|k: int| 0 <= k < front.len() implies columns.has_list_by(
                #[trigger] front[k],
            ) by {
                assert(columns.has_list_by(names[k]));
            }
            assert(columns.has_list_by(names[names.len() - 1]));
        }
        if unlisted(columns, names).len() == 0 {
            assert forall|k: int| 0 <= k < names.len() implies columns.has_list_by(
                #[trigger] names[k],
            ) by {
                if k < front.len() {
                    assert(columns.has_list_by(front[k]));
                }
            }
        }
    }
}

} // verus!
