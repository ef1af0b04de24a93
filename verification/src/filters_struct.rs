//! The filters of a list: the struct that holds them, and what a query makes of
//! them.

use vstd::prelude::*;
use vstd::string::*;

use crate::filter_states::{
    one_of_each, states_of, states_of_each, FilterState, ValueVirtualState, VirtualState,
};
use crate::list_by_fn::texts;
use crate::naming::{cased, to_case, NameCase};
use crate::options::column::Column;
use crate::options::columns::columns_of;
use crate::options::repository::RepositoryOptions;
use crate::text::{end_each, ended, param, param_text, same};

verus! {

/// What the filters of a query come to: conditions, the arguments that are
/// bound to the parameters, and the number of the next parameter.
pub type Bound = (Seq<Seq<char>>, Seq<Seq<char>>, nat);

/// The conditions and arguments of a query, while it is put together.
pub struct BoundFilters {
    pub conditions: Vec<String>,
    pub args: Vec<String>,
    pub next: u32,
}

impl BoundFilters {
    pub open spec fn bound(&self) -> Bound {
        (texts(self.conditions@), texts(self.args@), self.next as nat)
    }
}

/// The variable that holds the value of the filter by a column.
pub open spec fn filter_local(c: Column) -> Seq<char> {
    "filter_"@ + c.name@
}

/// The variable that tells whether the filter by a column is applied.
pub open spec fn apply_local(c: Column) -> Seq<char> {
    "apply_"@ + c.name@
}

/// The variable that holds the value of the filter by a condition.
pub open spec fn virtual_local(c: Column) -> Seq<char> {
    "virtual_"@ + c.name@
}

/// The arguments for a filter that can be absent.
pub open spec fn filter_args(c: Column) -> Seq<Seq<char>> {
    if c.optional() {
        seq![apply_local(c) + " as bool"@, filter_local(c) + " as "@ + c.opts.ty.text@]
    } else {
        seq![filter_local(c) + " as Option<"@ + c.opts.ty.text@ + ">"@]
    }
}

/// The argument for the value of a filter that is applied.
pub open spec fn filter_value_arg(c: Column) -> Seq<char> {
    filter_local(c) + " as "@ + c.opts.ty.text@
}

/// The comparison of a column with a parameter.
pub open spec fn equals_param(c: Column, n: nat) -> Seq<char> {
    c.name@ + " = "@ + param(n)
}

/// What the filter by a column adds in one of its states.
pub open spec fn with_filter(c: Column, state: FilterState, b: Bound) -> Bound {
    match state {
        FilterState::Absent => b,
        FilterState::Present => (b.0.push(equals_param(c, b.2)), b.1 + filter_args(c), b.2 + 1),
        FilterState::PresentNull => (b.0.push(c.name@ + " IS NULL"@), b.1, b.2),
        FilterState::PresentValue => (
            b.0.push(equals_param(c, b.2)),
            b.1.push(filter_value_arg(c)),
            b.2 + 1,
        ),
    }
}

/// What the filters by columns add, each in its state.
pub open spec fn with_filters(cols: Seq<Column>, combo: Seq<FilterState>, b: Bound) -> Bound
    decreases cols.len(),
{
    if cols.len() == 0 {
        b
    } else {
        with_filter(
            cols.last(),
            combo.last(),
            with_filters(cols.drop_last(), combo.drop_last(), b),
        )
    }
}

/// What the filter by a column adds to a query that serves all its states.
pub open spec fn with_any_state(c: Column, b: Bound) -> Bound {
    (
        b.0.push(
            if c.optional() {
                "(NOT "@ + param(b.2) + " OR "@ + c.name@ + " IS NOT DISTINCT FROM "@ + param(
                    b.2 + 1,
                ) + ")"@
            } else {
                "COALESCE("@ + c.name@ + " = "@ + param(b.2) + ", "@ + param(b.2) + " IS NULL)"@
            },
        ),
        b.1 + filter_args(c),
        b.2 + filter_args(c).len(),
    )
}

/// What the filters by columns add to a query that serves all their states.
pub open spec fn with_any_states(cols: Seq<Column>, b: Bound) -> Bound
    decreases cols.len(),
{
    if cols.len() == 0 {
        b
    } else {
        with_any_state(cols.last(), with_any_states(cols.drop_last(), b))
    }
}

/// Whether the text has the placeholder for a value at a place.
pub open spec fn placeholder_at(s: Seq<char>, i: int) -> bool {
    0 <= i && i + 7 <= s.len() && s.subrange(i, i + 7) == "{value}"@
}

/// The text with `value` in place of each placeholder, from a place on.
pub open spec fn substituted_from(s: Seq<char>, i: int, value: Seq<char>) -> Seq<char>
    decreases s.len() - i,
{
    if i < 0 || i >= s.len() {
        Seq::empty()
    } else if placeholder_at(s, i) {
        value + substituted_from(s, i + 7, value)
    } else {
        seq![s[i]] + substituted_from(s, i + 1, value)
    }
}

/// The text with `value` in place of each placeholder.
pub open spec fn substituted(s: Seq<char>, value: Seq<char>) -> Seq<char> {
    substituted_from(s, 0, value)
}

/// The argument for the value of a condition, whatever its type.
pub open spec fn value_arg(c: Column) -> Seq<char> {
    filter_local(c) + " as Option<"@ + c.opts.ty.text@ + ">"@
}

/// What the filter by a condition that takes a value adds in one of its
/// states: the condition, with a parameter for the value.
pub open spec fn with_value(c: Column, state: ValueVirtualState, b: Bound) -> Bound {
    match state {
        ValueVirtualState::Absent => b,
        ValueVirtualState::Present => (
            b.0.push("("@ + substituted(c.virtual_text(), param(b.2)) + ")"@),
            b.1.push(value_arg(c)),
            b.2 + 1,
        ),
    }
}

/// What the filters by conditions that take values add, each in its state.
pub open spec fn with_values(cols: Seq<Column>, combo: Seq<ValueVirtualState>, b: Bound) -> Bound
    decreases cols.len(),
{
    if cols.len() == 0 {
        b
    } else {
        with_value(
            cols.last(),
            combo.last(),
            with_values(cols.drop_last(), combo.drop_last(), b),
        )
    }
}

/// What the filters by conditions add, each in its state.
pub open spec fn virtual_conditions(cols: Seq<Column>, combo: Seq<VirtualState>) -> Seq<Seq<char>>
    decreases cols.len(),
{
    if cols.len() == 0 {
        Seq::empty()
    } else {
        let front = virtual_conditions(cols.drop_last(), combo.drop_last());
        match combo.last() {
            VirtualState::Absent => front,
            VirtualState::True => front.push("("@ + cols.last().virtual_text() + ")"@),
            VirtualState::False => front.push("NOT ("@ + cols.last().virtual_text() + ")"@),
        }
    }
}

/// The patterns for the filter by a column in one of its states.
pub open spec fn filter_patterns(c: Column, state: FilterState) -> Seq<Seq<char>> {
    if c.optional() {
        match state {
            FilterState::Absent => seq!["false"@, "_"@],
            FilterState::PresentNull => seq!["true"@, "false"@],
            _ => seq!["true"@, "true"@],
        }
    } else {
        match state {
            FilterState::Absent => seq!["false"@],
            _ => seq!["true"@],
        }
    }
}

/// The patterns for the filters by columns, each in its state.
pub open spec fn all_patterns(cols: Seq<Column>, combo: Seq<FilterState>) -> Seq<Seq<char>>
    decreases cols.len(),
{
    if cols.len() == 0 {
        Seq::empty()
    } else {
        all_patterns(cols.drop_last(), combo.drop_last()) + filter_patterns(
            cols.last(),
            combo.last(),
        )
    }
}

/// What tells the state of the filter by a column.
pub open spec fn filter_scrutinee(c: Column) -> Seq<Seq<char>> {
    if c.optional() {
        seq![apply_local(c), filter_local(c) + ".is_some()"@]
    } else {
        seq![filter_local(c) + ".is_some()"@]
    }
}

/// What tells the states of the filters by columns.
pub open spec fn filter_scrutinees(cols: Seq<Column>) -> Seq<Seq<char>>
    decreases cols.len(),
{
    if cols.len() == 0 {
        Seq::empty()
    } else {
        filter_scrutinees(cols.drop_last()) + filter_scrutinee(cols.last())
    }
}

/// The patterns for the filters by conditions.
pub open spec fn virtual_patterns(
    virtuals: Seq<VirtualState>,
    values: Seq<ValueVirtualState>,
) -> Seq<Seq<char>> {
    Seq::new(virtuals.len(), |i: int| virtuals[i].pattern()) + Seq::new(
        values.len(),
        |i: int| values[i].pattern(),
    )
}

/// The columns that a query compares for equality: those with a filter that is
/// applied.
pub open spec fn constrained(cols: Seq<Column>, combo: Seq<FilterState>) -> Seq<Seq<char>>
    decreases cols.len(),
{
    if cols.len() == 0 {
        Seq::empty()
    } else {
        let front = constrained(cols.drop_last(), combo.drop_last());
        if combo.last().present() {
            front.push(cols.last().name@)
        } else {
            front
        }
    }
}

/// The columns that take a value, or those that do not.
pub open spec fn taking_value(cols: Seq<Column>, value: bool) -> Seq<Column>
    decreases cols.len(),
{
    if cols.len() == 0 {
        Seq::empty()
    } else {
        let front = taking_value(cols.drop_last(), value);
        if cols.last().takes_value() == value {
            front.push(cols.last())
        } else {
            front
        }
    }
}

/// The columns that can be sorted by together with a column that is filtered
/// by.
pub open spec fn paired(cols: Seq<Column>, by: Seq<char>) -> Seq<Column>
    decreases cols.len(),
{
    if cols.len() == 0 {
        Seq::empty()
    } else {
        let front = paired(cols.drop_last(), by);
        if cols.last().opts.sort_columns().contains(by) {
            front.push(cols.last())
        } else {
            front
        }
    }
}

/// The columns other than the one of that name.
pub open spec fn others(cols: Seq<Column>, name: Seq<char>) -> Seq<Column>
    decreases cols.len(),
{
    if cols.len() == 0 {
        Seq::empty()
    } else {
        let front = others(cols.drop_last(), name);
        if cols.last().name@ != name {
            front.push(cols.last())
        } else {
            front
        }
    }
}

/// The conditions that the filters by the columns are absent.
pub open spec fn none_checks(cols: Seq<Column>) -> Seq<Seq<char>> {
    Seq::new(cols.len(), |i: int| "filters."@ + cols[i].name@ + ".is_none()"@)
}

/// The text in which the placeholder stands, with `$idx` in its place; none
/// without a placeholder.
pub fn substitute_value_placeholder(predicate: &str, idx: u32) -> (res: Option<String>)
    ensures
        res is Some <==> exists|i: int| placeholder_at(predicate@, i),
        res matches Some(text) ==> text@ == substituted(predicate@, param(idx as nat)),
{
    let value = param_text(idx as usize);
    let n: usize = predicate.unicode_len();
    let ghost all = predicate@;
    proof {
        reveal_strlit("{value}");
    }
    let mut out = String::new();
    let mut found: bool = false;
    let mut i: usize = 0;
    while i < n
        invariant
            i <= n,
            n == all.len(),
            all == predicate@,
            value@ == param(idx as nat),
            "{value}"@.len() == 7,
            substituted(all, value@) == out@ + substituted_from(all, i as int, value@),
            found ==> exists|j: int| placeholder_at(all, j),
            !found ==> forall|j: int| 0 <= j < i ==> !placeholder_at(all, j),
        decreases n - i,
    {
        if n - i >= 7 && same(predicate.substring_char(i, i + 7), "{value}") {
            assert(placeholder_at(all, i as int));
            proof {
                let rest = substituted_from(all, i + 7, value@);
                assert(out@ + (value@ + rest) =~= out@ + value@ + rest);
            }
            out.append(value.as_str());
            found = true;
            i = i + 7;
        } else {
            assert(!placeholder_at(all, i as int));
            let c = predicate.substring_char(i, i + 1);
            proof {
                assert(c@ =~= seq![all[i as int]]);
                let rest = substituted_from(all, i + 1, value@);
                assert(out@ + (c@ + rest) =~= out@ + c@ + rest);
            }
            out.append(c);
            i = i + 1;
        }
    }
    assert(out@ + substituted_from(all, n as int, value@) =~= out@);
    if found {
        Some(out)
    } else {
        None
    }
}

/// A text without a placeholder stays as it is.
proof fn nothing_substituted(s: Seq<char>, i: int, value: Seq<char>)
    requires
        0 <= i <= s.len(),
        forall|j: int| 0 <= j ==> !placeholder_at(s, j),
    ensures
        substituted_from(s, i, value) == s.skip(i),
    decreases s.len() - i,
{
    if i < s.len() {
        nothing_substituted(s, i + 1, value);
        assert(!placeholder_at(s, i));
        assert(seq![s[i]] + s.skip(i + 1) =~= s.skip(i));
    } else {
        assert(s.skip(i) =~= Seq::<char>::empty());
    }
}

/// The struct that holds the filters of a list.
pub struct FiltersStruct<'a> {
    pub columns: Vec<&'a Column>,
    pub virtual_columns: Vec<&'a Column>,
    pub entity: &'a str,
}

/// The struct.
pub open spec fn filters_type_code(ident: Seq<char>, fields: Seq<char>) -> Seq<char> {
    "#[derive(Debug, Default)]
pub struct "@ + ident + " {
    "@ + fields + "
}"@
}

/// The struct.
fn filters_type(ident: &str, fields: &str) -> (res: String)
    ensures
        res@ == filters_type_code(ident@, fields@),
{
    "#[derive(Debug, Default)]
pub struct ".to_string().concat(ident).concat(" {
    ").concat(fields).concat("
}")
}

/// The fields for the filters.
pub open spec fn filter_fields(cols: Seq<Column>) -> Seq<Seq<char>> {
    Seq::new(
        cols.len(),
        |i: int| "pub "@ + cols[i].name@ + ": Option<"@ + cols[i].opts.ty.text@ + ">,"@,
    )
}

impl<'a> FiltersStruct<'a> {
    /// The name of the struct.
    pub open spec fn named(&self) -> Seq<char> {
        cased(self.entity@ + "_filters"@, NameCase::UpperCamel)
    }

    /// The struct: a field for each filter.
    #[verifier::opaque]
    pub open spec fn code(&self) -> Seq<char> {
        filters_type_code(
            self.named(),
            ended(filter_fields(columns_of(self.columns@)), "\n"@) + ended(
                filter_fields(columns_of(self.virtual_columns@)),
                "\n"@,
            ),
        )
    }

    pub fn new(
        opts: &'a RepositoryOptions,
        columns: Vec<&'a Column>,
        virtual_columns: Vec<&'a Column>,
    ) -> (res: Self)
        ensures
            res.columns == columns,
            res.virtual_columns == virtual_columns,
            res.entity@ == opts.entity_ident@,
    {
        FiltersStruct { columns, virtual_columns, entity: opts.entity() }
    }

    /// The name of the struct.
    pub fn ident(&self) -> (res: String)
        ensures
            res@ == self.named(),
    {
        let name = self.entity.to_string().concat("_filters");
        to_case(name.as_str(), NameCase::UpperCamel)
    }

    pub(crate) fn fields(columns: &Vec<&'a Column>) -> (res: String)
        ensures
            res@ == ended(filter_fields(columns_of(columns@)), "\n"@),
    {
        let mut fields: Vec<String> = Vec::new();
        let mut i: usize = 0;
        while i < columns.len()
            invariant
                i <= columns.len(),
                fields.len() == i,
                forall|j: int|
                    0 <= j < i ==> (#[trigger] fields@[j])@ == filter_fields(
                        columns_of(columns@),
                    )[j],
            decreases columns.len() - i,
        {
            fields.push(
                "pub ".to_string().concat(columns[i].name()).concat(": Option<").concat(
                    columns[i].opts.ty.text.as_str(),
                ).concat(">,"),
            );
            i = i + 1;
        }
        assert(fields.deep_view() =~= filter_fields(columns_of(columns@)));
        end_each(&fields, "\n")
    }

    /// Appends the struct.
    pub fn to_tokens(&self, tokens: &mut String)
        ensures
            final(tokens)@ == old(tokens)@ + self.code(),
    {
        proof {
            reveal(FiltersStruct::code);
        }
        let fields = FiltersStruct::fields(&self.columns).concat(
            FiltersStruct::fields(&self.virtual_columns).as_str(),
        );
        tokens.append(filters_type(self.ident().as_str(), fields.as_str()).as_str());
    }

    /// Adds the arguments for a filter that can be absent.
    pub(crate) fn push_filter_args(column: &Column, b: &mut BoundFilters)
        ensures
            texts(final(b).args@) == texts(old(b).args@) + filter_args(*column),
            final(b).conditions == old(b).conditions,
            final(b).next == old(b).next,
    {
        let ghost before = texts(b.args@);
        let ty = column.opts.ty.text.as_str();
        if column.is_optional() {
            b.args.push("apply_".to_string().concat(column.name()).concat(" as bool"));
            b.args.push("filter_".to_string().concat(column.name()).concat(" as ").concat(ty));
        } else {
            b.args.push(
                "filter_".to_string().concat(column.name()).concat(" as Option<").concat(ty).concat(
                    ">",
                ),
            );
        }
        assert(texts(b.args@) =~= before + filter_args(*column));
    }

    /// Adds the filter by a column in one of its states.
    pub(crate) fn push_filter(column: &Column, state: FilterState, b: &mut BoundFilters)
        requires
            old(b).next < u32::MAX,
            states_of(*column).contains(state),
        ensures
            final(b).bound() == with_filter(*column, state, old(b).bound()),
            final(b).next <= old(b).next + 1,
    {
        let ghost before = b.bound();
        match state {
            FilterState::Absent => {},
            FilterState::Present => {
                b.conditions.push(equals_text(column, b.next));
                FiltersStruct::push_filter_args(column, b);
                b.next = b.next + 1;
            },
            FilterState::PresentNull => {
                b.conditions.push(column.name().to_string().concat(" IS NULL"));
            },
            FilterState::PresentValue => {
                b.conditions.push(equals_text(column, b.next));
                b.args.push(
                    "filter_".to_string().concat(column.name()).concat(" as ").concat(
                        column.opts.ty.text.as_str(),
                    ),
                );
                b.next = b.next + 1;
            },
        }
        let ghost after = with_filter(*column, state, before);
        assert(texts(b.conditions@) =~= after.0);
        assert(texts(b.args@) =~= after.1);
    }

    /// Adds the filter by a column to a query that serves all its states.
    pub(crate) fn where_clause_fragment(column: &Column, b: &mut BoundFilters)
        requires
            old(b).next + 2 <= u32::MAX,
        ensures
            final(b).bound() == with_any_state(*column, old(b).bound()),
            final(b).next <= old(b).next + 2,
    {
        let ghost before = b.bound();
        let first = param_text(b.next as usize);
        if column.is_optional() {
            let second = param_text((b.next + 1) as usize);
            b.conditions.push(
                "(NOT ".to_string().concat(first.as_str()).concat(" OR ").concat(
                    column.name(),
                ).concat(" IS NOT DISTINCT FROM ").concat(second.as_str()).concat(")"),
            );
            FiltersStruct::push_filter_args(column, b);
            b.next = b.next + 2;
        } else {
            b.conditions.push(
                "COALESCE(".to_string().concat(column.name()).concat(" = ").concat(
                    first.as_str(),
                ).concat(", ").concat(first.as_str()).concat(" IS NULL)"),
            );
            FiltersStruct::push_filter_args(column, b);
            b.next = b.next + 1;
        }
        assert(texts(b.conditions@) =~= with_any_state(*column, before).0);
    }

    /// Adds the filter by a condition that takes a value in one of its states.
    pub(crate) fn push_value(column: &Column, state: ValueVirtualState, b: &mut BoundFilters)
        requires
            old(b).next < u32::MAX,
        ensures
            final(b).bound() == with_value(*column, state, old(b).bound()),
            final(b).next <= old(b).next + 1,
    {
        let ghost before = b.bound();
        match state {
            ValueVirtualState::Absent => {},
            ValueVirtualState::Present => {
                let predicate = column.virtual_predicate();
                let text = match substitute_value_placeholder(predicate, b.next) {
                    Some(text) => text,
                    None => {
                        proof {
                            nothing_substituted(predicate@, 0, param(b.next as nat));
                            assert(predicate@.skip(0) =~= predicate@);
                        }
                        predicate.to_string()
                    },
                };
                b.conditions.push("(".to_string().concat(text.as_str()).concat(")"));
                b.args.push(
                    "filter_".to_string().concat(column.name()).concat(" as Option<").concat(
                        column.opts.ty.text.as_str(),
                    ).concat(">"),
                );
                b.next = b.next + 1;
            },
        }
        assert(texts(b.conditions@) =~= with_value(*column, state, before).0);
        assert(texts(b.args@) =~= with_value(*column, state, before).1);
    }
}

pub(crate) fn equals_text(column: &Column, idx: u32) -> (res: String)
    ensures
        res@ == equals_param(*column, idx as nat),
{
    column.name().to_string().concat(" = ").concat(param_text(idx as usize).as_str())
}

/// What the filters by conditions add, each in its state.
pub(crate) fn virtual_trailing(columns: &Vec<&Column>, combo: &Vec<VirtualState>) -> (res: Vec<String>)
    requires
        columns.len() == combo.len(),
    ensures
        texts(res@) == virtual_conditions(columns_of(columns@), combo@),
{
    let ghost cols = columns_of(columns@);
    let mut res: Vec<String> = Vec::new();
    let mut i: usize = 0;
    assert(texts(res@) =~= virtual_conditions(cols.take(0), combo@.take(0)));
    while i < columns.len()
        invariant
            i <= columns.len(),
            columns.len() == combo.len(),
            cols == columns_of(columns@),
            texts(res@) == virtual_conditions(cols.take(i as int), combo@.take(i as int)),
        decreases columns.len() - i,
    {
        let ghost before = texts(res@);
        proof {
            assert(cols.take(i + 1).drop_last() =~= cols.take(i as int));
            assert(combo@.take(i + 1).drop_last() =~= combo@.take(i as int));
        }
        let predicate = columns[i].virtual_predicate();
        match combo[i] {
            VirtualState::Absent => {},
            VirtualState::True => {
                res.push("(".to_string().concat(predicate).concat(")"));
                assert(texts(res@) =~= before.push("("@ + predicate@ + ")"@));
            },
            VirtualState::False => {
                res.push("NOT (".to_string().concat(predicate).concat(")"));
                assert(texts(res@) =~= before.push("NOT ("@ + predicate@ + ")"@));
            },
        }
        i = i + 1;
    }
    assert(cols.take(cols.len() as int) =~= cols);
    assert(combo@.take(combo.len() as int) =~= combo@);
    res
}

/// Every parameter is bound to one argument: in whatever states the filters
/// are, the arguments grow with the parameters.
pub proof fn filters_in_step(cols: Seq<Column>, combo: Seq<FilterState>, b: Bound)
    requires
        one_of_each(combo, states_of_each(cols)),
    ensures
        with_filters(cols, combo, b).2 - b.2 == with_filters(cols, combo, b).1.len() - b.1.len(),
    decreases cols.len(),
{
    if cols.len() > 0 {
        let front = combo.drop_last();
        assert forall|i: int| 0 <= i < cols.len() - 1 implies states_of_each(
            cols.drop_last(),
        )[i].contains(#[trigger] front[i]) by {
            assert(states_of_each(cols)[i].contains(combo[i]));
            assert(states_of_each(cols.drop_last())[i] == states_of_each(cols)[i]);
        }
        filters_in_step(cols.drop_last(), front, b);
        assert(states_of_each(cols)[cols.len() - 1].contains(combo[cols.len() - 1]));
    }
}

/// Every parameter is bound to one argument in a query that serves all states
/// of the filters.
pub proof fn any_states_in_step(cols: Seq<Column>, b: Bound)
    ensures
        with_any_states(cols, b).2 - b.2 == with_any_states(cols, b).1.len() - b.1.len(),
    decreases cols.len(),
{
    if cols.len() > 0 {
        any_states_in_step(cols.drop_last(), b);
    }
}

/// Every parameter is bound to one argument, whatever conditions that take
/// values are applied.
pub proof fn values_in_step(cols: Seq<Column>, combo: Seq<ValueVirtualState>, b: Bound)
    ensures
        with_values(cols, combo, b).2 - b.2 == with_values(cols, combo, b).1.len() - b.1.len(),
    decreases cols.len(),
{
    if cols.len() > 0 {
        values_in_step(cols.drop_last(), combo.drop_last(), b);
    }
}

/// Whether the patterns match what tells the state of a filter.
pub open spec fn matches_pattern(patterns: Seq<Seq<char>>, values: Seq<bool>) -> bool {
    &&& patterns.len() == values.len()
    &&& forall|i: int|
        0 <= i < values.len() ==> (#[trigger] patterns[i] == "_"@ || patterns[i] == (if values[i] {
            "true"@
        } else {
            "false"@
        }))
}

/// Whatever the filter by a column holds, the patterns of one of its states
/// match, and those of no other.
pub proof fn one_state_matches(c: Column, values: Seq<bool>)
    requires
        values.len() == filter_scrutinee(c).len(),
    ensures
        exists|s: FilterState|
            states_of(c).contains(s) && #[trigger] matches_pattern(filter_patterns(c, s), values),
        forall|s: FilterState, t: FilterState|
            states_of(c).contains(s) && states_of(c).contains(t) && #[trigger] matches_pattern(
                filter_patterns(c, s),
                values,
            ) && #[trigger] matches_pattern(filter_patterns(c, t), values) ==> s == t,
{
    reveal_strlit("true");
    reveal_strlit("false");
    reveal_strlit("_");
    assert("true"@.len() == 4 && "false"@.len() == 5 && "_"@.len() == 1);
    let states = states_of(c);
    if c.optional() {
        assert(states[0] == FilterState::Absent);
        assert(states[1] == FilterState::PresentValue);
        assert(states[2] == FilterState::PresentNull);
        let s = if !values[0] {
            FilterState::Absent
        } else if values[1] {
            FilterState::PresentValue
        } else {
            FilterState::PresentNull
        };
        assert(states.contains(s));
        let p = filter_patterns(c, s);
        assert(p.len() == 2);
        assert(matches_pattern(p, values));
        assert forall|t: FilterState|
            states.contains(t) && #[trigger] matches_pattern(
                filter_patterns(c, t),
                values,
            ) implies t == s by {
            let q = filter_patterns(c, t);
            assert(q[0] == "_"@ || q[0] == (if values[0] {
                "true"@
            } else {
                "false"@
            }));
            assert(q[1] == "_"@ || q[1] == (if values[1] {
                "true"@
            } else {
                "false"@
            }));
        }
    } else {
        assert(states[0] == FilterState::Absent);
        assert(states[1] == FilterState::Present);
        let s = if values[0] {
            FilterState::Present
        } else {
            FilterState::Absent
        };
        assert(states.contains(s));
        let p = filter_patterns(c, s);
        assert(p.len() == 1);
        assert(matches_pattern(p, values));
        assert forall|t: FilterState|
            states.contains(t) && #[trigger] matches_pattern(
                filter_patterns(c, t),
                values,
            ) implies t == s by {
            let q = filter_patterns(c, t);
            assert(q[0] == "_"@ || q[0] == (if values[0] {
                "true"@
            } else {
                "false"@
            }));
        }
    }
}

} // verus!
