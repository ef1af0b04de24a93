//! The states that the filters of a list can be in.

use vstd::prelude::*;
use vstd::string::*;

use crate::options::column::Column;
use crate::options::columns::columns_of;

verus! {

/// The state of the filter by a column.
#[derive(Clone, Copy, PartialEq, Eq, Structural, Debug)]
pub enum FilterState {
    /// The filter is not applied.
    Absent,
    /// The filter is applied to a column that is no `Option`.
    Present,
    /// The filter looks for rows without a value.
    PresentNull,
    /// The filter looks for rows with a value, in a column that is an
    /// `Option`.
    PresentValue,
}

/// The state of the filter by a condition.
#[derive(Clone, Copy, PartialEq, Eq, Structural, Debug)]
pub enum VirtualState {
    Absent,
    True,
    False,
}

/// The state of the filter by a condition that takes a value.
#[derive(Clone, Copy, PartialEq, Eq, Structural, Debug)]
pub enum ValueVirtualState {
    Absent,
    Present,
}

impl FilterState {
    pub open spec fn present(self) -> bool {
        self != FilterState::Absent
    }

    /// Whether the filter is applied.
    pub fn is_present(&self) -> (res: bool)
        ensures
            res == self.present(),
    {
        match self {
            FilterState::Absent => false,
            _ => true,
        }
    }
}

impl VirtualState {
    /// The pattern that a filter in this state matches.
    pub open spec fn pattern(self) -> Seq<char> {
        match self {
            VirtualState::Absent => "None"@,
            VirtualState::True => "Some(true)"@,
            VirtualState::False => "Some(false)"@,
        }
    }

    /// The pattern that a filter in this state matches.
    pub fn pattern_elem(self) -> (res: &'static str)
        ensures
            res@ == self.pattern(),
    {
        match self {
            VirtualState::Absent => "None",
            VirtualState::True => "Some(true)",
            VirtualState::False => "Some(false)",
        }
    }
}

impl ValueVirtualState {
    /// The pattern that a filter in this state matches.
    pub open spec fn pattern(self) -> Seq<char> {
        match self {
            ValueVirtualState::Absent => "false"@,
            ValueVirtualState::Present => "true"@,
        }
    }

    /// The pattern that a filter in this state matches.
    pub fn pattern_elem(self) -> (res: &'static str)
        ensures
            res@ == self.pattern(),
    {
        match self {
            ValueVirtualState::Absent => "false",
            ValueVirtualState::Present => "true",
        }
    }
}

/// The states that the filter by a column can be in.
pub open spec fn states_of(c: Column) -> Seq<FilterState> {
    if c.optional() {
        seq![FilterState::Absent, FilterState::PresentValue, FilterState::PresentNull]
    } else {
        seq![FilterState::Absent, FilterState::Present]
    }
}

/// The states that the filter by a condition can be in.
pub open spec fn virtual_states() -> Seq<VirtualState> {
    seq![VirtualState::Absent, VirtualState::True, VirtualState::False]
}

/// The states that the filter by a condition that takes a value can be in.
pub open spec fn value_states() -> Seq<ValueVirtualState> {
    seq![ValueVirtualState::Absent, ValueVirtualState::Present]
}

/// A combination with each of the states behind it.
pub open spec fn with_each<S>(combo: Seq<S>, states: Seq<S>) -> Seq<Seq<S>> {
    Seq::new(states.len(), |i: int| combo.push(states[i]))
}

/// Each of the combinations with each of the states behind it.
pub open spec fn extended<S>(combos: Seq<Seq<S>>, states: Seq<S>) -> Seq<Seq<S>>
    decreases combos.len(),
{
    if combos.len() == 0 {
        Seq::empty()
    } else {
        extended(combos.drop_last(), states) + with_each(combos.last(), states)
    }
}

/// The combinations of the states of all filters: one from each of the lists.
/// Without a list there is one combination, the empty one.
pub open spec fn combos<S>(lists: Seq<Seq<S>>) -> Seq<Seq<S>>
    decreases lists.len(),
{
    if lists.len() == 0 {
        seq![Seq::empty()]
    } else {
        extended(combos(lists.drop_last()), lists.last())
    }
}

/// The states of the filters by each of the columns.
pub open spec fn states_of_each(cols: Seq<Column>) -> Seq<Seq<FilterState>> {
    Seq::new(cols.len(), |i: int| states_of(cols[i]))
}

/// The combinations of the states of the filters by columns.
pub open spec fn filter_combos(cols: Seq<Column>) -> Seq<Seq<FilterState>> {
    combos(states_of_each(cols))
}

/// The combinations of the states of so many filters by conditions.
pub open spec fn virtual_combos(n: nat) -> Seq<Seq<VirtualState>> {
    combos(Seq::new(n, |i: int| virtual_states()))
}

/// The combinations of the states of so many filters by conditions that take
/// values.
pub open spec fn value_combos(n: nat) -> Seq<Seq<ValueVirtualState>> {
    combos(Seq::new(n, |i: int| value_states()))
}

/// The contents of the lists.
pub open spec fn lists_of<S>(v: Seq<Vec<S>>) -> Seq<Seq<S>> {
    Seq::new(v.len(), |i: int| v[i]@)
}

/// The combination holds one state of each of the lists.
pub open spec fn one_of_each<S>(combo: Seq<S>, lists: Seq<Seq<S>>) -> bool {
    &&& combo.len() == lists.len()
    &&& forall|i: int| 0 <= i < lists.len() ==> lists[i].contains(#[trigger] combo[i])
}

fn extend_combos<S: Copy>(combos: &Vec<Vec<S>>, states: &Vec<S>) -> (res: Vec<Vec<S>>)
    ensures
        lists_of(res@) == extended(lists_of(combos@), states@),
{
    let ghost all = lists_of(combos@);
    let mut res: Vec<Vec<S>> = Vec::new();
    let mut i: usize = 0;
    assert(lists_of(res@) =~= extended(all.take(0), states@));
    while i < combos.len()
        invariant
            i <= combos.len(),
            all == lists_of(combos@),
            lists_of(res@) == extended(all.take(i as int), states@),
        decreases combos.len() - i,
    {
        let combo = &combos[i];
        let ghost start = lists_of(res@);
        let ghost rows = with_each(combo@, states@);
        let mut k: usize = 0;
        assert(start + rows.take(0) =~= start);
        while k < states.len()
            invariant
                k <= states.len(),
                rows == with_each(combo@, states@),
                rows.len() == states.len(),
                lists_of(res@) == start + rows.take(k as int),
            decreases states.len() - k,
        {
            let mut row: Vec<S> = Vec::new();
            let mut j: usize = 0;
            while j < combo.len()
                invariant
                    j <= combo.len(),
                    row@ == combo@.take(j as int),
                decreases combo.len() - j,
            {
                row.push(combo[j]);
                assert(combo@.take(j + 1) =~= combo@.take(j as int).push(combo@[j as int]));
                j = j + 1;
            }
            assert(combo@.take(combo.len() as int) =~= combo@);
            row.push(states[k]);
            let ghost before = lists_of(res@);
            assert(row@ =~= rows[k as int]);
            res.push(row);
            proof {
                assert(lists_of(res@) =~= before.push(rows[k as int]));
                assert(start + rows.take(k + 1) =~= (start + rows.take(k as int)).push(
                    rows[k as int],
                ));
            }
            k = k + 1;
        }
        proof {
            assert(rows.take(states.len() as int) =~= rows);
            let next = all.take(i + 1);
            assert(next.drop_last() =~= all.take(i as int));
            assert(next.last() == combo@);
        }
        i = i + 1;
    }
    assert(all.take(all.len() as int) =~= all);
    res
}

fn first_combo<S>() -> (res: Vec<Vec<S>>)
    ensures
        lists_of(res@) == combos(Seq::<Seq<S>>::empty()),
{
    let empty: Vec<S> = Vec::new();
    assert(empty@ =~= Seq::<S>::empty());
    let res = vec![empty];
    assert(lists_of(res@) =~= seq![Seq::<S>::empty()]);
    res
}

/// The combinations of the states of the filters by columns.
pub fn filter_state_combos(columns: &Vec<&Column>) -> (res: Vec<Vec<FilterState>>)
    ensures
        lists_of(res@) == filter_combos(columns_of(columns@)),
{
    let ghost lists = states_of_each(columns_of(columns@));
    let mut res: Vec<Vec<FilterState>> = first_combo();
    let mut i: usize = 0;
    assert(lists.take(0) =~= Seq::<Seq<FilterState>>::empty());
    while i < columns.len()
        invariant
            i <= columns.len(),
            lists == states_of_each(columns_of(columns@)),
            lists.len() == columns.len(),
            lists_of(res@) == combos(lists.take(i as int)),
        decreases columns.len() - i,
    {
        let states = if columns[i].is_optional() {
            vec![FilterState::Absent, FilterState::PresentValue, FilterState::PresentNull]
        } else {
            vec![FilterState::Absent, FilterState::Present]
        };
        proof {
            assert(states@ =~= lists[i as int]);
            let next = lists.take(i + 1);
            assert(next.drop_last() =~= lists.take(i as int));
            assert(next.last() == lists[i as int]);
        }
        res = extend_combos(&res, &states);
        i = i + 1;
    }
    assert(lists.take(lists.len() as int) =~= lists);
    res
}

/// The combinations of the states of the filters by conditions.
pub fn virtual_state_combos(columns: &Vec<&Column>) -> (res: Vec<Vec<VirtualState>>)
    ensures
        lists_of(res@) == virtual_combos(columns.len() as nat),
{
    let states = vec![VirtualState::Absent, VirtualState::True, VirtualState::False];
    assert(states@ =~= virtual_states());
    let ghost lists = Seq::new(columns.len() as nat, |i: int| virtual_states());
    let mut res: Vec<Vec<VirtualState>> = first_combo();
    let mut i: usize = 0;
    assert(lists.take(0) =~= Seq::<Seq<VirtualState>>::empty());
    while i < columns.len()
        invariant
            i <= columns.len(),
            states@ == virtual_states(),
            lists.len() == columns.len(),
            forall|j: int| 0 <= j < lists.len() ==> #[trigger] lists[j] == virtual_states(),
            lists_of(res@) == combos(lists.take(i as int)),
        decreases columns.len() - i,
    {
        proof {
            let next = lists.take(i + 1);
            assert(next.drop_last() =~= lists.take(i as int));
            assert(next.last() == lists[i as int]);
        }
        res = extend_combos(&res, &states);
        i = i + 1;
    }
    assert(lists.take(lists.len() as int) =~= lists);
    res
}

/// The combinations of the states of the filters by conditions that take
/// values.
pub fn value_virtual_state_combos(columns: &Vec<&Column>) -> (res: Vec<Vec<ValueVirtualState>>)
    ensures
        lists_of(res@) == value_combos(columns.len() as nat),
{
    let states = vec![ValueVirtualState::Absent, ValueVirtualState::Present];
    assert(states@ =~= value_states());
    let ghost lists = Seq::new(columns.len() as nat, |i: int| value_states());
    let mut res: Vec<Vec<ValueVirtualState>> = first_combo();
    let mut i: usize = 0;
    assert(lists.take(0) =~= Seq::<Seq<ValueVirtualState>>::empty());
    while i < columns.len()
        invariant
            i <= columns.len(),
            states@ == value_states(),
            lists.len() == columns.len(),
            forall|j: int| 0 <= j < lists.len() ==> #[trigger] lists[j] == value_states(),
            lists_of(res@) == combos(lists.take(i as int)),
        decreases columns.len() - i,
    {
        proof {
            let next = lists.take(i + 1);
            assert(next.drop_last() =~= lists.take(i as int));
            assert(next.last() == lists[i as int]);
        }
        res = extend_combos(&res, &states);
        i = i + 1;
    }
    assert(lists.take(lists.len() as int) =~= lists);
    res
}

proof fn extended_contains<S>(combos: Seq<Seq<S>>, states: Seq<S>, combo: Seq<S>)
    ensures
        extended(combos, states).contains(combo) <==> combo.len() > 0 && combos.contains(
            combo.drop_last(),
        ) && states.contains(combo.last()),
    decreases combos.len(),
{
    if combos.len() > 0 {
        let front = combos.drop_last();
        let last = combos.last();
        extended_contains(front, states, combo);
        let a = extended(front, states);
        let b = with_each(last, states);
        let all = a + b;
        if all.contains(combo) {
            let i = choose|i: int| 0 <= i < all.len() && all[i] == combo;
            if i < a.len() {
                assert(a[i] == combo);
                assert(a.contains(combo));
                let j = choose|j: int| 0 <= j < front.len() && front[j] == combo.drop_last();
                assert(combos[j] == combo.drop_last());
            } else {
                let k = i - a.len();
                assert(b[k] == combo);
                assert(combo =~= last.push(states[k]));
                assert(combo.drop_last() =~= last);
                assert(combos[combos.len() - 1] == combo.drop_last());
                assert(states[k] == combo.last());
            }
        }
        if combo.len() > 0 && combos.contains(combo.drop_last()) && states.contains(
            combo.last(),
        ) {
            let j = choose|j: int| 0 <= j < combos.len() && combos[j] == combo.drop_last();
            let k = choose|k: int| 0 <= k < states.len() && states[k] == combo.last();
            if j < front.len() {
                assert(front[j] == combo.drop_last());
                assert(a.contains(combo));
                let i = choose|i: int| 0 <= i < a.len() && a[i] == combo;
                assert(all[i] == combo);
            } else {
                assert(last == combo.drop_last());
                assert(combo =~= last.push(states[k]));
                assert(b[k] == combo);
                assert(all[a.len() + k] == combo);
            }
        }
    }
}

/// The combinations are those that hold one state of each list, and no others.
pub proof fn combos_are_the_product<S>(lists: Seq<Seq<S>>, combo: Seq<S>)
    ensures
        combos(lists).contains(combo) <==> one_of_each(combo, lists),
    decreases lists.len(),
{
    if lists.len() == 0 {
        let only = seq![Seq::<S>::empty()];
        if combo.len() == 0 {
            assert(combo =~= Seq::<S>::empty());
            assert(only[0] == combo);
        }
    } else {
        let front = lists.drop_last();
        extended_contains(combos(front), lists.last(), combo);
        if combo.len() > 0 {
            combos_are_the_product(front, combo.drop_last());
            let c = combo.drop_last();
            if one_of_each(combo, lists) {
                assert forall|i: int| 0 <= i < front.len() implies front[i].contains(
                    #[trigger] c[i],
                ) by {
                    assert(c[i] == combo[i]);
                    assert(front[i] == lists[i]);
                }
                assert(combo.last() == combo[lists.len() - 1]);
            }
            if one_of_each(c, front) && lists.last().contains(combo.last()) {
                assert forall|i: int| 0 <= i < lists.len() implies lists[i].contains(
                    #[trigger] combo[i],
                ) by {
                    if i < front.len() {
                        assert(front[i].contains(c[i]));
                    }
                }
            }
        }
    }
}

proof fn extended_distinct<S>(combos: Seq<Seq<S>>, states: Seq<S>)
    requires
        combos.no_duplicates(),
        states.no_duplicates(),
    ensures
        extended(combos, states).no_duplicates(),
    decreases combos.len(),
{
    if combos.len() > 0 {
        let front = combos.drop_last();
        let last = combos.last();
        extended_distinct(front, states);
        let a = extended(front, states);
        let b = with_each(last, states);
        let all = a + b;
        assert forall|i: int, j: int|
            0 <= i < all.len() && 0 <= j < all.len() && i != j implies all[i] != all[j] by {
            if i < a.len() && j < a.len() {
                assert(a[i] != a[j]);
            } else if i >= a.len() && j >= a.len() {
                let p = i - a.len();
                let q = j - a.len();
                assert(last.push(states[p]).last() == states[p]);
                assert(last.push(states[q]).last() == states[q]);
                assert(states[p] != states[q]);
            } else {
                let (p, q) = if i < a.len() {
                    (i, j - a.len())
                } else {
                    (j, i - a.len())
                };
                if a[p] == b[q] {
                    assert(a.contains(a[p]));
                    extended_contains(front, states, a[p]);
                    assert(b[q].drop_last() =~= last);
                    let k = choose|k: int| 0 <= k < front.len() && front[k] == last;
                    assert(combos[k] == combos[combos.len() - 1]);
                }
            }
        }
    }
}

/// No combination occurs twice where no list holds a state twice.
pub proof fn combos_are_distinct<S>(lists: Seq<Seq<S>>)
    requires
        forall|i: int| 0 <= i < lists.len() ==> (#[trigger] lists[i]).no_duplicates(),
    ensures
        combos(lists).no_duplicates(),
    decreases lists.len(),
{
    if lists.len() > 0 {
        let front = lists.drop_last();
        assert forall|i: int| 0 <= i < front.len() implies (
        #[trigger] front[i]).no_duplicates() by {
            assert(front[i] == lists[i]);
        }
        combos_are_distinct(front);
        assert(lists.last() == lists[lists.len() - 1]);
        extended_distinct(combos(front), lists.last());
    }
}

/// Whatever states the filters by the columns are in, they are one of the
/// combinations, at one place.
pub proof fn filter_combos_cover_once(cols: Seq<Column>, combo: Seq<FilterState>)
    requires
        one_of_each(combo, states_of_each(cols)),
    ensures
        exists|i: int| 0 <= i < filter_combos(cols).len() && filter_combos(cols)[i] == combo,
        forall|i: int, j: int|
            0 <= i < filter_combos(cols).len() && 0 <= j < filter_combos(cols).len()
                && filter_combos(cols)[i] == combo && filter_combos(cols)[j] == combo ==> i == j,
{
    let lists = states_of_each(cols);
    combos_are_the_product(lists, combo);
    assert forall|i: int| 0 <= i < lists.len() implies (#[trigger] lists[i]).no_duplicates() by {
        let s = lists[i];
        assert forall|p: int, q: int|
            0 <= p < s.len() && 0 <= q < s.len() && p != q implies s[p] != s[q] by {}
    }
    combos_are_distinct(lists);
    assert(filter_combos(cols).contains(combo));
}

/// Without filters there is one combination, the empty one.
pub proof fn no_filters_one_combo()
    ensures
        filter_combos(Seq::empty()) == seq![Seq::<FilterState>::empty()],
        virtual_combos(0) == seq![Seq::<VirtualState>::empty()],
        value_combos(0) == seq![Seq::<ValueVirtualState>::empty()],
{
    assert(states_of_each(Seq::empty()) =~= Seq::<Seq<FilterState>>::empty());
}

} // verus!
