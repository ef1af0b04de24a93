//! The indexes of the tables that repositories read.

use vstd::prelude::*;
use vstd::string::*;

use crate::text::same;
use crate::tokens::is_one_of;

verus! {

/// An index on columns of a table, in the order in which they make up its key.
pub struct Index {
    pub table: String,
    pub columns: Vec<String>,
}

/// The indexes that are known.
pub struct IndexCatalog {
    pub indexes: Vec<Index>,
}

/// Whether the key of an index starts with the columns `equality`, in any
/// order.
pub open spec fn leads_with(key: Seq<Seq<char>>, equality: Seq<Seq<char>>) -> bool {
    &&& equality.len() <= key.len()
    &&& forall|i: int| 0 <= i < equality.len() ==> equality.contains(#[trigger] key[i])
    &&& forall|i: int|
        0 <= i < equality.len() ==> key.take(equality.len() as int).contains(
            #[trigger] equality[i],
        )
}

impl IndexCatalog {
    /// Whether a query that compares the columns `equality` of a table is
    /// served by an index.
    pub open spec fn serves(&self, table: Seq<char>, equality: Seq<Seq<char>>) -> bool {
        exists|i: int|
            0 <= i < self.indexes.len() && (#[trigger] self.indexes@[i]).table@ == table
                && leads_with(self.indexes@[i].columns.deep_view(), equality)
    }

    /// No indexes.
    pub fn empty() -> (res: IndexCatalog)
        ensures
            res.indexes@ == Seq::<Index>::empty(),
    {
        IndexCatalog { indexes: Vec::new() }
    }

    /// Whether a query that compares the columns `equality` of a table gets a
    /// statement of its own: the key of some index on the table starts with
    /// these columns, in any order. The column that the result is sorted by
    /// need not follow them.
    pub fn specializes(&self, table: &str, equality: &Vec<String>) -> (res: bool)
        ensures
            res == self.serves(table@, equality.deep_view()),
    {
        let mut i: usize = 0;
        while i < self.indexes.len()
            invariant
                i <= self.indexes.len(),
                forall|j: int|
                    0 <= j < i ==> !((#[trigger] self.indexes@[j]).table@ == table@ && leads_with(
                        self.indexes@[j].columns.deep_view(),
                        equality.deep_view(),
                    )),
            decreases self.indexes.len() - i,
        {
            let index = &self.indexes[i];
            if same(index.table.as_str(), table) && key_leads_with(&index.columns, equality) {
                assert(self.indexes@[i as int].table@ == table@);
                return true;
            }
            i = i + 1;
        }
        false
    }
}

fn key_leads_with(key: &Vec<String>, equality: &Vec<String>) -> (res: bool)
    ensures
        res == leads_with(key.deep_view(), equality.deep_view()),
{
    let ghost key_view = key.deep_view();
    let ghost eq_view = equality.deep_view();
    assert(key_view.len() == key.len() && eq_view.len() == equality.len());
    let n: usize = equality.len();
    if n > key.len() {
        return false;
    }
    let mut prefix: Vec<String> = Vec::new();
    let mut i: usize = 0;
    while i < n
        invariant
            i <= n,
            n == equality.len(),
            n <= key.len(),
            key_view == key.deep_view(),
            key_view.len() == key.len(),
            eq_view == equality.deep_view(),
            eq_view.len() == equality.len(),
            prefix.deep_view() == key_view.take(i as int),
            forall|j: int| 0 <= j < i ==> eq_view.contains(#[trigger] key_view[j]),
        decreases n - i,
    {
        if !is_one_of(key[i].as_str(), equality) {
            assert(!eq_view.contains(key_view[i as int]));
            return false;
        }
        let ghost before = prefix.deep_view();
        prefix.push(key[i].clone());
        proof {
            assert(prefix.deep_view() =~= before.push(key_view[i as int]));
            assert(key_view.take(i + 1) =~= key_view.take(i as int).push(key_view[i as int]));
        }
        i = i + 1;
    }
    let mut j: usize = 0;
    while j < n
        invariant
            j <= n,
            n == equality.len(),
            n <= key.len(),
            key_view == key.deep_view(),
            key_view.len() == key.len(),
            eq_view == equality.deep_view(),
            eq_view.len() == equality.len(),
            prefix.deep_view() == key_view.take(n as int),
            forall|k: int|
                0 <= k < j ==> key_view.take(n as int).contains(#[trigger] eq_view[k]),
        decreases n - j,
    {
        if !is_one_of(equality[j].as_str(), &prefix) {
            assert(!key_view.take(n as int).contains(eq_view[j as int]));
            return false;
        }
        j = j + 1;
    }
    true
}

/// The order in which the compared columns are named does not matter.
pub proof fn order_does_not_matter(
    catalog: &IndexCatalog,
    table: Seq<char>,
    a: Seq<Seq<char>>,
    b: Seq<Seq<char>>,
)
    requires
        a.len() == b.len(),
        forall|x: Seq<char>| #![auto] a.contains(x) <==> b.contains(x),
    ensures
        catalog.serves(table, a) == catalog.serves(table, b),
{
    assert forall|key: Seq<Seq<char>>| leads_with(key, a) == leads_with(key, b) by {
        if leads_with(key, a) {
            leads_with_any_order(key, a, b);
        }
        if leads_with(key, b) {
            leads_with_any_order(key, b, a);
        }
    }
}

proof fn leads_with_any_order(key: Seq<Seq<char>>, a: Seq<Seq<char>>, b: Seq<Seq<char>>)
    requires
        a.len() == b.len(),
        forall|x: Seq<char>| #![auto] a.contains(x) <==> b.contains(x),
        leads_with(key, a),
    ensures
        leads_with(key, b),
{
    assert forall|i: int| 0 <= i < b.len() implies b.contains(#[trigger] key[i]) by {
        assert(a.contains(key[i]));
    }
    assert forall|i: int| 0 <= i < b.len() implies key.take(b.len() as int).contains(
        #[trigger] b[i],
    ) by {
        assert(a.contains(b[i]));
        let j = choose|j: int| 0 <= j < a.len() && a[j] == b[i];
        assert(key.take(a.len() as int).contains(a[j]));
    }
}

/// An index more takes no query out of those that are served.
pub proof fn more_indexes_serve_more(
    few: &IndexCatalog,
    many: &IndexCatalog,
    table: Seq<char>,
    equality: Seq<Seq<char>>,
)
    requires
        forall|i: int|
            0 <= i < few.indexes.len() ==> many.indexes@.contains(#[trigger] few.indexes@[i]),
        few.serves(table, equality),
    ensures
        many.serves(table, equality),
{
    let i = choose|i: int|
        0 <= i < few.indexes.len() && (#[trigger] few.indexes@[i]).table@ == table && leads_with(
            few.indexes@[i].columns.deep_view(),
            equality,
        );
    assert(many.indexes@.contains(few.indexes@[i]));
}

/// Without an index on its table no query is served.
pub proof fn unindexed_is_not_served(
    catalog: &IndexCatalog,
    table: Seq<char>,
    equality: Seq<Seq<char>>,
)
    requires
        forall|i: int|
            0 <= i < catalog.indexes.len() ==> (#[trigger] catalog.indexes@[i]).table@ != table,
    ensures
        !catalog.serves(table, equality),
{
}

} // verus!
