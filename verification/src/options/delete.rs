//! How a repository deletes its entities.

use vstd::prelude::*;

verus! {

/// How a repository deletes its entities.
#[derive(Clone, Copy, PartialEq, Eq, Structural, Debug)]
pub enum DeleteOption {
    /// Not at all.
    No,
    /// By a flag on the index row; queries that ignore the flag are emitted too.
    Soft,
    /// By a flag on the index row, without queries that ignore it.
    SoftWithoutQueries,
}

impl DeleteOption {
    pub open spec fn soft(self) -> bool {
        self != DeleteOption::No
    }

    /// What is added to the name of a function for this option.
    pub open spec fn postfix(self) -> Seq<char> {
        if self.soft() {
            "_include_deleted"@
        } else {
            ""@
        }
    }

    /// The condition that leaves deleted rows out.
    pub open spec fn not_deleted(self) -> Seq<char> {
        if self.soft() {
            " AND deleted = FALSE"@
        } else {
            ""@
        }
    }

    /// The options that query functions are emitted for.
    pub open spec fn variants(self) -> Seq<DeleteOption> {
        if self == DeleteOption::Soft {
            seq![DeleteOption::No, DeleteOption::Soft]
        } else {
            seq![DeleteOption::No]
        }
    }

    /// Whether entities are deleted by a flag.
    pub fn is_soft(self) -> (res: bool)
        ensures
            res == self.soft(),
    {
        match self {
            DeleteOption::No => false,
            DeleteOption::Soft | DeleteOption::SoftWithoutQueries => true,
        }
    }

    /// What is added to the name of a function for this option.
    pub fn include_deletion_fn_postfix(self) -> (res: &'static str)
        ensures
            res@ == self.postfix(),
    {
        if self.is_soft() {
            "_include_deleted"
        } else {
            ""
        }
    }

    /// The condition that leaves deleted rows out.
    pub fn not_deleted_condition(self) -> (res: &'static str)
        ensures
            res@ == self.not_deleted(),
    {
        if self.is_soft() {
            " AND deleted = FALSE"
        } else {
            ""
        }
    }

    /// The options that query functions are emitted for: all live rows, and
    /// under `Soft` the deleted ones as well.
    pub fn query_variants(self) -> (res: Vec<DeleteOption>)
        ensures
            res@ == self.variants(),
    {
        if self == DeleteOption::Soft {
            vec![DeleteOption::No, DeleteOption::Soft]
        } else {
            vec![DeleteOption::No]
        }
    }
}

} // verus!
