//! The cursor that stands for those of all sort columns.

use vstd::prelude::*;
use vstd::string::*;

use crate::naming::{cased, to_case, NameCase};

verus! {

/// The names of the cursor that stands for those of all sort columns, and of
/// the choice of a sort column.
pub struct ComboCursor {
    pub ident: String,
    pub sort_by_name: String,
}

impl ComboCursor {
    /// The names that are derived from `name`.
    pub fn new(name: &str) -> (res: ComboCursor)
        ensures
            res.ident@ == cased(name@ + "_cursor"@, NameCase::UpperCamel),
            res.sort_by_name@ == cased(name@ + "_sort_by"@, NameCase::UpperCamel),
    {
        let ident = name.to_string().concat("_cursor");
        let sort_by = name.to_string().concat("_sort_by");
        ComboCursor {
            ident: to_case(ident.as_str(), NameCase::UpperCamel),
            sort_by_name: to_case(sort_by.as_str(), NameCase::UpperCamel),
        }
    }

    /// The name of the cursor.
    pub fn ident(&self) -> (res: &str)
        ensures
            res@ == self.ident@,
    {
        self.ident.as_str()
    }

    /// The name of the choice of a sort column.
    pub fn sort_by_name(&self) -> (res: &str)
        ensures
            res@ == self.sort_by_name@,
    {
        self.sort_by_name.as_str()
    }
}

} // verus!
