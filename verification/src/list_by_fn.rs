//! The functions that list entities page by page, sorted by a column.

use vstd::prelude::*;
use vstd::string::*;

use crate::instrument::{
    span_attr, span_attribute, trace, traced, ERROR_RECORDING, EXTRACT_HAS_CURSOR, RECORD_ENTITIES,
    RECORD_PAGE,
};
use crate::naming::{cased, to_case, NameCase};
use crate::options::column::Column;
use crate::options::columns::Pick;
use crate::options::delete::DeleteOption;
use crate::options::repository::{
    RepositoryOptions,
};
use crate::post_hydrate_hook::check_all_hydrated;
use crate::scope::{scope_parts, scope_texts, ScopeCol, ScopeInfo};
use crate::text::{given, join, joined, literal, only_if, param, param_text, quote, same};
use crate::types::{opt_str, opt_text};

verus! {

/// The views of the texts.
pub open spec fn texts(s: Seq<String>) -> Seq<Seq<char>> {
    Seq::new(s.len(), |i: int| s[i]@)
}

/// A branch of the query for a page: the condition on the parameters under
/// which it applies, and the condition on the rows.
pub type Branch = (Seq<char>, Option<Seq<char>>);

/// The views of the branches.
pub open spec fn branches_of(s: Seq<(String, Option<String>)>) -> Seq<Branch> {
    Seq::new(s.len(), |i: int| (s[i].0@, opt_text(s[i].1)))
}

/// The text in round brackets.
pub open spec fn in_brackets(s: Seq<char>) -> Seq<char> {
    "("@ + s + ")"@
}

/// The conditions of a branch: the leading ones, the one on the rows, the one
/// on the parameters, and the trailing ones. The condition on the rows comes
/// before the one on the parameters, so that the first use of a parameter
/// tells its type.
pub open spec fn branch_conditions(
    leading: Seq<Seq<char>>,
    branch: Branch,
    trailing: Seq<Seq<char>>,
) -> Seq<Seq<char>> {
    (match branch.1 {
        Some(predicate) => leading.push(in_brackets(predicate)),
        None => leading,
    }).push(in_brackets(branch.0)) + trailing
}

/// A branch of the query for a page.
pub open spec fn select_branch_code(
    select_columns: Seq<char>,
    table: Seq<char>,
    conditions: Seq<char>,
    order_by: Seq<char>,
    limit: Seq<char>,
) -> Seq<char> {
    "(SELECT "@ + select_columns + " FROM "@ + table + " WHERE "@ + conditions + " ORDER BY "@ + order_by + " LIMIT "@ + limit + ")"@
}

/// A branch of the query for a page.
fn select_branch(
    select_columns: &str,
    table: &str,
    conditions: &str,
    order_by: &str,
    limit: &str,
) -> (res: String)
    ensures
        res@ == select_branch_code(select_columns@, table@, conditions@, order_by@, limit@),
{
    "(SELECT ".to_string().concat(select_columns).concat(" FROM ").concat(table).concat(" WHERE ").concat(conditions).concat(" ORDER BY ").concat(order_by).concat(" LIMIT ").concat(limit).concat(")")
}

/// The branches, merged.
pub open spec fn merge_branches_code(
    branches: Seq<char>,
    order_by: Seq<char>,
    limit: Seq<char>,
) -> Seq<char> {
    branches + " ORDER BY "@ + order_by + " LIMIT "@ + limit
}

/// The branches, merged.
fn merge_branches(branches: &str, order_by: &str, limit: &str) -> (res: String)
    ensures
        res@ == merge_branches_code(branches@, order_by@, limit@),
{
    branches.to_string().concat(" ORDER BY ").concat(order_by).concat(" LIMIT ").concat(limit)
}

/// The branches of the query for a page.
pub open spec fn selects(
    select_columns: Seq<char>,
    table: Seq<char>,
    leading: Seq<Seq<char>>,
    branches: Seq<Branch>,
    trailing: Seq<Seq<char>>,
    order_by: Seq<char>,
    limit: nat,
) -> Seq<Seq<char>> {
    Seq::new(
        branches.len(),
        |i: int|
            select_branch_code(
                select_columns,
                table,
                joined(branch_conditions(leading, branches[i], trailing), " AND "@),
                order_by,
                param(limit),
            ),
    )
}

/// The query for a page: each branch is sorted and limited by itself, and the
/// branches are merged.
pub open spec fn union_select(
    select_columns: Seq<char>,
    table: Seq<char>,
    leading: Seq<Seq<char>>,
    branches: Seq<Branch>,
    trailing: Seq<Seq<char>>,
    order_by: Seq<char>,
    limit: nat,
) -> Seq<char> {
    merge_branches_code(
        joined(
            selects(select_columns, table, leading, branches, trailing, order_by, limit),
            " UNION ALL "@,
        ),
        order_by,
        param(limit),
    )
}

fn push_all(to: &mut Vec<String>, from: &[String])
    ensures
        final(to).deep_view() == old(to).deep_view() + texts(from@),
{
    let ghost start = to.deep_view();
    let mut i: usize = 0;
    while i < from.len()
        invariant
            i <= from.len(),
            start == old(to).deep_view(),
            to.deep_view() == start + texts(from@).take(i as int),
        decreases from.len() - i,
    {
        let ghost before = to.deep_view();
        to.push(from[i].clone());
        proof {
            assert(to.deep_view() =~= before.push(from@[i as int]@));
            assert(texts(from@).take(i + 1) =~= texts(from@).take(i as int).push(
                from@[i as int]@,
            ));
            assert(start + texts(from@).take(i + 1) =~= (start + texts(from@).take(
                i as int,
            )).push(from@[i as int]@));
        }
        i = i + 1;
    }
    assert(texts(from@).take(from.len() as int) =~= texts(from@));
}

/// The query for a page, made of one branch for each state of the cursor. Each
/// branch has the leading and the trailing conditions, its own order and its
/// own limit, the parameter `$limit_param_idx`; the whole is sorted and limited
/// again.
pub fn assemble_union_select(
    select_columns: &str,
    table_name: &str,
    leading: &[String],
    branches: &[(String, Option<String>)],
    trailing: &[String],
    order_by: &str,
    limit_param_idx: u32,
) -> (res: String)
    ensures
        res@ == union_select(
            select_columns@,
            table_name@,
            texts(leading@),
            branches_of(branches@),
            texts(trailing@),
            order_by@,
            limit_param_idx as nat,
        ),
{
    let limit = param_text(limit_param_idx as usize);
    let mut branch_sqls: Vec<String> = Vec::new();
    let mut i: usize = 0;
    let ghost all = selects(
        select_columns@,
        table_name@,
        texts(leading@),
        branches_of(branches@),
        texts(trailing@),
        order_by@,
        limit_param_idx as nat,
    );
    while i < branches.len()
        invariant
            i <= branches.len(),
            limit@ == param(limit_param_idx as nat),
            all == selects(
                select_columns@,
                table_name@,
                texts(leading@),
                branches_of(branches@),
                texts(trailing@),
                order_by@,
                limit_param_idx as nat,
            ),
            branch_sqls.len() == i,
            forall|j: int| 0 <= j < i ==> (#[trigger] branch_sqls@[j])@ == all[j],
        decreases branches.len() - i,
    {
        let branch = &branches[i];
        let mut conditions: Vec<String> = Vec::new();
        push_all(&mut conditions, leading);
        assert(conditions.deep_view() =~= texts(leading@));
        match &branch.1 {
            Some(predicate) => {
                let ghost before = conditions.deep_view();
                conditions.push("(".to_string().concat(predicate.as_str()).concat(")"));
                assert(conditions.deep_view() =~= before.push(in_brackets(predicate@)));
            },
            None => {},
        }
        let ghost before = conditions.deep_view();
        conditions.push("(".to_string().concat(branch.0.as_str()).concat(")"));
        assert(conditions.deep_view() =~= before.push(in_brackets(branch.0@)));
        push_all(&mut conditions, trailing);
        assert(conditions.deep_view() =~= branch_conditions(
            texts(leading@),
            branches_of(branches@)[i as int],
            texts(trailing@),
        ));
        branch_sqls.push(
            select_branch(
                select_columns,
                table_name,
                join(&conditions, " AND ").as_str(),
                order_by,
                limit.as_str(),
            ),
        );
        i = i + 1;
    }
    assert(branch_sqls.deep_view() =~= all);
    merge_branches(join(&branch_sqls, " UNION ALL ").as_str(), order_by, limit.as_str())
}

/// The condition that leaves deleted rows out, where rows are deleted by a
/// flag.
pub fn not_deleted_predicate(delete: DeleteOption) -> (res: Option<String>)
    ensures
        opt_text(res) == (if delete.soft() {
            Some("deleted = FALSE"@)
        } else {
            None
        }),
{
    if delete.is_soft() {
        Some("deleted = FALSE".to_string())
    } else {
        None
    }
}

/// The trailing conditions of a query: none where deleted rows are listed too.
pub open spec fn not_deleted(variant: DeleteOption, delete: DeleteOption) -> Seq<Seq<char>> {
    if variant == DeleteOption::No && delete.soft() {
        seq!["deleted = FALSE"@]
    } else {
        Seq::empty()
    }
}

/// The trailing conditions of a query.
pub fn not_deleted_conditions(variant: DeleteOption, delete: DeleteOption) -> (res: Vec<String>)
    ensures
        res.deep_view() == not_deleted(variant, delete),
        texts(res@) == not_deleted(variant, delete),
{
    let mut res: Vec<String> = Vec::new();
    if variant == DeleteOption::No {
        match not_deleted_predicate(delete) {
            Some(predicate) => res.push(predicate),
            None => {},
        }
    }
    assert(res.deep_view() =~= not_deleted(variant, delete));
    assert(texts(res@) =~= res.deep_view());
    res
}

/// The place in a sorted list that a page starts at.
#[derive(Clone, Copy, PartialEq, Eq, Structural)]
pub enum CursorState {
    /// The first page.
    First,
    /// Behind a row with a value of the column.
    After,
    /// Behind a row without a value of the column.
    AfterNull,
}

impl CursorState {
    /// Whether a page starts there, by whether the cursor's id and the
    /// cursor's value of the column are NULL. Without `nullable` the column
    /// has always a value.
    pub open spec fn applies(self, nullable: bool, id_is_null: bool, value_is_null: bool) -> bool {
        match self {
            CursorState::First => id_is_null,
            CursorState::After => !id_is_null && (!nullable || !value_is_null),
            CursorState::AfterNull => nullable && !id_is_null && value_is_null,
        }
    }
}

/// A cursor for the list that is sorted by a column.
pub struct CursorStruct<'a> {
    pub id: &'a str,
    pub entity: &'a str,
    pub column: &'a Column,
    pub cursor_mod: &'a str,
}

/// The comparison of rows with the cursor, in ascending or descending order.
pub open spec fn comparison(ascending: bool) -> Seq<char> {
    if ascending {
        ">"@
    } else {
        "<"@
    }
}

/// The statements that take a cursor apart.
pub open spec fn destructure_code(
    after_args: Seq<char>,
    after_destruction: Seq<char>,
    after_default: Seq<char>,
) -> Seq<char> {
    "let es_entity::PaginatedQueryArgs { first, after } = cursor;
let "@ + after_args + " = if let Some(after) = after {
    "@ + after_destruction + "
} else {
    "@ + after_default + "
};"@
}

/// The statements that take a cursor apart.
fn destructure(after_args: &str, after_destruction: &str, after_default: &str) -> (res: String)
    ensures
        res@ == destructure_code(after_args@, after_destruction@, after_default@),
{
    "let es_entity::PaginatedQueryArgs { first, after } = cursor;
let ".to_string().concat(after_args).concat(" = if let Some(after) = after {
    ").concat(after_destruction).concat("
} else {
    ").concat(after_default).concat("
};")
}

/// The conversions of a cursor to and from the text that GraphQL uses.
pub open spec fn gql_cursor_impl_code(ident: Seq<char>) -> Seq<char> {
    "impl es_entity::graphql::async_graphql::connection::CursorType for "@ + ident + " {
    type Error = String;
    fn encode_cursor(&self) -> String {
        use es_entity::graphql::base64::{engine::general_purpose, Engine as _};
        let json = es_entity::prelude::serde_json::to_string(&self).expect(\"could not serialize token\");
        general_purpose::STANDARD_NO_PAD.encode(json.as_bytes())
    }
    fn decode_cursor(s: &str) -> Result<Self, Self::Error> {
        use es_entity::graphql::base64::{engine::general_purpose, Engine as _};
        let bytes = general_purpose::STANDARD_NO_PAD
            .decode(s.as_bytes())
            .map_err(|e| e.to_string())?;
        let json = String::from_utf8(bytes).map_err(|e| e.to_string())?;
        es_entity::prelude::serde_json::from_str(&json).map_err(|e| e.to_string())
    }
}"@
}

/// The conversions of a cursor to and from the text that GraphQL uses.
pub fn gql_cursor_impl(ident: &str) -> (res: String)
    ensures
        res@ == gql_cursor_impl_code(ident@),
{
    "impl es_entity::graphql::async_graphql::connection::CursorType for ".to_string().concat(ident).concat(" {
    type Error = String;
    fn encode_cursor(&self) -> String {
        use es_entity::graphql::base64::{engine::general_purpose, Engine as _};
        let json = es_entity::prelude::serde_json::to_string(&self).expect(\"could not serialize token\");
        general_purpose::STANDARD_NO_PAD.encode(json.as_bytes())
    }
    fn decode_cursor(s: &str) -> Result<Self, Self::Error> {
        use es_entity::graphql::base64::{engine::general_purpose, Engine as _};
        let bytes = general_purpose::STANDARD_NO_PAD
            .decode(s.as_bytes())
            .map_err(|e| e.to_string())?;
        let json = String::from_utf8(bytes).map_err(|e| e.to_string())?;
        es_entity::prelude::serde_json::from_str(&json).map_err(|e| e.to_string())
    }
}")
}

/// The struct of a cursor.
pub open spec fn cursor_type_code(
    ident: Seq<char>,
    id: Seq<char>,
    field: Seq<char>,
    entity: Seq<char>,
    from_impl: Seq<char>,
) -> Seq<char> {
    "#[derive(Debug, serde::Serialize, serde::Deserialize)]
pub struct "@ + ident + " {
    pub id: "@ + id + ",
    "@ + field + "
}
impl From<&"@ + entity + "> for "@ + ident + " {
    fn from(entity: &"@ + entity + ") -> Self {
        Self {
            id: entity.id.clone(),
            "@ + from_impl + "
        }
    }
}"@
}

/// The struct of a cursor.
pub fn cursor_type(
    ident: &str,
    id: &str,
    field: &str,
    entity: &str,
    from_impl: &str,
) -> (res: String)
    ensures
        res@ == cursor_type_code(ident@, id@, field@, entity@, from_impl@),
{
    "#[derive(Debug, serde::Serialize, serde::Deserialize)]
pub struct ".to_string().concat(ident).concat(" {
    pub id: ").concat(id).concat(",
    ").concat(field).concat("
}
impl From<&").concat(entity).concat("> for ").concat(ident).concat(" {
    fn from(entity: &").concat(entity).concat(") -> Self {
        Self {
            id: entity.id.clone(),
            ").concat(from_impl).concat("
        }
    }
}")
}

/// The states of the cursor that the query has a branch for. The first
/// page comes last, because its branch does not tell the types of the
/// parameters.
pub open spec fn cursor_states(c: Column) -> Seq<CursorState> {
    if !c.opts.is_id && c.null_allowed() {
        seq![CursorState::After, CursorState::AfterNull, CursorState::First]
    } else {
        seq![CursorState::After, CursorState::First]
    }
}

/// The condition on the parameters of the id and of the column's value for
/// a state of the cursor.
pub open spec fn cursor_gate(c: Column, state: CursorState, id: nat, value: nat) -> Seq<char> {
    match state {
        CursorState::First => param(id) + " IS NULL"@,
        CursorState::After => if !c.opts.is_id && c.null_allowed() {
            param(id) + " IS NOT NULL AND "@ + param(value) + " IS NOT NULL"@
        } else {
            param(id) + " IS NOT NULL"@
        },
        CursorState::AfterNull => param(id) + " IS NOT NULL AND "@ + param(value)
            + " IS NULL"@,
    }
}

/// The condition on the rows for a state of the cursor.
pub open spec fn cursor_row_condition(
    c: Column,
    state: CursorState,
    id: nat,
    value: nat,
    ascending: bool,
) -> Option<Seq<char>> {
    let name = c.name@;
    let row = "("@ + name + ", id) "@ + comparison(ascending) + " ("@ + param(value) + ", "@
        + param(id) + ")"@;
    match state {
        CursorState::First => None,
        CursorState::After => Some(
            if c.opts.is_id {
                "id "@ + comparison(ascending) + " "@ + param(id)
            } else if c.null_allowed() && !ascending {
                "("@ + name + " IS NULL OR ("@ + name + ", id) < ("@ + param(value) + ", "@
                    + param(id) + "))"@
            } else {
                row
            },
        ),
        CursorState::AfterNull => Some(
            if ascending {
                "("@ + name + " IS NOT NULL OR id > "@ + param(id) + ")"@
            } else {
                "("@ + name + " IS NULL AND id < "@ + param(id) + ")"@
            },
        ),
    }
}

/// The branches of the query for a page, where the limit is the parameter
/// behind `$offset`, and the cursor those behind that.
pub open spec fn page_branches(c: Column, offset: nat, ascending: bool) -> Seq<Branch> {
    Seq::new(
        cursor_states(c).len(),
        |i: int|
            (
                cursor_gate(c, cursor_states(c)[i], offset + 2, offset + 3),
                cursor_row_condition(c, cursor_states(c)[i], offset + 2, offset + 3, ascending),
            ),
    )
}

impl<'a> CursorStruct<'a> {
    /// The name of the cursor.
    pub open spec fn named(&self) -> Seq<char> {
        cased(
            self.entity@ + "_by_"@ + self.column.name@ + "_cursor"@,
            NameCase::UpperCamel,
        )
    }

    /// The columns that are read: the id, the one that the list is sorted by,
    /// and the one that it is filtered by.
    pub open spec fn selected(&self, for_column: Option<Seq<char>>) -> Seq<char> {
        let front = match for_column {
            Some(f) => if self.column.name@ != f {
                f + ", "@
            } else {
                Seq::empty()
            },
            None => Seq::empty(),
        };
        if self.column.opts.is_id {
            front + "id"@
        } else {
            front + self.column.name@ + ", id"@
        }
    }

    /// The order of the list. A row without a value of the column counts as
    /// the least.
    pub open spec fn ordered(&self, ascending: bool) -> Seq<char> {
        let dir = if ascending {
            "ASC"@
        } else {
            "DESC"@
        };
        let nulls = if ascending {
            "FIRST"@
        } else {
            "LAST"@
        };
        if self.column.opts.is_id {
            "id "@ + dir
        } else if self.column.null_allowed() {
            self.column.name@ + " "@ + dir + " NULLS "@ + nulls + ", id "@ + dir
        } else {
            self.column.name@ + " "@ + dir + ", id "@ + dir
        }
    }

    pub open spec fn states(&self) -> Seq<CursorState> {
        cursor_states(*self.column)
    }

    /// The branches of the query for a page.
    pub open spec fn branches(&self, offset: nat, ascending: bool) -> Seq<Branch> {
        page_branches(*self.column, offset, ascending)
    }

    /// The arguments of the query that are the cursor.
    pub open spec fn cursor_args(&self) -> Seq<char> {
        if self.column.opts.is_id {
            "id as Option<"@ + self.id@ + ">,"@
        } else if self.column.optional() {
            "id as Option<"@ + self.id@ + ">, "@ + self.column.name@ + " as "@
                + self.column.opts.ty.text@ + ","@
        } else {
            "id as Option<"@ + self.id@ + ">, "@ + self.column.name@ + " as Option<"@
                + self.column.opts.ty.text@ + ">,"@
        }
    }

    /// The arguments of the query: the limit and the cursor.
    pub open spec fn query_args(&self) -> Seq<char> {
        "(first + 1) as i64, "@ + self.cursor_args()
    }

    /// The statements that take the cursor apart.
    pub open spec fn destructured(&self) -> Seq<char> {
        let name = self.column.name@;
        if self.column.opts.is_id {
            destructure_code("id"@, "Some(after.id)"@, "None"@)
        } else if self.column.optional() {
            destructure_code(
                "(id, "@ + name + ")"@,
                "(Some(after.id), after."@ + name + ")"@,
                "(None, None)"@,
            )
        } else {
            destructure_code(
                "(id, "@ + name + ")"@,
                "(Some(after.id), Some(after."@ + name + "))"@,
                "(None, None)"@,
            )
        }
    }

    /// The struct.
    #[verifier::opaque]
    pub open spec fn code(&self) -> Seq<char> {
        cursor_type_code(
            self.named(),
            self.id@,
            only_if(
                !self.column.opts.is_id,
                "pub "@ + self.column.name@ + ": "@ + self.column.opts.ty.text@ + ","@,
            ),
            self.entity@,
            only_if(
                !self.column.opts.is_id,
                self.column.name@ + ": entity."@ + self.column.opts.update_text(
                    self.column.name@,
                ) + ".clone(),"@,
            ),
        )
    }

    /// The name of the cursor.
    pub fn name(&self) -> (res: String)
        ensures
            res@ == self.named(),
    {
        let name = self.entity.to_string().concat("_by_").concat(self.column.name()).concat(
            "_cursor",
        );
        to_case(name.as_str(), NameCase::UpperCamel)
    }

    /// The name of the cursor.
    pub fn ident(&self) -> (res: String)
        ensures
            res@ == self.named(),
    {
        self.name()
    }

    /// The module of the cursor.
    pub fn cursor_mod(&self) -> (res: &str)
        ensures
            res@ == self.cursor_mod@,
    {
        self.cursor_mod
    }

    /// The columns that are read.
    pub fn select_columns(&self, for_column: Option<&str>) -> (res: String)
        ensures
            res@ == self.selected(opt_str(for_column)),
    {
        let front = match for_column {
            Some(f) => if !same(self.column.name(), f) {
                f.to_string().concat(", ")
            } else {
                String::new()
            },
            None => String::new(),
        };
        if self.column.is_id() {
            front.concat("id")
        } else {
            front.concat(self.column.name()).concat(", id")
        }
    }

    /// The order of the list.
    pub fn order_by(&self, ascending: bool) -> (res: String)
        ensures
            res@ == self.ordered(ascending),
    {
        let dir = if ascending {
            "ASC"
        } else {
            "DESC"
        };
        let nulls = if ascending {
            "FIRST"
        } else {
            "LAST"
        };
        if self.column.is_id() {
            "id ".to_string().concat(dir)
        } else if self.column.is_nullable_column() {
            self.column.name().to_string().concat(" ").concat(dir).concat(" NULLS ").concat(
                nulls,
            ).concat(", id ").concat(dir)
        } else {
            self.column.name().to_string().concat(" ").concat(dir).concat(", id ").concat(dir)
        }
    }

    fn row_condition_text(
        &self,
        state: CursorState,
        id: usize,
        value: usize,
        ascending: bool,
    ) -> (res: Option<String>)
        ensures
            opt_text(res) == cursor_row_condition(*self.column, state, id as nat, value as nat, ascending),
    {
        let name = self.column.name();
        let comp = if ascending {
            ">"
        } else {
            "<"
        };
        let id_param = param_text(id);
        let value_param = param_text(value);
        match state {
            CursorState::First => None,
            CursorState::After => {
                if self.column.is_id() {
                    Some(
                        "id ".to_string().concat(comp).concat(" ").concat(id_param.as_str()),
                    )
                } else if self.column.is_nullable_column() && !ascending {
                    Some(
                        "(".to_string().concat(name).concat(" IS NULL OR (").concat(name).concat(
                            ", id) < (",
                        ).concat(value_param.as_str()).concat(", ").concat(
                            id_param.as_str(),
                        ).concat("))"),
                    )
                } else {
                    Some(
                        "(".to_string().concat(name).concat(", id) ").concat(comp).concat(
                            " (",
                        ).concat(value_param.as_str()).concat(", ").concat(
                            id_param.as_str(),
                        ).concat(")"),
                    )
                }
            },
            CursorState::AfterNull => {
                if ascending {
                    Some(
                        "(".to_string().concat(name).concat(" IS NOT NULL OR id > ").concat(
                            id_param.as_str(),
                        ).concat(")"),
                    )
                } else {
                    Some(
                        "(".to_string().concat(name).concat(" IS NULL AND id < ").concat(
                            id_param.as_str(),
                        ).concat(")"),
                    )
                }
            },
        }
    }

    fn gate_text(&self, state: CursorState, id: usize, value: usize) -> (res: String)
        ensures
            res@ == cursor_gate(*self.column, state, id as nat, value as nat),
    {
        let id_param = param_text(id);
        let value_param = param_text(value);
        match state {
            CursorState::First => id_param.concat(" IS NULL"),
            CursorState::After => {
                if !self.column.is_id() && self.column.is_nullable_column() {
                    id_param.concat(" IS NOT NULL AND ").concat(value_param.as_str()).concat(
                        " IS NOT NULL",
                    )
                } else {
                    id_param.concat(" IS NOT NULL")
                }
            },
            CursorState::AfterNull => id_param.concat(" IS NOT NULL AND ").concat(
                value_param.as_str(),
            ).concat(" IS NULL"),
        }
    }

    /// The branches of the query for a page: one for each state of the cursor,
    /// as the condition on the parameters under which it applies and the
    /// condition on the rows. The first page needs none on the rows, and its
    /// branch comes last.
    pub fn cursor_branches(&self, offset: u32, ascending: bool) -> (res: Vec<
        (String, Option<String>),
    >)
        requires
            offset + 3 <= u32::MAX,
        ensures
            branches_of(res@) == self.branches(offset as nat, ascending),
    {
        let states = if !self.column.is_id() && self.column.is_nullable_column() {
            vec![CursorState::After, CursorState::AfterNull, CursorState::First]
        } else {
            vec![CursorState::After, CursorState::First]
        };
        assert(states@ =~= self.states());
        let id: usize = (offset + 2) as usize;
        let value: usize = (offset + 3) as usize;
        let mut res: Vec<(String, Option<String>)> = Vec::new();
        let mut i: usize = 0;
        while i < states.len()
            invariant
                i <= states.len(),
                states@ == self.states(),
                id == offset + 2,
                value == offset + 3,
                res.len() == i,
                forall|j: int|
                    0 <= j < i ==> ((#[trigger] res@[j]).0@, opt_text(res@[j].1)) == self.branches(
                        offset as nat,
                        ascending,
                    )[j],
            decreases states.len() - i,
        {
            let state = states[i];
            res.push(
                (
                    self.gate_text(state, id, value),
                    self.row_condition_text(state, id, value, ascending),
                ),
            );
            i = i + 1;
        }
        assert(branches_of(res@) =~= self.branches(offset as nat, ascending));
        res
    }

    /// The arguments of the query that are the cursor: its id, and its value
    /// of the column.
    pub fn cursor_arg_tokens(&self) -> (res: String)
        ensures
            res@ == self.cursor_args(),
    {
        let name = self.column.name();
        let ty = self.column.ty().text.as_str();
        if self.column.is_id() {
            "id as Option<".to_string().concat(self.id).concat(">,")
        } else if self.column.is_optional() {
            "id as Option<".to_string().concat(self.id).concat(">, ").concat(name).concat(
                " as ",
            ).concat(ty).concat(",")
        } else {
            "id as Option<".to_string().concat(self.id).concat(">, ").concat(name).concat(
                " as Option<",
            ).concat(ty).concat(">,")
        }
    }

    /// The arguments of the query: the limit and the cursor.
    pub fn query_arg_tokens(&self) -> (res: String)
        ensures
            res@ == self.query_args(),
    {
        "(first + 1) as i64, ".to_string().concat(self.cursor_arg_tokens().as_str())
    }

    /// The statements that take the cursor apart.
    pub fn destructure_tokens(&self) -> (res: String)
        ensures
            res@ == self.destructured(),
    {
        let name = self.column.name();
        if self.column.is_id() {
            destructure("id", "Some(after.id)", "None")
        } else {
            let after_args = "(id, ".to_string().concat(name).concat(")");
            let after_destruction = if self.column.is_optional() {
                "(Some(after.id), after.".to_string().concat(name).concat(")")
            } else {
                "(Some(after.id), Some(after.".to_string().concat(name).concat("))")
            };
            destructure(after_args.as_str(), after_destruction.as_str(), "(None, None)")
        }
    }

    /// The conversions of the cursor to and from the text that GraphQL uses.
    pub fn gql_cursor(&self) -> (res: String)
        ensures
            res@ == gql_cursor_impl_code(self.named()),
    {
        gql_cursor_impl(self.ident().as_str())
    }

    /// Appends the struct.
    pub fn to_tokens(&self, tokens: &mut String)
        ensures
            final(tokens)@ == old(tokens)@ + self.code(),
    {
        proof {
            reveal(CursorStruct::code);
        }
        let name = self.column.name();
        let field = "pub ".to_string().concat(name).concat(": ").concat(
            self.column.ty().text.as_str(),
        ).concat(",");
        let from_impl = name.to_string().concat(": entity.").concat(
            self.column.accessor().as_str(),
        ).concat(".clone(),");
        let code = cursor_type(
            self.ident().as_str(),
            self.id,
            given(!self.column.is_id(), field.as_str()).as_str(),
            self.entity,
            given(!self.column.is_id(), from_impl.as_str()).as_str(),
        );
        tokens.append(code.as_str());
    }
}

/// Whatever the cursor is, exactly one branch of the query applies.
pub proof fn one_branch_applies(cursor: &CursorStruct, id_is_null: bool, value_is_null: bool)
    ensures
        exists|i: int|
            0 <= i < cursor.states().len() && (#[trigger] cursor.states()[i]).applies(
                !cursor.column.opts.is_id && cursor.column.null_allowed(),
                id_is_null,
                value_is_null,
            ),
        forall|i: int, j: int|
            0 <= i < cursor.states().len() && 0 <= j < cursor.states().len() && (
            #[trigger] cursor.states()[i]).applies(
                !cursor.column.opts.is_id && cursor.column.null_allowed(),
                id_is_null,
                value_is_null,
            ) && (#[trigger] cursor.states()[j]).applies(
                !cursor.column.opts.is_id && cursor.column.null_allowed(),
                id_is_null,
                value_is_null,
            ) ==> i == j,
{
    let nullable = !cursor.column.opts.is_id && cursor.column.null_allowed();
    let states = cursor.states();
    if id_is_null {
        assert(states[states.len() - 1].applies(nullable, id_is_null, value_is_null));
    } else if nullable && value_is_null {
        assert(states[1].applies(nullable, id_is_null, value_is_null));
    } else {
        assert(states[0].applies(nullable, id_is_null, value_is_null));
    }
}

/// The branch for the first page comes last, and it alone has no condition on
/// the rows. There are two branches, and three for a column that can hold
/// NULL.
pub proof fn first_page_comes_last(cursor: &CursorStruct, offset: nat, ascending: bool)
    ensures
        cursor.branches(offset, ascending).len() == (if !cursor.column.opts.is_id
            && cursor.column.null_allowed() {
            3nat
        } else {
            2nat
        }),
        cursor.branches(offset, ascending).last() == (
            param(offset + 2) + " IS NULL"@,
            None::<Seq<char>>,
        ),
        forall|i: int|
            0 <= i < cursor.branches(offset, ascending).len() - 1 ==> (#[trigger] cursor.branches(
                offset,
                ascending,
            )[i]).1 is Some,
{
}

/// The functions that list entities sorted by a column.
pub struct ListByFn<'a> {
    pub ignore_prefix: Option<&'a str>,
    pub id: &'a str,
    pub entity: &'a str,
    pub column: &'a Column,
    pub table_name: &'a str,
    pub query_error: String,
    pub delete: DeleteOption,
    pub cursor_mod: String,
    pub any_nested: bool,
    pub is_root: bool,
    pub post_hydrate_error: Option<&'a str>,
    pub forgettable_table_name: Option<&'a str>,
    pub scope: Option<ScopeInfo<'a>>,
    /// The repository's name in the spans, where functions are traced.
    pub repo_name_snake: Option<String>,
}

/// A query of a repository's entities.
pub open spec fn es_query_code(
    subject: Seq<char>,
    forgettable_tbl_arg: Seq<char>,
    extra_arg: Seq<char>,
    query: Seq<char>,
    args: Seq<char>,
) -> Seq<char> {
    "es_entity::es_query!(
    "@ + subject + "
    "@ + forgettable_tbl_arg + "
    "@ + extra_arg + "
    "@ + query + ",
    "@ + args + "
)"@
}

/// A query of a repository's entities.
pub fn es_query(
    subject: &str,
    forgettable_tbl_arg: &str,
    extra_arg: &str,
    query: &str,
    args: &str,
) -> (res: String)
    ensures
        res@ == es_query_code(subject@, forgettable_tbl_arg@, extra_arg@, query@, args@),
{
    "es_entity::es_query!(
    ".to_string().concat(subject).concat("
    ").concat(forgettable_tbl_arg).concat("
    ").concat(extra_arg).concat("
    ").concat(query).concat(",
    ").concat(args).concat("
)")
}

/// What a query is about: the entity, or the tables with a prefix.
pub open spec fn query_subject(prefix: Option<Seq<char>>, entity: Seq<char>) -> Seq<char> {
    match prefix {
        Some(prefix) => "tbl_prefix = "@ + literal(prefix) + ","@,
        None => "entity = "@ + entity + ","@,
    }
}

/// The table of the payloads, for a query.
pub open spec fn forgettable_arg(table: Option<Seq<char>>) -> Seq<char> {
    match table {
        Some(table) => "forgettable_tbl = "@ + literal(table) + ","@,
        None => Seq::empty(),
    }
}

/// What a query is about.
pub fn query_subject_text(prefix: Option<&str>, entity: &str) -> (res: String)
    ensures
        res@ == query_subject(opt_str(prefix), entity@),
{
    match prefix {
        Some(prefix) => "tbl_prefix = ".to_string().concat(quote(prefix).as_str()).concat(","),
        None => "entity = ".to_string().concat(entity).concat(","),
    }
}

/// The table of the payloads, for a query.
pub fn forgettable_arg_text(table: Option<&str>) -> (res: String)
    ensures
        res@ == forgettable_arg(opt_str(table)),
{
    match table {
        Some(table) => "forgettable_tbl = ".to_string().concat(quote(table).as_str()).concat(","),
        None => String::new(),
    }
}

/// The query for one direction.
pub open spec fn direction_arm_code(direction: Seq<char>, es_query: Seq<char>) -> Seq<char> {
    "es_entity::ListDirection::"@ + direction + " => {
    "@ + es_query + ".fetch_n(op, first).await?
},"@
}

/// The query for one direction.
pub fn direction_arm(direction: &str, es_query: &str) -> (res: String)
    ensures
        res@ == direction_arm_code(direction@, es_query@),
{
    "es_entity::ListDirection::".to_string().concat(direction).concat(" => {
    ").concat(es_query).concat(".fetch_n(op, first).await?
},")
}

/// The choice of a query by the direction.
pub open spec fn direction_match_code(arms: Seq<char>) -> Seq<char> {
    "match direction {
    "@ + arms + "
}"@
}

/// The choice of a query by the direction.
pub fn direction_match(arms: &str) -> (res: String)
    ensures
        res@ == direction_match_code(arms@),
{
    "match direction {
    ".to_string().concat(arms).concat("
}")
}

/// The functions of the view that is bound to a scope.
pub open spec fn list_by_delegates_code(
    fn_name: Seq<char>,
    fn_in_op: Seq<char>,
    cursor_mod: Seq<char>,
    cursor_ident: Seq<char>,
    entity: Seq<char>,
    query_error: Seq<char>,
    query_fn_generics: Seq<char>,
    query_fn_op_arg: Seq<char>,
    query_fn_op_traits: Seq<char>,
) -> Seq<char> {
    "pub async fn "@ + fn_name + "(
    &self,
    cursor: es_entity::PaginatedQueryArgs<"@ + cursor_mod + "::"@ + cursor_ident + ">,
    direction: es_entity::ListDirection,
) -> Result<es_entity::PaginatedQueryRet<"@ + entity + ", "@ + cursor_mod + "::"@ + cursor_ident + ">, "@ + query_error + "> {
    self.repo."@ + fn_name + "(self.scope, cursor, direction).await
}
pub async fn "@ + fn_in_op + " "@ + query_fn_generics + "(
    &self,
    "@ + query_fn_op_arg + ",
    cursor: es_entity::PaginatedQueryArgs<"@ + cursor_mod + "::"@ + cursor_ident + ">,
    direction: es_entity::ListDirection,
) -> Result<es_entity::PaginatedQueryRet<"@ + entity + ", "@ + cursor_mod + "::"@ + cursor_ident + ">, "@ + query_error + ">
   where
       OP: "@ + query_fn_op_traits + "
{
    self.repo."@ + fn_in_op + "(op, self.scope, cursor, direction).await
}"@
}

/// The functions of the view that is bound to a scope.
pub fn list_by_delegates(
    fn_name: &str,
    fn_in_op: &str,
    cursor_mod: &str,
    cursor_ident: &str,
    entity: &str,
    query_error: &str,
    query_fn_generics: &str,
    query_fn_op_arg: &str,
    query_fn_op_traits: &str,
) -> (res: String)
    ensures
        res@ == list_by_delegates_code(
            fn_name@,
            fn_in_op@,
            cursor_mod@,
            cursor_ident@,
            entity@,
            query_error@,
            query_fn_generics@,
            query_fn_op_arg@,
            query_fn_op_traits@,
        ),
{
    "pub async fn ".to_string().concat(fn_name).concat("(
    &self,
    cursor: es_entity::PaginatedQueryArgs<").concat(cursor_mod).concat("::").concat(cursor_ident).concat(">,
    direction: es_entity::ListDirection,
) -> Result<es_entity::PaginatedQueryRet<").concat(entity).concat(", ").concat(cursor_mod).concat("::").concat(cursor_ident).concat(">, ").concat(query_error).concat("> {
    self.repo.").concat(fn_name).concat("(self.scope, cursor, direction).await
}
pub async fn ").concat(fn_in_op).concat(" ").concat(query_fn_generics).concat("(
    &self,
    ").concat(query_fn_op_arg).concat(",
    cursor: es_entity::PaginatedQueryArgs<").concat(cursor_mod).concat("::").concat(cursor_ident).concat(">,
    direction: es_entity::ListDirection,
) -> Result<es_entity::PaginatedQueryRet<").concat(entity).concat(", ").concat(cursor_mod).concat("::").concat(cursor_ident).concat(">, ").concat(query_error).concat(">
   where
       OP: ").concat(query_fn_op_traits).concat("
{
    self.repo.").concat(fn_in_op).concat("(op, self.scope, cursor, direction).await
}")
}

/// The functions.
pub open spec fn list_by_fns_code(
    fn_name: Seq<char>,
    fn_in_op: Seq<char>,
    scope_fn_arg: Seq<char>,
    cursor_mod: Seq<char>,
    cursor_ident: Seq<char>,
    entity: Seq<char>,
    query_error: Seq<char>,
    query_fn_get_op: Seq<char>,
    scope_fn_pass: Seq<char>,
    instrument_attr: Seq<char>,
    query_fn_generics: Seq<char>,
    query_fn_op_arg: Seq<char>,
    query_fn_op_traits: Seq<char>,
    scope_convert: Seq<char>,
    extract_has_cursor: Seq<char>,
    destructure_tokens: Seq<char>,
    record_fields: Seq<char>,
    match_expr: Seq<char>,
    post_hydrate_check: Seq<char>,
    record_results: Seq<char>,
    error_recording: Seq<char>,
) -> Seq<char> {
    "pub async fn "@ + fn_name + "(
    &self,
    "@ + scope_fn_arg + "
    cursor: es_entity::PaginatedQueryArgs<"@ + cursor_mod + "::"@ + cursor_ident + ">,
    direction: es_entity::ListDirection,
) -> Result<es_entity::PaginatedQueryRet<"@ + entity + ", "@ + cursor_mod + "::"@ + cursor_ident + ">, "@ + query_error + "> {
    self."@ + fn_in_op + "("@ + query_fn_get_op + ", "@ + scope_fn_pass + " cursor, direction).await
}
"@ + instrument_attr + "
pub async fn "@ + fn_in_op + " "@ + query_fn_generics + "(
    &self,
    "@ + query_fn_op_arg + ",
    "@ + scope_fn_arg + "
    cursor: es_entity::PaginatedQueryArgs<"@ + cursor_mod + "::"@ + cursor_ident + ">,
    direction: es_entity::ListDirection,
) -> Result<es_entity::PaginatedQueryRet<"@ + entity + ", "@ + cursor_mod + "::"@ + cursor_ident + ">, "@ + query_error + ">
   where
       OP: "@ + query_fn_op_traits + "
 {
    let __result: Result<es_entity::PaginatedQueryRet<"@ + entity + ", "@ + cursor_mod + "::"@ + cursor_ident + ">, "@ + query_error + "> = async {
        "@ + scope_convert + "
        "@ + extract_has_cursor + "
        "@ + destructure_tokens + "
        "@ + record_fields + "
        let (entities, has_next_page) = "@ + match_expr + ";
        "@ + post_hydrate_check + "
        "@ + record_results + "
        let end_cursor = entities.last().map("@ + cursor_mod + "::"@ + cursor_ident + "::from);
        Ok(es_entity::PaginatedQueryRet {
            entities,
            has_next_page,
            end_cursor,
        })
    }.await;
    "@ + error_recording + "
    __result
}"@
}

/// The functions.
pub fn list_by_fns(
    fn_name: &str,
    fn_in_op: &str,
    scope_fn_arg: &str,
    cursor_mod: &str,
    cursor_ident: &str,
    entity: &str,
    query_error: &str,
    query_fn_get_op: &str,
    scope_fn_pass: &str,
    instrument_attr: &str,
    query_fn_generics: &str,
    query_fn_op_arg: &str,
    query_fn_op_traits: &str,
    scope_convert: &str,
    extract_has_cursor: &str,
    destructure_tokens: &str,
    record_fields: &str,
    match_expr: &str,
    post_hydrate_check: &str,
    record_results: &str,
    error_recording: &str,
) -> (res: String)
    ensures
        res@ == list_by_fns_code(
            fn_name@,
            fn_in_op@,
            scope_fn_arg@,
            cursor_mod@,
            cursor_ident@,
            entity@,
            query_error@,
            query_fn_get_op@,
            scope_fn_pass@,
            instrument_attr@,
            query_fn_generics@,
            query_fn_op_arg@,
            query_fn_op_traits@,
            scope_convert@,
            extract_has_cursor@,
            destructure_tokens@,
            record_fields@,
            match_expr@,
            post_hydrate_check@,
            record_results@,
            error_recording@,
        ),
{
    "pub async fn ".to_string().concat(fn_name).concat("(
    &self,
    ").concat(scope_fn_arg).concat("
    cursor: es_entity::PaginatedQueryArgs<").concat(cursor_mod).concat("::").concat(cursor_ident).concat(">,
    direction: es_entity::ListDirection,
) -> Result<es_entity::PaginatedQueryRet<").concat(entity).concat(", ").concat(cursor_mod).concat("::").concat(cursor_ident).concat(">, ").concat(query_error).concat("> {
    self.").concat(fn_in_op).concat("(").concat(query_fn_get_op).concat(", ").concat(scope_fn_pass).concat(" cursor, direction).await
}
").concat(instrument_attr).concat("
pub async fn ").concat(fn_in_op).concat(" ").concat(query_fn_generics).concat("(
    &self,
    ").concat(query_fn_op_arg).concat(",
    ").concat(scope_fn_arg).concat("
    cursor: es_entity::PaginatedQueryArgs<").concat(cursor_mod).concat("::").concat(cursor_ident).concat(">,
    direction: es_entity::ListDirection,
) -> Result<es_entity::PaginatedQueryRet<").concat(entity).concat(", ").concat(cursor_mod).concat("::").concat(cursor_ident).concat(">, ").concat(query_error).concat(">
   where
       OP: ").concat(query_fn_op_traits).concat("
 {
    let __result: Result<es_entity::PaginatedQueryRet<").concat(entity).concat(", ").concat(cursor_mod).concat("::").concat(cursor_ident).concat(">, ").concat(query_error).concat("> = async {
        ").concat(scope_convert).concat("
        ").concat(extract_has_cursor).concat("
        ").concat(destructure_tokens).concat("
        ").concat(record_fields).concat("
        let (entities, has_next_page) = ").concat(match_expr).concat(";
        ").concat(post_hydrate_check).concat("
        ").concat(record_results).concat("
        let end_cursor = entities.last().map(").concat(cursor_mod).concat("::").concat(cursor_ident).concat("::from);
        Ok(es_entity::PaginatedQueryRet {
            entities,
            has_next_page,
            end_cursor,
        })
    }.await;
    ").concat(error_recording).concat("
    __result
}")
}

impl<'a> ListByFn<'a> {
    pub open spec fn cursor_spec(&self) -> CursorStruct<'a> {
        CursorStruct {
            column: self.column,
            id: self.id,
            entity: self.entity,
            cursor_mod: "",
        }
    }

    /// The name of the function for a variant.
    pub open spec fn fn_name(&self, variant: DeleteOption) -> Seq<char> {
        "list_by_"@ + self.column.name@ + variant.postfix()
    }

    /// The query for one direction, restricted to a scope where one is given.
    pub open spec fn query(
        &self,
        variant: DeleteOption,
        scope: Option<ScopeCol>,
        ascending: bool,
    ) -> Seq<char> {
        let cursor = self.cursor_spec();
        let offset = if scope is Some {
            1nat
        } else {
            0nat
        };
        union_select(
            cursor.selected(None),
            self.table_name@,
            match scope {
                Some(col) => seq![col.condition(1)],
                None => Seq::empty(),
            },
            cursor.branches(offset, ascending),
            not_deleted(variant, self.delete),
            cursor.ordered(ascending),
            offset + 1,
        )
    }

    /// The call of the query for one direction.
    pub open spec fn call(
        &self,
        variant: DeleteOption,
        scope: Option<ScopeCol>,
        ascending: bool,
    ) -> Seq<char> {
        es_query_code(
            query_subject(opt_str(self.ignore_prefix), self.entity@),
            forgettable_arg(opt_str(self.forgettable_table_name)),
            only_if(self.is_root, "root = true,"@),
            literal(self.query(variant, scope, ascending)),
            (match scope {
                Some(col) => col.arg() + " "@,
                None => Seq::empty(),
            }) + self.cursor_spec().query_args(),
        )
    }

    /// The choice of the query by the direction.
    pub open spec fn arms(&self, variant: DeleteOption, scope: Option<ScopeCol>) -> Seq<char> {
        direction_match_code(
            direction_arm_code("Ascending"@, self.call(variant, scope, true)) + "\n"@
                + direction_arm_code("Descending"@, self.call(variant, scope, false)),
        )
    }

    /// The choice of the query by the scope and the direction.
    pub open spec fn match_code(&self, variant: DeleteOption) -> Seq<char> {
        match self.scope {
            Some(info) => info.dispatched(
                self.arms(variant, None),
                Seq::new(
                    info.cols.len() as nat,
                    |i: int| self.arms(variant, Some(info.cols@[i])),
                ),
            ),
            None => self.arms(variant, None),
        }
    }

    /// The functions for a variant.
    #[verifier::opaque]
    pub open spec fn variant_code(&self, variant: DeleteOption) -> Seq<char> {
        let cursor = self.cursor_spec();
        let scope = scope_parts(self.scope);
        let prefix = opt_text(self.repo_name_snake);
        list_by_fns_code(
            self.fn_name(variant),
            self.fn_name(variant) + "_in_op"@,
            scope.0,
            self.cursor_mod@,
            cursor.named(),
            self.entity@,
            self.query_error@,
            crate::options::repository::query_get_op(self.any_nested),
            scope.1,
            span_attr(prefix, "list_by_"@ + self.column.name@, self.entity@, LIST_FIELDS@),
            crate::options::repository::query_generics(self.any_nested),
            crate::options::repository::query_op_arg(self.any_nested),
            crate::options::repository::query_op_traits(self.any_nested),
            scope.2,
            traced(prefix, EXTRACT_HAS_CURSOR@),
            cursor.destructured(),
            traced(prefix, RECORD_PAGE@),
            self.match_code(variant),
            only_if(
                self.post_hydrate_error is Some,
                crate::post_hydrate_hook::check_all_hydrated_code(self.query_error@),
            ),
            traced(prefix, RECORD_ENTITIES@),
            traced(prefix, ERROR_RECORDING@),
        )
    }

    /// The functions: those that list live entities, and where deleted ones
    /// can be listed those that do so.
    #[verifier::opaque]
    pub open spec fn code(&self) -> Seq<char> {
        joined(
            Seq::new(
                self.delete.variants().len(),
                |i: int| self.variant_code(self.delete.variants()[i]),
            ),
            "\n"@,
        )
    }

    /// The functions of the view that is bound to a scope, for a variant.
    pub open spec fn delegate_code(&self, variant: DeleteOption) -> Seq<char> {
        list_by_delegates_code(
            self.fn_name(variant),
            self.fn_name(variant) + "_in_op"@,
            self.cursor_mod@,
            self.cursor_spec().named(),
            self.entity@,
            self.query_error@,
            crate::options::repository::query_generics(self.any_nested),
            crate::options::repository::query_op_arg(self.any_nested),
            crate::options::repository::query_op_traits(self.any_nested),
        )
    }

    /// The functions of the view that is bound to a scope.
    #[verifier::opaque]
    pub open spec fn delegates(&self) -> Seq<char> {
        if self.scope is None {
            Seq::empty()
        } else {
            joined(
                Seq::new(
                    self.delete.variants().len(),
                    |i: int| self.delegate_code(self.delete.variants()[i]),
                ),
                "\n"@,
            )
        }
    }

    /// Whether this is what the options of a repository ask for.
    pub open spec fn made_from(&self, column: &Column, opts: &RepositoryOptions) -> bool {
        &&& opt_str(self.ignore_prefix) == opt_text(opts.prefix)
        &&& self.column == column
        &&& self.id@ == opts.id_text()
        &&& self.entity@ == opts.entity_ident@
        &&& self.table_name@ == opts.table_text()
        &&& self.query_error@ == opts.entity_ident@ + "QueryError"@
        &&& self.delete == opts.delete
        &&& self.cursor_mod@ == cased(opts.entity_ident@ + "Cursor"@, NameCase::Snake)
        &&& self.any_nested == (opts.nested().len() > 0)
        &&& self.is_root == opts.root()
        &&& opt_str(self.post_hydrate_error) == opts.hydrate_error()
        &&& opt_str(self.forgettable_table_name) == opts.forgettable_table()
        &&& self.scope is Some <==> opts.columns.picks(Pick::Scope).len() > 0
        &&& self.scope matches Some(info) ==> info.scope_of(opts)
        &&& opt_text(self.repo_name_snake) == opts.span_prefix()
    }

    /// The functions that list a repository's entities sorted by a column.
    pub fn new(column: &'a Column, opts: &'a RepositoryOptions) -> (res: Self)
        requires
            opts.ready(),
            opts.is_struct(),
        ensures
            res.made_from(column, opts),
    {
        ListByFn {
            ignore_prefix: opts.table_prefix(),
            column,
            id: opts.id(),
            entity: opts.entity(),
            table_name: opts.table_name(),
            query_error: opts.query_error(),
            delete: opts.delete,
            cursor_mod: opts.cursor_mod(),
            any_nested: opts.any_nested(),
            is_root: opts.is_root(),
            post_hydrate_error: opts.post_hydrate_error(),
            forgettable_table_name: opts.forgettable_table_name(),
            scope: ScopeInfo::from_opts(opts),
            repo_name_snake: opts.instrumented_as(),
        }
    }

    /// The cursor of the list.
    pub fn cursor(&self) -> (res: CursorStruct<'_>)
        ensures
            res.column == self.column,
            res.id@ == self.id@,
            res.entity@ == self.entity@,
            res.cursor_mod@ == self.cursor_mod@,
    {
        CursorStruct {
            column: self.column,
            id: self.id,
            entity: self.entity,
            cursor_mod: self.cursor_mod.as_str(),
        }
    }

    fn function_name(&self, variant: DeleteOption) -> (res: String)
        ensures
            res@ == self.fn_name(variant),
    {
        "list_by_".to_string().concat(self.column.name()).concat(
            variant.include_deletion_fn_postfix(),
        )
    }

    /// The functions of the view that is bound to a scope; none without a
    /// scope.
    pub fn scoped_delegates(&self) -> (res: String)
        ensures
            res@ == self.delegates(),
    {
        proof {
            reveal(ListByFn::delegates);
        }
        if self.scope.is_none() {
            return String::new();
        }
        let cursor_ident = self.cursor().ident();
        let variants = self.delete.query_variants();
        let mut parts: Vec<String> = Vec::new();
        let mut i: usize = 0;
        while i < variants.len()
            invariant
                i <= variants.len(),
                variants@ == self.delete.variants(),
                cursor_ident@ == self.cursor_spec().named(),
                parts.len() == i,
                forall|j: int|
                    0 <= j < i ==> (#[trigger] parts@[j])@ == self.delegate_code(variants@[j]),
            decreases variants.len() - i,
        {
            let fn_name = self.function_name(variants[i]);
            let fn_in_op = fn_name.clone().concat("_in_op");
            parts.push(
                list_by_delegates(
                    fn_name.as_str(),
                    fn_in_op.as_str(),
                    self.cursor_mod.as_str(),
                    cursor_ident.as_str(),
                    self.entity,
                    self.query_error.as_str(),
                    RepositoryOptions::query_fn_generics(self.any_nested),
                    RepositoryOptions::query_fn_op_arg(self.any_nested),
                    RepositoryOptions::query_fn_op_traits(self.any_nested),
                ),
            );
            i = i + 1;
        }
        assert(parts.deep_view() =~= Seq::new(
            self.delete.variants().len(),
            |i: int| self.delegate_code(self.delete.variants()[i]),
        ));
        join(&parts, "\n")
    }

    fn call_text(&self, variant: DeleteOption, scope: Option<&ScopeCol<'a>>, ascending: bool) -> (res:
        String)
        ensures
            res@ == self.call(
                variant,
                match scope {
                    Some(col) => Some(*col),
                    None => None,
                },
                ascending,
            ),
    {
        let cursor = self.cursor();
        let offset: u32 = if scope.is_some() {
            1
        } else {
            0
        };
        let mut leading: Vec<String> = Vec::new();
        let mut args = String::new();
        match scope {
            Some(col) => {
                leading.push(col.predicate(1));
                args.append(col.arg_tokens().as_str());
                args.append(" ");
                assert(args@ =~= col.arg() + " "@);
                assert(texts(leading@) =~= seq![col.condition(1)]);
            },
            None => {
                assert(texts(leading@) =~= Seq::<Seq<char>>::empty());
            },
        }
        let trailing = not_deleted_conditions(variant, self.delete);
        let branches = cursor.cursor_branches(offset, ascending);
        let query = assemble_union_select(
            cursor.select_columns(None).as_str(),
            self.table_name,
            leading.as_slice(),
            branches.as_slice(),
            trailing.as_slice(),
            cursor.order_by(ascending).as_str(),
            offset + 1,
        );
        args.append(cursor.query_arg_tokens().as_str());
        es_query(
            query_subject_text(self.ignore_prefix, self.entity).as_str(),
            forgettable_arg_text(self.forgettable_table_name).as_str(),
            given(self.is_root, "root = true,").as_str(),
            quote(query.as_str()).as_str(),
            args.as_str(),
        )
    }

    fn arms_text(&self, variant: DeleteOption, scope: Option<&ScopeCol<'a>>) -> (res: String)
        ensures
            res@ == self.arms(
                variant,
                match scope {
                    Some(col) => Some(*col),
                    None => None,
                },
            ),
    {
        let ascending = self.call_text(variant, scope, true);
        let descending = self.call_text(variant, scope, false);
        let arms = direction_arm("Ascending", ascending.as_str()).concat("\n").concat(
            direction_arm("Descending", descending.as_str()).as_str(),
        );
        direction_match(arms.as_str())
    }

    fn match_text(&self, variant: DeleteOption) -> (res: String)
        ensures
            res@ == self.match_code(variant),
    {
        let all_arm = self.arms_text(variant, None);
        match &self.scope {
            Some(info) => {
                let mut bodies: Vec<String> = Vec::new();
                let mut i: usize = 0;
                while i < info.cols.len()
                    invariant
                        i <= info.cols.len(),
                        bodies.len() == i,
                        forall|j: int|
                            0 <= j < i ==> (#[trigger] bodies@[j])@ == self.arms(
                                variant,
                                Some(info.cols@[j]),
                            ),
                    decreases info.cols.len() - i,
                {
                    bodies.push(self.arms_text(variant, Some(&info.cols[i])));
                    i = i + 1;
                }
                assert(bodies.deep_view() =~= Seq::new(
                    info.cols.len() as nat,
                    |i: int| self.arms(variant, Some(info.cols@[i])),
                ));
                info.dispatch(all_arm.as_str(), &bodies)
            },
            None => all_arm,
        }
    }

    fn variant_text(&self, variant: DeleteOption) -> (res: String)
        ensures
            res@ == self.variant_code(variant),
    {
        proof {
            reveal(ListByFn::variant_code);
        }
        let cursor = self.cursor();
        let fn_name = self.function_name(variant);
        let fn_in_op = fn_name.clone().concat("_in_op");
        let span_name = "list_by_".to_string().concat(self.column.name());
        let (scope_fn_arg, scope_fn_pass, scope_convert) = scope_texts(&self.scope);
        list_by_fns(
            fn_name.as_str(),
            fn_in_op.as_str(),
            scope_fn_arg.as_str(),
            self.cursor_mod.as_str(),
            cursor.ident().as_str(),
            self.entity,
            self.query_error.as_str(),
            RepositoryOptions::query_fn_get_op(self.any_nested),
            scope_fn_pass.as_str(),
            span_attribute(
                &self.repo_name_snake,
                span_name.as_str(),
                self.entity,
                LIST_FIELDS,
            ).as_str(),
            RepositoryOptions::query_fn_generics(self.any_nested),
            RepositoryOptions::query_fn_op_arg(self.any_nested),
            RepositoryOptions::query_fn_op_traits(self.any_nested),
            scope_convert.as_str(),
            trace(&self.repo_name_snake, EXTRACT_HAS_CURSOR).as_str(),
            cursor.destructure_tokens().as_str(),
            trace(&self.repo_name_snake, RECORD_PAGE).as_str(),
            self.match_text(variant).as_str(),
            given(
                self.post_hydrate_error.is_some(),
                check_all_hydrated(self.query_error.as_str()).as_str(),
            ).as_str(),
            trace(&self.repo_name_snake, RECORD_ENTITIES).as_str(),
            trace(&self.repo_name_snake, ERROR_RECORDING).as_str(),
        )
    }

    /// Appends the functions.
    pub fn to_tokens(&self, tokens: &mut String)
        ensures
            final(tokens)@ == old(tokens)@ + self.code(),
    {
        proof {
            reveal(ListByFn::code);
        }
        let variants = self.delete.query_variants();
        let mut parts: Vec<String> = Vec::new();
        let mut i: usize = 0;
        while i < variants.len()
            invariant
                i <= variants.len(),
                variants@ == self.delete.variants(),
                parts.len() == i,
                forall|j: int|
                    0 <= j < i ==> (#[trigger] parts@[j])@ == self.variant_code(variants@[j]),
            decreases variants.len() - i,
        {
            parts.push(self.variant_text(variants[i]));
            i = i + 1;
        }
        assert(parts.deep_view() =~= Seq::new(
            self.delete.variants().len(),
            |i: int| self.variant_code(self.delete.variants()[i]),
        ));
        tokens.append(join(&parts, "\n").as_str());
    }
}

/// What the span of a list records.
pub const LIST_FIELDS: &'static str = "first, has_cursor, direction = tracing::field::debug(&direction), count = tracing::field::Empty, has_next_page = tracing::field::Empty, ids = tracing::field::Empty,";

/// Without a restriction a repository that has scopes runs the queries that one
/// without scopes runs.
pub proof fn all_scopes_list_as_unscoped(f: &ListByFn, plain: &ListByFn, variant: DeleteOption)
    requires
        f.scope is Some,
        *plain == (ListByFn { scope: None, ..*f }),
    ensures
        f.match_code(variant) == f.scope->0.dispatched(
            plain.match_code(variant),
            Seq::new(
                f.scope->0.cols.len() as nat,
                |i: int| f.arms(variant, Some(f.scope->0.cols@[i])),
            ),
        ),
{
}

/// Every branch of a query has all the conditions that are given for the whole
/// query: the one on the scope, those on filters, and the one that leaves out
/// deleted entities.
pub proof fn branches_have_all_conditions(
    leading: Seq<Seq<char>>,
    branch: Branch,
    trailing: Seq<Seq<char>>,
)
    ensures
        forall|i: int|
            0 <= i < leading.len() ==> branch_conditions(leading, branch, trailing).contains(
                #[trigger] leading[i],
            ),
        forall|i: int|
            0 <= i < trailing.len() ==> branch_conditions(leading, branch, trailing).contains(
                #[trigger] trailing[i],
            ),
        branch_conditions(leading, branch, trailing).contains(in_brackets(branch.0)),
        branch.1 matches Some(rows) ==> branch_conditions(leading, branch, trailing).contains(
            in_brackets(rows),
        ),
{
    let all = branch_conditions(leading, branch, trailing);
    let front = match branch.1 {
        Some(predicate) => leading.push(in_brackets(predicate)),
        None => leading,
    };
    assert(all[front.len() as int] == in_brackets(branch.0));
    if branch.1 is Some {
        assert(all[leading.len() as int] == in_brackets(branch.1->0));
    }
    assert forall|i: int| 0 <= i < leading.len() implies all.contains(#[trigger] leading[i]) by {
        assert(all[i] == leading[i]);
    }
    assert forall|i: int| 0 <= i < trailing.len() implies all.contains(#[trigger] trailing[i]) by {
        assert(all[front.len() + 1 + i] == trailing[i]);
    }
}

} // verus!
