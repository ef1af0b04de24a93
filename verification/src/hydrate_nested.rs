//! Reading nested entities from the rows that come with their parents, and
//! deleting them with their parents.

use vstd::prelude::*;
use vstd::string::*;

use crate::options::column::Column;
use crate::options::columns::Pick;
use crate::options::delete::DeleteOption;
use crate::options::repository::{Generics, ParamPart, RepositoryOptions};
use crate::text::{
    end_each, ended, given, in_order, in_order_joined, literal, occurs, occurs_extended, only_if,
    quote,
};
use crate::types::opt_str;

verus! {

/// What reads the entities of a nested repository, and deletes them, with
/// their parents.
pub struct HydrateNested<'a> {
    /// The column of the parent's id.
    pub column: &'a Column,
    pub ident: &'a str,
    pub generics: &'a Generics,
    pub id: &'a str,
    pub table_name: &'a str,
    pub delete_option: DeleteOption,
    pub forgettable_table_name: Option<&'a str>,
    pub forgettable_columns: Vec<String>,
}

/// What reads the nested entities.
pub open spec fn hydrate_impl_code(
    impl_generics: Seq<char>,
    ty: Seq<char>,
    ident: Seq<char>,
    ty_generics: Seq<char>,
    where_clause: Seq<char>,
    id: Seq<char>,
    accessor: Seq<char>,
) -> Seq<char> {
    "impl "@ + impl_generics + " es_entity::HydrateNested<"@ + ty + "> for "@ + ident + " "@ + ty_generics + " "@ + where_clause + " {
    fn hydrate_in_op<P, __EsErr>(
        rows_by_tag: &mut std::collections::HashMap<i32, Vec<es_entity::db::Row>>,
        tag_cursor: &mut i32,
        mut lookup: std::collections::HashMap<"@ + ty + ", &mut P>,
    ) -> Result<(), __EsErr>
    where
        P: Parent<<Self as EsRepo>::Entity>,
        __EsErr: From<sqlx::Error> + From<es_entity::EntityHydrationError>,
    {
        let my_tag = *tag_cursor;
        *tag_cursor += 1;
        let rows = rows_by_tag.remove(&my_tag).unwrap_or_default();
        let n = rows.len();
        let generic = rows
            .iter()
            .map(es_entity::decode_tagged_row::<"@ + id + ">)
            .collect::<Result<Vec<_>, _>>()?;
        let (mut res, _) = es_entity::EntityEvents::load_n::<<Self as EsRepo>::Entity>(generic.into_iter(), n)?;
        <Self as es_entity::EsRepo>::hydrate_nested_from_rows::<__EsErr>(rows_by_tag, tag_cursor, &mut res)?;
        for entity in res.into_iter() {
            if let Some(parent) = lookup.get_mut(&entity."@ + accessor + ") {
                parent.inject_children(std::iter::once(entity));
            }
        }
        Ok(())
    }
}"@
}

/// What reads the nested entities.
pub fn hydrate_impl(
    impl_generics: &str,
    ty: &str,
    ident: &str,
    ty_generics: &str,
    where_clause: &str,
    id: &str,
    accessor: &str,
) -> (res: String)
    ensures
        res@ == hydrate_impl_code(
            impl_generics@,
            ty@,
            ident@,
            ty_generics@,
            where_clause@,
            id@,
            accessor@,
        ),
{
    "impl ".to_string().concat(impl_generics).concat(" es_entity::HydrateNested<").concat(ty).concat("> for ").concat(ident).concat(" ").concat(ty_generics).concat(" ").concat(where_clause).concat(" {
    fn hydrate_in_op<P, __EsErr>(
        rows_by_tag: &mut std::collections::HashMap<i32, Vec<es_entity::db::Row>>,
        tag_cursor: &mut i32,
        mut lookup: std::collections::HashMap<").concat(ty).concat(", &mut P>,
    ) -> Result<(), __EsErr>
    where
        P: Parent<<Self as EsRepo>::Entity>,
        __EsErr: From<sqlx::Error> + From<es_entity::EntityHydrationError>,
    {
        let my_tag = *tag_cursor;
        *tag_cursor += 1;
        let rows = rows_by_tag.remove(&my_tag).unwrap_or_default();
        let n = rows.len();
        let generic = rows
            .iter()
            .map(es_entity::decode_tagged_row::<").concat(id).concat(">)
            .collect::<Result<Vec<_>, _>>()?;
        let (mut res, _) = es_entity::EntityEvents::load_n::<<Self as EsRepo>::Entity>(generic.into_iter(), n)?;
        <Self as es_entity::EsRepo>::hydrate_nested_from_rows::<__EsErr>(rows_by_tag, tag_cursor, &mut res)?;
        for entity in res.into_iter() {
            if let Some(parent) = lookup.get_mut(&entity.").concat(accessor).concat(") {
                parent.inject_children(std::iter::once(entity));
            }
        }
        Ok(())
    }
}")
}

/// The statement that deletes the payloads of a parent's nested entities.
pub open spec fn child_payload_query_code(
    payloads: Seq<char>,
    table: Seq<char>,
    column: Seq<char>,
) -> Seq<char> {
    "DELETE FROM "@ + payloads + " WHERE entity_id IN (SELECT id FROM "@ + table + " WHERE "@ + column + " = $1)"@
}

/// The statement that deletes the payloads of a parent's nested entities.
fn child_payload_query(payloads: &str, table: &str, column: &str) -> (res: String)
    ensures
        res@ == child_payload_query_code(payloads@, table@, column@),
{
    "DELETE FROM ".to_string().concat(payloads).concat(" WHERE entity_id IN (SELECT id FROM ").concat(table).concat(" WHERE ").concat(column).concat(" = $1)")
}

/// The statement that marks a parent's nested entities as deleted.
pub open spec fn child_delete_query_code(
    table: Seq<char>,
    null_cols: Seq<char>,
    column: Seq<char>,
) -> Seq<char> {
    "UPDATE "@ + table + " SET deleted = TRUE"@ + null_cols + " WHERE "@ + column + " = $1 AND deleted = FALSE"@
}

/// The statement that marks a parent's nested entities as deleted.
fn child_delete_query(table: &str, null_cols: &str, column: &str) -> (res: String)
    ensures
        res@ == child_delete_query_code(table@, null_cols@, column@),
{
    "UPDATE ".to_string().concat(table).concat(" SET deleted = TRUE").concat(null_cols).concat(" WHERE ").concat(column).concat(" = $1 AND deleted = FALSE")
}

/// A statement about a parent's nested entities.
pub open spec fn run_for_parent_code(
    query: Seq<char>,
    ty: Seq<char>,
    executor: Seq<char>,
) -> Seq<char> {
    "sqlx::query!(
    "@ + query + ",
    parent_id as &"@ + ty + ",
)
.execute("@ + executor + ")
.await?;"@
}

/// A statement about a parent's nested entities.
fn run_for_parent(query: &str, ty: &str, executor: &str) -> (res: String)
    ensures
        res@ == run_for_parent_code(query@, ty@, executor@),
{
    "sqlx::query!(
    ".to_string().concat(query).concat(",
    parent_id as &").concat(ty).concat(",
)
.execute(").concat(executor).concat(")
.await?;")
}

/// What deletes the nested entities.
pub open spec fn cascade_impl_code(
    impl_generics: Seq<char>,
    ty: Seq<char>,
    ident: Seq<char>,
    ty_generics: Seq<char>,
    where_clause: Seq<char>,
    cascade: Seq<char>,
) -> Seq<char> {
    "impl "@ + impl_generics + " es_entity::CascadeDeleteNested<"@ + ty + "> for "@ + ident + " "@ + ty_generics + " "@ + where_clause + " {
    async fn cascade_delete_in_op<OP, __EsErr>(
        op: &mut OP,
        parent_id: &"@ + ty + ",
    ) -> Result<(), __EsErr>
    where
        OP: es_entity::AtomicOperation,
        __EsErr: From<sqlx::Error> + Send,
    {
        "@ + cascade + "
        Ok(())
    }
}"@
}

/// What deletes the nested entities.
fn cascade_impl(
    impl_generics: &str,
    ty: &str,
    ident: &str,
    ty_generics: &str,
    where_clause: &str,
    cascade: &str,
) -> (res: String)
    ensures
        res@ == cascade_impl_code(
            impl_generics@,
            ty@,
            ident@,
            ty_generics@,
            where_clause@,
            cascade@,
        ),
{
    "impl ".to_string().concat(impl_generics).concat(" es_entity::CascadeDeleteNested<").concat(ty).concat("> for ").concat(ident).concat(" ").concat(ty_generics).concat(" ").concat(where_clause).concat(" {
    async fn cascade_delete_in_op<OP, __EsErr>(
        op: &mut OP,
        parent_id: &").concat(ty).concat(",
    ) -> Result<(), __EsErr>
    where
        OP: es_entity::AtomicOperation,
        __EsErr: From<sqlx::Error> + Send,
    {
        ").concat(cascade).concat("
        Ok(())
    }
}")
}

/// The columns that are set to NULL.
pub open spec fn null_columns(names: Seq<Seq<char>>) -> Seq<Seq<char>> {
    Seq::new(names.len(), |i: int| ", "@ + names[i] + " = NULL"@)
}

/// What deletes the entities of a nested repository with their parents.
pub struct CascadeDelete<'a> {
    /// The column of the parent's id.
    pub column: &'a Column,
    pub ident: &'a str,
    pub generics: &'a Generics,
    pub table_name: &'a str,
    pub forgettable_table_name: Option<&'a str>,
    pub forgettable_columns: &'a Vec<String>,
    /// What the statements are executed with.
    pub executor: &'static str,
}

impl<'a> CascadeDelete<'a> {
    /// The statements: where payloads can be forgotten those of the nested
    /// entities are deleted first, and the columns with forgettable values are
    /// set to NULL as the entities are marked.
    pub open spec fn statements(&self) -> Seq<char> {
        let ty = self.column.opts.ty.text@;
        match self.forgettable_table_name {
            Some(payloads) => run_for_parent_code(
                literal(
                    child_payload_query_code(payloads@, self.table_name@, self.column.name@),
                ),
                ty,
                self.executor@,
            ) + "\n"@ + run_for_parent_code(
                literal(
                    child_delete_query_code(
                        self.table_name@,
                        ended(null_columns(self.forgettable_columns.deep_view()), ""@),
                        self.column.name@,
                    ),
                ),
                ty,
                self.executor@,
            ),
            None => run_for_parent_code(
                literal(child_delete_query_code(self.table_name@, ""@, self.column.name@)),
                ty,
                self.executor@,
            ),
        }
    }

    #[verifier::opaque]
    pub open spec fn code(&self) -> Seq<char> {
        cascade_impl_code(
            self.generics.listed(None, ParamPart::ImplDeclaration),
            self.column.opts.ty.text@,
            self.ident@,
            self.generics.listed(None, ParamPart::Name),
            self.generics.where_clause@,
            self.statements(),
        )
    }

    fn statements_text(&self) -> (res: String)
        ensures
            res@ == self.statements(),
    {
        let ty = self.column.opts.ty.text.as_str();
        match self.forgettable_table_name {
            Some(payloads) => {
                let payload_query = child_payload_query(
                    payloads,
                    self.table_name,
                    self.column.name(),
                );
                let mut nulls: Vec<String> = Vec::new();
                let mut i: usize = 0;
                while i < self.forgettable_columns.len()
                    invariant
                        i <= self.forgettable_columns.len(),
                        nulls.len() == i,
                        forall|j: int|
                            0 <= j < i ==> (#[trigger] nulls@[j])@ == ", "@
                                + self.forgettable_columns@[j]@ + " = NULL"@,
                    decreases self.forgettable_columns.len() - i,
                {
                    nulls.push(
                        ", ".to_string().concat(self.forgettable_columns[i].as_str()).concat(
                            " = NULL",
                        ),
                    );
                    i = i + 1;
                }
                assert(nulls.deep_view() =~= null_columns(self.forgettable_columns.deep_view()));
                let query = child_delete_query(
                    self.table_name,
                    end_each(&nulls, "").as_str(),
                    self.column.name(),
                );
                run_for_parent(
                    quote(payload_query.as_str()).as_str(),
                    ty,
                    self.executor,
                ).concat("\n").concat(
                    run_for_parent(quote(query.as_str()).as_str(), ty, self.executor).as_str(),
                )
            },
            None => {
                let query = child_delete_query(self.table_name, "", self.column.name());
                run_for_parent(quote(query.as_str()).as_str(), ty, self.executor)
            },
        }
    }

    /// The code that deletes the nested entities.
    pub fn generate(&self) -> (res: String)
        ensures
            res@ == self.code(),
    {
        proof {
            reveal(CascadeDelete::code);
        }
        cascade_impl(
            self.generics.list(None, ParamPart::ImplDeclaration).as_str(),
            self.column.opts.ty.text.as_str(),
            self.ident,
            self.generics.list(None, ParamPart::Name).as_str(),
            self.generics.where_clause.as_str(),
            self.statements_text().as_str(),
        )
    }
}

impl<'a> HydrateNested<'a> {
    pub open spec fn cascade(&self) -> CascadeDelete<'_> {
        CascadeDelete {
            column: self.column,
            ident: self.ident,
            generics: self.generics,
            table_name: self.table_name,
            forgettable_table_name: self.forgettable_table_name,
            forgettable_columns: &self.forgettable_columns,
            executor: "op.as_executor()",
        }
    }

    /// What reads the nested entities, and, where entities are deleted by a
    /// flag, what deletes them.
    #[verifier::opaque]
    pub open spec fn code(&self) -> Seq<char> {
        hydrate_impl_code(
            self.generics.listed(None, ParamPart::ImplDeclaration),
            self.column.opts.ty.text@,
            self.ident@,
            self.generics.listed(None, ParamPart::Name),
            self.generics.where_clause@,
            self.id@,
            self.column.opts.parent_text(self.column.name@),
        ) + only_if(self.delete_option.soft(), "\n"@ + self.cascade().code())
    }

    /// Whether this is what the options of a repository ask for.
    pub open spec fn made_from(&self, column: &Column, opts: &RepositoryOptions) -> bool {
        &&& self.column == column
        &&& self.ident@ == opts.ident@
        &&& *self.generics == opts.generics
        &&& self.id@ == opts.id_text()
        &&& self.table_name@ == opts.table_text()
        &&& self.delete_option == opts.delete
        &&& opt_str(self.forgettable_table_name) == opts.forgettable_table()
        &&& self.forgettable_columns.deep_view() == opts.columns.names(Pick::Forgettable)
    }

    pub fn new(column: &'a Column, opts: &'a RepositoryOptions) -> (res: Self)
        requires
            opts.ready(),
        ensures
            res.made_from(column, opts),
    {
        HydrateNested {
            column,
            ident: opts.ident.as_str(),
            generics: &opts.generics,
            id: opts.id(),
            table_name: opts.table_name(),
            delete_option: opts.delete,
            forgettable_table_name: opts.forgettable_table_name(),
            forgettable_columns: opts.columns.forgettable_column_names(),
        }
    }

    /// Appends the code.
    pub fn to_tokens(&self, tokens: &mut String)
        ensures
            final(tokens)@ == old(tokens)@ + self.code(),
    {
        proof {
            reveal(HydrateNested::code);
        }
        let hydrate = hydrate_impl(
            self.generics.list(None, ParamPart::ImplDeclaration).as_str(),
            self.column.opts.ty.text.as_str(),
            self.ident,
            self.generics.list(None, ParamPart::Name).as_str(),
            self.generics.where_clause.as_str(),
            self.id,
            self.column.parent_accessor().as_str(),
        );
        let cascade = CascadeDelete {
            column: self.column,
            ident: self.ident,
            generics: self.generics,
            table_name: self.table_name,
            forgettable_table_name: self.forgettable_table_name,
            forgettable_columns: &self.forgettable_columns,
            executor: "op.as_executor()",
        };
        let delete = "\n".to_string().concat(cascade.generate().as_str());
        let code = hydrate.concat(given(self.delete_option.is_soft(), delete.as_str()).as_str());
        tokens.append(code.as_str());
    }
}

/// Where payloads can be forgotten, those of the nested entities are deleted
/// before the entities are marked as deleted.
pub proof fn cascade_order(c: &CascadeDelete)
    requires
        c.forgettable_table_name is Some,
    ensures
        occurs(c.code(), c.statements()),
        in_order(
            c.statements(),
            literal(
                child_payload_query_code(
                    c.forgettable_table_name->0@,
                    c.table_name@,
                    c.column.name@,
                ),
            ),
            literal(
                child_delete_query_code(
                    c.table_name@,
                    ended(null_columns(c.forgettable_columns.deep_view()), ""@),
                    c.column.name@,
                ),
            ),
        ),
{
    reveal(CascadeDelete::code);
    broadcast use occurs_extended;

    let ty = c.column.opts.ty.text@;
    let first = literal(
        child_payload_query_code(c.forgettable_table_name->0@, c.table_name@, c.column.name@),
    );
    let second = literal(
        child_delete_query_code(
            c.table_name@,
            ended(null_columns(c.forgettable_columns.deep_view()), ""@),
            c.column.name@,
        ),
    );
    in_order_joined(
        run_for_parent_code(first, ty, c.executor@) + "\n"@,
        run_for_parent_code(second, ty, c.executor@),
        first,
        second,
    );
}

} // verus!
