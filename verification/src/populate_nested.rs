//! Reading nested entities by the ids of their parents, and deleting them with
//! their parents.

use vstd::prelude::*;
use vstd::string::*;

use crate::hydrate_nested::CascadeDelete;
use crate::naming::{cased, NameCase};
use crate::options::column::Column;
use crate::options::columns::Pick;
use crate::options::delete::DeleteOption;
use crate::options::repository::{Generics, ParamPart, RepositoryOptions};
use crate::text::{given, literal, only_if, quote};
use crate::types::opt_str;

verus! {

/// What reads the entities of a nested repository by the ids of their parents.
pub struct PopulateNested<'a> {
    /// The column of the parent's id.
    pub column: &'a Column,
    pub ident: &'a str,
    pub generics: &'a Generics,
    pub id: &'a str,
    pub table_name: &'a str,
    pub events_table_name: &'a str,
    pub repo_types_mod: String,
    pub delete_option: DeleteOption,
    pub forgettable_table_name: Option<&'a str>,
    pub forgettable_columns: Vec<String>,
}

/// The query for the events of the nested entities: `$1` are the ids of the
/// parents, `$2` tells whether the contexts are read.
pub open spec fn populate_query_code(
    table: Seq<char>,
    column: Seq<char>,
    not_deleted: Seq<char>,
    id: Seq<char>,
    payload_column: Seq<char>,
    events_table: Seq<char>,
    forgettable_join: Seq<char>,
) -> Seq<char> {
    "WITH entities AS (SELECT * FROM "@ + table + " WHERE ("@ + column + " = ANY($1))"@ + not_deleted + ") SELECT i.id AS \"entity_id: "@ + id + "\", e.sequence, e.event, CASE WHEN $2 THEN e.context ELSE NULL::jsonb END as \"context: es_entity::ContextData\", e.recorded_at, "@ + payload_column + " FROM entities i JOIN "@ + events_table + " e ON i.id = e.id"@ + forgettable_join + " ORDER BY e.id, e.sequence"@
}

/// The query for the events of the nested entities: `$1` are the ids of the
/// parents, `$2` tells whether the contexts are read.
fn populate_query(
    table: &str,
    column: &str,
    not_deleted: &str,
    id: &str,
    payload_column: &str,
    events_table: &str,
    forgettable_join: &str,
) -> (res: String)
    ensures
        res@ == populate_query_code(
            table@,
            column@,
            not_deleted@,
            id@,
            payload_column@,
            events_table@,
            forgettable_join@,
        ),
{
    "WITH entities AS (SELECT * FROM ".to_string().concat(table).concat(" WHERE (").concat(column).concat(" = ANY($1))").concat(not_deleted).concat(") SELECT i.id AS \"entity_id: ").concat(id).concat("\", e.sequence, e.event, CASE WHEN $2 THEN e.context ELSE NULL::jsonb END as \"context: es_entity::ContextData\", e.recorded_at, ").concat(payload_column).concat(" FROM entities i JOIN ").concat(events_table).concat(" e ON i.id = e.id").concat(forgettable_join).concat(" ORDER BY e.id, e.sequence")
}

/// The join with the payloads.
pub open spec fn payload_join_code(table: Seq<char>) -> Seq<char> {
    " LEFT JOIN "@ + table + " p ON e.id = p.entity_id AND e.sequence = p.sequence"@
}

/// The join with the payloads.
fn payload_join(table: &str) -> (res: String)
    ensures
        res@ == payload_join_code(table@),
{
    " LEFT JOIN ".to_string().concat(table).concat(" p ON e.id = p.entity_id AND e.sequence = p.sequence")
}

/// A function that reads the nested entities.
pub open spec fn populate_fn_code(
    fn_name: Seq<char>,
    ty: Seq<char>,
    repo_types_mod: Seq<char>,
    query: Seq<char>,
    load_nested_fn: Seq<char>,
    accessor: Seq<char>,
) -> Seq<char> {
    "async fn "@ + fn_name + "<OP, P, __EsErr>(
    op: &mut OP,
    mut lookup: std::collections::HashMap<"@ + ty + ", &mut P>,
) -> Result<(), __EsErr>
where
    OP: es_entity::AtomicOperation,
    P: Parent<<Self as EsRepo>::Entity>,
    __EsErr: From<sqlx::Error> + From<es_entity::EntityHydrationError> + Send,
{
    let parent_ids: Vec<_> = lookup.keys().collect();
    let rows = {
        sqlx::query_as!(
            "@ + repo_types_mod + "::Repo__DbEvent,
            "@ + query + ",
            parent_ids.as_slice() as &[&"@ + ty + "],
            <"@ + repo_types_mod + "::Repo__Event as EsEvent>::event_context(),
        ).fetch_all(es_entity::annotate_executor(op.as_executor())).await?
    };
    let n = rows.len();
    let (mut res, _) = es_entity::EntityEvents::load_n::<<Self as EsRepo>::Entity>(rows.into_iter(), n)?;
    Self::"@ + load_nested_fn + "::<_, __EsErr>(op, &mut res).await?;
    for entity in res.into_iter() {
        let parent = lookup.get_mut(&entity."@ + accessor + ").expect(\"parent not present\");
        parent.inject_children(std::iter::once(entity));
    }
    Ok(())
}"@
}

/// A function that reads the nested entities.
fn populate_fn(
    fn_name: &str,
    ty: &str,
    repo_types_mod: &str,
    query: &str,
    load_nested_fn: &str,
    accessor: &str,
) -> (res: String)
    ensures
        res@ == populate_fn_code(
            fn_name@,
            ty@,
            repo_types_mod@,
            query@,
            load_nested_fn@,
            accessor@,
        ),
{
    "async fn ".to_string().concat(fn_name).concat("<OP, P, __EsErr>(
    op: &mut OP,
    mut lookup: std::collections::HashMap<").concat(ty).concat(", &mut P>,
) -> Result<(), __EsErr>
where
    OP: es_entity::AtomicOperation,
    P: Parent<<Self as EsRepo>::Entity>,
    __EsErr: From<sqlx::Error> + From<es_entity::EntityHydrationError> + Send,
{
    let parent_ids: Vec<_> = lookup.keys().collect();
    let rows = {
        sqlx::query_as!(
            ").concat(repo_types_mod).concat("::Repo__DbEvent,
            ").concat(query).concat(",
            parent_ids.as_slice() as &[&").concat(ty).concat("],
            <").concat(repo_types_mod).concat("::Repo__Event as EsEvent>::event_context(),
        ).fetch_all(es_entity::annotate_executor(op.as_executor())).await?
    };
    let n = rows.len();
    let (mut res, _) = es_entity::EntityEvents::load_n::<<Self as EsRepo>::Entity>(rows.into_iter(), n)?;
    Self::").concat(load_nested_fn).concat("::<_, __EsErr>(op, &mut res).await?;
    for entity in res.into_iter() {
        let parent = lookup.get_mut(&entity.").concat(accessor).concat(").expect(\"parent not present\");
        parent.inject_children(std::iter::once(entity));
    }
    Ok(())
}")
}

/// What reads the nested entities.
pub open spec fn populate_impl_code(
    impl_generics: Seq<char>,
    ty: Seq<char>,
    ident: Seq<char>,
    ty_generics: Seq<char>,
    where_clause: Seq<char>,
    populate: Seq<char>,
    include_deleted: Seq<char>,
) -> Seq<char> {
    "impl "@ + impl_generics + " es_entity::PopulateNested<"@ + ty + "> for "@ + ident + " "@ + ty_generics + " "@ + where_clause + " {
    "@ + populate + "
    "@ + include_deleted + "
}"@
}

/// What reads the nested entities.
fn populate_impl(
    impl_generics: &str,
    ty: &str,
    ident: &str,
    ty_generics: &str,
    where_clause: &str,
    populate: &str,
    include_deleted: &str,
) -> (res: String)
    ensures
        res@ == populate_impl_code(
            impl_generics@,
            ty@,
            ident@,
            ty_generics@,
            where_clause@,
            populate@,
            include_deleted@,
        ),
{
    "impl ".to_string().concat(impl_generics).concat(" es_entity::PopulateNested<").concat(ty).concat("> for ").concat(ident).concat(" ").concat(ty_generics).concat(" ").concat(where_clause).concat(" {
    ").concat(populate).concat("
    ").concat(include_deleted).concat("
}")
}

impl<'a> PopulateNested<'a> {
    /// The query, without or with deleted entities.
    pub open spec fn query(&self, include_deleted: bool) -> Seq<char> {
        populate_query_code(
            self.table_name@,
            self.column.name@,
            if include_deleted {
                ""@
            } else {
                self.delete_option.not_deleted()
            },
            self.id@,
            if self.forgettable_table_name is Some {
                "p.payload as \"forgettable_payload?\""@
            } else {
                "NULL::jsonb as \"forgettable_payload?\""@
            },
            self.events_table_name@,
            match self.forgettable_table_name {
                Some(table) => payload_join_code(table@),
                None => ""@,
            },
        )
    }

    /// The function that reads the nested entities, without or with deleted
    /// ones.
    pub open spec fn function(&self, include_deleted: bool) -> Seq<char> {
        populate_fn_code(
            if include_deleted {
                "populate_in_op_include_deleted"@
            } else {
                "populate_in_op"@
            },
            self.column.opts.ty.text@,
            self.repo_types_mod@,
            literal(self.query(include_deleted)),
            if include_deleted {
                "load_all_nested_in_op_include_deleted"@
            } else {
                "load_all_nested_in_op"@
            },
            self.column.opts.parent_text(self.column.name@),
        )
    }

    pub open spec fn cascade(&self) -> CascadeDelete<'_> {
        CascadeDelete {
            column: self.column,
            ident: self.ident,
            generics: self.generics,
            table_name: self.table_name,
            forgettable_table_name: self.forgettable_table_name,
            forgettable_columns: &self.forgettable_columns,
            executor: "es_entity::annotate_executor(op.as_executor())",
        }
    }

    /// What reads the nested entities, and, where entities are deleted by a
    /// flag, what reads deleted ones too and what deletes them.
    #[verifier::opaque]
    pub open spec fn code(&self) -> Seq<char> {
        populate_impl_code(
            self.generics.listed(None, ParamPart::ImplDeclaration),
            self.column.opts.ty.text@,
            self.ident@,
            self.generics.listed(None, ParamPart::Name),
            self.generics.where_clause@,
            self.function(false),
            only_if(self.delete_option.soft(), self.function(true)),
        ) + only_if(self.delete_option.soft(), "\n"@ + self.cascade().code())
    }

    /// Whether this is what the options of a repository ask for.
    pub open spec fn made_from(&self, column: &Column, opts: &RepositoryOptions) -> bool {
        &&& self.column == column
        &&& self.ident@ == opts.ident@
        &&& *self.generics == opts.generics
        &&& self.id@ == opts.id_text()
        &&& self.table_name@ == opts.table_text()
        &&& self.events_table_name@ == opts.events_table_text()
        &&& self.repo_types_mod@ == cased(opts.entity_ident@ + "RepoTypes"@, NameCase::Snake)
        &&& self.delete_option == opts.delete
        &&& opt_str(self.forgettable_table_name) == opts.forgettable_table()
        &&& self.forgettable_columns.deep_view() == opts.columns.names(Pick::Forgettable)
    }

    pub fn new(column: &'a Column, opts: &'a RepositoryOptions) -> (res: Self)
        requires
            opts.ready(),
        ensures
            res.made_from(column, opts),
    {
        PopulateNested {
            column,
            ident: opts.ident.as_str(),
            generics: &opts.generics,
            id: opts.id(),
            table_name: opts.table_name(),
            events_table_name: opts.events_table_name(),
            repo_types_mod: opts.repo_types_mod(),
            delete_option: opts.delete,
            forgettable_table_name: opts.forgettable_table_name(),
            forgettable_columns: opts.columns.forgettable_column_names(),
        }
    }

    fn function_text(&self, include_deleted: bool) -> (res: String)
        ensures
            res@ == self.function(include_deleted),
    {
        let not_deleted = if include_deleted {
            ""
        } else {
            self.delete_option.not_deleted_condition()
        };
        let (payload_column, forgettable_join) = match self.forgettable_table_name {
            Some(table) => ("p.payload as \"forgettable_payload?\"", payload_join(table)),
            None => ("NULL::jsonb as \"forgettable_payload?\"", "".to_string()),
        };
        let query = populate_query(
            self.table_name,
            self.column.name(),
            not_deleted,
            self.id,
            payload_column,
            self.events_table_name,
            forgettable_join.as_str(),
        );
        populate_fn(
            if include_deleted {
                "populate_in_op_include_deleted"
            } else {
                "populate_in_op"
            },
            self.column.opts.ty.text.as_str(),
            self.repo_types_mod.as_str(),
            quote(query.as_str()).as_str(),
            if include_deleted {
                "load_all_nested_in_op_include_deleted"
            } else {
                "load_all_nested_in_op"
            },
            self.column.parent_accessor().as_str(),
        )
    }

    /// Appends the code.
    pub fn to_tokens(&self, tokens: &mut String)
        ensures
            final(tokens)@ == old(tokens)@ + self.code(),
    {
        proof {
            reveal(PopulateNested::code);
        }
        let soft = self.delete_option.is_soft();
        let include_deleted = self.function_text(true);
        let populate = populate_impl(
            self.generics.list(None, ParamPart::ImplDeclaration).as_str(),
            self.column.opts.ty.text.as_str(),
            self.ident,
            self.generics.list(None, ParamPart::Name).as_str(),
            self.generics.where_clause.as_str(),
            self.function_text(false).as_str(),
            given(soft, include_deleted.as_str()).as_str(),
        );
        let cascade = CascadeDelete {
            column: self.column,
            ident: self.ident,
            generics: self.generics,
            table_name: self.table_name,
            forgettable_table_name: self.forgettable_table_name,
            forgettable_columns: &self.forgettable_columns,
            executor: "es_entity::annotate_executor(op.as_executor())",
        };
        let delete = "\n".to_string().concat(cascade.generate().as_str());
        let code = populate.concat(given(soft, delete.as_str()).as_str());
        tokens.append(code.as_str());
    }
}

/// With a table of payloads the query is the one without, but for the column of
/// the payload and for the join with that table. The join stands between the
/// join with the events and the order, with a blank on either side.
pub proof fn payloads_are_joined(
    with: &PopulateNested,
    without: &PopulateNested,
    include_deleted: bool,
)
    requires
        with.forgettable_table_name is Some,
        without.forgettable_table_name is None,
        with.table_name@ == without.table_name@,
        with.column.name@ == without.column.name@,
        with.delete_option == without.delete_option,
        with.id@ == without.id@,
        with.events_table_name@ == without.events_table_name@,
    ensures
        exists|front: Seq<char>|
            without.query(include_deleted) == #[trigger] (front
                + "NULL::jsonb as \"forgettable_payload?\""@) + (" FROM entities i JOIN "@
                + without.events_table_name@ + " e ON i.id = e.id"@) + " ORDER BY e.id, e.sequence"@
                && with.query(include_deleted) == (front
                + "p.payload as \"forgettable_payload?\""@) + (" FROM entities i JOIN "@
                + without.events_table_name@ + " e ON i.id = e.id"@) + (" "@ + "LEFT JOIN "@
                + with.forgettable_table_name->0@
                + " p ON e.id = p.entity_id AND e.sequence = p.sequence"@)
                + " ORDER BY e.id, e.sequence"@,
{
    let not_deleted = if include_deleted {
        ""@
    } else {
        with.delete_option.not_deleted()
    };
    let front = "WITH entities AS (SELECT * FROM "@ + with.table_name@ + " WHERE ("@
        + with.column.name@ + " = ANY($1))"@ + not_deleted
        + ") SELECT i.id AS \"entity_id: "@ + with.id@
        + "\", e.sequence, e.event, CASE WHEN $2 THEN e.context ELSE NULL::jsonb END as \"context: es_entity::ContextData\", e.recorded_at, "@;
    let source = " FROM entities i JOIN "@ + without.events_table_name@ + " e ON i.id = e.id"@;
    let join = payload_join_code(with.forgettable_table_name->0@);
    reveal_strlit("");
    reveal_strlit(" ");
    reveal_strlit("LEFT JOIN ");
    reveal_strlit(" LEFT JOIN ");
    assert(" LEFT JOIN "@ =~= " "@ + "LEFT JOIN "@);
    assert(without.query(include_deleted) =~= (front
        + "NULL::jsonb as \"forgettable_payload?\""@) + source + " ORDER BY e.id, e.sequence"@);
    assert(with.query(include_deleted) =~= (front + "p.payload as \"forgettable_payload?\""@)
        + source + join + " ORDER BY e.id, e.sequence"@);
}

} // verus!
