use es_entity_repo::combo_cursor::ComboCursor;
use es_entity_repo::es_repo::RepoParts;
use es_entity_repo::hydrate_nested::HydrateNested;
use es_entity_repo::index_catalog::IndexCatalog;
use es_entity_repo::options::column::{Accessor, Column, ColumnOpts};
use es_entity_repo::options::columns::Columns;
use es_entity_repo::options::error::OptionsError;
use es_entity_repo::options::meta::{
    Meta, MetaKind, MetaValue, NestedMeta, Quoted, TextReading,
};
use es_entity_repo::options::repository::{
    ClockFieldInfo, Features, GenericParam, Generics, RepoField, RepositoryOptions,
};
use es_entity_repo::options::texts::{read_texts, Place};
use es_entity_repo::populate_nested::PopulateNested;
use es_entity_repo::tokens::TokenTree;
use es_entity_repo::types::TypeExpr;
use proc_macro2::{Group, Punct, Spacing, TokenStream};
use quote::ToTokens;

const OPERATORS: [&str; 16] = [
    "..=", "...", "::", "->", "=>", "&&", "||", "==", "!=", "<=", ">=", "..", "+=", "-=", "*=",
    "/=",
];

fn push_puncts(run: &str, out: &mut Vec<proc_macro2::TokenTree>) {
    let mut rest = run;
    while let Some(first) = rest.chars().next() {
        let operator = OPERATORS.iter().find(|operator| rest.starts_with(**operator));
        let text = operator.map_or(&rest[..first.len_utf8()], |operator| *operator);
        for (i, c) in text.char_indices() {
            let joint = i + 1 < text.len() || c == '\'';
            let spacing = if joint { Spacing::Joint } else { Spacing::Alone };
            out.push(proc_macro2::TokenTree::Punct(Punct::new(c, spacing)));
        }
        rest = &rest[text.len()..];
    }
}

fn spaced(tokens: TokenStream) -> TokenStream {
    let mut out = Vec::new();
    let mut run = String::new();
    for tree in tokens {
        match tree {
            proc_macro2::TokenTree::Punct(punct) => {
                run.push(punct.as_char());
                if punct.spacing() == Spacing::Alone {
                    push_puncts(&run, &mut out);
                    run.clear();
                }
            }
            proc_macro2::TokenTree::Group(group) => {
                out.push(proc_macro2::TokenTree::Group(Group::new(group.delimiter(), spaced(group.stream()))))
            }
            other => {
                push_puncts(&run, &mut out);
                run.clear();
                out.push(other);
            }
        }
    }
    push_puncts(&run, &mut out);
    out.into_iter().collect()
}

fn norm(code: &str) -> String {
    spaced(code.parse().expect("code is made of tokens")).to_string()
}

fn ty(text: &str) -> TypeExpr {
    TypeExpr::parse(text).expect("a type")
}

fn nested_items(tokens: TokenStream) -> Vec<NestedMeta> {
    darling::ast::NestedMeta::parse_meta_list(tokens)
        .expect("attribute items")
        .iter()
        .map(|item| match item {
            darling::ast::NestedMeta::Meta(meta) => NestedMeta::Meta(read_meta(meta)),
            darling::ast::NestedMeta::Lit(_) => NestedMeta::Literal,
        })
        .collect()
}

fn read_value(value: &syn::Expr) -> MetaValue {
    match value {
        syn::Expr::Lit(syn::ExprLit { lit: syn::Lit::Str(text), .. }) => {
            MetaValue::Text(Quoted::new(text.value()))
        }
        syn::Expr::Lit(syn::ExprLit { lit: syn::Lit::Bool(flag), .. }) => {
            MetaValue::Flag(flag.value)
        }
        syn::Expr::Path(path) if path.path.get_ident().is_some() => {
            MetaValue::Name(value.to_token_stream().to_string())
        }
        other => MetaValue::Expr(Accessor {
            text: other.to_token_stream().to_string(),
            is_call: matches!(other, syn::Expr::Call(_) | syn::Expr::MethodCall(_)),
        }),
    }
}

fn read_meta(meta: &syn::Meta) -> Meta {
    Meta {
        name: meta.path().get_ident().map(|ident| ident.to_string()),
        kind: match meta {
            syn::Meta::Path(_) => MetaKind::Word,
            syn::Meta::List(list) => MetaKind::List(nested_items(list.tokens.clone())),
            syn::Meta::NameValue(pair) => MetaKind::Value(read_value(&pair.value)),
        },
    }
}

fn meta(text: &str) -> Meta {
    read_meta(&syn::parse_str(text).expect("an attribute"))
}

fn items(text: &str) -> Vec<NestedMeta> {
    match meta(text).kind {
        MetaKind::List(items) => items,
        _ => panic!("expected a list: {text}"),
    }
}

fn columns_items(text: &str) -> Vec<NestedMeta> {
    read_texts(&items(text), &Place::Columns)
}

fn column_items(text: &str) -> Vec<NestedMeta> {
    read_texts(&items(text), &Place::Column)
}

fn attribute_items(attributes: &[syn::Attribute]) -> Vec<NestedMeta> {
    attributes
        .iter()
        .filter(|attribute| attribute.path().is_ident("es_repo"))
        .flat_map(|attribute| match &attribute.meta {
            syn::Meta::List(list) => nested_items(list.tokens.clone()),
            _ => Vec::new(),
        })
        .collect()
}

fn trees(tokens: TokenStream) -> Vec<TokenTree> {
    tokens
        .into_iter()
        .map(|tree| match tree {
            proc_macro2::TokenTree::Ident(ident) => TokenTree::Ident(ident.to_string()),
            proc_macro2::TokenTree::Group(group) => TokenTree::Group(trees(group.stream())),
            _ => TokenTree::Other,
        })
        .collect()
}

fn read_field(field: &syn::Field) -> RepoField {
    let ty = field.ty.to_token_stream();
    RepoField::from_attributes(
        field.ident.as_ref().map(|ident| ident.to_string()),
        TypeExpr::parse(&ty.to_string()).expect("a type"),
        trees(ty),
        &attribute_items(&field.attrs),
    )
    .expect("a field")
}

fn read_generics(generics: &syn::Generics) -> Generics {
    Generics {
        params: generics
            .type_params()
            .map(|param| GenericParam {
                declaration: param.to_token_stream().to_string(),
                impl_declaration: param.to_token_stream().to_string(),
                name: param.ident.to_string(),
                is_type: true,
            })
            .collect(),
        where_clause: generics.where_clause.to_token_stream().to_string(),
    }
}

fn read_options(text: &str) -> RepositoryOptions {
    let input: syn::DeriveInput = syn::parse_str(text).expect("a struct");
    let fields = match &input.data {
        syn::Data::Struct(data) => Some(data.fields.iter().map(read_field).collect()),
        _ => None,
    };
    RepositoryOptions::from_attributes(
        input.ident.to_string(),
        read_generics(&input.generics),
        fields,
        Features { instrument: false, graphql: false, event_context: false },
        &attribute_items(&input.attrs),
    )
    .expect("options")
}

fn derive_repo(text: &str) -> Result<String, String> {
    let opts = read_options(text);
    let cursor = ComboCursor::new(opts.entity());
    let parts = RepoParts {
        update_fn: "pub async fn update_in_op<OP>(&self, op: &mut OP, entity: &mut E) {}".to_string(),
        update_all_fn: String::new(),
        combo_cursor: String::new(),
        gql_combo_cursor: String::new(),
        sort_by: String::new(),
    };
    match es_entity_repo::es_repo::derive(&opts, "", &cursor, IndexCatalog::empty(), &parts) {
        Ok(code) => Ok(norm(&code)),
        Err(errors) => {
            Err(errors.iter().map(|error| error.message()).collect::<Vec<_>>().join("; "))
        }
    }
}

fn populate_output(text: &str) -> String {
    let opts = read_options(text);
    let parent = opts.columns.parent().expect("repo must declare a parent column");
    let mut tokens = String::new();
    PopulateNested::new(parent, &opts).to_tokens(&mut tokens);
    norm(&tokens)
}

fn hydrate_output(text: &str) -> String {
    let opts = read_options(text);
    let parent = opts.columns.parent().expect("repo must declare a parent column");
    let mut tokens = String::new();
    HydrateNested::new(parent, &opts).to_tokens(&mut tokens);
    norm(&tokens)
}

fn messages(errors: &[OptionsError]) -> String {
    errors.iter().map(|error| error.message()).collect::<Vec<_>>().join("; ")
}

fn parse_columns_err(text: &str) -> String {
    match Columns::from_list(&columns_items(text)) {
        Ok(_) => panic!("expected an error: {text}"),
        Err(errors) => messages(&errors),
    }
}

#[test]
fn forgettable_index_column_without_flag_is_error() {
    let input = r##"
        #[es_repo(entity = "Subscriber", columns(email(ty = "Forgettable<String>")))]
        struct Subscribers {
            pool: sqlx::PgPool,
        }
    "##;
    let err = derive_repo(input).unwrap_err();
    assert!(
        err.contains("does not enable `forgettable`"),
        "unexpected error: {err}"
    );
}

#[test]
fn forgettable_index_column_with_flag_is_ok() {
    let input = r##"
        #[es_repo(
            entity = "Subscriber",
            forgettable,
            columns(email(ty = "Forgettable<String>"))
        )]
        struct Subscribers {
            pool: sqlx::PgPool,
        }
    "##;
    assert!(derive_repo(input).is_ok());
}

#[test]
fn error_classifiers_are_emitted_once_and_gated() {
    let with_columns = r##"
        #[es_repo(entity = "User", columns(name(ty = "String")))]
        struct Users {
            pool: sqlx::PgPool,
        }
    "##;
    let out = derive_repo(with_columns).unwrap();
    assert_eq!(
        out.matches("fn classify_create_error").count(),
        1,
        "create classifier should be defined exactly once"
    );
    assert_eq!(
        out.matches("fn classify_write_error").count(),
        1,
        "write classifier should be defined exactly once"
    );
    // Both create paths call the shared fn rather than inlining a match.
    assert_eq!(
        out.matches("Self :: classify_create_error").count(),
        2,
        "create and create_all should both call the shared classifier"
    );

    // No index columns to persist and no soft delete so nothing calls the
    // write classifier, so it must not be emitted.
    let no_columns = r##"
        #[es_repo(entity = "User")]
        struct Users {
            pool: sqlx::PgPool,
        }
    "##;
    let out = derive_repo(no_columns).unwrap();
    assert!(
        !out.contains("fn classify_write_error"),
        "write classifier must not be emitted without a caller"
    );
    assert!(
        out.contains("fn classify_create_error"),
        "create classifier always has callers"
    );
}

#[test]
fn plain_repo_is_ok() {
    let input = r##"
        #[es_repo(entity = "User", columns(name(ty = "String")))]
        struct Users {
            pool: sqlx::PgPool,
        }
    "##;
    assert!(derive_repo(input).is_ok());
}

#[test]
fn scoped_repo_is_ok() {
    let input = r##"
        #[es_repo(
            entity = "User",
            columns(partner_id(ty = "PartnerId", scope), name(ty = "String"))
        )]
        struct Users {
            pool: sqlx::PgPool,
        }
    "##;
    let tokens = derive_repo(input).expect("scoped repo should derive");
    assert!(tokens.contains("pub enum UserScope"));
    assert!(tokens.contains("PartnerId (PartnerId)"));
    assert!(!tokens.contains("Only"));
    // every read fn takes the scope argument
    assert!(tokens.contains("fn find_by_id (& self , scope : impl Into < UserScope >"));
    assert!(tokens.contains("(& self , scope : impl Into < UserScope > , ids"));
    assert!(tokens.contains("fn list_by_created_at (& self , scope : impl Into < UserScope >"));
    // the PartnerId arm filters by the scope column, the All arm does not
    assert!(tokens.contains("WHERE id = $1 AND partner_id = $2"));
    assert!(tokens.contains("WHERE id = $1\""));
    // no find_by fns are generated for the scope column itself
    assert!(!tokens.contains("find_by_partner_id"));
    // writes stay unscoped (custody principle)
    assert!(tokens.contains("fn create_in_op < OP > (& self , op : & mut OP , new_entity"));
    assert!(tokens.contains("fn update_in_op < OP > (& self , op : & mut OP , entity"));
}

#[test]
fn scoped_repo_generates_bound_view() {
    let input = r##"
        #[es_repo(
            entity = "User",
            columns(partner_id(ty = "PartnerId", scope), name(ty = "String"))
        )]
        struct Users {
            pool: sqlx::PgPool,
        }
    "##;
    let tokens = derive_repo(input).expect("scoped repo should derive");
    // the bound view type + constructor
    assert!(tokens.contains("pub struct ScopedUsers"));
    assert!(tokens.contains("pub fn scoped <"));
    // view methods take no scope argument and forward the bound scope
    assert!(tokens.contains("self . repo . find_by_id (self . scope"));
    assert!(tokens.contains("self . repo . maybe_find_by_id_in_op (op , self . scope"));
    assert!(tokens.contains("self . repo . find_all (self . scope"));
    assert!(tokens.contains("self . repo . list_by_created_at (self . scope"));
    assert!(tokens.contains("self . repo . list_for_filters (self . scope"));
}

#[test]
fn unscoped_repo_has_no_bound_view() {
    let input = r##"
        #[es_repo(entity = "User", columns(name(ty = "String")))]
        struct Users {
            pool: sqlx::PgPool,
        }
    "##;
    let tokens = derive_repo(input).unwrap();
    assert!(!tokens.contains("ScopedUsers"));
    assert!(!tokens.contains("pub fn scoped <"));
}

#[test]
fn scoped_repo_with_generics_generates_bound_view() {
    let input = r##"
        #[es_repo(
            entity = "User",
            columns(partner_id(ty = "PartnerId", scope))
        )]
        struct Users<E> {
            pool: sqlx::PgPool,
            _phantom: std::marker::PhantomData<E>,
        }
    "##;
    let tokens = derive_repo(input).expect("generic scoped repo should derive");
    assert!(tokens.contains("pub struct ScopedUsers < 'scoped_repo , E >"));
}

#[test]
fn multi_scoped_repo_is_ok() {
    let input = r##"
        #[es_repo(
            entity = "Facility",
            columns(
                partner_id(ty = "PartnerId", scope),
                customer_id(ty = "CustomerId", scope),
                name(ty = "String")
            )
        )]
        struct Facilities {
            pool: sqlx::PgPool,
        }
    "##;
    let tokens = derive_repo(input).expect("multi-scoped repo should derive");
    assert!(tokens.contains("pub enum FacilityScope"));
    assert!(tokens.contains("PartnerId (PartnerId)"));
    assert!(tokens.contains("CustomerId (CustomerId)"));
    // one dispatch arm per dimension, each with only its own conjunct
    assert!(tokens.contains("WHERE id = $1 AND partner_id = $2"));
    assert!(tokens.contains("WHERE id = $1 AND customer_id = $2"));
    assert!(!tokens.contains("partner_id = $2 AND customer_id"));
    // From impls for both id types
    assert!(tokens.contains("impl From < PartnerId > for FacilityScope"));
    assert!(tokens.contains("impl From < CustomerId > for FacilityScope"));
}

#[test]
fn scope_variant_override_is_ok() {
    let input = r##"
        #[es_repo(
            entity = "Facility",
            columns(
                partner_id(ty = "PartnerId", scope(variant = "Partner")),
                customer_id(ty = "CustomerId", scope),
                name(ty = "String")
            )
        )]
        struct Facilities {
            pool: sqlx::PgPool,
        }
    "##;
    let tokens = derive_repo(input).expect("overridden-variant scoped repo should derive");
    assert!(tokens.contains("pub enum FacilityScope"));
    // overridden column uses the custom variant name...
    assert!(tokens.contains("Partner (PartnerId)"));
    assert!(!tokens.contains("PartnerId (PartnerId)"));
    // ...while the other column keeps the default
    assert!(tokens.contains("CustomerId (CustomerId)"));
    assert!(tokens.contains("impl From < PartnerId > for FacilityScope"));
    assert!(tokens.contains("FacilityScope :: Partner (__scope_val)"));
}

#[test]
fn id_scope_variant_override_is_ok() {
    let input = r##"
        #[es_repo(
            entity = "Partner",
            columns(id(scope(variant = "Tenant")), name(ty = "String", list_by))
        )]
        struct Partners {
            pool: sqlx::PgPool,
        }
    "##;
    let tokens = derive_repo(input).expect("id(scope(variant = ...)) repo should derive");
    assert!(tokens.contains("pub enum PartnerScope"));
    // the id column's overridden variant name replaces the default `Id`...
    assert!(tokens.contains("Tenant (PartnerId)"));
    assert!(!tokens.contains("Id (PartnerId)"));
    assert!(tokens.contains("impl From < PartnerId > for PartnerScope"));
    assert!(tokens.contains("PartnerScope :: Tenant (__scope_val)"));
    // every query carries the id conjunct under the overridden variant
    assert!(tokens.contains("WHERE id = $1 AND id = $2"));
}

#[test]
fn same_type_scope_columns_is_error() {
    let input = r##"
        #[es_repo(
            entity = "User",
            columns(
                partner_id(ty = "PartnerId", scope),
                other_partner_id(ty = "PartnerId", scope)
            )
        )]
        struct Users {
            pool: sqlx::PgPool,
        }
    "##;
    let err = derive_repo(input).unwrap_err();
    assert!(
        err.contains("same Rust type"),
        "unexpected error: {err}"
    );
}

#[test]
fn optional_scope_column_is_ok() {
    // A syntactic Option<T> scope column is accepted: the generated
    // variant and its `From` impl carry the bare inner type, never
    // `Option<T>` - a scope value is always concrete, and NULL rows are
    // simply invisible to this variant (only `All` sees them).
    let input = r##"
        #[es_repo(
            entity = "User",
            columns(partner_id(ty = "Option<PartnerId>", scope))
        )]
        struct Users {
            pool: sqlx::PgPool,
        }
    "##;
    let tokens = derive_repo(input).expect("Option<T> scope column should derive");
    assert!(tokens.contains("pub enum UserScope"));
    // the variant carries the bare inner type, not Option<PartnerId>.
    // The full derive output legitimately still contains "Option <
    // PartnerId >" elsewhere (the column itself stays declared
    // `Option<PartnerId>` for create/persist - only the scope enum and
    // its `From` impls unwrap it), so assert on the specific
    // scope-related spots rather than the whole token stream.
    assert!(tokens.contains("PartnerId (PartnerId)"));
    assert!(!tokens.contains("PartnerId (Option < PartnerId >)"));
    assert!(tokens.contains("impl From < PartnerId > for UserScope"));
    assert!(tokens.contains("impl From < & PartnerId > for UserScope"));
    assert!(!tokens.contains("impl From < Option < PartnerId > > for UserScope"));
    // the SQL conjunct is the ordinary equality - NULL rows fall out of
    // `=` semantics with zero special-casing.
    assert!(tokens.contains("WHERE id = $1 AND partner_id = $2"));
}

#[test]
fn nullable_annotated_scope_column_is_error() {
    // Unlike Option<T>, a `nullable`-annotated non-Option scope column
    // has no inner type to unwrap - still rejected.
    let input = r##"
        #[es_repo(
            entity = "User",
            columns(partner_id(ty = "PartnerId", scope, nullable = true))
        )]
        struct Users {
            pool: sqlx::PgPool,
        }
    "##;
    let err = derive_repo(input).unwrap_err();
    assert!(
        err.contains("only syntactic Option<T>"),
        "unexpected error: {err}"
    );
}

#[test]
fn scope_column_composes_with_query_flags() {
    // `scope` may coexist with `find_by = true`, `list_by` and `list_for`
    // on the same column - the generated fns compose with the scope.
    for extra in ["find_by = true", "list_by = true", "list_for"] {
        let src = format!(
            r#"
            #[es_repo(
                entity = "User",
                columns(partner_id(ty = "PartnerId", scope, {extra}))
            )]
            struct Users {{
                pool: sqlx::PgPool,
            }}
            "#
        );
        derive_repo(&src)
            .unwrap_or_else(|err| panic!("scope column with `{extra}` should derive: {err}"));
    }
}

#[test]
fn scope_column_find_by_composes_via_conjunct() {
    let input = r##"
        #[es_repo(
            entity = "User",
            columns(partner_id(ty = "PartnerId", scope, find_by = true))
        )]
        struct Users {
            pool: sqlx::PgPool,
        }
    "##;
    let tokens = derive_repo(input).expect("scoped repo should derive");
    // explicit opt-in generates the find fns, scope argument included
    assert!(tokens.contains("fn find_by_partner_id (& self , scope : impl Into < UserScope >"));
    assert!(
        tokens
            .contains("fn maybe_find_by_partner_id (& self , scope : impl Into < UserScope >")
    );
    assert!(tokens.contains("WHERE partner_id = $1 AND partner_id = $2"));
}

#[test]
fn scope_column_list_for_composes_via_conjunct() {
    let input = r##"
        #[es_repo(
            entity = "User",
            columns(
                partner_id(ty = "PartnerId", scope, list_for(by(created_at))),
                status(ty = "String", list_for(by(created_at)))
            )
        )]
        struct Users {
            pool: sqlx::PgPool,
        }
    "##;
    let tokens = derive_repo(input).expect("scoped repo should derive");
    // the Filters struct carries the scope column like any other
    // list_for column
    assert!(tokens.contains("pub struct UserFilters"));
    assert!(tokens.contains("pub partner_id : Option < PartnerId >"));
    assert!(tokens.contains("pub status : Option < String >"));
    assert!(tokens.contains(
        "fn list_for_partner_id_by_created_at (& self , scope : impl Into < UserScope >"
    ));
    assert!(tokens.contains("(partner_id = $1) AND partner_id = $2"));
}

#[test]
fn scope_on_nested_child_repo_is_error() {
    let input = r##"
        #[es_repo(
            entity = "LineItem",
            columns(
                order_id(ty = "OrderId", parent),
                partner_id(ty = "PartnerId", scope)
            )
        )]
        struct LineItems {
            pool: sqlx::PgPool,
        }
    "##;
    let err = derive_repo(input).unwrap_err();
    assert!(
        err.contains("not supported on nested repos"),
        "unexpected error: {err}"
    );
}

#[test]
fn forgettable_scope_column_is_error() {
    let input = r##"
        #[es_repo(
            entity = "User",
            forgettable,
            columns(partner_id(ty = "Forgettable<PartnerId>", scope))
        )]
        struct Users {
            pool: sqlx::PgPool,
        }
    "##;
    let err = derive_repo(input).unwrap_err();
    // Forgettable columns are rewritten to Option<T>, so either the
    // forgettable or the nullable check may fire first - both reject.
    let msg = err;
    assert!(
        msg.contains("Forgettable") || msg.contains("non-nullable"),
        "unexpected error: {msg}"
    );
}

#[test]
fn virtual_column_without_list_for_is_rejected_by_derive() {
    let input = r##"
        #[es_repo(
            entity = "Task",
            columns(flagged(ty = "bool", virtual = "TRUE"))
        )]
        struct Tasks {
            pool: sqlx::PgPool,
        }
    "##;
    let err = derive_repo(input).unwrap_err();
    assert!(
        err.contains("must be marked `list_for`"),
        "unexpected error: {err}"
    );
}

#[test]
fn populate_nested_cascade_scrubs_forgettable_nested_children() {
    let input = r##"
        #[es_repo(
            entity = "AccountHolder",
            forgettable,
            delete = "soft",
            columns(
                account_id(ty = "AccountId", update(persist = false), parent),
                email(ty = "Forgettable<String>")
            )
        )]
        struct AccountHolders {
            pool: sqlx::PgPool,
        }
    "##;
    let output = populate_output(input);
    // Child payload rows are deleted first, scoped to direct children by
    // the parent FK.
    assert!(output.contains(
        "DELETE FROM account_holders_forgettable_payloads WHERE entity_id IN (SELECT id FROM account_holders WHERE account_id = $1)"
    ));
    // The soft-delete UPDATE also NULLs the child forgettable index column.
    assert!(output.contains(
        "UPDATE account_holders SET deleted = TRUE, email = NULL WHERE account_id = $1 AND deleted = FALSE"
    ));
}

#[test]
fn hydrate_nested_cascade_scrubs_forgettable_nested_children() {
    let input = r##"
        #[es_repo(
            entity = "AccountHolder",
            forgettable,
            delete = "soft",
            columns(
                account_id(ty = "AccountId", update(persist = false), parent),
                email(ty = "Forgettable<String>")
            )
        )]
        struct AccountHolders {
            pool: sqlx::PgPool,
        }
    "##;
    let out = hydrate_output(input);
    // Child payload rows are deleted first, scoped to direct children by
    // the parent FK.
    assert!(out.contains(
        "DELETE FROM account_holders_forgettable_payloads WHERE entity_id IN (SELECT id FROM account_holders WHERE account_id = $1)"
    ));
    // The soft-delete UPDATE also NULLs the child forgettable index column.
    assert!(out.contains(
        "UPDATE account_holders SET deleted = TRUE, email = NULL WHERE account_id = $1 AND deleted = FALSE"
    ));
}

#[test]
fn populate_nested_cascade_leaves_non_forgettable_children_unchanged() {
    let input = r##"
        #[es_repo(
            entity = "AccountHolder",
            delete = "soft",
            columns(
                account_id(ty = "AccountId", update(persist = false), parent),
                label(ty = "String")
            )
        )]
        struct AccountHolders {
            pool: sqlx::PgPool,
        }
    "##;
    let output = populate_output(input);
    assert!(output.contains(
        "UPDATE account_holders SET deleted = TRUE WHERE account_id = $1 AND deleted = FALSE"
    ));
    assert!(!output.contains("DELETE FROM"));
    assert!(!output.contains("= NULL"));
}

#[test]
fn hydrate_nested_cascade_leaves_non_forgettable_children_unchanged() {
    let input = r##"
        #[es_repo(
            entity = "AccountHolder",
            delete = "soft",
            columns(
                account_id(ty = "AccountId", update(persist = false), parent),
                label(ty = "String")
            )
        )]
        struct AccountHolders {
            pool: sqlx::PgPool,
        }
    "##;
    let out = hydrate_output(input);
    assert!(out.contains(
        "UPDATE account_holders SET deleted = TRUE WHERE account_id = $1 AND deleted = FALSE"
    ));
    assert!(!out.contains("DELETE FROM"));
    assert!(!out.contains("= NULL"));
}

#[test]
fn hydrate_in_op_demuxes_by_tag_and_recurses_before_injecting() {
    let input = r##"
        #[es_repo(
            entity = "OrderItem",
            columns(order_id(ty = "OrderId", update(persist = false), parent))
        )]
        struct OrderItems {
            pool: sqlx::PgPool,
        }
    "##;
    let out = hydrate_output(input);
    assert!(out.contains("impl es_entity :: HydrateNested < OrderId > for OrderItems"));
    assert!(out.contains("fn hydrate_in_op"));
    assert!(!out.contains("sqlx :: query"));
    assert!(out.contains("es_entity :: decode_tagged_row :: < OrderItemId >"));
    assert!(out.contains("hydrate_nested_from_rows"));
}

#[test]
fn non_soft_delete_repo_gets_no_cascade_delete_impl() {
    let input = r##"
        #[es_repo(
            entity = "OrderItem",
            columns(order_id(ty = "OrderId", update(persist = false), parent))
        )]
        struct OrderItems {
            pool: sqlx::PgPool,
        }
    "##;
    let out = hydrate_output(input);
    assert!(!out.contains("CascadeDeleteNested"));
}

#[test]
fn column_opts_from_list() {
    let input = column_items(r#"thing( ty = "crate::module::Thing", list_by = false, create(persist = true, accessor = accessor_fn()), )"#);
    let values = ColumnOpts::from_list(&input).expect("Failed to parse Field");
    assert_eq!(norm(&values.ty.text), norm("crate::module::Thing"));
    assert!(!values.list_by());
    assert!(values.find_by());
    assert_eq!(
        norm(&values.create_opts.unwrap().accessor.unwrap().text),
        norm("accessor_fn()")
    );
}

#[test]
fn columns_from_list() {
    let input = columns_items(r#"columns( name = "String", email( ty = "String", list_by = false, create(accessor = "email()"), update(persist = false) ) )"#);
    let columns = Columns::from_list(&input).expect("Failed to parse Fields");
    assert_eq!(columns.all.len(), 2);

    assert_eq!(columns.all[0].name.to_string(), "name");

    assert_eq!(columns.all[1].name.to_string(), "email");
    assert!(!columns.all[1].opts.list_by());
    assert_eq!(
        norm(&columns.all[1]
            .opts
            .create_accessor("email")),
        norm("email()")
    );
    assert!(!columns.all[1].opts.persist_on_update());
}

#[test]
fn parent_opts_from_list() {
    let input = column_items(r#"thing(ty = "String", parent)"#);
    let values = ColumnOpts::from_list(&input).expect("Failed to parse Field");
    assert_eq!(norm(&values.ty.text), norm("String"));
    assert!(values.parent_opts.is_some());

    let input = column_items(r#"thing(ty = "String", parent(accessor = "parent_id()"))"#);
    let values = ColumnOpts::from_list(&input).expect("Failed to parse Field");
    assert_eq!(norm(&values.ty.text), norm("String"));
    assert!(values.parent_opts.is_some());
    assert_eq!(
        norm(&values.parent_accessor("thing")),
        norm("parent_id()")
    );
}

#[test]
fn list_for_bare_word() {
    let input = column_items(r#"thing(ty = "String", list_for)"#);
    let values = ColumnOpts::from_list(&input).expect("Failed to parse Field");
    assert!(values.list_for());
    assert_eq!(values.list_for_by_columns().len(), 1);
    assert_eq!(values.list_for_by_columns()[0].to_string(), "id");
}

#[test]
fn list_for_with_by_columns() {
    let input = column_items(r#"thing(ty = "String", list_for(by(created_at)))"#);
    let values = ColumnOpts::from_list(&input).expect("Failed to parse Field");
    assert!(values.list_for());
    assert_eq!(values.list_for_by_columns().len(), 1);
    assert_eq!(values.list_for_by_columns()[0].to_string(), "created_at");
}

#[test]
fn list_for_by_column_must_be_list_by() {
    let id_ident = "TestId".to_string();
    let col = Column::new_list_for(
        "status".to_string(),
        ty("String"),
        vec!["nonexistent".to_string()],
    );
    let columns = Columns::new(&id_ident, vec![col]);
    let result = columns.validate_list_for_by_columns();
    assert!(result.is_err());
    let err = messages(&result.unwrap_err());
    assert!(
        err.contains("nonexistent"),
        "error should mention the invalid column name: {err}"
    );
    assert!(
        err.contains("list_by"),
        "error should mention list_by: {err}"
    );
}

#[test]
fn list_for_by_valid_column_passes_validation() {
    let id_ident = "TestId".to_string();
    let col = Column::new_list_for(
        "status".to_string(),
        ty("String"),
        vec!["id".to_string()],
    );
    let columns = Columns::new(&id_ident, vec![col]);
    let result = columns.validate_list_for_by_columns();
    assert!(result.is_ok());
}

#[test]
fn list_for_with_multiple_by_columns() {
    let input = column_items(r#"thing(ty = "String", list_for(by(created_at, id)))"#);
    let values = ColumnOpts::from_list(&input).expect("Failed to parse Field");
    assert!(values.list_for());
    assert_eq!(values.list_for_by_columns().len(), 2);
    assert_eq!(values.list_for_by_columns()[0].to_string(), "created_at");
    assert_eq!(values.list_for_by_columns()[1].to_string(), "id");
}

#[test]
fn id_scope_from_list() {
    let input = columns_items(r#"columns(id(scope), name = "String")"#);
    let mut columns = Columns::from_list(&input).expect("Failed to parse Fields");
    assert_eq!(columns.all.len(), 1);
    columns.set_id_column("TestId");

    let scope = columns.scope_column().expect("id should be scope column");
    assert_eq!(scope.name().to_string(), "id");
    // The id column keeps its point-read and cursor fns despite being
    // the scope column (`for_id` opts in explicitly).
    assert!(scope.opts.find_by());
    assert!(scope.opts.list_by());
    assert!(columns.validate_scope().is_ok());
}

#[test]
fn id_without_scope_stays_unscoped() {
    let input = columns_items(r#"columns(name = "String")"#);
    let mut columns = Columns::from_list(&input).expect("Failed to parse Fields");
    columns.set_id_column("TestId");
    assert!(columns.scope_column().is_none());
}

#[test]
fn id_column_rejects_everything_but_scope() {
    for input in [
        r#"columns(id(ty = "TestId"), name = "String")"#,
        r#"columns(id = "TestId")"#,
        r#"columns(id(scope, find_by = false))"#,
    ] {
        let err = parse_columns_err(input);
        assert!(
            err.contains("id(scope)"),
            "error should point at the id(scope) form: {err}"
        );
    }
}

#[test]
fn duplicate_id_column_rejected() {
    let err = parse_columns_err(r#"columns(id(scope), id(scope))"#);
    assert!(err.contains("duplicate"), "unexpected error: {err}");
}

#[test]
fn id_scope_conflicts_with_column_scope() {
    let input = columns_items(r#"columns(id(scope), partner_id(ty = "PartnerId", scope))"#);
    let mut columns = Columns::from_list(&input).expect("Failed to parse Fields");
    columns.set_id_column("TestId");
    let err = columns.validate_scope().unwrap_err().message();
    assert!(
        err.contains("only one scope column"),
        "unexpected error: {err}"
    );
}

fn column_errors(text: &str) -> Vec<OptionsError> {
    match ColumnOpts::from_list(&column_items(text)) {
        Ok(_) => panic!("expected an error: {text}"),
        Err(errors) => errors,
    }
}

fn columns_errors(text: &str) -> Vec<OptionsError> {
    match Columns::from_list(&columns_items(text)) {
        Ok(_) => panic!("expected an error: {text}"),
        Err(errors) => errors,
    }
}

fn field(name: &str) -> String {
    name.to_string()
}

fn options_from(text: &str) -> Result<RepositoryOptions, Vec<OptionsError>> {
    RepositoryOptions::from_list(
        "Orders".to_string(),
        Generics { params: Vec::new(), where_clause: String::new() },
        Some(Vec::new()),
        Features { instrument: false, graphql: false, event_context: true },
        &read_texts(&items(text), &Place::Repository),
    )
}

fn options_errors(text: &str) -> Vec<OptionsError> {
    match options_from(text) {
        Ok(_) => panic!("expected an error: {text}"),
        Err(errors) => errors,
    }
}

#[test]
fn column_options_are_rejected() {
    assert_eq!(column_errors("c(list_by)"), vec![OptionsError::MissingField { field: field("ty") }]);
    assert_eq!(
        column_errors(r#"c(ty = "u8", ty = "u8")"#),
        vec![OptionsError::DuplicateField { field: field("ty") }]
    );
    assert_eq!(
        column_errors(r#"c(ty = "u8", list_by, list_by = false)"#),
        vec![OptionsError::DuplicateField { field: field("list_by") }]
    );
    assert_eq!(
        column_errors(r#"c(ty = "not a type")"#),
        vec![OptionsError::InvalidField { field: field("ty") }]
    );
    assert_eq!(column_errors(r#"c(ty = "u8", color = "red")"#), vec![OptionsError::UnknownField]);
    assert_eq!(
        column_errors(r#"c("u8")"#),
        vec![OptionsError::UnexpectedLiteral, OptionsError::MissingField { field: field("ty") }]
    );
    assert_eq!(
        column_errors(r#"c(ty = "u8", list_for = false)"#),
        vec![OptionsError::ListForFalse]
    );
    assert_eq!(column_errors(r#"c(ty = "u8", list_for(id))"#), vec![OptionsError::ExpectedBy]);
    assert_eq!(
        column_errors(r#"c(ty = "u8", list_for(by("id")))"#),
        vec![OptionsError::ExpectedIdentifier]
    );
}

#[test]
fn columns_are_rejected() {
    assert_eq!(
        columns_errors("columns(id(scope), id(scope))"),
        vec![OptionsError::DuplicateIdColumn]
    );
    assert_eq!(columns_errors("columns(id(find_by))"), vec![OptionsError::IdColumnOnlyScope]);
    assert_eq!(columns_errors("columns(name)"), vec![OptionsError::ExpectedNameValueOrList]);
    assert_eq!(
        columns_errors(r#"columns(name = "not a type")"#),
        vec![OptionsError::InvalidType { text: field("not a type") }]
    );
}

#[test]
fn repository_options_are_read() {
    let opts = match options_from(
        r#"es_repo(
            entity = "Order",
            event = "OrderHappened",
            id = "OrderNumber",
            tbl_prefix = "shop",
            delete = "soft_without_queries",
            forgettable,
            persist_event_context = false,
            post_persist_hook = "announce",
            post_hydrate_hook(method = "validate", error = "InvalidOrder"),
            migrations_dir = "db",
            columns(name(ty = "String", list_by))
        )"#,
    ) {
        Ok(opts) => opts.update_defaults(),
        Err(error) => panic!("unexpected error: {error:?}"),
    };
    assert_eq!(opts.entity(), "Order");
    assert_eq!(opts.event(), "OrderHappened");
    assert_eq!(opts.id(), "OrderNumber");
    assert_eq!(opts.table_name(), "shop_orders");
    assert_eq!(opts.events_table_name(), "shop_order_events");
    assert_eq!(opts.forgettable_table_name(), Some("shop_orders_forgettable_payloads"));
    assert!(!opts.event_context_enabled());
    assert_eq!(opts.post_persist_error(), Some("sqlx::Error"));
    assert_eq!(opts.post_hydrate_error(), Some("InvalidOrder"));
    assert_eq!(opts.migrations_dir.as_deref(), Some("db"));
    assert_eq!(opts.columns.all.len(), 3);
    assert_eq!(opts.columns.all[0].name(), "created_at");
    assert_eq!(opts.columns.all[1].name(), "id");
    assert_eq!(opts.columns.all[2].name(), "name");
    assert_eq!(opts.create_error(), "OrderCreateError");
    assert_eq!(opts.cursor_mod(), "order_cursor");
    assert_eq!(opts.repo_types_mod(), "order_repo_types");
    assert_eq!(opts.repo_name_snake_case(), "orders");
}

#[test]
fn given_names_are_kept() {
    let opts = match options_from(
        r#"es_repo(entity = "Order", tbl = "sales", events_tbl = "sales_log", forgettable, forgettable_tbl = "secrets")"#,
    ) {
        Ok(opts) => opts.update_defaults(),
        Err(error) => panic!("unexpected error: {error:?}"),
    };
    assert_eq!(opts.table_name(), "sales");
    assert_eq!(opts.events_table_name(), "sales_log");
    assert_eq!(opts.forgettable_table_name(), Some("secrets"));
    assert_eq!(opts.event(), "OrderEvent");
    assert_eq!(opts.id(), "OrderId");
    assert!(opts.event_context_enabled());
}

#[test]
fn repository_options_are_rejected() {
    assert_eq!(
        options_errors("es_repo(forgettable)"),
        vec![OptionsError::MissingField { field: field("entity") }]
    );
    assert_eq!(
        options_errors(r#"es_repo(entity = "A", entity = "B")"#),
        vec![OptionsError::DuplicateField { field: field("entity") }]
    );
    assert_eq!(
        options_errors(r#"es_repo(entity = "A", columns(), columns())"#),
        vec![OptionsError::DuplicateField { field: field("columns") }]
    );
    assert_eq!(
        options_errors(r#"es_repo(entity = "A", delete = "hard")"#),
        vec![OptionsError::InvalidField { field: field("delete") }]
    );
    assert_eq!(
        options_errors(r#"es_repo(entity = "A", table = "as")"#),
        vec![OptionsError::UnknownField]
    );
    assert_eq!(
        options_errors(r#"es_repo("A")"#),
        vec![
            OptionsError::UnexpectedLiteral,
            OptionsError::MissingField { field: field("entity") }
        ]
    );
    assert_eq!(
        options_errors(r#"es_repo(entity = "A", post_persist_hook(error = "E"))"#),
        vec![OptionsError::MissingMethod { hook: field("post_persist_hook") }]
    );
    assert_eq!(
        options_errors(r#"es_repo(entity = "A", post_hydrate_hook(method = "m"))"#),
        vec![OptionsError::MissingError { hook: field("post_hydrate_hook") }]
    );
    let errors = options_errors(
        r#"es_repo(entity = "A", post_hydrate_hook(method = "m", error = "not a type"))"#,
    );
    assert_eq!(errors, vec![OptionsError::InvalidErrorType { text: field("not a type") }]);
    assert_eq!(errors[0].message(), "invalid error type: not a type");
    assert_eq!(
        options_errors(r#"es_repo(entity = "not an identifier")"#),
        vec![OptionsError::InvalidField { field: field("entity") }]
    );
}

#[test]
fn texts_are_read_at_their_places() {
    let read = |text: &str, place: Place| match read_texts(&items(text), &place).remove(0) {
        NestedMeta::Meta(Meta { kind: MetaKind::Value(MetaValue::Text(text)), .. }) => text,
        _ => panic!("expected a text: {text}"),
    };
    let entity = read(r#"o(entity = " Order /* one */ ")"#, Place::Repository);
    assert_eq!(entity.text, " Order /* one */ ");
    assert!(matches!(entity.read, TextReading::Identifier(Some(ident)) if ident == "Order"));
    let table = read(r#"o(tbl = "Order")"#, Place::Repository);
    assert!(matches!(table.read, TextReading::Plain));
    let column = read(r#"o(anything = "Vec<u8>")"#, Place::Columns);
    assert!(matches!(
        column.read,
        TextReading::Type(Some(ty)) if norm(&ty.text) == norm("Vec<u8>")
            && ty.segments == ["Vec"] && ty.args == [Some("u8".to_string())] && ty.ident.is_none()
    ));
    let ty = read(r#"o(ty = "u8 u8")"#, Place::Column);
    assert!(matches!(ty.read, TextReading::Type(None)));
    let condition = read(r#"o(virtual = "state = 'open'")"#, Place::Column);
    assert!(matches!(condition.read, TextReading::Plain));
    let error = read(r#"o(error = "E")"#, Place::Hook);
    assert!(matches!(error.read, TextReading::Type(Some(ty)) if ty.ident.as_deref() == Some("E")));
    let accessor = read(r#"o(accessor = "a . b ()")"#, Place::Access);
    assert!(matches!(
        accessor.read,
        TextReading::Expression(Some(a)) if a.is_call && norm(&a.text) == norm("a.b()")
    ));
    let mark = read(r#"o(entity = "Item")"#, Place::Field);
    assert!(matches!(mark.read, TextReading::Identifier(Some(ident)) if ident == "Item"));
    let elsewhere = read(r#"o(ty = "u8")"#, Place::Elsewhere);
    assert!(matches!(elsewhere.read, TextReading::Plain));
}

#[test]
fn types_and_accessors_are_emitted_without_comments() {
    let opts = match options_from(
        r#"es_repo(
            entity = "Order",
            post_hydrate_hook(method = "check", error = "Invalid /* why */ < u8 >"),
            columns(name(ty = "String // text", create(accessor = "name() // note")))
        )"#,
    ) {
        Ok(opts) => opts,
        Err(error) => panic!("unexpected error: {error:?}"),
    };
    let name = &opts.columns.all[0];
    assert_eq!(name.opts.ty.text, "String");
    let accessor = name.opts.create_accessor("name");
    assert!(!accessor.contains("note"));
    assert_eq!(norm(&accessor), norm("name()"));
    assert!(name.opts.create_accessor_returns_owned());
    let error = opts.post_hydrate_error().expect("an error");
    assert!(!error.contains("why"));
    assert_eq!(norm(error), norm("Invalid<u8>"));
}

#[test]
fn nested_entities_are_selected_with_their_payloads() {
    let payloads = populate_output(
        r##"
        #[es_repo(
            entity = "AccountHolder",
            forgettable,
            delete = "soft",
            columns(
                account_id(ty = "AccountId", update(persist = false), parent),
                email(ty = "Forgettable<String>")
            )
        )]
        struct AccountHolders {
            pool: sqlx::PgPool,
        }
    "##,
    );
    let query = |condition: &str, column: &str, join: &str| {
        format!(
            "{:?}",
            format!(
                "WITH entities AS (SELECT * FROM account_holders WHERE (account_id = ANY($1)){condition}) SELECT i.id AS \"entity_id: AccountHolderId\", e.sequence, e.event, CASE WHEN $2 THEN e.context ELSE NULL::jsonb END as \"context: es_entity::ContextData\", e.recorded_at, {column} FROM entities i JOIN account_holder_events e ON i.id = e.id{join} ORDER BY e.id, e.sequence"
            )
        )
    };
    let column = "p.payload as \"forgettable_payload?\"";
    let join = " LEFT JOIN account_holders_forgettable_payloads p ON e.id = p.entity_id AND e.sequence = p.sequence";
    assert_eq!(payloads.matches(&query(" AND deleted = FALSE", column, join)).count(), 1);
    assert_eq!(payloads.matches(&query("", column, join)).count(), 1);
    assert!(payloads.contains("fn populate_in_op_include_deleted"));

    let alone = populate_output(
        r##"
        #[es_repo(
            entity = "AccountHolder",
            columns(account_id(ty = "AccountId", update(persist = false), parent))
        )]
        struct AccountHolders {
            pool: sqlx::PgPool,
        }
    "##,
    );
    let none = "NULL::jsonb as \"forgettable_payload?\"";
    assert!(alone.contains(&query("", none, "")));
    assert!(!alone.contains("LEFT JOIN"));
}

#[test]
fn fields_are_marked() {
    let read = |text: &str| {
        RepoField::from_attributes(
            Some("items".to_string()),
            TypeExpr::plain("Items"),
            vec![TokenTree::Ident("Items".to_string())],
            &items(text),
        )
    };
    let nested = read(r#"es_repo(nested, entity = "Item")"#).expect("a field");
    assert!(nested.nested && !nested.pool && !nested.clock);
    assert_eq!(nested.entity.as_deref(), Some("Item"));
    assert_eq!(nested.create_nested_fn_name(), "create_nested_items_in_op");
    assert_eq!(nested.find_nested_include_deleted_fn_name(), "find_nested_items_include_deleted_in_op");
    assert_eq!(nested.nested_variant_name(), "Items");
    let pool = read("es_repo(pool)").expect("a field");
    assert!(pool.is_pool_field());
    assert!(matches!(
        read("es_repo(pool, pool)"),
        Err(errors) if errors == [OptionsError::DuplicateField { field: field("pool") }]
    ));
    assert!(matches!(
        read("es_repo(owner, nested = 3)"),
        Err(errors) if errors == [
            OptionsError::UnknownField,
            OptionsError::InvalidField { field: field("nested") },
        ]
    ));
}

#[test]
fn accessors_are_expressions() {
    let read = |text: &str| ColumnOpts::from_list(&column_items(text));
    let text = read(r#"c(ty = "u8", create(accessor = "size()"))"#).expect("a column");
    assert_eq!(norm(&text.create_accessor("c")), norm("size()"));
    assert!(text.create_accessor_returns_owned());
    let field = read(r#"c(ty = "u8", create(accessor = "size"))"#).expect("a column");
    assert_eq!(field.create_accessor("c"), "size");
    assert!(!field.create_accessor_returns_owned());
    let none = read(r#"c(ty = "u8")"#).expect("a column");
    assert_eq!(none.create_accessor("c"), "c");
    assert!(matches!(
        read(r#"c(ty = "u8", create(accessor = "not an expression"))"#),
        Err(errors) if errors == [OptionsError::InvalidField { field: "accessor".to_string() }]
    ));
}

#[test]
fn rejected_options_say_why() {
    let repo = |columns: &str| {
        derive_repo(&format!(
            "#[es_repo(entity = \"User\", columns({columns}))] struct Users {{ pool: sqlx::PgPool }}"
        ))
    };
    assert_eq!(
        repo(r#"a(ty = "A", list_for(by(b))), b(ty = "B")"#).unwrap_err(),
        "column 'b' in list_for(by(...)) on 'a' is not a list_by column. Available list_by columns: created_at, id"
    );
    assert_eq!(
        repo(r#"a(ty = "A", virtual = "TRUE")"#).unwrap_err(),
        "virtual column 'a' must be marked `list_for`"
    );
    assert_eq!(
        repo(r#"id(scope), a(ty = "A", scope)"#).unwrap_err(),
        "only one scope column per repo is supported"
    );
    assert_eq!(
        repo(r#"a(ty = "A", scope, parent)"#).unwrap_err(),
        "scope column 'a' cannot be the parent column \u{2014} nested repos cannot be scoped"
    );
    assert_eq!(
        repo(r#"a(ty = "A", scope), b(ty = "Option<A>", scope)"#).unwrap_err(),
        "scope columns 'a' and 'b' have the same Rust type"
    );
    assert_eq!(
        repo(r#"a(ty = "Forgettable<A>", scope)"#).unwrap_err(),
        "scope column 'a' cannot be Forgettable"
    );
}

#[test]
fn helpers_are_emitted_for_their_callers() {
    let forgettable = derive_repo(
        "#[es_repo(entity = \"User\", forgettable, columns(name(ty = \"String\")))] struct Users { pool: sqlx::PgPool }",
    )
    .unwrap();
    assert!(forgettable.contains("fn forget_in_op"));
    assert!(forgettable.contains("fn persist_events <"));
    assert!(forgettable.contains("fn extract_concurrent_modification"));
    assert!(!forgettable.contains("fn persist_events_batch <"));

    let updated = derive_repo(
        "#[es_repo(entity = \"User\", columns(name(ty = \"String\")))] struct Users { pool: sqlx::PgPool }",
    )
    .unwrap();
    assert!(!updated.contains("fn persist_events <"));
    assert!(!updated.contains("fn extract_concurrent_modification"));
    assert!(!updated.contains("fn forget_in_op"));

    let bare =
        derive_repo("#[es_repo(entity = \"User\")] struct Users { pool: sqlx::PgPool }").unwrap();
    assert!(bare.contains("fn persist_events <"));
    assert!(bare.contains("fn persist_events_batch <"));
}

#[test]
fn nested_functions_have_the_names_that_are_called() {
    let code = derive_repo(
        "#[es_repo(entity = \"Order\", delete = \"soft\")] struct Orders { pool: sqlx::PgPool, #[es_repo(nested)] items: OrderItems }",
    )
    .unwrap();
    for name in [
        "create_nested_items_in_op",
        "find_nested_items_in_op",
        "find_nested_items_include_deleted_in_op",
        "delete_nested_items_in_op",
    ] {
        assert_eq!(code.matches(&format!("async fn {name}")).count(), 1, "{name}");
        assert!(code.matches(name).count() > 1, "{name}");
    }
}

#[test]
fn clocks_are_found() {
    let repo = |fields: &str| {
        read_options(&format!("#[es_repo(entity = \"User\")] struct Users {{ {fields} }}"))
    };
    let plain = repo("pool: sqlx::PgPool");
    assert!(matches!(plain.clock_field(), ClockFieldInfo::Absent));
    assert_eq!(plain.pool_field(), "pool");
    assert!(plain.has_pool());
    let required = repo("#[es_repo(pool)] db: sqlx::PgPool, clock: Clock");
    assert!(matches!(required.clock_field(), ClockFieldInfo::Required("clock")));
    assert_eq!(required.pool_field(), "db");
    let optional = repo("pool: sqlx::PgPool, #[es_repo(clock)] time: std::option::Option<Clock>");
    assert!(matches!(optional.clock_field(), ClockFieldInfo::Optional("time")));
    assert!(!repo("db: sqlx::PgPool").has_pool());
}

#[test]
fn attributes_give_options_with_defaults() {
    let opts = RepositoryOptions::from_attributes(
        "Users".to_string(),
        Generics { params: Vec::new(), where_clause: String::new() },
        Some(Vec::new()),
        Features { instrument: true, graphql: false, event_context: false },
        &items(r#"es_repo(entity = "User")"#),
    )
    .expect("options");
    assert_eq!(opts.table_name(), "users");
    assert_eq!(opts.events_table_name(), "user_events");
    assert_eq!(opts.instrumented_as().as_deref(), Some("users"));
    assert!(!opts.has_pool());
}

#[test]
fn all_that_is_wrong_is_told() {
    assert_eq!(
        column_errors(
            r#"c(list_by = 3, list_by, color, create(persist = "maybe", by = 1), "x", find_by)"#
        ),
        vec![
            OptionsError::InvalidField { field: field("list_by") },
            OptionsError::DuplicateField { field: field("list_by") },
            OptionsError::UnknownField,
            OptionsError::InvalidField { field: field("persist") },
            OptionsError::UnknownField,
            OptionsError::UnexpectedLiteral,
            OptionsError::MissingField { field: field("ty") },
        ]
    );
    assert_eq!(
        options_errors(r#"es_repo(id = "User Id", columns(a(x, ty = "u8", y), b()), delete)"#),
        vec![
            OptionsError::InvalidField { field: field("id") },
            OptionsError::UnknownField,
            OptionsError::UnknownField,
            OptionsError::InvalidField { field: field("delete") },
            OptionsError::MissingField { field: field("entity") },
        ]
    );
    assert_eq!(
        column_errors(r#"c(ty = "u8", parent(accessor = "a b", key), update(accessor))"#),
        vec![
            OptionsError::InvalidField { field: field("accessor") },
            OptionsError::UnknownField,
            OptionsError::InvalidField { field: field("accessor") },
        ]
    );
}

#[test]
fn entities_are_identifiers() {
    let entity = |text: &str| options_from(text).map(|opts| opts.entity().to_string());
    assert_eq!(entity("es_repo(entity = User)").expect("options"), "User");
    assert_eq!(entity(r#"es_repo(entity = " User ")"#).expect("options"), "User");
    let invalid = |name: &str| vec![OptionsError::InvalidField { field: field(name) }];
    assert_eq!(options_errors(r#"es_repo(entity = "Two Users")"#), invalid("entity"));
    assert_eq!(options_errors(r#"es_repo(entity = "type")"#), invalid("entity"));
    assert_eq!(options_errors("es_repo(entity = a::User)"), invalid("entity"));
    assert_eq!(options_errors(r#"es_repo(entity = "User", event = true)"#), invalid("event"));
}

#[test]
fn payloads_of_nested_entities_go_first() {
    let out = hydrate_output(
        r##"
        #[es_repo(
            entity = "Note",
            forgettable,
            delete = "soft",
            columns(page_id(ty = "PageId", parent), text(ty = "Forgettable<String>"))
        )]
        struct Notes {
            pool: sqlx::PgPool,
        }
    "##,
    );
    let payloads = out.find("DELETE FROM notes_forgettable_payloads").expect("payloads go");
    let rows = out.find("UPDATE notes SET deleted = TRUE, text = NULL").expect("rows are marked");
    assert!(payloads < rows);
}

#[test]
fn a_value_needs_a_place() {
    let repo = |condition: &str| {
        derive_repo(&format!(
            "#[es_repo(entity = \"User\", columns(older(ty = \"i64\", list_for, virtual = \"{condition}\")))] struct Users {{ pool: sqlx::PgPool }}"
        ))
    };
    assert_eq!(
        repo("age > 3").unwrap_err(),
        "virtual column 'older' takes a value, but its predicate does not contain `{value}`"
    );
    assert!(repo("age > {value}").is_ok());
}
