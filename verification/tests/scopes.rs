use es_entity_repo::options::column::Column;
use es_entity_repo::scope::{ScopeCol, ScopeInfo, ScopeType};
use es_entity_repo::types::TypeExpr;
use proc_macro2::{Group, Punct, Spacing, TokenStream};

const OPERATORS: [&str; 16] = [
    "..=", "...", "::", "->", "=>", "&&", "||", "==", "!=", "<=", ">=", "..", "+=", "-=", "*=",
    "/=",
];

fn push_puncts(run: &str, out: &mut Vec<proc_macro2::TokenTree>) {
    let mut rest = run;
    while let Some(first) = rest.chars().next() {
        let operator = OPERATORS.iter().find(|operator| rest.starts_with(**operator));
        let text = operator.map_or(&rest[..first.len_utf8()], |operator| *operator);
        for (i, c) in text.char_indices() {
            let joint = i + 1 < text.len() || c == '\'';
            let spacing = if joint { Spacing::Joint } else { Spacing::Alone };
            out.push(proc_macro2::TokenTree::Punct(Punct::new(c, spacing)));
        }
        rest = &rest[text.len()..];
    }
}

fn spaced(tokens: TokenStream) -> TokenStream {
    let mut out = Vec::new();
    let mut run = String::new();
    for tree in tokens {
        match tree {
            proc_macro2::TokenTree::Punct(punct) => {
                run.push(punct.as_char());
                if punct.spacing() == Spacing::Alone {
                    push_puncts(&run, &mut out);
                    run.clear();
                }
            }
            proc_macro2::TokenTree::Group(group) => {
                out.push(proc_macro2::TokenTree::Group(Group::new(group.delimiter(), spaced(group.stream()))))
            }
            other => {
                push_puncts(&run, &mut out);
                run.clear();
                out.push(other);
            }
        }
    }
    push_puncts(&run, &mut out);
    out.into_iter().collect()
}

fn norm(code: &str) -> String {
    spaced(code.parse().expect("code is made of tokens")).to_string()
}

fn scope_info<'a>(columns: &[(&'a str, &str)]) -> ScopeInfo<'a> {
    ScopeInfo {
        scope_ty: "EntityScope".to_string(),
        cols: columns
            .iter()
            .map(|(name, ty)| ScopeCol {
                variant: Column::new(name.to_string(), TypeExpr::plain(ty)).scope_variant(),
                column_name: name,
                column_ty: ty.to_string(),
            })
            .collect(),
    }
}

#[test]
fn scope_type_tokens_single() {
    let column_name = "partner_id".to_string();
    let column_ty = "PartnerId".to_string();
    let entity = "Entity".to_string();
    let info = scope_info(&[(&column_name, &column_ty)]);
    let scope_type = ScopeType {
        entity: &entity,
        info,
    };

    let mut tokens = String::new();
    scope_type.to_tokens(&mut tokens);
    let token_str = norm(&tokens);

    assert!(token_str.contains("pub enum EntityScope"));
    assert!(token_str.contains("PartnerId (PartnerId)"));
    assert!(!token_str.contains("Only"));
    assert!(token_str.contains("impl From < PartnerId > for EntityScope"));
    assert!(token_str.contains("impl From < & PartnerId > for EntityScope"));
    assert!(!token_str.contains("Option"));
}

#[test]
fn scope_type_tokens_multi() {
    let partner = "partner_id".to_string();
    let partner_ty = "PartnerId".to_string();
    let customer = "customer_id".to_string();
    let customer_ty = "CustomerId".to_string();
    let entity = "Entity".to_string();
    let info = scope_info(&[(&partner, &partner_ty), (&customer, &customer_ty)]);
    let scope_type = ScopeType {
        entity: &entity,
        info,
    };

    let mut tokens = String::new();
    scope_type.to_tokens(&mut tokens);
    let token_str = norm(&tokens);

    assert!(token_str.contains("pub enum EntityScope"));
    assert!(token_str.contains("PartnerId (PartnerId)"));
    assert!(token_str.contains("CustomerId (CustomerId)"));
    assert!(token_str.contains("impl From < PartnerId > for EntityScope"));
    assert!(token_str.contains("impl From < CustomerId > for EntityScope"));
    assert!(token_str.contains("impl From < & CustomerId > for EntityScope"));
}

#[test]
fn scope_col_predicate() {
    let column_name = "partner_id".to_string();
    let column_ty = "PartnerId".to_string();
    let info = scope_info(&[(&column_name, &column_ty)]);

    assert_eq!(info.cols[0].predicate(1), "partner_id = $1");
    assert_eq!(info.cols[0].predicate(3), "partner_id = $3");
}

#[test]
fn dispatch_emits_one_arm_per_column() {
    let partner = "partner_id".to_string();
    let partner_ty = "PartnerId".to_string();
    let customer = "customer_id".to_string();
    let customer_ty = "CustomerId".to_string();
    let info = scope_info(&[(&partner, &partner_ty), (&customer, &customer_ty)]);

    let bodies: Vec<String> =
        info.cols.iter().map(|col| format!("scoped({:?})", col.predicate(2))).collect();
    let tokens = norm(&info.dispatch("all()", &bodies));
    assert!(tokens.contains("EntityScope :: All => all ()"));
    assert!(
        tokens
            .contains("EntityScope :: PartnerId (__scope_val) => scoped (\"partner_id = $2\")")
    );
    assert!(
        tokens.contains(
            "EntityScope :: CustomerId (__scope_val) => scoped (\"customer_id = $2\")"
        )
    );
}
