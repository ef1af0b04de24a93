use es_entity_repo::error_types::{
    derive_entity_from_repo_type, type_uses_any_generic, ErrorTypes, NestedErrorInfo,
};
use es_entity_repo::tokens::TokenTree;
use es_entity_repo::types::TypeExpr;
use proc_macro2::{Group, Punct, Spacing, TokenStream};

const OPERATORS: [&str; 16] = [
    "..=", "...", "::", "->", "=>", "&&", "||", "==", "!=", "<=", ">=", "..", "+=", "-=", "*=",
    "/=",
];

fn push_puncts(run: &str, out: &mut Vec<proc_macro2::TokenTree>) {
    let mut rest = run;
    while let Some(first) = rest.chars().next() {
        let operator = OPERATORS.iter().find(|operator| rest.starts_with(**operator));
        let text = operator.map_or(&rest[..first.len_utf8()], |operator| *operator);
        for (i, c) in text.char_indices() {
            let joint = i + 1 < text.len() || c == '\'';
            let spacing = if joint { Spacing::Joint } else { Spacing::Alone };
            out.push(proc_macro2::TokenTree::Punct(Punct::new(c, spacing)));
        }
        rest = &rest[text.len()..];
    }
}

fn spaced(tokens: TokenStream) -> TokenStream {
    let mut out = Vec::new();
    let mut run = String::new();
    for tree in tokens {
        match tree {
            proc_macro2::TokenTree::Punct(punct) => {
                run.push(punct.as_char());
                if punct.spacing() == Spacing::Alone {
                    push_puncts(&run, &mut out);
                    run.clear();
                }
            }
            proc_macro2::TokenTree::Group(group) => {
                out.push(proc_macro2::TokenTree::Group(Group::new(group.delimiter(), spaced(group.stream()))))
            }
            other => {
                push_puncts(&run, &mut out);
                run.clear();
                out.push(other);
            }
        }
    }
    push_puncts(&run, &mut out);
    out.into_iter().collect()
}

fn norm(code: &str) -> String {
    spaced(code.parse().expect("code is made of tokens")).to_string()
}

fn ty(text: &str) -> TypeExpr {
    TypeExpr::parse(text).expect("a type")
}

fn error_types(nested: Vec<NestedErrorInfo>) -> ErrorTypes<'static> {
    ErrorTypes {
        entity: "Order",
        column_enum: "OrderColumn".to_string(),
        create_error: "OrderCreateError".to_string(),
        modify_error: "OrderModifyError".to_string(),
        find_error: "OrderFindError".to_string(),
        query_error: "OrderQueryError".to_string(),
        column_variants: vec![],
        nested,
        post_hydrate_error: None,
    }
}

fn trees(tokens: TokenStream) -> Vec<TokenTree> {
    tokens
        .into_iter()
        .map(|tree| match tree {
            proc_macro2::TokenTree::Ident(ident) => TokenTree::Ident(ident.to_string()),
            proc_macro2::TokenTree::Group(group) => TokenTree::Group(trees(group.stream())),
            _ => TokenTree::Other,
        })
        .collect()
}

fn type_tokens(text: &str) -> Vec<TokenTree> {
    trees(text.parse().expect("code is made of tokens"))
}

#[test]
fn non_generic_nested_uses_associated_type() {
    let types = error_types(vec![NestedErrorInfo {
        child_repo_ty: "ItemRepo".to_string(),
        variant_name: "Items".to_string(),
        nested_entity: None,
    }]);

    let tokens = types.generate_create_error();
    let output = norm(&tokens);

    // Should use associated type projection
    assert!(
        output.contains("< ItemRepo as es_entity :: EsRepo > :: CreateError"),
        "Expected associated type projection, got: {}",
        output
    );
}

#[test]
fn generic_nested_with_entity_uses_concrete_name() {
    let types = error_types(vec![NestedErrorInfo {
        child_repo_ty: "ItemRepo<Evt>".to_string(),
        variant_name: "Items".to_string(),
        nested_entity: Some("InterestAccrualCycle".to_string()),
    }]);

    let tokens = types.generate_create_error();
    let output = norm(&tokens);

    // Should use concrete error type name, NOT associated type projection
    assert!(
        output.contains("InterestAccrualCycleCreateError"),
        "Expected concrete error type name, got: {}",
        output
    );
    assert!(
        !output.contains("ItemRepo"),
        "Should not reference the generic repo type, got: {}",
        output
    );
}

#[test]
fn generic_nested_modify_error_uses_concrete_names() {
    let types = error_types(vec![NestedErrorInfo {
        child_repo_ty: "ItemRepo<Evt>".to_string(),
        variant_name: "Items".to_string(),
        nested_entity: Some("InterestAccrualCycle".to_string()),
    }]);

    let tokens = types.generate_modify_error();
    let output = norm(&tokens);

    // Should use concrete error type names for both Modify and Create variants
    assert!(
        output.contains("InterestAccrualCycleModifyError"),
        "Expected concrete modify error type, got: {}",
        output
    );
    assert!(
        output.contains("InterestAccrualCycleCreateError"),
        "Expected concrete create error type, got: {}",
        output
    );
    assert!(
        !output.contains("ItemRepo"),
        "Should not reference the generic repo type, got: {}",
        output
    );
}

#[test]
fn mixed_nested_repos() {
    let types = error_types(vec![
        NestedErrorInfo {
            child_repo_ty: "ItemRepo".to_string(),
            variant_name: "Items".to_string(),
            nested_entity: None,
        },
        NestedErrorInfo {
            child_repo_ty: "AccrualRepo<Evt>".to_string(),
            variant_name: "Accruals".to_string(),
            nested_entity: Some("Accrual".to_string()),
        },
    ]);

    let tokens = types.generate_create_error();
    let output = norm(&tokens);

    // Non-generic nested should use associated type projection
    assert!(
        output.contains("< ItemRepo as es_entity :: EsRepo > :: CreateError"),
        "Expected associated type projection for non-generic repo, got: {}",
        output
    );
    // Generic nested with entity should use concrete name
    assert!(
        output.contains("AccrualCreateError"),
        "Expected concrete error type for generic repo, got: {}",
        output
    );
}

#[test]
fn auto_derive_entity_from_repo_type_name() {
    // When nested_entity is derived automatically (via derive_entity_from_repo_type),
    // it strips the "Repo" suffix: ObligationRepo<Evt> gives Obligation
    let types = error_types(vec![NestedErrorInfo {
        child_repo_ty: "ObligationRepo<Evt>".to_string(),
        variant_name: "Obligations".to_string(),
        nested_entity: derive_entity_from_repo_type(&ty("ObligationRepo<Evt>")),
    }]);

    let tokens = types.generate_create_error();
    let output = norm(&tokens);

    assert!(
        output.contains("ObligationCreateError"),
        "Expected auto-derived concrete error type, got: {}",
        output
    );
    assert!(
        !output.contains("ObligationRepo"),
        "Should not reference the generic repo type, got: {}",
        output
    );
}

#[test]
fn type_uses_any_generic_detects_params() {
    let evt = "Evt".to_string();
    let idents = vec![evt];

    // Type with generic param
    let ty = type_tokens("SomeRepo<Evt>");
    assert!(type_uses_any_generic(&ty, &idents));

    // Type without generic param
    let ty = type_tokens("SomeRepo");
    assert!(!type_uses_any_generic(&ty, &idents));

    // Type with different generic param
    let ty = type_tokens("SomeRepo<Other>");
    assert!(!type_uses_any_generic(&ty, &idents));
}

#[test]
fn derive_entity_strips_repo_suffix() {
    let repo = ty("ObligationRepo<Evt>");
    let entity = derive_entity_from_repo_type(&repo);
    assert_eq!(entity.unwrap(), "Obligation");

    let repo = ty("InterestAccrualRepo<E>");
    let entity = derive_entity_from_repo_type(&repo);
    assert_eq!(entity.unwrap(), "InterestAccrual");

    // Non-generic also works
    let repo = ty("ItemRepo");
    let entity = derive_entity_from_repo_type(&repo);
    assert_eq!(entity.unwrap(), "Item");
}

#[test]
fn derive_entity_singularizes_plural_name() {
    // Plural gives singular convention
    let repo = ty("OrderItems<Evt>");
    let entity = derive_entity_from_repo_type(&repo);
    assert_eq!(entity.unwrap(), "OrderItem");

    let repo = ty("BillingPeriods<E>");
    let entity = derive_entity_from_repo_type(&repo);
    assert_eq!(entity.unwrap(), "BillingPeriod");

    // Non-generic plural also works
    let repo = ty("Users");
    let entity = derive_entity_from_repo_type(&repo);
    assert_eq!(entity.unwrap(), "User");
}

#[test]
fn derive_entity_returns_none_for_unrecognized() {
    // Neither Repo suffix nor plural gives None
    let repo = ty("SomeType<E>");
    assert!(derive_entity_from_repo_type(&repo).is_none());

    // Singular name without Repo suffix gives None
    let repo = ty("Obligation<E>");
    assert!(derive_entity_from_repo_type(&repo).is_none());
}
