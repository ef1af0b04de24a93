use es_entity_repo::find_all_fn::FindAllFn;
use es_entity_repo::find_by_fn::FindByFn;
use es_entity_repo::options::column::Column;
use es_entity_repo::options::delete::DeleteOption;
use es_entity_repo::types::TypeExpr;
use proc_macro2::{Group, Punct, Spacing, TokenStream};

const OPERATORS: [&str; 16] = [
    "..=", "...", "::", "->", "=>", "&&", "||", "==", "!=", "<=", ">=", "..", "+=", "-=", "*=",
    "/=",
];

fn push_puncts(run: &str, out: &mut Vec<proc_macro2::TokenTree>) {
    let mut rest = run;
    while let Some(first) = rest.chars().next() {
        let operator = OPERATORS.iter().find(|operator| rest.starts_with(**operator));
        let text = operator.map_or(&rest[..first.len_utf8()], |operator| *operator);
        for (i, c) in text.char_indices() {
            let joint = i + 1 < text.len() || c == '\'';
            let spacing = if joint { Spacing::Joint } else { Spacing::Alone };
            out.push(proc_macro2::TokenTree::Punct(Punct::new(c, spacing)));
        }
        rest = &rest[text.len()..];
    }
}

fn spaced(tokens: TokenStream) -> TokenStream {
    let mut out = Vec::new();
    let mut run = String::new();
    for tree in tokens {
        match tree {
            proc_macro2::TokenTree::Punct(punct) => {
                run.push(punct.as_char());
                if punct.spacing() == Spacing::Alone {
                    push_puncts(&run, &mut out);
                    run.clear();
                }
            }
            proc_macro2::TokenTree::Group(group) => {
                out.push(proc_macro2::TokenTree::Group(Group::new(group.delimiter(), spaced(group.stream()))))
            }
            other => {
                push_puncts(&run, &mut out);
                run.clear();
                out.push(other);
            }
        }
    }
    push_puncts(&run, &mut out);
    out.into_iter().collect()
}

fn norm(code: &str) -> String {
    spaced(code.parse().expect("code is made of tokens")).to_string()
}

fn ty(text: &str) -> TypeExpr {
    TypeExpr::parse(text).expect("a type")
}

#[test]
fn find_by_fn() {
    let column = Column::for_id("EntityId");
    let entity = "Entity".to_string();
    let error = "es_entity::EsRepoError".to_string();

    let persist_fn = FindByFn {
        prefix: None,
        column: &column,
        entity: &entity,
        table_name: "entities",
        error: error.clone(),
        delete: DeleteOption::No,
        any_nested: false,
        include_deleted_queries: false,
        scope: None,
        repo_name_snake: None,
    };

    let mut tokens = String::new();
    persist_fn.to_tokens(&mut tokens);

    let expected = r##"
        pub async fn find_by_id(
            &self,
            id: impl std::borrow::Borrow<EntityId>
        ) -> Result<Entity, es_entity::EsRepoError> {
            self.find_by_id_in_op(self.pool(), id).await
        }

        pub async fn find_by_id_in_op<'a, OP>(
            &self,
            op: OP,
            id: impl std::borrow::Borrow<EntityId>
        ) -> Result<Entity, es_entity::EsRepoError>
            where
                OP: es_entity::IntoOneTimeExecutor<'a>
        {
            let __result: Result<Entity, es_entity::EsRepoError> = async {
                let id = id.borrow();
                es_entity::es_query!(
                    entity = Entity,
                    "SELECT id FROM entities WHERE id = $1",
                    id as &EntityId,
                )
                .fetch_one(op)
                .await
            }.await;

            __result
        }

        pub async fn maybe_find_by_id(
            &self,
            id: impl std::borrow::Borrow<EntityId>
        ) -> Result<Option<Entity>, es_entity::EsRepoError> {
            self.maybe_find_by_id_in_op(self.pool(), id).await
        }

        pub async fn maybe_find_by_id_in_op<'a, OP>(
            &self,
            op: OP,
            id: impl std::borrow::Borrow<EntityId>
        ) -> Result<Option<Entity>, es_entity::EsRepoError>
            where
                OP: es_entity::IntoOneTimeExecutor<'a>
        {
            let __result: Result<Option<Entity>, es_entity::EsRepoError> = async {
                let id = id.borrow();
                es_entity::es_query!(
                    entity = Entity,
                    "SELECT id FROM entities WHERE id = $1",
                    id as &EntityId,
                )
                .fetch_optional(op)
                .await
            }.await;

            __result
        }
    "##;

    assert_eq!(norm(&tokens), norm(expected));
}

#[test]
fn find_by_fn_string_arg() {
    let column = Column::new(
        "email".to_string(),
        ty("String"),
    );
    let entity = "Entity".to_string();
    let error = "es_entity::EsRepoError".to_string();

    let persist_fn = FindByFn {
        prefix: None,
        column: &column,
        entity: &entity,
        table_name: "entities",
        error: error.clone(),
        delete: DeleteOption::No,
        any_nested: false,
        include_deleted_queries: false,
        scope: None,
        repo_name_snake: None,
    };

    let mut tokens = String::new();
    persist_fn.to_tokens(&mut tokens);

    let expected = r##"
        pub async fn find_by_email(
            &self,
            email: impl std::convert::AsRef<str>
        ) -> Result<Entity, es_entity::EsRepoError> {
            self.find_by_email_in_op(self.pool(), email).await
        }

        pub async fn find_by_email_in_op<'a, OP>(
            &self,
            op: OP,
            email: impl std::convert::AsRef<str>
        ) -> Result<Entity, es_entity::EsRepoError>
            where
                OP: es_entity::IntoOneTimeExecutor<'a>
        {
            let __result: Result<Entity, es_entity::EsRepoError> = async {
                let email = email.as_ref();
                es_entity::es_query!(
                    entity = Entity,
                    "SELECT id FROM entities WHERE email = $1",
                    email as &str,
                )
                .fetch_one(op)
                .await
            }.await;

            __result
        }

        pub async fn maybe_find_by_email(
            &self,
            email: impl std::convert::AsRef<str>
        ) -> Result<Option<Entity>, es_entity::EsRepoError> {
            self.maybe_find_by_email_in_op(self.pool(), email).await
        }

        pub async fn maybe_find_by_email_in_op<'a, OP>(
            &self,
            op: OP,
            email: impl std::convert::AsRef<str>
        ) -> Result<Option<Entity>, es_entity::EsRepoError>
            where
                OP: es_entity::IntoOneTimeExecutor<'a>
        {
            let __result: Result<Option<Entity>, es_entity::EsRepoError> = async {
                let email = email.as_ref();
                es_entity::es_query!(
                    entity = Entity,
                    "SELECT id FROM entities WHERE email = $1",
                    email as &str,
                )
                .fetch_optional(op)
                .await
            }.await;

            __result
        }
    "##;

    assert_eq!(norm(&tokens), norm(expected));
}

#[test]
fn find_by_fn_with_soft_delete() {
    let column = Column::for_id("EntityId");
    let entity = "Entity".to_string();
    let error = "es_entity::EsRepoError".to_string();

    let persist_fn = FindByFn {
        prefix: None,
        column: &column,
        entity: &entity,
        table_name: "entities",
        error: error.clone(),
        delete: DeleteOption::Soft,
        any_nested: false,
        include_deleted_queries: false,
        scope: None,
        repo_name_snake: None,
    };

    let mut tokens = String::new();
    persist_fn.to_tokens(&mut tokens);

    let expected = r##"
        pub async fn find_by_id(
            &self,
            id: impl std::borrow::Borrow<EntityId>
        ) -> Result<Entity, es_entity::EsRepoError> {
            self.find_by_id_in_op(self.pool(), id).await
        }

        pub async fn find_by_id_in_op<'a, OP>(
            &self,
            op: OP,
            id: impl std::borrow::Borrow<EntityId>
        ) -> Result<Entity, es_entity::EsRepoError>
            where
                OP: es_entity::IntoOneTimeExecutor<'a>
        {
            let __result: Result<Entity, es_entity::EsRepoError> = async {
                let id = id.borrow();
                es_entity::es_query!(
                    entity = Entity,
                    "SELECT id FROM entities WHERE id = $1 AND deleted = FALSE",
                    id as &EntityId,
                )
                .fetch_one(op)
                .await
            }.await;

            __result
        }

        pub async fn maybe_find_by_id(
            &self,
            id: impl std::borrow::Borrow<EntityId>
        ) -> Result<Option<Entity>, es_entity::EsRepoError> {
            self.maybe_find_by_id_in_op(self.pool(), id).await
        }

        pub async fn maybe_find_by_id_in_op<'a, OP>(
            &self,
            op: OP,
            id: impl std::borrow::Borrow<EntityId>
        ) -> Result<Option<Entity>, es_entity::EsRepoError>
            where
                OP: es_entity::IntoOneTimeExecutor<'a>
        {
            let __result: Result<Option<Entity>, es_entity::EsRepoError> = async {
                let id = id.borrow();
                es_entity::es_query!(
                    entity = Entity,
                    "SELECT id FROM entities WHERE id = $1 AND deleted = FALSE",
                    id as &EntityId,
                )
                .fetch_optional(op)
                .await
            }.await;

            __result
        }
    "##;

    assert_eq!(norm(&tokens), norm(expected));
}

#[test]
fn find_by_fn_with_soft_delete_include_deleted() {
    let column = Column::for_id("EntityId");
    let entity = "Entity".to_string();
    let error = "es_entity::EsRepoError".to_string();

    let persist_fn = FindByFn {
        prefix: None,
        column: &column,
        entity: &entity,
        table_name: "entities",
        error: error.clone(),
        delete: DeleteOption::Soft,
        any_nested: false,
        include_deleted_queries: true,
        scope: None,
        repo_name_snake: None,
    };

    let mut tokens = String::new();
    persist_fn.to_tokens(&mut tokens);

    let token_str = norm(&tokens);
    assert!(token_str.contains("find_by_id_include_deleted"));
    assert!(token_str.contains("maybe_find_by_id_include_deleted"));
}

#[test]
fn find_by_fn_nested() {
    let column = Column::for_id("EntityId");
    let entity = "Entity".to_string();
    let error = "es_entity::EsRepoError".to_string();

    let persist_fn = FindByFn {
        prefix: None,
        column: &column,
        entity: &entity,
        table_name: "entities",
        error: error.clone(),
        delete: DeleteOption::No,
        any_nested: true,
        include_deleted_queries: false,
        scope: None,
        repo_name_snake: None,
    };

    let mut tokens = String::new();
    persist_fn.to_tokens(&mut tokens);

    let expected = r##"
        pub async fn find_by_id(
            &self,
            id: impl std::borrow::Borrow<EntityId>
        ) -> Result<Entity, es_entity::EsRepoError> {
            self.find_by_id_in_op(&mut self.pool().begin().await?, id).await
        }

        pub async fn find_by_id_in_op<OP>(
            &self,
            op: &mut OP,
            id: impl std::borrow::Borrow<EntityId>
        ) -> Result<Entity, es_entity::EsRepoError>
            where
                OP: es_entity::AtomicOperation
        {
            let __result: Result<Entity, es_entity::EsRepoError> = async {
                let id = id.borrow();
                es_entity::es_query!(
                    entity = Entity,
                    "SELECT id FROM entities WHERE id = $1",
                    id as &EntityId,
                )
                .fetch_one(op)
                .await
            }.await;

            __result
        }

        pub async fn maybe_find_by_id(
            &self,
            id: impl std::borrow::Borrow<EntityId>
        ) -> Result<Option<Entity>, es_entity::EsRepoError> {
            self.maybe_find_by_id_in_op(&mut self.pool().begin().await?, id).await
        }

        pub async fn maybe_find_by_id_in_op<OP>(
            &self,
            op: &mut OP,
            id: impl std::borrow::Borrow<EntityId>
        ) -> Result<Option<Entity>, es_entity::EsRepoError>
            where
                OP: es_entity::AtomicOperation
        {
            let __result: Result<Option<Entity>, es_entity::EsRepoError> = async {
                let id = id.borrow();
                es_entity::es_query!(
                    entity = Entity,
                    "SELECT id FROM entities WHERE id = $1",
                    id as &EntityId,
                )
                .fetch_optional(op)
                .await
            }.await;

            __result
        }
    "##;

    assert_eq!(norm(&tokens), norm(expected));
}

#[test]
fn find_all_fn() {
    let id_type = "EntityId".to_string();
    let entity = "Entity".to_string();
    let error = "es_entity::EsRepoError".to_string();

    let persist_fn = FindAllFn {
        prefix: None,
        id: &id_type,
        entity: &entity,
        table_name: "entities",
        error,
        any_nested: false,
        scope: None,
        instrument: false,
    };

    let mut tokens = String::new();
    persist_fn.to_tokens(&mut tokens);

    let expected = r##"
        pub async fn find_all<Out: From<Entity>>(
            &self,
            ids: &[EntityId]
        ) -> Result<std::collections::HashMap<EntityId, Out>, es_entity::EsRepoError> {
            self.find_all_in_op(self.pool(), ids).await
        }

        pub async fn find_all_in_op<'a, Out: From<Entity>>(
            &self,
            op: impl es_entity::IntoOneTimeExecutor<'a>,
            ids: &[EntityId]
        ) -> Result<std::collections::HashMap<EntityId, Out>, es_entity::EsRepoError> {
            let (entities, _) = es_entity::es_query!(
                entity = Entity,
                "SELECT id FROM entities WHERE id = ANY($1)",
                ids as &[EntityId],
            )
                .fetch_n(op, ids.len())
                .await?;
            Ok(entities.into_iter().map(|u| (u.id.clone(), Out::from(u))).collect())
        }
    "##;

    assert_eq!(norm(&tokens), norm(expected));
}
