use es_entity_repo::list_by_fn::{CursorStruct, ListByFn};
use es_entity_repo::list_for_fn::ListForFn;
use es_entity_repo::options::column::Column;
use es_entity_repo::options::delete::DeleteOption;
use es_entity_repo::types::TypeExpr;
use proc_macro2::{Group, Punct, Spacing, TokenStream};

const OPERATORS: [&str; 16] = [
    "..=", "...", "::", "->", "=>", "&&", "||", "==", "!=", "<=", ">=", "..", "+=", "-=", "*=",
    "/=",
];

fn push_puncts(run: &str, out: &mut Vec<proc_macro2::TokenTree>) {
    let mut rest = run;
    while let Some(first) = rest.chars().next() {
        let operator = OPERATORS.iter().find(|operator| rest.starts_with(**operator));
        let text = operator.map_or(&rest[..first.len_utf8()], |operator| *operator);
        for (i, c) in text.char_indices() {
            let joint = i + 1 < text.len() || c == '\'';
            let spacing = if joint { Spacing::Joint } else { Spacing::Alone };
            out.push(proc_macro2::TokenTree::Punct(Punct::new(c, spacing)));
        }
        rest = &rest[text.len()..];
    }
}

fn spaced(tokens: TokenStream) -> TokenStream {
    let mut out = Vec::new();
    let mut run = String::new();
    for tree in tokens {
        match tree {
            proc_macro2::TokenTree::Punct(punct) => {
                run.push(punct.as_char());
                if punct.spacing() == Spacing::Alone {
                    push_puncts(&run, &mut out);
                    run.clear();
                }
            }
            proc_macro2::TokenTree::Group(group) => {
                out.push(proc_macro2::TokenTree::Group(Group::new(group.delimiter(), spaced(group.stream()))))
            }
            other => {
                push_puncts(&run, &mut out);
                run.clear();
                out.push(other);
            }
        }
    }
    push_puncts(&run, &mut out);
    out.into_iter().collect()
}

fn norm(code: &str) -> String {
    spaced(code.parse().expect("code is made of tokens")).to_string()
}

fn ty(text: &str) -> TypeExpr {
    TypeExpr::parse(text).expect("a type")
}

#[test]
fn cursor_struct_by_id() {
    let id_type = "EntityId".to_string();
    let entity = "Entity".to_string();
    let by_column = Column::for_id("EntityId");
    let cursor_mod = "cursor_mod".to_string();

    let cursor = CursorStruct {
        column: &by_column,
        id: &id_type,
        entity: &entity,
        cursor_mod: &cursor_mod,
    };

    let mut tokens = String::new();
    cursor.to_tokens(&mut tokens);

    let expected = r##"
        #[derive(Debug, serde::Serialize, serde::Deserialize)]
        pub struct EntityByIdCursor {
            pub id: EntityId,
        }

        impl From<&Entity> for EntityByIdCursor {
            fn from(entity: &Entity) -> Self {
                Self {
                    id: entity.id.clone(),
                }
            }
        }
    "##;

    assert_eq!(norm(&tokens), norm(expected));
}

#[test]
fn cursor_struct_by_created_at() {
    let id_type = "EntityId".to_string();
    let entity = "Entity".to_string();
    let by_column = Column::for_created_at();
    let cursor_mod = "cursor_mod".to_string();

    let cursor = CursorStruct {
        column: &by_column,
        id: &id_type,
        entity: &entity,
        cursor_mod: &cursor_mod,
    };

    let mut tokens = String::new();
    cursor.to_tokens(&mut tokens);

    let expected = r##"
        #[derive(Debug, serde::Serialize, serde::Deserialize)]
        pub struct EntityByCreatedAtCursor {
            pub id: EntityId,
            pub created_at: es_entity::prelude::chrono::DateTime<es_entity::prelude::chrono::Utc>,
        }

        impl From<&Entity> for EntityByCreatedAtCursor {
            fn from(entity: &Entity) -> Self {
                Self {
                    id: entity.id.clone(),
                    created_at: entity.events()
                        .entity_first_persisted_at()
                        .expect("entity not persisted")
                        .clone(),
                }
            }
        }
    "##;

    assert_eq!(norm(&tokens), norm(expected));
}

#[test]
fn list_by_fn() {
    let id_type = "EntityId".to_string();
    let entity = "Entity".to_string();
    let query_error = "EntityQueryError".to_string();
    let column = Column::for_id("EntityId");
    let cursor_mod = "cursor_mod".to_string();

    let persist_fn = ListByFn {
        ignore_prefix: None,
        column: &column,
        id: &id_type,
        entity: &entity,
        table_name: "entities",
        query_error,
        delete: DeleteOption::SoftWithoutQueries,
        cursor_mod,
        any_nested: false,
        is_root: false,
        post_hydrate_error: None,
        forgettable_table_name: None,
        scope: None,
        repo_name_snake: None,
    };

    let mut tokens = String::new();
    persist_fn.to_tokens(&mut tokens);

    let expected = r##"
        pub async fn list_by_id(
            &self,
            cursor: es_entity::PaginatedQueryArgs<cursor_mod::EntityByIdCursor>,
            direction: es_entity::ListDirection,
        ) -> Result<es_entity::PaginatedQueryRet<Entity, cursor_mod::EntityByIdCursor>, EntityQueryError> {
            self.list_by_id_in_op(self.pool(), cursor, direction).await
        }

        pub async fn list_by_id_in_op<'a, OP>(
            &self,
            op: OP,
            cursor: es_entity::PaginatedQueryArgs<cursor_mod::EntityByIdCursor>,
            direction: es_entity::ListDirection,
        ) -> Result<es_entity::PaginatedQueryRet<Entity, cursor_mod::EntityByIdCursor>, EntityQueryError>
            where
                OP: es_entity::IntoOneTimeExecutor<'a>
        {
            let __result: Result<es_entity::PaginatedQueryRet<Entity, cursor_mod::EntityByIdCursor>, EntityQueryError> = async {
                let es_entity::PaginatedQueryArgs { first, after } = cursor;
                let id = if let Some(after) = after {
                    Some(after.id)
                } else {
                    None
                };

                let (entities, has_next_page) = match direction {
                    es_entity::ListDirection::Ascending => {
                        es_entity::es_query!(
                            entity = Entity,
                            "(SELECT id FROM entities WHERE (id > $2) AND ($2 IS NOT NULL) AND deleted = FALSE ORDER BY id ASC LIMIT $1) UNION ALL (SELECT id FROM entities WHERE ($2 IS NULL) AND deleted = FALSE ORDER BY id ASC LIMIT $1) ORDER BY id ASC LIMIT $1",
                            (first + 1) as i64,
                            id as Option<EntityId>,
                        )
                            .fetch_n(op, first)
                            .await?
                    },
                    es_entity::ListDirection::Descending => {
                        es_entity::es_query!(
                            entity = Entity,
                            "(SELECT id FROM entities WHERE (id < $2) AND ($2 IS NOT NULL) AND deleted = FALSE ORDER BY id DESC LIMIT $1) UNION ALL (SELECT id FROM entities WHERE ($2 IS NULL) AND deleted = FALSE ORDER BY id DESC LIMIT $1) ORDER BY id DESC LIMIT $1",
                            (first + 1) as i64,
                            id as Option<EntityId>,
                        )
                            .fetch_n(op, first)
                            .await?
                    },
                };

                let end_cursor = entities.last().map(cursor_mod::EntityByIdCursor::from);
                Ok(es_entity::PaginatedQueryRet {
                    entities,
                    has_next_page,
                    end_cursor,
                })
            }.await;

            __result
        }
    "##;

    assert_eq!(norm(&tokens), norm(expected));
}

#[test]
fn list_by_fn_with_soft_delete_include_deleted() {
    let id_type = "EntityId".to_string();
    let entity = "Entity".to_string();
    let query_error = "EntityQueryError".to_string();
    let column = Column::for_id("EntityId");
    let cursor_mod = "cursor_mod".to_string();

    let persist_fn = ListByFn {
        ignore_prefix: None,
        column: &column,
        id: &id_type,
        entity: &entity,
        table_name: "entities",
        query_error,
        delete: DeleteOption::Soft,
        cursor_mod,
        any_nested: false,
        is_root: false,
        post_hydrate_error: None,
        forgettable_table_name: None,
        scope: None,
        repo_name_snake: None,
    };

    let mut tokens = String::new();
    persist_fn.to_tokens(&mut tokens);

    let token_str = norm(&tokens);
    assert!(token_str.contains("list_by_id_include_deleted"));
}

#[test]
fn list_by_fn_name() {
    let id_type = "EntityId".to_string();
    let entity = "Entity".to_string();
    let query_error = "EntityQueryError".to_string();
    let column = Column::new(
        "name".to_string(),
        ty("String"),
    );
    let cursor_mod = "cursor_mod".to_string();

    let persist_fn = ListByFn {
        ignore_prefix: None,
        column: &column,
        id: &id_type,
        entity: &entity,
        table_name: "entities",
        query_error,
        delete: DeleteOption::No,
        cursor_mod,
        any_nested: false,
        is_root: false,
        post_hydrate_error: None,
        forgettable_table_name: None,
        scope: None,
        repo_name_snake: None,
    };

    let mut tokens = String::new();
    persist_fn.to_tokens(&mut tokens);

    let expected = r##"
        pub async fn list_by_name(
            &self,
            cursor: es_entity::PaginatedQueryArgs<cursor_mod::EntityByNameCursor>,
            direction: es_entity::ListDirection,
        ) -> Result<es_entity::PaginatedQueryRet<Entity, cursor_mod::EntityByNameCursor>, EntityQueryError> {
            self.list_by_name_in_op(self.pool(), cursor, direction).await
        }

        pub async fn list_by_name_in_op<'a, OP>(
            &self,
            op: OP,
            cursor: es_entity::PaginatedQueryArgs<cursor_mod::EntityByNameCursor>,
            direction: es_entity::ListDirection,
        ) -> Result<es_entity::PaginatedQueryRet<Entity, cursor_mod::EntityByNameCursor>, EntityQueryError>
            where
                OP: es_entity::IntoOneTimeExecutor<'a>
        {
            let __result: Result<es_entity::PaginatedQueryRet<Entity, cursor_mod::EntityByNameCursor>, EntityQueryError> = async {
                let es_entity::PaginatedQueryArgs { first, after } = cursor;
                let (id, name) = if let Some(after) = after {
                    (Some(after.id), Some(after.name))
                } else {
                    (None, None)
                };

                let (entities, has_next_page) = match direction {
                    es_entity::ListDirection::Ascending => {
                        es_entity::es_query!(
                            entity = Entity,
                            "(SELECT name, id FROM entities WHERE ((name, id) > ($3, $2)) AND ($2 IS NOT NULL) ORDER BY name ASC, id ASC LIMIT $1) UNION ALL (SELECT name, id FROM entities WHERE ($2 IS NULL) ORDER BY name ASC, id ASC LIMIT $1) ORDER BY name ASC, id ASC LIMIT $1",
                            (first + 1) as i64,
                            id as Option<EntityId>,
                            name as Option<String>,
                        )
                            .fetch_n(op, first)
                            .await?
                    },
                    es_entity::ListDirection::Descending => {
                        es_entity::es_query!(
                            entity = Entity,
                            "(SELECT name, id FROM entities WHERE ((name, id) < ($3, $2)) AND ($2 IS NOT NULL) ORDER BY name DESC, id DESC LIMIT $1) UNION ALL (SELECT name, id FROM entities WHERE ($2 IS NULL) ORDER BY name DESC, id DESC LIMIT $1) ORDER BY name DESC, id DESC LIMIT $1",
                            (first + 1) as i64,
                            id as Option<EntityId>,
                            name as Option<String>,
                        )
                            .fetch_n(op, first)
                            .await?
                    },
                };

                let end_cursor = entities.last().map(cursor_mod::EntityByNameCursor::from);
                Ok(es_entity::PaginatedQueryRet {
                    entities,
                    has_next_page,
                    end_cursor,
                })
            }.await;

            __result
        }
    "##;

    assert_eq!(norm(&tokens), norm(expected));
}

#[test]
fn list_by_fn_optional_column() {
    let id_type = "EntityId".to_string();
    let entity = "Entity".to_string();
    let query_error = "EntityQueryError".to_string();
    let column = Column::new(
        "value".to_string(),
        ty("Option<rust_decimal::Decimal>"),
    );
    let cursor_mod = "cursor_mod".to_string();

    let persist_fn = ListByFn {
        ignore_prefix: None,
        column: &column,
        id: &id_type,
        entity: &entity,
        table_name: "entities",
        query_error,
        delete: DeleteOption::No,
        cursor_mod,
        any_nested: false,
        is_root: false,
        post_hydrate_error: None,
        forgettable_table_name: None,
        scope: None,
        repo_name_snake: None,
    };

    let mut tokens = String::new();
    persist_fn.to_tokens(&mut tokens);

    let expected = r##"
        pub async fn list_by_value(
            &self,
            cursor: es_entity::PaginatedQueryArgs<cursor_mod::EntityByValueCursor>,
            direction: es_entity::ListDirection,
        ) -> Result<es_entity::PaginatedQueryRet<Entity, cursor_mod::EntityByValueCursor>, EntityQueryError> {
            self.list_by_value_in_op(self.pool(), cursor, direction).await
        }

        pub async fn list_by_value_in_op<'a, OP>(
            &self,
            op: OP,
            cursor: es_entity::PaginatedQueryArgs<cursor_mod::EntityByValueCursor>,
            direction: es_entity::ListDirection,
        ) -> Result<es_entity::PaginatedQueryRet<Entity, cursor_mod::EntityByValueCursor>, EntityQueryError>
            where
                OP: es_entity::IntoOneTimeExecutor<'a>
        {
            let __result: Result<es_entity::PaginatedQueryRet<Entity, cursor_mod::EntityByValueCursor>, EntityQueryError> = async {
                let es_entity::PaginatedQueryArgs { first, after } = cursor;
                let (id, value) = if let Some(after) = after {
                    (Some(after.id), after.value)
                } else {
                    (None, None)
                };

                let (entities, has_next_page) = match direction {
                    es_entity::ListDirection::Ascending => {
                        es_entity::es_query!(
                            entity = Entity,
                            "(SELECT value, id FROM entities WHERE ((value, id) > ($3, $2)) AND ($2 IS NOT NULL AND $3 IS NOT NULL) ORDER BY value ASC NULLS FIRST, id ASC LIMIT $1) UNION ALL (SELECT value, id FROM entities WHERE ((value IS NOT NULL OR id > $2)) AND ($2 IS NOT NULL AND $3 IS NULL) ORDER BY value ASC NULLS FIRST, id ASC LIMIT $1) UNION ALL (SELECT value, id FROM entities WHERE ($2 IS NULL) ORDER BY value ASC NULLS FIRST, id ASC LIMIT $1) ORDER BY value ASC NULLS FIRST, id ASC LIMIT $1",
                            (first + 1) as i64,
                            id as Option<EntityId>,
                            value as Option<rust_decimal::Decimal>,
                        )
                            .fetch_n(op, first)
                            .await?
                    },
                    es_entity::ListDirection::Descending => {
                        es_entity::es_query!(
                            entity = Entity,
                            "(SELECT value, id FROM entities WHERE ((value IS NULL OR (value, id) < ($3, $2))) AND ($2 IS NOT NULL AND $3 IS NOT NULL) ORDER BY value DESC NULLS LAST, id DESC LIMIT $1) UNION ALL (SELECT value, id FROM entities WHERE ((value IS NULL AND id < $2)) AND ($2 IS NOT NULL AND $3 IS NULL) ORDER BY value DESC NULLS LAST, id DESC LIMIT $1) UNION ALL (SELECT value, id FROM entities WHERE ($2 IS NULL) ORDER BY value DESC NULLS LAST, id DESC LIMIT $1) ORDER BY value DESC NULLS LAST, id DESC LIMIT $1",
                            (first + 1) as i64,
                            id as Option<EntityId>,
                            value as Option<rust_decimal::Decimal>,
                        )
                            .fetch_n(op, first)
                            .await?
                    },
                };

                let end_cursor = entities.last().map(cursor_mod::EntityByValueCursor::from);
                Ok(es_entity::PaginatedQueryRet {
                    entities,
                    has_next_page,
                    end_cursor,
                })
            }.await;

            __result
        }
    "##;

    assert_eq!(norm(&tokens), norm(expected));
}

#[test]
fn list_by_fn_nullable_attribute_emits_nullable_aware_sql_for_non_option_type() {
    let id_type = "EntityId".to_string();
    let entity = "Entity".to_string();
    let query_error = "EntityQueryError".to_string();
    let column = Column::new_nullable(
        "value".to_string(),
        ty("DomainEnum"),
    );
    let cursor_mod = "cursor_mod".to_string();

    let persist_fn = ListByFn {
        ignore_prefix: None,
        column: &column,
        id: &id_type,
        entity: &entity,
        table_name: "entities",
        query_error,
        delete: DeleteOption::No,
        cursor_mod,
        any_nested: false,
        is_root: false,
        post_hydrate_error: None,
        forgettable_table_name: None,
        scope: None,
        repo_name_snake: None,
    };

    let mut tokens = String::new();
    persist_fn.to_tokens(&mut tokens);

    let expected = r##"
        pub async fn list_by_value(
            &self,
            cursor: es_entity::PaginatedQueryArgs<cursor_mod::EntityByValueCursor>,
            direction: es_entity::ListDirection,
        ) -> Result<es_entity::PaginatedQueryRet<Entity, cursor_mod::EntityByValueCursor>, EntityQueryError> {
            self.list_by_value_in_op(self.pool(), cursor, direction).await
        }

        pub async fn list_by_value_in_op<'a, OP>(
            &self,
            op: OP,
            cursor: es_entity::PaginatedQueryArgs<cursor_mod::EntityByValueCursor>,
            direction: es_entity::ListDirection,
        ) -> Result<es_entity::PaginatedQueryRet<Entity, cursor_mod::EntityByValueCursor>, EntityQueryError>
            where
                OP: es_entity::IntoOneTimeExecutor<'a>
        {
            let __result: Result<es_entity::PaginatedQueryRet<Entity, cursor_mod::EntityByValueCursor>, EntityQueryError> = async {
                let es_entity::PaginatedQueryArgs { first, after } = cursor;
                let (id, value) = if let Some(after) = after {
                    (Some(after.id), Some(after.value))
                } else {
                    (None, None)
                };

                let (entities, has_next_page) = match direction {
                    es_entity::ListDirection::Ascending => {
                        es_entity::es_query!(
                            entity = Entity,
                            "(SELECT value, id FROM entities WHERE ((value, id) > ($3, $2)) AND ($2 IS NOT NULL AND $3 IS NOT NULL) ORDER BY value ASC NULLS FIRST, id ASC LIMIT $1) UNION ALL (SELECT value, id FROM entities WHERE ((value IS NOT NULL OR id > $2)) AND ($2 IS NOT NULL AND $3 IS NULL) ORDER BY value ASC NULLS FIRST, id ASC LIMIT $1) UNION ALL (SELECT value, id FROM entities WHERE ($2 IS NULL) ORDER BY value ASC NULLS FIRST, id ASC LIMIT $1) ORDER BY value ASC NULLS FIRST, id ASC LIMIT $1",
                            (first + 1) as i64,
                            id as Option<EntityId>,
                            value as Option<DomainEnum>,
                        )
                            .fetch_n(op, first)
                            .await?
                    },
                    es_entity::ListDirection::Descending => {
                        es_entity::es_query!(
                            entity = Entity,
                            "(SELECT value, id FROM entities WHERE ((value IS NULL OR (value, id) < ($3, $2))) AND ($2 IS NOT NULL AND $3 IS NOT NULL) ORDER BY value DESC NULLS LAST, id DESC LIMIT $1) UNION ALL (SELECT value, id FROM entities WHERE ((value IS NULL AND id < $2)) AND ($2 IS NOT NULL AND $3 IS NULL) ORDER BY value DESC NULLS LAST, id DESC LIMIT $1) UNION ALL (SELECT value, id FROM entities WHERE ($2 IS NULL) ORDER BY value DESC NULLS LAST, id DESC LIMIT $1) ORDER BY value DESC NULLS LAST, id DESC LIMIT $1",
                            (first + 1) as i64,
                            id as Option<EntityId>,
                            value as Option<DomainEnum>,
                        )
                            .fetch_n(op, first)
                            .await?
                    },
                };

                let end_cursor = entities.last().map(cursor_mod::EntityByValueCursor::from);
                Ok(es_entity::PaginatedQueryRet {
                    entities,
                    has_next_page,
                    end_cursor,
                })
            }.await;

            __result
        }
    "##;

    assert_eq!(norm(&tokens), norm(expected));
}

#[test]
fn list_for_fn() {
    let entity = "Entity".to_string();
    let query_error = "EntityQueryError".to_string();
    let id = "EntityId".to_string();
    let by_column = Column::for_id("EntityId");
    let for_column = Column::new(
        "customer_id".to_string(),
        ty("Uuid"),
    );
    let cursor_mod = "cursor_mod".to_string();

    let persist_fn = ListForFn {
        ignore_prefix: None,
        entity: &entity,
        id: &id,
        for_column: &for_column,
        by_column: &by_column,
        table_name: "entities",
        query_error,
        delete: DeleteOption::No,
        cursor_mod,
        any_nested: false,
        post_hydrate_error: None,
        forgettable_table_name: None,
        scope: None,
        repo_name_snake: None,
    };

    let mut tokens = String::new();
    persist_fn.to_tokens(&mut tokens);

    let expected = r##"
        pub async fn list_for_customer_id_by_id(
            &self,
            filter_customer_id: impl std::borrow::Borrow<Uuid>,
            cursor: es_entity::PaginatedQueryArgs<cursor_mod::EntityByIdCursor>,
            direction: es_entity::ListDirection,
        ) -> Result<es_entity::PaginatedQueryRet<Entity, cursor_mod::EntityByIdCursor>, EntityQueryError> {
            self.list_for_customer_id_by_id_in_op(self.pool(), filter_customer_id, cursor, direction).await
        }

        pub async fn list_for_customer_id_by_id_in_op<'a, OP>(
            &self,
            op: OP,
            filter_customer_id: impl std::borrow::Borrow<Uuid>,
            cursor: es_entity::PaginatedQueryArgs<cursor_mod::EntityByIdCursor>,
            direction: es_entity::ListDirection,
        ) -> Result<es_entity::PaginatedQueryRet<Entity, cursor_mod::EntityByIdCursor>, EntityQueryError>
            where
                OP: es_entity::IntoOneTimeExecutor<'a>
        {
            let __result: Result<es_entity::PaginatedQueryRet<Entity, cursor_mod::EntityByIdCursor>, EntityQueryError> = async {
                let filter_customer_id = filter_customer_id.borrow();
                let es_entity::PaginatedQueryArgs { first, after } = cursor;
                let id = if let Some(after) = after {
                    Some(after.id)
                } else {
                    None
                };
                let (entities, has_next_page) = match direction {
                    es_entity::ListDirection::Ascending => {
                        es_entity::es_query!(
                            entity = Entity,
                            "(SELECT customer_id, id FROM entities WHERE (customer_id = $1) AND (id > $3) AND ($3 IS NOT NULL) ORDER BY id ASC LIMIT $2) UNION ALL (SELECT customer_id, id FROM entities WHERE (customer_id = $1) AND ($3 IS NULL) ORDER BY id ASC LIMIT $2) ORDER BY id ASC LIMIT $2",
                            filter_customer_id as &Uuid,
                            (first + 1) as i64,
                            id as Option<EntityId>,
                        )
                            .fetch_n(op, first)
                            .await?
                    },
                    es_entity::ListDirection::Descending => {
                        es_entity::es_query!(
                            entity = Entity,
                            "(SELECT customer_id, id FROM entities WHERE (customer_id = $1) AND (id < $3) AND ($3 IS NOT NULL) ORDER BY id DESC LIMIT $2) UNION ALL (SELECT customer_id, id FROM entities WHERE (customer_id = $1) AND ($3 IS NULL) ORDER BY id DESC LIMIT $2) ORDER BY id DESC LIMIT $2",
                            filter_customer_id as &Uuid,
                            (first + 1) as i64,
                            id as Option<EntityId>,
                        )
                            .fetch_n(op, first)
                            .await?
                    },
                };

                let end_cursor = entities.last().map(cursor_mod::EntityByIdCursor::from);
                Ok(es_entity::PaginatedQueryRet {
                    entities,
                    has_next_page,
                    end_cursor,
                })
            }.await;

            __result
        }
    "##;

    assert_eq!(norm(&tokens), norm(expected));
}

#[test]
fn list_same_column() {
    let entity = "Entity".to_string();
    let query_error = "EntityQueryError".to_string();
    let id = "EntityId".to_string();
    let column = Column::new(
        "email".to_string(),
        ty("String"),
    );
    let cursor_mod = "cursor_mod".to_string();

    let persist_fn = ListForFn {
        ignore_prefix: None,
        entity: &entity,
        id: &id,
        for_column: &column,
        by_column: &column,
        table_name: "entities",
        query_error,
        delete: DeleteOption::No,
        cursor_mod,
        any_nested: false,
        post_hydrate_error: None,
        forgettable_table_name: None,
        scope: None,
        repo_name_snake: None,
    };

    let mut tokens = String::new();
    persist_fn.to_tokens(&mut tokens);

    let expected = r##"
        pub async fn list_for_email_by_email(
            &self,
            filter_email: impl std::convert::AsRef<str>,
            cursor: es_entity::PaginatedQueryArgs<cursor_mod::EntityByEmailCursor>,
            direction: es_entity::ListDirection,
        ) -> Result<es_entity::PaginatedQueryRet<Entity, cursor_mod::EntityByEmailCursor>, EntityQueryError> {
            self.list_for_email_by_email_in_op(self.pool(), filter_email, cursor, direction).await
        }

        pub async fn list_for_email_by_email_in_op<'a, OP>(
            &self,
            op: OP,
            filter_email: impl std::convert::AsRef<str>,
            cursor: es_entity::PaginatedQueryArgs<cursor_mod::EntityByEmailCursor>,
            direction: es_entity::ListDirection,
        ) -> Result<es_entity::PaginatedQueryRet<Entity, cursor_mod::EntityByEmailCursor>, EntityQueryError>
            where
                OP: es_entity::IntoOneTimeExecutor<'a>
        {
            let __result: Result<es_entity::PaginatedQueryRet<Entity, cursor_mod::EntityByEmailCursor>, EntityQueryError> = async {
                let filter_email = filter_email.as_ref();
                let es_entity::PaginatedQueryArgs { first, after } = cursor;
                let (id, email) = if let Some(after) = after {
                    (Some(after.id), Some(after.email))
                } else {
                    (None, None)
                };
                let (entities, has_next_page) = match direction {
                    es_entity::ListDirection::Ascending => {
                        es_entity::es_query!(
                            entity = Entity,
                            "(SELECT email, id FROM entities WHERE (email = $1) AND ((email, id) > ($4, $3)) AND ($3 IS NOT NULL) ORDER BY email ASC, id ASC LIMIT $2) UNION ALL (SELECT email, id FROM entities WHERE (email = $1) AND ($3 IS NULL) ORDER BY email ASC, id ASC LIMIT $2) ORDER BY email ASC, id ASC LIMIT $2",
                            filter_email as &str,
                            (first + 1) as i64,
                            id as Option<EntityId>,
                            email as Option<String>,
                        )
                            .fetch_n(op, first)
                            .await?
                    },
                    es_entity::ListDirection::Descending => {
                        es_entity::es_query!(
                            entity = Entity,
                            "(SELECT email, id FROM entities WHERE (email = $1) AND ((email, id) < ($4, $3)) AND ($3 IS NOT NULL) ORDER BY email DESC, id DESC LIMIT $2) UNION ALL (SELECT email, id FROM entities WHERE (email = $1) AND ($3 IS NULL) ORDER BY email DESC, id DESC LIMIT $2) ORDER BY email DESC, id DESC LIMIT $2",
                            filter_email as &str,
                            (first + 1) as i64,
                            id as Option<EntityId>,
                            email as Option<String>,
                        )
                            .fetch_n(op, first)
                            .await?
                    },
                };

                let end_cursor = entities.last().map(cursor_mod::EntityByEmailCursor::from);
                Ok(es_entity::PaginatedQueryRet {
                    entities,
                    has_next_page,
                    end_cursor,
                })
            }.await;

            __result
        }
    "##;

    assert_eq!(norm(&tokens), norm(expected));
}
