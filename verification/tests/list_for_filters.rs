use es_entity_repo::combo_cursor::ComboCursor;
use es_entity_repo::filters_struct::FiltersStruct;
use es_entity_repo::index_catalog::{Index, IndexCatalog};
use es_entity_repo::list_for_filters_fn::ListForFiltersFn;
use es_entity_repo::options::column::Column;
use es_entity_repo::options::delete::DeleteOption;
use es_entity_repo::types::TypeExpr;
use proc_macro2::{Group, Punct, Spacing, TokenStream};

const OPERATORS: [&str; 16] = [
    "..=", "...", "::", "->", "=>", "&&", "||", "==", "!=", "<=", ">=", "..", "+=", "-=", "*=",
    "/=",
];

fn push_puncts(run: &str, out: &mut Vec<proc_macro2::TokenTree>) {
    let mut rest = run;
    while let Some(first) = rest.chars().next() {
        let operator = OPERATORS.iter().find(|operator| rest.starts_with(**operator));
        let text = operator.map_or(&rest[..first.len_utf8()], |operator| *operator);
        for (i, c) in text.char_indices() {
            let joint = i + 1 < text.len() || c == '\'';
            let spacing = if joint { Spacing::Joint } else { Spacing::Alone };
            out.push(proc_macro2::TokenTree::Punct(Punct::new(c, spacing)));
        }
        rest = &rest[text.len()..];
    }
}

fn spaced(tokens: TokenStream) -> TokenStream {
    let mut out = Vec::new();
    let mut run = String::new();
    for tree in tokens {
        match tree {
            proc_macro2::TokenTree::Punct(punct) => {
                run.push(punct.as_char());
                if punct.spacing() == Spacing::Alone {
                    push_puncts(&run, &mut out);
                    run.clear();
                }
            }
            proc_macro2::TokenTree::Group(group) => {
                out.push(proc_macro2::TokenTree::Group(Group::new(group.delimiter(), spaced(group.stream()))))
            }
            other => {
                push_puncts(&run, &mut out);
                run.clear();
                out.push(other);
            }
        }
    }
    push_puncts(&run, &mut out);
    out.into_iter().collect()
}

fn norm(code: &str) -> String {
    spaced(code.parse().expect("code is made of tokens")).to_string()
}

fn ty(text: &str) -> TypeExpr {
    TypeExpr::parse(text).expect("a type")
}

fn filters<'a>(entity: &'a str, columns: Vec<&'a Column>) -> FiltersStruct<'a> {
    filters_with_virtual(entity, columns, Vec::new())
}

fn filters_with_virtual<'a>(
    entity: &'a str,
    columns: Vec<&'a Column>,
    virtual_columns: Vec<&'a Column>,
) -> FiltersStruct<'a> {
    FiltersStruct { columns, virtual_columns, entity }
}

fn catalog(indexes: &[(&str, &[&str])]) -> IndexCatalog {
    IndexCatalog {
        indexes: indexes
            .iter()
            .map(|(table, columns)| Index {
                table: table.to_string(),
                columns: columns.iter().map(|column| column.to_string()).collect(),
            })
            .collect(),
    }
}

#[test]
fn filters_struct() {
    let entity = "Order".to_string();
    let customer_id_column = Column::new(
        "customer_id".to_string(),
        ty("CustomerId"),
    );
    let status_column = Column::new(
        "status".to_string(),
        ty("OrderStatus"),
    );

    let filters = filters(&entity, vec![&customer_id_column, &status_column]);

    let mut tokens = String::new();
    filters.to_tokens(&mut tokens);

    let expected = r##"
        #[derive(Debug, Default)]
        pub struct OrderFilters {
            pub customer_id: Option<CustomerId>,
            pub status: Option<OrderStatus>,
        }
    "##;

    assert_eq!(norm(&tokens), norm(expected));
}

#[test]
fn list_for_filters_function_generation() {
    let entity = "Order".to_string();
    let query_error = "OrderQueryError".to_string();
    let id = "OrderId".to_string();
    let cursor_mod = "cursor_mod".to_string();

    let id_column = Column::for_id("OrderId");
    let id_ident = "id".to_string();
    let customer_id_column = Column::new_list_for(
        "customer_id".to_string(),
        ty("CustomerId"),
        vec![id_ident.clone()],
    );
    let status_column = Column::new_list_for(
        "status".to_string(),
        ty("OrderStatus"),
        vec![id_ident],
    );

    let for_columns = vec![&customer_id_column, &status_column];
    let by_columns = vec![&id_column];

    let combo_cursor = ComboCursor::new(&entity);

    let list_for_filters_fn = ListForFiltersFn {
        in_op_only: false,
        filters_struct: filters(&entity, for_columns.clone()),
        entity: &entity,
        query_error,
        for_columns,
        virtual_columns: Vec::new(),
        by_columns,
        cursor: &combo_cursor,
        delete: DeleteOption::No,
        cursor_mod: cursor_mod.clone(),
        table_name: "orders",
        ignore_prefix: None,
        id: &id,
        post_hydrate_error: None,
        forgettable_table_name: None,
        snapshot_table_name: None,
        scope: None,
        index_catalog: catalog(&[("orders", &["id"]), ("orders", &["customer_id", "id"]), ("orders", &["status", "id"]), ("orders", &["customer_id", "status", "id"])]),
        repo_name_snake: None,
    };

    let mut tokens = String::new();
    list_for_filters_fn.to_tokens(&mut tokens);

    let expected = r##"
        pub async fn list_for_filters_by_id(
            &self,
            filters: OrderFilters,
            cursor: es_entity::PaginatedQueryArgs<cursor_mod::OrderByIdCursor>,
            direction: es_entity::ListDirection,
        ) -> Result<es_entity::PaginatedQueryRet<Order, cursor_mod::OrderByIdCursor>, OrderQueryError> {
            self.list_for_filters_by_id_in_op(self.pool(), filters, cursor, direction).await
        }

        pub async fn list_for_filters_by_id_in_op<'a, OP>(
            &self,
            op: OP,
            filters: OrderFilters,
            cursor: es_entity::PaginatedQueryArgs<cursor_mod::OrderByIdCursor>,
            direction: es_entity::ListDirection,
        ) -> Result<es_entity::PaginatedQueryRet<Order, cursor_mod::OrderByIdCursor>, OrderQueryError>
            where
                OP: es_entity::IntoOneTimeExecutor<'a>
        {
            let __result: Result<es_entity::PaginatedQueryRet<Order, cursor_mod::OrderByIdCursor>, OrderQueryError> = async {
                let filter_customer_id = filters.customer_id;
                let filter_status = filters.status;
                let es_entity::PaginatedQueryArgs { first, after } = cursor;
                let id = if let Some(after) = after {
                    Some(after.id)
                } else {
                    None
                };

                let (entities, has_next_page) = match direction {
                    es_entity::ListDirection::Ascending => match (filter_customer_id.is_some(), filter_status.is_some(),) {
                        (false, false,) => {
                            es_entity::es_query!(
                                entity = Order,
                                "(SELECT id FROM orders WHERE (id > $2) AND ($2 IS NOT NULL) ORDER BY id ASC LIMIT $1) UNION ALL (SELECT id FROM orders WHERE ($2 IS NULL) ORDER BY id ASC LIMIT $1) ORDER BY id ASC LIMIT $1",
                                (first + 1) as i64,
                                id as Option<OrderId>,
                            )
                                .fetch_n(op, first)
                                .await?
                        },
                        (false, true,) => {
                            es_entity::es_query!(
                                entity = Order,
                                "(SELECT id FROM orders WHERE status = $1 AND (id > $3) AND ($3 IS NOT NULL) ORDER BY id ASC LIMIT $2) UNION ALL (SELECT id FROM orders WHERE status = $1 AND ($3 IS NULL) ORDER BY id ASC LIMIT $2) ORDER BY id ASC LIMIT $2",
                                filter_status as Option<OrderStatus>,
                                (first + 1) as i64,
                                id as Option<OrderId>,
                            )
                                .fetch_n(op, first)
                                .await?
                        },
                        (true, false,) => {
                            es_entity::es_query!(
                                entity = Order,
                                "(SELECT id FROM orders WHERE customer_id = $1 AND (id > $3) AND ($3 IS NOT NULL) ORDER BY id ASC LIMIT $2) UNION ALL (SELECT id FROM orders WHERE customer_id = $1 AND ($3 IS NULL) ORDER BY id ASC LIMIT $2) ORDER BY id ASC LIMIT $2",
                                filter_customer_id as Option<CustomerId>,
                                (first + 1) as i64,
                                id as Option<OrderId>,
                            )
                                .fetch_n(op, first)
                                .await?
                        },
                        (true, true,) => {
                            es_entity::es_query!(
                                entity = Order,
                                "(SELECT id FROM orders WHERE customer_id = $1 AND status = $2 AND (id > $4) AND ($4 IS NOT NULL) ORDER BY id ASC LIMIT $3) UNION ALL (SELECT id FROM orders WHERE customer_id = $1 AND status = $2 AND ($4 IS NULL) ORDER BY id ASC LIMIT $3) ORDER BY id ASC LIMIT $3",
                                filter_customer_id as Option<CustomerId>,
                                filter_status as Option<OrderStatus>,
                                (first + 1) as i64,
                                id as Option<OrderId>,
                            )
                                .fetch_n(op, first)
                                .await?
                        },
                    },
                    es_entity::ListDirection::Descending => match (filter_customer_id.is_some(), filter_status.is_some(),) {
                        (false, false,) => {
                            es_entity::es_query!(
                                entity = Order,
                                "(SELECT id FROM orders WHERE (id < $2) AND ($2 IS NOT NULL) ORDER BY id DESC LIMIT $1) UNION ALL (SELECT id FROM orders WHERE ($2 IS NULL) ORDER BY id DESC LIMIT $1) ORDER BY id DESC LIMIT $1",
                                (first + 1) as i64,
                                id as Option<OrderId>,
                            )
                                .fetch_n(op, first)
                                .await?
                        },
                        (false, true,) => {
                            es_entity::es_query!(
                                entity = Order,
                                "(SELECT id FROM orders WHERE status = $1 AND (id < $3) AND ($3 IS NOT NULL) ORDER BY id DESC LIMIT $2) UNION ALL (SELECT id FROM orders WHERE status = $1 AND ($3 IS NULL) ORDER BY id DESC LIMIT $2) ORDER BY id DESC LIMIT $2",
                                filter_status as Option<OrderStatus>,
                                (first + 1) as i64,
                                id as Option<OrderId>,
                            )
                                .fetch_n(op, first)
                                .await?
                        },
                        (true, false,) => {
                            es_entity::es_query!(
                                entity = Order,
                                "(SELECT id FROM orders WHERE customer_id = $1 AND (id < $3) AND ($3 IS NOT NULL) ORDER BY id DESC LIMIT $2) UNION ALL (SELECT id FROM orders WHERE customer_id = $1 AND ($3 IS NULL) ORDER BY id DESC LIMIT $2) ORDER BY id DESC LIMIT $2",
                                filter_customer_id as Option<CustomerId>,
                                (first + 1) as i64,
                                id as Option<OrderId>,
                            )
                                .fetch_n(op, first)
                                .await?
                        },
                        (true, true,) => {
                            es_entity::es_query!(
                                entity = Order,
                                "(SELECT id FROM orders WHERE customer_id = $1 AND status = $2 AND (id < $4) AND ($4 IS NOT NULL) ORDER BY id DESC LIMIT $3) UNION ALL (SELECT id FROM orders WHERE customer_id = $1 AND status = $2 AND ($4 IS NULL) ORDER BY id DESC LIMIT $3) ORDER BY id DESC LIMIT $3",
                                filter_customer_id as Option<CustomerId>,
                                filter_status as Option<OrderStatus>,
                                (first + 1) as i64,
                                id as Option<OrderId>,
                            )
                                .fetch_n(op, first)
                                .await?
                        },
                    }
                };

                let next_page = if has_next_page {
                    entities.last().map(cursor_mod::OrderByIdCursor::from)
                } else {
                    None
                };
                Ok(es_entity::PaginatedQueryRet::new(entities, next_page, first))
            }.await;

            __result
        }

        pub async fn list_for_filters(
            &self,
            filters: OrderFilters,
            sort: es_entity::Sort<OrderSortBy>,
            cursor: es_entity::PaginatedQueryArgs<cursor_mod::OrderCursor>,
        ) -> Result<es_entity::PaginatedQueryRet<Order, cursor_mod::OrderCursor>, OrderQueryError>
        {
            self.list_for_filters_in_op(self.pool(), filters, sort, cursor).await
        }

        pub async fn list_for_filters_in_op<'a, OP>(
            &self,
            op: OP,
            filters: OrderFilters,
            sort: es_entity::Sort<OrderSortBy>,
            cursor: es_entity::PaginatedQueryArgs<cursor_mod::OrderCursor>,
        ) -> Result<es_entity::PaginatedQueryRet<Order, cursor_mod::OrderCursor>, OrderQueryError>
            where
                OP: es_entity::IntoOneTimeExecutor<'a>
        {
            let __result: Result<es_entity::PaginatedQueryRet<Order, cursor_mod::OrderCursor>, OrderQueryError> = async {
                let es_entity::Sort { by, direction } = sort;
                let es_entity::PaginatedQueryArgs { first, after } = cursor;

                use cursor_mod::OrderCursor;
                let res = match by {
                    OrderSortBy::Id => {
                        let after = after.map(cursor_mod::OrderByIdCursor::try_from).transpose()?;
                        let query = es_entity::PaginatedQueryArgs { first, after };

                        if filters.customer_id.is_none() && filters.status.is_none() {
                            self.list_by_id_in_op(op, query, direction).await?
                        } else if filters.status.is_none() {
                            self.list_for_customer_id_by_id_in_op(op, filters.customer_id.unwrap(), query, direction).await?
                        } else if filters.customer_id.is_none() {
                            self.list_for_status_by_id_in_op(op, filters.status.unwrap(), query, direction).await?
                        } else {
                            self.list_for_filters_by_id_in_op(op, filters, query, direction).await?
                        }
                        .map_next_cursor(cursor_mod::OrderCursor::from)
                    }
                };

                Ok(res)
            }.await;

            __result
        }
    "##;

    assert_eq!(norm(&tokens), norm(expected));
}

#[test]
fn list_for_filters_bare_list_for_defaults_to_by_id() {
    // Bare list_for defaults to by(id) only
    let entity = "Order".to_string();
    let query_error = "OrderQueryError".to_string();
    let id = "OrderId".to_string();
    let cursor_mod = "cursor_mod".to_string();

    let id_column = Column::for_id("OrderId");
    let id_ident = "id".to_string();
    let customer_id_column = Column::new_list_for(
        "customer_id".to_string(),
        ty("CustomerId"),
        vec![id_ident.clone()],
    );
    let status_column = Column::new_list_for(
        "status".to_string(),
        ty("OrderStatus"),
        vec![id_ident],
    );

    let for_columns = vec![&customer_id_column, &status_column];
    let by_columns = vec![&id_column];

    let combo_cursor = ComboCursor::new(&entity);

    let list_for_filters_fn = ListForFiltersFn {
        in_op_only: false,
        filters_struct: filters(&entity, for_columns.clone()),
        entity: &entity,
        query_error,
        for_columns,
        virtual_columns: Vec::new(),
        by_columns,
        cursor: &combo_cursor,
        delete: DeleteOption::No,
        cursor_mod: cursor_mod.clone(),
        table_name: "orders",
        ignore_prefix: None,
        id: &id,
        post_hydrate_error: None,
        forgettable_table_name: None,
        snapshot_table_name: None,
        scope: None,
        index_catalog: IndexCatalog::empty(),
        repo_name_snake: None,
    };

    let mut tokens = String::new();
    list_for_filters_fn.to_tokens(&mut tokens);

    let token_str = norm(&tokens);

    // Bare list_for defaults to by(id), so should dispatch to individual methods for id
    assert!(token_str.contains("list_for_customer_id_by_id"));
    assert!(token_str.contains("list_for_status_by_id"));
    assert!(token_str.contains("list_for_filters_by_id"));
    assert!(token_str.contains("list_by_id"));
}

#[test]
fn list_for_filters_mixed_by_columns() {
    // Test: customer_id has list_for(by(id)), status has list_for(by(created_at))
    // Only customer_id should dispatch to individual method for by_id sort
    let entity = "Order".to_string();
    let query_error = "OrderQueryError".to_string();
    let id = "OrderId".to_string();
    let cursor_mod = "cursor_mod".to_string();

    let id_column = Column::for_id("OrderId");
    let id_ident = "id".to_string();
    let created_at_ident = "created_at".to_string();
    // customer_id has by(id) - gets individual method for id sort
    let customer_id_column = Column::new_list_for(
        "customer_id".to_string(),
        ty("CustomerId"),
        vec![id_ident],
    );
    // status has by(created_at) - NOT paired with id sort
    let status_column = Column::new_list_for(
        "status".to_string(),
        ty("OrderStatus"),
        vec![created_at_ident],
    );

    let for_columns = vec![&customer_id_column, &status_column];
    let by_columns = vec![&id_column];

    let combo_cursor = ComboCursor::new(&entity);

    let list_for_filters_fn = ListForFiltersFn {
        in_op_only: false,
        filters_struct: filters(&entity, for_columns.clone()),
        entity: &entity,
        query_error,
        for_columns,
        virtual_columns: Vec::new(),
        by_columns,
        cursor: &combo_cursor,
        delete: DeleteOption::No,
        cursor_mod: cursor_mod.clone(),
        table_name: "orders",
        ignore_prefix: None,
        id: &id,
        post_hydrate_error: None,
        forgettable_table_name: None,
        snapshot_table_name: None,
        scope: None,
        index_catalog: IndexCatalog::empty(),
        repo_name_snake: None,
    };

    let mut tokens = String::new();
    list_for_filters_fn.to_tokens(&mut tokens);

    let token_str = norm(&tokens);

    // customer_id has by(id), so dispatch should use list_for_customer_id_by_id
    assert!(token_str.contains("list_for_customer_id_by_id"));
    // status has by(created_at) not by(id), so no individual dispatch for id sort
    assert!(!token_str.contains("list_for_status_by_id"));
    // Should still have unified fallback
    assert!(token_str.contains("list_for_filters_by_id"));
}

#[test]
fn list_for_filters_optional_column_uses_two_params() {
    let entity = "Task".to_string();
    let query_error = "TaskQueryError".to_string();
    let id = "TaskId".to_string();
    let cursor_mod = "cursor_mod".to_string();

    let id_column = Column::for_id("TaskId");
    let id_ident = "id".to_string();
    // Optional column: workspace_id is Option<WorkspaceId>
    let workspace_id_column = Column::new_list_for(
        "workspace_id".to_string(),
        ty("Option<WorkspaceId>"),
        vec![id_ident.clone()],
    );
    // Non-optional column: status is String
    let status_column = Column::new_list_for(
        "status".to_string(),
        ty("String"),
        vec![id_ident.clone()],
    );
    // With an empty index catalog no combination is specialized, so the
    // catch-all COALESCE fallback (the subject of this test) is emitted.
    let mk_col = |name: &str| {
        Column::new_list_for(
            name.to_string(),
            ty("String"),
            vec![id_ident.clone()],
        )
    };
    let region_column = mk_col("region");
    let tier_column = mk_col("tier");
    let kind_column = mk_col("kind");

    let for_columns = vec![
        &workspace_id_column,
        &status_column,
        &region_column,
        &tier_column,
        &kind_column,
    ];
    let by_columns = vec![&id_column];

    let combo_cursor = ComboCursor::new(&entity);

    let list_for_filters_fn = ListForFiltersFn {
        in_op_only: false,
        filters_struct: filters(&entity, for_columns.clone()),
        entity: &entity,
        query_error,
        for_columns,
        virtual_columns: Vec::new(),
        by_columns,
        cursor: &combo_cursor,
        delete: DeleteOption::No,
        cursor_mod: cursor_mod.clone(),
        table_name: "tasks",
        ignore_prefix: None,
        id: &id,
        post_hydrate_error: None,
        forgettable_table_name: None,
        snapshot_table_name: None,
        scope: None,
        index_catalog: IndexCatalog::empty(),
        repo_name_snake: None,
    };

    let mut tokens = String::new();
    list_for_filters_fn.to_tokens(&mut tokens);

    let token_str = norm(&tokens);

    // Optional column workspace_id uses 2 params: $1 (apply bool), $2 (value)
    // Non-optional columns use 1 param each: status $3, region $4, tier
    // $5, kind $6. So cursor params start at $7+.
    assert!(
        token_str.contains("NOT $1 OR workspace_id IS NOT DISTINCT FROM $2"),
        "Expected two-param pattern for optional column, got:\n{}",
        token_str,
    );
    assert!(
        token_str.contains("COALESCE(status = $3, $3 IS NULL)"),
        "Expected COALESCE pattern for non-optional column, got:\n{}",
        token_str,
    );

    // Verify destructuring: apply_workspace_id = is_some(), filter = flatten()
    assert!(
        token_str.contains("apply_workspace_id"),
        "Expected apply_workspace_id destructuring"
    );

    // LIMIT should be at $7 (6 filter params + 1)
    assert!(
        token_str.contains("LIMIT $7"),
        "Expected LIMIT at $7 (2 optional + 4 non-optional = 6 filter params)"
    );
}

#[test]
fn list_for_filters_specializes_sargable_variants() {
    let entity = "Task".to_string();
    let query_error = "TaskQueryError".to_string();
    let id = "TaskId".to_string();
    let cursor_mod = "cursor_mod".to_string();

    let id_column = Column::for_id("TaskId");
    let id_ident = "id".to_string();
    let workspace_id_column = Column::new_list_for(
        "workspace_id".to_string(),
        ty("Option<WorkspaceId>"),
        vec![id_ident.clone()],
    );
    let status_column = Column::new_list_for(
        "status".to_string(),
        ty("String"),
        vec![id_ident],
    );

    let for_columns = vec![&workspace_id_column, &status_column];
    let by_columns = vec![&id_column];

    let combo_cursor = ComboCursor::new(&entity);

    let list_for_filters_fn = ListForFiltersFn {
        in_op_only: false,
        filters_struct: filters(&entity, for_columns.clone()),
        entity: &entity,
        query_error,
        for_columns,
        virtual_columns: Vec::new(),
        by_columns,
        cursor: &combo_cursor,
        delete: DeleteOption::No,
        cursor_mod: cursor_mod.clone(),
        table_name: "tasks",
        ignore_prefix: None,
        id: &id,
        post_hydrate_error: None,
        forgettable_table_name: None,
        snapshot_table_name: None,
        scope: None,
        index_catalog: catalog(&[("tasks", &["id"]), ("tasks", &["workspace_id", "id"]), ("tasks", &["status", "id"]), ("tasks", &["workspace_id", "status", "id"])]),
        repo_name_snake: None,
    };

    let mut tokens = String::new();
    list_for_filters_fn.to_tokens(&mut tokens);
    let token_str = norm(&tokens);

    // Each specialized combo emits one unified `UNION ALL` query per
    // direction: an `After` branch (sargable `id > $k` gated on
    // `$k IS NOT NULL`) then the page-1 `First` branch (gated on
    // `$k IS NULL`), plus the outer merge. The filter equality predicates
    // are the leading conjuncts shared by every branch.
    let expected_queries = [
        // No filters: First branch, then After branch.
        "(SELECT id FROM tasks WHERE ($2 IS NULL) ORDER BY id ASC LIMIT $1)",
        "(SELECT id FROM tasks WHERE (id > $2) AND ($2 IS NOT NULL) ORDER BY id ASC LIMIT $1)",
        // Single non-optional filter.
        "(SELECT id FROM tasks WHERE status = $1 AND ($3 IS NULL) ORDER BY id ASC LIMIT $2)",
        "(SELECT id FROM tasks WHERE status = $1 AND (id > $3) AND ($3 IS NOT NULL) ORDER BY id ASC LIMIT $2)",
        // Optional filter on a value: sargable `col = $k`.
        "(SELECT id FROM tasks WHERE workspace_id = $1 AND ($3 IS NULL) ORDER BY id ASC LIMIT $2)",
        // Optional filter on NULL: `col IS NULL`, no parameter.
        "(SELECT id FROM tasks WHERE workspace_id IS NULL AND ($2 IS NULL) ORDER BY id ASC LIMIT $1)",
        // All filters present.
        "(SELECT id FROM tasks WHERE workspace_id = $1 AND status = $2 AND ($4 IS NULL) ORDER BY id ASC LIMIT $3)",
        "(SELECT id FROM tasks WHERE workspace_id = $1 AND status = $2 AND (id > $4) AND ($4 IS NOT NULL) ORDER BY id ASC LIMIT $3)",
        "(SELECT id FROM tasks WHERE workspace_id IS NULL AND status = $1 AND ($3 IS NULL) ORDER BY id ASC LIMIT $2)",
    ];
    for query in expected_queries {
        assert!(
            token_str.contains(query),
            "Expected specialized query `{query}` in generated code"
        );
    }

    // Fully-specialized entities need no wildcard fallback arm at all -
    // the explicit arms already cover the entire pattern space.
    assert!(
        !token_str.contains("COALESCE"),
        "no COALESCE fallback should be emitted when every combination is specialized"
    );
}

#[test]
fn list_for_filters_specializes_equality_prefix_combos() {
    let entity = "Wide".to_string();
    let query_error = "WideQueryError".to_string();
    let id = "WideId".to_string();
    let cursor_mod = "cursor_mod".to_string();

    let id_column = Column::for_id("WideId");
    let id_ident = "id".to_string();
    let mk_col = |name: &str| {
        Column::new_list_for(
            name.to_string(),
            ty("String"),
            vec![id_ident.clone()],
        )
    };
    let col_a = mk_col("a");
    let col_b = mk_col("b");
    let col_c = mk_col("c");
    let col_d = mk_col("d");
    let col_e = mk_col("e");

    let for_columns = vec![&col_a, &col_b, &col_c, &col_d, &col_e];
    let by_columns = vec![&id_column];

    let combo_cursor = ComboCursor::new(&entity);

    let list_for_filters_fn = ListForFiltersFn {
        in_op_only: false,
        filters_struct: filters(&entity, for_columns.clone()),
        entity: &entity,
        query_error,
        for_columns,
        virtual_columns: Vec::new(),
        by_columns,
        cursor: &combo_cursor,
        delete: DeleteOption::No,
        cursor_mod: cursor_mod.clone(),
        table_name: "wides",
        ignore_prefix: None,
        id: &id,
        post_hydrate_error: None,
        forgettable_table_name: None,
        snapshot_table_name: None,
        scope: None,
        // A single composite; specialization keys on the equality columns
        // being a *leading prefix* of it - the sort column need not follow.
        index_catalog: catalog(&[("wides", &["a", "b", "id"])]),
        repo_name_snake: None,
    };

    let mut tokens = String::new();
    list_for_filters_fn.to_tokens(&mut tokens);
    let token_str = norm(&tokens);

    // {a}: leading prefix `a` of `(a, b, id)` so specialized.
    assert!(token_str.contains(
        "(SELECT id FROM wides WHERE a = $1 AND ($3 IS NULL) ORDER BY id ASC LIMIT $2)"
    ));
    // {a, b}: leading prefix `a, b` so specialized. The sort
    // column need not follow.
    assert!(
        token_str.contains(
            "(SELECT id FROM wides WHERE a = $1 AND b = $2 AND ($4 IS NULL) ORDER BY id ASC LIMIT $3)"
        ),
        "a combo whose equality is an index prefix must be specialized"
    );
    // {b}: `b` is not a leading prefix of `(a, b, id)` so both plans seq-scan,
    // so it correctly falls back to the COALESCE query (a build win, no
    // runtime loss).
    assert!(
        !token_str.contains("(SELECT id FROM wides WHERE b = $1 AND ($3 IS NULL)"),
        "`b` alone is not a leading index prefix and must fall back"
    );
    assert!(
        token_str.contains("COALESCE(b = $2, $2 IS NULL)"),
        "COALESCE fallback must remain for combos with no index prefix"
    );
}

#[test]
fn list_for_filters_no_index_emits_catch_all_only() {
    let entity = "Order".to_string();
    let query_error = "OrderQueryError".to_string();
    let id = "OrderId".to_string();
    let cursor_mod = "cursor_mod".to_string();

    let id_column = Column::for_id("OrderId");
    let id_ident = "id".to_string();
    let customer_id_column = Column::new_list_for(
        "customer_id".to_string(),
        ty("CustomerId"),
        vec![id_ident.clone()],
    );
    let status_column = Column::new_list_for(
        "status".to_string(),
        ty("OrderStatus"),
        vec![id_ident],
    );

    let for_columns = vec![&customer_id_column, &status_column];
    let by_columns = vec![&id_column];
    let combo_cursor = ComboCursor::new(&entity);

    let build = |index_catalog: IndexCatalog| -> String {
        let fn_ = ListForFiltersFn {
            in_op_only: false,
            filters_struct: filters(&entity, for_columns.clone()),
            entity: &entity,
            query_error: query_error.clone(),
            for_columns: for_columns.clone(),
            virtual_columns: Vec::new(),
            by_columns: by_columns.clone(),
            cursor: &combo_cursor,
            delete: DeleteOption::No,
            cursor_mod: cursor_mod.clone(),
            table_name: "orders",
            ignore_prefix: None,
            id: &id,
            post_hydrate_error: None,
            forgettable_table_name: None,
            snapshot_table_name: None,
            scope: None,
            index_catalog,
            repo_name_snake: None,
        };
        let mut tokens = String::new();
        fn_.to_tokens(&mut tokens);
        norm(&tokens)
    };

    let off = build(IndexCatalog::empty());
    let on = build(catalog(&[("orders", &["id"]), ("orders", &["customer_id", "id"]), ("orders", &["status", "id"]), ("orders", &["customer_id", "status", "id"])]));

    let count = |s: &str| s.matches("es_query").count();
    let off_count = count(&off);
    let on_count = count(&on);

    // An index-backed catalog specializes all 2^2 = 4 filter combos (no
    // COALESCE); an empty catalog collapses to a single catch-all COALESCE
    // query.
    assert!(
        on_count > off_count,
        "indexed catalog should emit more dedicated queries: on={on_count} off={off_count}"
    );
    assert!(
        off.contains("COALESCE"),
        "empty catalog must emit the catch-all COALESCE query"
    );
    assert!(
        !on.contains("COALESCE"),
        "fully-indexed catalog should not need the COALESCE fallback"
    );
}

#[test]
fn virtual_filter_column_generates_option_bool_field_and_none_checks() {
    let entity = "Task".to_string();
    let query_error = "TaskQueryError".to_string();
    let id = "TaskId".to_string();
    let cursor_mod = "cursor_mod".to_string();

    let id_column = Column::for_id("TaskId");
    let id_ident = "id".to_string();
    let status_column = Column::new_list_for(
        "status".to_string(),
        ty("String"),
        vec![id_ident],
    );
    let flagged_column = Column::new_virtual(
        "flagged".to_string(),
        "EXISTS (SELECT 1 FROM task_flags f WHERE f.task_id = tasks.id)",
    );

    let for_columns = vec![&status_column];
    let virtual_columns = vec![&flagged_column];
    let by_columns = vec![&id_column];
    let combo_cursor = ComboCursor::new(&entity);

    let list_for_filters_fn = ListForFiltersFn {
        in_op_only: false,
        filters_struct: filters_with_virtual(&entity, for_columns.clone(), virtual_columns.clone()),
        entity: &entity,
        query_error,
        for_columns,
        virtual_columns,
        by_columns,
        cursor: &combo_cursor,
        delete: DeleteOption::No,
        cursor_mod: cursor_mod.clone(),
        table_name: "tasks",
        ignore_prefix: None,
        id: &id,
        post_hydrate_error: None,
        forgettable_table_name: None,
        snapshot_table_name: None,
        scope: None,
        index_catalog: IndexCatalog::empty(),
        repo_name_snake: None,
    };

    let mut struct_tokens = String::new();
    list_for_filters_fn
        .filters_struct
        .to_tokens(&mut struct_tokens);
    let struct_str = norm(&struct_tokens);

    // The filters struct carries the virtual column as `Option<bool>`,
    // after the physical fields.
    assert!(
        struct_str.contains("pub status : Option < String > , pub flagged : Option < bool > ,"),
        "unexpected filters struct fields:\n{struct_str}"
    );

    let mut tokens = String::new();
    list_for_filters_fn.to_tokens(&mut tokens);
    let token_str = norm(&tokens);

    // The "no filters at all" proxy check requires the virtual field to
    // be absent too.
    assert!(
        token_str.contains("filters . status . is_none () && filters . flagged . is_none ()"),
        "expected the virtual column in the all-none dispatch check:\n{token_str}"
    );
    // `status` alone has a dedicated `list_for_status_by_id` fn, but a
    // virtual `Some` must never take that shortcut.
    assert!(
        token_str.contains("filters . flagged . is_none ()"),
        "expected a virtual none-check gating the single-column shortcut:\n{token_str}"
    );

    // With no index catalog, the unified fallback query carries the
    // predicate as an unparameterized static conjunct.
    assert!(
        token_str
            .contains("AND (EXISTS (SELECT 1 FROM task_flags f WHERE f.task_id = tasks.id))"),
        "expected the virtual predicate as a static AND conjunct:\n{token_str}"
    );
    // It binds no query parameter of its own - every bind in the
    // fallback query is still `filter_status` (the only physical
    // for_column) or a cursor argument.
    assert!(
        !token_str.contains("flagged as"),
        "the virtual predicate must not bind a query parameter:\n{token_str}"
    );
}

#[test]
fn virtual_filter_column_bool_only_output_is_byte_identical_to_pre_value_virtual_baseline() {
    let entity = "Task".to_string();
    let query_error = "TaskQueryError".to_string();
    let id = "TaskId".to_string();
    let cursor_mod = "cursor_mod".to_string();

    let id_column = Column::for_id("TaskId");
    let id_ident = "id".to_string();
    let status_column = Column::new_list_for(
        "status".to_string(),
        ty("String"),
        vec![id_ident],
    );
    let flagged_column = Column::new_virtual(
        "flagged".to_string(),
        "EXISTS (SELECT 1 FROM task_flags f WHERE f.task_id = tasks.id)",
    );

    let for_columns = vec![&status_column];
    let virtual_columns = vec![&flagged_column];
    let by_columns = vec![&id_column];
    let combo_cursor = ComboCursor::new(&entity);

    let list_for_filters_fn = ListForFiltersFn {
        in_op_only: false,
        filters_struct: filters_with_virtual(&entity, for_columns.clone(), virtual_columns.clone()),
        entity: &entity,
        query_error,
        for_columns,
        virtual_columns,
        by_columns,
        cursor: &combo_cursor,
        delete: DeleteOption::No,
        cursor_mod: cursor_mod.clone(),
        table_name: "tasks",
        ignore_prefix: None,
        id: &id,
        post_hydrate_error: None,
        forgettable_table_name: None,
        snapshot_table_name: None,
        scope: None,
        index_catalog: IndexCatalog::empty(),
        repo_name_snake: None,
    };

    let mut tokens = String::new();
    list_for_filters_fn.to_tokens(&mut tokens);
    let token_str = norm(&tokens);

    let expected = r#"pub async fn list_for_filters_by_id (& self , filters : TaskFilters , cursor : es_entity :: PaginatedQueryArgs < cursor_mod :: TaskByIdCursor > , direction : es_entity :: ListDirection ,) -> Result < es_entity :: PaginatedQueryRet < Task , cursor_mod :: TaskByIdCursor > , TaskQueryError > { self . list_for_filters_by_id_in_op (self . pool () , filters , cursor , direction) . await } pub async fn list_for_filters_by_id_in_op < 'a , OP > (& self , op : OP , filters : TaskFilters , cursor : es_entity :: PaginatedQueryArgs < cursor_mod :: TaskByIdCursor > , direction : es_entity :: ListDirection ,) -> Result < es_entity :: PaginatedQueryRet < Task , cursor_mod :: TaskByIdCursor > , TaskQueryError > where OP : es_entity :: IntoOneTimeExecutor < 'a > { let __result : Result < es_entity :: PaginatedQueryRet < Task , cursor_mod :: TaskByIdCursor > , TaskQueryError > = async { let filter_status = filters . status ; let virtual_flagged = filters . flagged ; let es_entity :: PaginatedQueryArgs { first , after } = cursor ; let id = if let Some (after) = after { Some (after . id) } else { None } ; let (entities , has_next_page) = match direction { es_entity :: ListDirection :: Ascending => match (filter_status . is_some () , virtual_flagged ,) { (.. , None ,) => es_entity :: es_query ! (entity = Task , "(SELECT id FROM tasks WHERE COALESCE(status = $1, $1 IS NULL) AND (id > $3) AND ($3 IS NOT NULL) ORDER BY id ASC LIMIT $2) UNION ALL (SELECT id FROM tasks WHERE COALESCE(status = $1, $1 IS NULL) AND ($3 IS NULL) ORDER BY id ASC LIMIT $2) ORDER BY id ASC LIMIT $2" , filter_status as Option < String > , (first + 1) as i64 , id as Option < TaskId > ,) . fetch_n (op , first) . await ? , (.. , Some (true) ,) => es_entity :: es_query ! (entity = Task , "(SELECT id FROM tasks WHERE COALESCE(status = $1, $1 IS NULL) AND (id > $3) AND ($3 IS NOT NULL) AND (EXISTS (SELECT 1 FROM task_flags f WHERE f.task_id = tasks.id)) ORDER BY id ASC LIMIT $2) UNION ALL (SELECT id FROM tasks WHERE COALESCE(status = $1, $1 IS NULL) AND ($3 IS NULL) AND (EXISTS (SELECT 1 FROM task_flags f WHERE f.task_id = tasks.id)) ORDER BY id ASC LIMIT $2) ORDER BY id ASC LIMIT $2" , filter_status as Option < String > , (first + 1) as i64 , id as Option < TaskId > ,) . fetch_n (op , first) . await ? , (.. , Some (false) ,) => es_entity :: es_query ! (entity = Task , "(SELECT id FROM tasks WHERE COALESCE(status = $1, $1 IS NULL) AND (id > $3) AND ($3 IS NOT NULL) AND NOT (EXISTS (SELECT 1 FROM task_flags f WHERE f.task_id = tasks.id)) ORDER BY id ASC LIMIT $2) UNION ALL (SELECT id FROM tasks WHERE COALESCE(status = $1, $1 IS NULL) AND ($3 IS NULL) AND NOT (EXISTS (SELECT 1 FROM task_flags f WHERE f.task_id = tasks.id)) ORDER BY id ASC LIMIT $2) ORDER BY id ASC LIMIT $2" , filter_status as Option < String > , (first + 1) as i64 , id as Option < TaskId > ,) . fetch_n (op , first) . await ? , } , es_entity :: ListDirection :: Descending => match (filter_status . is_some () , virtual_flagged ,) { (.. , None ,) => es_entity :: es_query ! (entity = Task , "(SELECT id FROM tasks WHERE COALESCE(status = $1, $1 IS NULL) AND (id < $3) AND ($3 IS NOT NULL) ORDER BY id DESC LIMIT $2) UNION ALL (SELECT id FROM tasks WHERE COALESCE(status = $1, $1 IS NULL) AND ($3 IS NULL) ORDER BY id DESC LIMIT $2) ORDER BY id DESC LIMIT $2" , filter_status as Option < String > , (first + 1) as i64 , id as Option < TaskId > ,) . fetch_n (op , first) . await ? , (.. , Some (true) ,) => es_entity :: es_query ! (entity = Task , "(SELECT id FROM tasks WHERE COALESCE(status = $1, $1 IS NULL) AND (id < $3) AND ($3 IS NOT NULL) AND (EXISTS (SELECT 1 FROM task_flags f WHERE f.task_id = tasks.id)) ORDER BY id DESC LIMIT $2) UNION ALL (SELECT id FROM tasks WHERE COALESCE(status = $1, $1 IS NULL) AND ($3 IS NULL) AND (EXISTS (SELECT 1 FROM task_flags f WHERE f.task_id = tasks.id)) ORDER BY id DESC LIMIT $2) ORDER BY id DESC LIMIT $2" , filter_status as Option < String > , (first + 1) as i64 , id as Option < TaskId > ,) . fetch_n (op , first) . await ? , (.. , Some (false) ,) => es_entity :: es_query ! (entity = Task , "(SELECT id FROM tasks WHERE COALESCE(status = $1, $1 IS NULL) AND (id < $3) AND ($3 IS NOT NULL) AND NOT (EXISTS (SELECT 1 FROM task_flags f WHERE f.task_id = tasks.id)) ORDER BY id DESC LIMIT $2) UNION ALL (SELECT id FROM tasks WHERE COALESCE(status = $1, $1 IS NULL) AND ($3 IS NULL) AND NOT (EXISTS (SELECT 1 FROM task_flags f WHERE f.task_id = tasks.id)) ORDER BY id DESC LIMIT $2) ORDER BY id DESC LIMIT $2" , filter_status as Option < String > , (first + 1) as i64 , id as Option < TaskId > ,) . fetch_n (op , first) . await ? , } } ; let end_cursor = entities . last () . map (cursor_mod :: TaskByIdCursor :: from) ; Ok (es_entity :: PaginatedQueryRet :: new (entities , has_next_page , end_cursor , first)) } . await ; __result } pub async fn list_for_filters (& self , filters : TaskFilters , sort : es_entity :: Sort < TaskSortBy > , cursor : es_entity :: PaginatedQueryArgs < cursor_mod :: TaskCursor > ,) -> Result < es_entity :: PaginatedQueryRet < Task , cursor_mod :: TaskCursor > , TaskQueryError > { self . list_for_filters_in_op (self . pool () , filters , sort , cursor) . await } pub async fn list_for_filters_in_op < 'a , OP > (& self , op : OP , filters : TaskFilters , sort : es_entity :: Sort < TaskSortBy > , cursor : es_entity :: PaginatedQueryArgs < cursor_mod :: TaskCursor > ,) -> Result < es_entity :: PaginatedQueryRet < Task , cursor_mod :: TaskCursor > , TaskQueryError > where OP : es_entity :: IntoOneTimeExecutor < 'a > { let __result : Result < es_entity :: PaginatedQueryRet < Task , cursor_mod :: TaskCursor > , TaskQueryError > = async { let es_entity :: Sort { by , direction } = sort ; let es_entity :: PaginatedQueryArgs { first , after } = cursor ; use cursor_mod :: TaskCursor ; let res = match by { TaskSortBy :: Id => { let after = after . map (cursor_mod :: TaskByIdCursor :: try_from) . transpose () ? ; let query = es_entity :: PaginatedQueryArgs { first , after } ; if filters . status . is_none () && filters . flagged . is_none () { self . list_by_id_in_op (op , query , direction) . await ? } else if filters . flagged . is_none () { self . list_for_status_by_id_in_op (op , filters . status . unwrap () , query , direction) . await ? } else { self . list_for_filters_by_id_in_op (op , filters , query , direction) . await ? } . map_end_cursor (cursor_mod :: TaskCursor :: from) } } ; Ok (res) } . await ; __result }"#;

    assert_eq!(
        token_str,
        norm(expected),
        "bool-only virtual codegen changed"
    );
}

#[test]
fn mixed_physical_bool_virtual_and_value_virtual_columns_compose() {
    let entity = "Order".to_string();
    let query_error = "OrderQueryError".to_string();
    let id = "OrderId".to_string();
    let cursor_mod = "cursor_mod".to_string();

    let id_column = Column::for_id("OrderId");
    let id_ident = "id".to_string();
    let status_column = Column::new_list_for(
        "status".to_string(),
        ty("String"),
        vec![id_ident],
    );
    let flagged_column = Column::new_virtual(
        "flagged".to_string(),
        "EXISTS (SELECT 1 FROM order_flags o WHERE o.order_id = orders.id)",
    );
    let min_flags_column = Column::new_virtual_value(
        "min_flags".to_string(),
        ty("i64"),
        "(SELECT COUNT(*) FROM order_flags o WHERE o.order_id = orders.id) >= {value}",
    );

    let for_columns = vec![&status_column];
    let virtual_columns = vec![&flagged_column, &min_flags_column];
    let by_columns = vec![&id_column];
    let combo_cursor = ComboCursor::new(&entity);

    let list_for_filters_fn = ListForFiltersFn {
        in_op_only: false,
        filters_struct: filters_with_virtual(&entity, for_columns.clone(), virtual_columns.clone()),
        entity: &entity,
        query_error,
        for_columns,
        virtual_columns,
        by_columns,
        cursor: &combo_cursor,
        delete: DeleteOption::No,
        cursor_mod: cursor_mod.clone(),
        table_name: "orders",
        ignore_prefix: None,
        id: &id,
        post_hydrate_error: None,
        forgettable_table_name: None,
        snapshot_table_name: None,
        scope: None,
        index_catalog: IndexCatalog::empty(),
        repo_name_snake: None,
    };

    let mut struct_tokens = String::new();
    list_for_filters_fn
        .filters_struct
        .to_tokens(&mut struct_tokens);
    let struct_str = norm(&struct_tokens);
    assert!(
        struct_str.contains(
            "pub status : Option < String > , pub flagged : Option < bool > , pub min_flags : Option < i64 > ,"
        ),
        "unexpected filters struct fields:\n{struct_str}"
    );

    let mut tokens = String::new();
    list_for_filters_fn.to_tokens(&mut tokens);
    let token_str = norm(&tokens);

    // No index catalog: every combo falls back to the COALESCE query,
    // with the physical filter bound at $1 (the sole physical for_column
    // is non-optional, so it consumes exactly one param).
    //
    // The bool virtual's `True` state contributes an unparameterized
    // `(EXISTS (...))` conjunct; the value virtual's `Present` state
    // contributes its substituted predicate with `{value}` rewritten to
    // `$2` (the next param after the physical filter's `$1`) - both in
    // the same query, proving the two virtual dimensions compose.
    assert!(
        token_str.contains(
            "AND (EXISTS (SELECT 1 FROM order_flags o WHERE o.order_id = orders.id)) AND ((SELECT COUNT(*) FROM order_flags o WHERE o.order_id = orders.id) >= $2)"
        ),
        "expected both virtual conjuncts (bool + value) in the same fallback query:\n{token_str}"
    );

    // The value virtual's bound arg (`filter_min_flags`) follows the
    // physical arg (`filter_status`) and precedes the limit arg - the
    // allocation order `substitute_value_placeholder` and
    // `build_fallback` are documented to produce.
    assert!(
        token_str.contains(
            "filter_status as Option < String > , filter_min_flags as Option < i64 > , (first + 1) as i64"
        ),
        "expected filter_min_flags bound after the physical arg and before the limit arg:\n{token_str}"
    );
}

#[test]
fn virtual_only_filter_column_still_dispatches_through_list_for_filters() {
    let entity = "Task".to_string();
    let query_error = "TaskQueryError".to_string();
    let id = "TaskId".to_string();
    let cursor_mod = "cursor_mod".to_string();

    let id_column = Column::for_id("TaskId");
    let flagged_column = Column::new_virtual(
        "flagged".to_string(),
        "EXISTS (SELECT 1 FROM task_flags f WHERE f.task_id = tasks.id)",
    );

    let for_columns: Vec<&Column> = vec![];
    let virtual_columns = vec![&flagged_column];
    let by_columns = vec![&id_column];
    let combo_cursor = ComboCursor::new(&entity);

    let list_for_filters_fn = ListForFiltersFn {
        in_op_only: false,
        filters_struct: filters_with_virtual(&entity, for_columns.clone(), virtual_columns.clone()),
        entity: &entity,
        query_error,
        for_columns,
        virtual_columns,
        by_columns,
        cursor: &combo_cursor,
        delete: DeleteOption::No,
        cursor_mod: cursor_mod.clone(),
        table_name: "tasks",
        ignore_prefix: None,
        id: &id,
        post_hydrate_error: None,
        forgettable_table_name: None,
        snapshot_table_name: None,
        scope: None,
        index_catalog: IndexCatalog::empty(),
        repo_name_snake: None,
    };

    let mut struct_tokens = String::new();
    list_for_filters_fn
        .filters_struct
        .to_tokens(&mut struct_tokens);
    let struct_str = norm(&struct_tokens);
    assert!(struct_str.contains("pub struct TaskFilters"));
    assert!(struct_str.contains("pub flagged : Option < bool > ,"));

    let mut tokens = String::new();
    list_for_filters_fn.to_tokens(&mut tokens);
    let token_str = norm(&tokens);
    // The proxy must check the virtual filter before falling back to
    // plain `list_by`, and route to `list_for_filters_by_id` (never a
    // per-column fn - none exists for a virtual column) when it's set.
    assert!(
        token_str.contains(
            "if filters . flagged . is_none () { self . list_by_id_in_op (op , query , direction) . await ? }"
        ),
        "unexpected proxy body:\n{token_str}"
    );
    assert!(
        token_str.contains(
            "self . list_for_filters_by_id_in_op (op , filters , query , direction) . await ?"
        ),
        "expected the virtual-only case to fall back to the unified filters fn:\n{token_str}"
    );
    assert!(
        token_str
            .contains("AND (EXISTS (SELECT 1 FROM task_flags f WHERE f.task_id = tasks.id))"),
        "expected the virtual predicate in the fallback query:\n{token_str}"
    );
}

#[test]
fn a_value_is_one_parameter_whatever_its_type() {
    let entity = "Task".to_string();
    let id = "TaskId".to_string();
    let id_column = Column::for_id("TaskId");
    let since = Column::new_virtual_value(
        "since".to_string(),
        ty("Option<i64>"),
        "age >= {value}",
    );
    let cursor = ComboCursor::new(&entity);
    let list = ListForFiltersFn {
        in_op_only: true,
        filters_struct: filters_with_virtual(&entity, Vec::new(), vec![&since]),
        entity: &entity,
        query_error: "TaskQueryError".to_string(),
        for_columns: Vec::new(),
        virtual_columns: vec![&since],
        by_columns: vec![&id_column],
        cursor: &cursor,
        delete: DeleteOption::No,
        cursor_mod: "cursor_mod".to_string(),
        table_name: "tasks",
        ignore_prefix: None,
        id: &id,
        post_hydrate_error: None,
        forgettable_table_name: None,
        snapshot_table_name: None,
        scope: None,
        index_catalog: IndexCatalog::empty(),
        repo_name_snake: None,
    };
    let mut tokens = String::new();
    list.to_tokens(&mut tokens);
    let code = norm(&tokens);
    assert!(code.contains("(age >= $1)"), "{code}");
    assert!(code.contains("LIMIT $2"), "{code}");
    assert!(
        code.contains("filter_since as Option < Option < i64 > > , (first + 1) as i64"),
        "{code}"
    );
    assert!(!code.contains("apply_since"), "{code}");
    assert!(code.contains("map_next_cursor"), "{code}");
}
