use es_entity_repo::combo_cursor::ComboCursor;
use es_entity_repo::find_many::{FindManyFn, ManyFilter};
use es_entity_repo::list_for_filter_fn::{Filter, ListForFilterFn};
use es_entity_repo::list_for_fn::ListForFn;
use es_entity_repo::options::column::Column;
use es_entity_repo::options::delete::DeleteOption;
use es_entity_repo::types::TypeExpr;
use proc_macro2::{Group, Punct, Spacing, TokenStream};

const OPERATORS: [&str; 16] = [
    "..=", "...", "::", "->", "=>", "&&", "||", "==", "!=", "<=", ">=", "..", "+=", "-=", "*=",
    "/=",
];

fn push_puncts(run: &str, out: &mut Vec<proc_macro2::TokenTree>) {
    let mut rest = run;
    while let Some(first) = rest.chars().next() {
        let operator = OPERATORS.iter().find(|operator| rest.starts_with(**operator));
        let text = operator.map_or(&rest[..first.len_utf8()], |operator| *operator);
        for (i, c) in text.char_indices() {
            let joint = i + 1 < text.len() || c == '\'';
            let spacing = if joint { Spacing::Joint } else { Spacing::Alone };
            out.push(proc_macro2::TokenTree::Punct(Punct::new(c, spacing)));
        }
        rest = &rest[text.len()..];
    }
}

fn spaced(tokens: TokenStream) -> TokenStream {
    let mut out = Vec::new();
    let mut run = String::new();
    for tree in tokens {
        match tree {
            proc_macro2::TokenTree::Punct(punct) => {
                run.push(punct.as_char());
                if punct.spacing() == Spacing::Alone {
                    push_puncts(&run, &mut out);
                    run.clear();
                }
            }
            proc_macro2::TokenTree::Group(group) => {
                out.push(proc_macro2::TokenTree::Group(Group::new(group.delimiter(), spaced(group.stream()))))
            }
            other => {
                push_puncts(&run, &mut out);
                run.clear();
                out.push(other);
            }
        }
    }
    push_puncts(&run, &mut out);
    out.into_iter().collect()
}

fn norm(code: &str) -> String {
    spaced(code.parse().expect("code is made of tokens")).to_string()
}

fn ty(text: &str) -> TypeExpr {
    TypeExpr::parse(text).expect("a type")
}

fn list_for<'a>(
    for_column: &'a Column,
    by_column: &'a Column,
    entity: &'a str,
    id: &'a str,
    table_name: &'a str,
    query_error: &str,
    cursor_mod: String,
) -> ListForFn<'a> {
    ListForFn {
        ignore_prefix: None,
        for_column,
        by_column,
        entity,
        id,
        table_name,
        query_error: query_error.to_string(),
        delete: DeleteOption::No,
        cursor_mod,
        any_nested: false,
        post_hydrate_error: None,
        forgettable_table_name: None,
        scope: None,
        repo_name_snake: None,
    }
}

#[test]
fn many_filter_enum() {
    let customer_id_column = Column::new(
        "customer_id".to_string(),
        ty("CustomerId"),
    );
    let status_column = Column::new(
        "status".to_string(),
        ty("OrderStatus"),
    );
    let filter = ManyFilter {
        columns: vec![&customer_id_column, &status_column],
        plural: "Orders".to_string(),
    };

    let mut tokens = String::new();
    filter.to_tokens(&mut tokens);

    let expected = r##"
        #[derive(Debug)]
        #[allow(clippy::enum_variant_names)]
        pub enum FindManyOrders {
            NoFilter,
            WithCustomerId(CustomerId),
            WithStatus(OrderStatus),
        }
    "##;

    assert_eq!(norm(&tokens), norm(expected));
}

#[test]
fn find_many_function_generation() {
    let entity = "Order".to_string();
    let error = "es_entity::EsRepoError".to_string();
    let id = "OrderId".to_string();
    let cursor_mod = "cursor_mod".to_string();
    let id_column = Column::for_id("OrderId");
    let customer_id_column = Column::new(
        "customer_id".to_string(),
        ty("CustomerId"),
    );
    let status_column = Column::new(
        "status".to_string(),
        ty("OrderStatus"),
    );
    let filter = ManyFilter {
        columns: vec![&customer_id_column, &status_column],
        plural: "Orders".to_string(),
    };
    let list_for_customer_id_by_id = list_for(
        &customer_id_column,
        &id_column,
        &entity,
        &id,
        "orders",
        &error,
        cursor_mod.clone(),
    );

    let list_for_status_by_id = list_for(
        &status_column,
        &id_column,
        &entity,
        &id,
        "orders",
        &error,
        cursor_mod.clone(),
    );

    let list_for_fns = vec![list_for_customer_id_by_id, list_for_status_by_id];
    let by_columns = vec![&id_column, &customer_id_column, &status_column];
    let combo_cursor =
        ComboCursor::new("Orders");

    let find_many_fn = FindManyFn {
        filter,
        entity: &entity,
        error: error.clone(),
        list_for_fns: &list_for_fns,
        by_columns,
        cursor: &combo_cursor,
        delete: DeleteOption::No,
        cursor_mod: cursor_mod.clone(),
    };

    let mut tokens = String::new();
    find_many_fn.to_tokens(&mut tokens);

    let expected = r##"
        pub async fn find_many(
            &self,
            filter: FindManyOrders,
            sort: es_entity::Sort<OrdersSortBy>,
            cursor: es_entity::PaginatedQueryArgs<cursor_mod::OrdersCursor>,
        ) -> Result<es_entity::PaginatedQueryRet<Order, cursor_mod::OrdersCursor>, es_entity::EsRepoError>
            where es_entity::EsRepoError: From<es_entity::CursorDestructureError>
        {
            let es_entity::Sort { by, direction } = sort;
            let es_entity::PaginatedQueryArgs { first, after } = cursor;

            use cursor_mod::OrdersCursor;
            let res = match (filter, by) {
                (FindManyOrders::WithCustomerId(filter_value), OrdersSortBy::Id) => {
                    let after = after.map(cursor_mod::OrdersByIdCursor::try_from).transpose()?;
                    let query = es_entity::PaginatedQueryArgs { first, after };

                    let es_entity::PaginatedQueryRet {
                        entities,
                        has_next_page,
                        end_cursor,
                    } = self.list_for_customer_id_by_id(filter_value, query, direction).await?;
                    es_entity::PaginatedQueryRet {
                        entities,
                        has_next_page,
                        end_cursor: end_cursor.map(cursor_mod::OrdersCursor::from)
                    }
                }
                (FindManyOrders::WithStatus(filter_value), OrdersSortBy::Id) => {
                    let after = after.map(cursor_mod::OrdersByIdCursor::try_from).transpose()?;
                    let query = es_entity::PaginatedQueryArgs { first, after };

                    let es_entity::PaginatedQueryRet {
                        entities,
                        has_next_page,
                        end_cursor,
                    } = self.list_for_status_by_id(filter_value, query, direction).await?;
                    es_entity::PaginatedQueryRet {
                        entities,
                        has_next_page,
                        end_cursor: end_cursor.map(cursor_mod::OrdersCursor::from)
                    }
                }
                (FindManyOrders::NoFilter, OrdersSortBy::Id) => {
                    let after = after.map(cursor_mod::OrdersByIdCursor::try_from).transpose()?;
                    let query = es_entity::PaginatedQueryArgs { first, after };

                    let es_entity::PaginatedQueryRet {
                        entities,
                        has_next_page,
                        end_cursor,
                    } = self.list_by_id(query, direction).await?;
                    es_entity::PaginatedQueryRet {
                        entities,
                        has_next_page,
                        end_cursor: end_cursor.map(cursor_mod::OrdersCursor::from)
                    }
                }
                (FindManyOrders::NoFilter, OrdersSortBy::CustomerId) => {
                    let after = after.map(cursor_mod::OrdersByCustomerIdCursor::try_from).transpose()?;
                    let query = es_entity::PaginatedQueryArgs { first, after };

                    let es_entity::PaginatedQueryRet {
                        entities,
                        has_next_page,
                        end_cursor,
                    } = self.list_by_customer_id(query, direction).await?;
                    es_entity::PaginatedQueryRet {
                        entities,
                        has_next_page,
                        end_cursor: end_cursor.map(cursor_mod::OrdersCursor::from)
                    }
                }
                (FindManyOrders::NoFilter, OrdersSortBy::Status) => {
                    let after = after.map(cursor_mod::OrdersByStatusCursor::try_from).transpose()?;
                    let query = es_entity::PaginatedQueryArgs { first, after };

                    let es_entity::PaginatedQueryRet {
                        entities,
                        has_next_page,
                        end_cursor,
                    } = self.list_by_status(query, direction).await?;
                    es_entity::PaginatedQueryRet {
                        entities,
                        has_next_page,
                        end_cursor: end_cursor.map(cursor_mod::OrdersCursor::from)
                    }
                }
            };

            Ok(res)
        }
    "##;

    assert_eq!(norm(&tokens), norm(expected));
}

#[test]
fn filter_enum() {
    let customer_id_column = Column::new(
        "customer_id".to_string(),
        ty("CustomerId"),
    );
    let status_column = Column::new(
        "status".to_string(),
        ty("OrderStatus"),
    );
    let filter = Filter {
        columns: vec![&customer_id_column, &status_column],
        plural: "Orders".to_string(),
    };

    let mut tokens = String::new();
    filter.to_tokens(&mut tokens);
    let expected = r##"
        #[derive(Debug)]
        #[allow(clippy::enum_variant_names)]
        pub enum OrdersFilter {
            NoFilter,
            WithCustomerId(CustomerId),
            WithStatus(OrderStatus),
        }
    "##;

    assert_eq!(norm(&tokens), norm(expected));
}

#[test]
fn list_for_filter_function_generation() {
    let entity = "Order".to_string();
    let error = "es_entity::EsRepoError".to_string();
    let id = "OrderId".to_string();
    let cursor_mod = "cursor_mod".to_string();
    let id_column = Column::for_id("OrderId");
    let customer_id_column = Column::new(
        "customer_id".to_string(),
        ty("CustomerId"),
    );
    let status_column = Column::new(
        "status".to_string(),
        ty("OrderStatus"),
    );

    let filter = Filter {
        columns: vec![&customer_id_column, &status_column],
        plural: "Orders".to_string(),
    };

    let list_for_customer_id_by_id = list_for(
        &customer_id_column,
        &id_column,
        &entity,
        &id,
        "orders",
        &error,
        cursor_mod.clone(),
    );

    let list_for_status_by_id = list_for(
        &status_column,
        &id_column,
        &entity,
        &id,
        "orders",
        &error,
        cursor_mod.clone(),
    );

    let list_for_fns = vec![list_for_customer_id_by_id, list_for_status_by_id];
    let by_columns = vec![&id_column, &customer_id_column, &status_column];

    let combo_cursor =
        ComboCursor::new("Orders");

    let list_for_filter_fn = ListForFilterFn {
        filter,
        entity: &entity,
        error: error.clone(),
        list_for_fns: &list_for_fns,
        by_columns,
        cursor: &combo_cursor,
        delete: DeleteOption::No,
        cursor_mod: cursor_mod.clone(),
        repo_name_snake: None,
    };

    let mut tokens = String::new();
    list_for_filter_fn.to_tokens(&mut tokens);

    let expected = r##"
        pub async fn list_for_filter(
            &self,
            filter: OrdersFilter,
            sort: es_entity::Sort<OrdersSortBy>,
            cursor: es_entity::PaginatedQueryArgs<cursor_mod::OrdersCursor>,
        ) -> Result<es_entity::PaginatedQueryRet<Order, cursor_mod::OrdersCursor>, es_entity::EsRepoError>
            where es_entity::EsRepoError: From<es_entity::CursorDestructureError>
        {
            let es_entity::Sort { by, direction } = sort;
            let es_entity::PaginatedQueryArgs { first, after } = cursor;

            use cursor_mod::OrdersCursor;
            let res = match (filter, by) {
                (OrdersFilter::WithCustomerId(filter_value), OrdersSortBy::Id) => {
                    let after = after.map(cursor_mod::OrdersByIdCursor::try_from).transpose()?;
                    let query = es_entity::PaginatedQueryArgs { first, after };

                    let es_entity::PaginatedQueryRet {
                        entities,
                        has_next_page,
                        end_cursor,
                    } = self.list_for_customer_id_by_id(filter_value, query, direction).await?;
                    es_entity::PaginatedQueryRet {
                        entities,
                        has_next_page,
                        end_cursor: end_cursor.map(cursor_mod::OrdersCursor::from)
                    }
                }
                (OrdersFilter::WithStatus(filter_value), OrdersSortBy::Id) => {
                    let after = after.map(cursor_mod::OrdersByIdCursor::try_from).transpose()?;
                    let query = es_entity::PaginatedQueryArgs { first, after };

                    let es_entity::PaginatedQueryRet {
                        entities,
                        has_next_page,
                        end_cursor,
                    } = self.list_for_status_by_id(filter_value, query, direction).await?;
                    es_entity::PaginatedQueryRet {
                        entities,
                        has_next_page,
                        end_cursor: end_cursor.map(cursor_mod::OrdersCursor::from)
                    }
                }
                (OrdersFilter::NoFilter, OrdersSortBy::Id) => {
                    let after = after.map(cursor_mod::OrdersByIdCursor::try_from).transpose()?;
                    let query = es_entity::PaginatedQueryArgs { first, after };

                    let es_entity::PaginatedQueryRet {
                        entities,
                        has_next_page,
                        end_cursor,
                    } = self.list_by_id(query, direction).await?;
                    es_entity::PaginatedQueryRet {
                        entities,
                        has_next_page,
                        end_cursor: end_cursor.map(cursor_mod::OrdersCursor::from)
                    }
                }
                (OrdersFilter::NoFilter, OrdersSortBy::CustomerId) => {
                    let after = after.map(cursor_mod::OrdersByCustomerIdCursor::try_from).transpose()?;
                    let query = es_entity::PaginatedQueryArgs { first, after };

                    let es_entity::PaginatedQueryRet {
                        entities,
                        has_next_page,
                        end_cursor,
                    } = self.list_by_customer_id(query, direction).await?;
                    es_entity::PaginatedQueryRet {
                        entities,
                        has_next_page,
                        end_cursor: end_cursor.map(cursor_mod::OrdersCursor::from)
                    }
                }
                (OrdersFilter::NoFilter, OrdersSortBy::Status) => {
                    let after = after.map(cursor_mod::OrdersByStatusCursor::try_from).transpose()?;
                    let query = es_entity::PaginatedQueryArgs { first, after };

                    let es_entity::PaginatedQueryRet {
                        entities,
                        has_next_page,
                        end_cursor,
                    } = self.list_by_status(query, direction).await?;
                    es_entity::PaginatedQueryRet {
                        entities,
                        has_next_page,
                        end_cursor: end_cursor.map(cursor_mod::OrdersCursor::from)
                    }
                }
            };

            Ok(res)
        }
    "##;

    assert_eq!(norm(&tokens), norm(expected));
}
