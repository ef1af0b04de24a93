use es_entity_repo::create_all_fn::CreateAllFn;
use es_entity_repo::create_fn::CreateFn;
use es_entity_repo::delete_fn::DeleteFn;
use es_entity_repo::options::column::{Accessor, Column, CreateOpts};
use es_entity_repo::options::columns::Columns;
use es_entity_repo::options::delete::DeleteOption;
use es_entity_repo::options::repository::{PostHydrateHookConfig, PostPersistHookConfig};
use es_entity_repo::post_hydrate_hook::PostHydrateHook;
use es_entity_repo::post_persist_hook::PostPersistHook;
use es_entity_repo::types::TypeExpr;
use proc_macro2::{Group, Punct, Spacing, TokenStream};

const OPERATORS: [&str; 16] = [
    "..=", "...", "::", "->", "=>", "&&", "||", "==", "!=", "<=", ">=", "..", "+=", "-=", "*=",
    "/=",
];

fn push_puncts(run: &str, out: &mut Vec<proc_macro2::TokenTree>) {
    let mut rest = run;
    while let Some(first) = rest.chars().next() {
        let operator = OPERATORS.iter().find(|operator| rest.starts_with(**operator));
        let text = operator.map_or(&rest[..first.len_utf8()], |operator| *operator);
        for (i, c) in text.char_indices() {
            let joint = i + 1 < text.len() || c == '\'';
            let spacing = if joint { Spacing::Joint } else { Spacing::Alone };
            out.push(proc_macro2::TokenTree::Punct(Punct::new(c, spacing)));
        }
        rest = &rest[text.len()..];
    }
}

fn spaced(tokens: TokenStream) -> TokenStream {
    let mut out = Vec::new();
    let mut run = String::new();
    for tree in tokens {
        match tree {
            proc_macro2::TokenTree::Punct(punct) => {
                run.push(punct.as_char());
                if punct.spacing() == Spacing::Alone {
                    push_puncts(&run, &mut out);
                    run.clear();
                }
            }
            proc_macro2::TokenTree::Group(group) => {
                out.push(proc_macro2::TokenTree::Group(Group::new(group.delimiter(), spaced(group.stream()))))
            }
            other => {
                push_puncts(&run, &mut out);
                run.clear();
                out.push(other);
            }
        }
    }
    push_puncts(&run, &mut out);
    out.into_iter().collect()
}

fn norm(code: &str) -> String {
    spaced(code.parse().expect("code is made of tokens")).to_string()
}

#[test]
fn create_fn() {
    let mut columns = Columns::empty();
    columns.set_id_column("EntityId");

    let create_fn = CreateFn {
        table_name: "entities",
        entity: "Entity",
        id: "EntityId",
        event: "EntityEvent",
        events_table_name: "entity_events",
        event_ctx: false,
        forgettable_table_name: None,
        create_error: "EntityCreateError".to_string(),
        columns: &columns,
        nested_fn_names: Vec::new(),
        post_hydrate_error: None,
        post_persist_error: None,
        repo_name_snake: None,
    };

    let mut tokens = String::new();
    create_fn.to_tokens(&mut tokens);

    let expected = r##"
            #[inline(always)]
            fn convert_new<Entity, Event>(item: Entity) -> es_entity::EntityEvents<Event>
            where
                Entity: es_entity::IntoEvents<Event>,
                Event: es_entity::EsEvent,
            {
                item.into_events()
            }

            #[inline(always)]
            fn hydrate_entity<Entity, Event>(events: es_entity::EntityEvents<Event>) -> Result<Entity, es_entity::EntityHydrationError>
            where
                Entity: es_entity::TryFromEvents<Event>,
                Event: es_entity::EsEvent,
            {
                Entity::try_from_events(events)
            }

            pub async fn create(
                &self,
                new_entity: <Entity as es_entity::EsEntity>::New
            ) -> Result<Entity, EntityCreateError> {
                let mut op = self.begin_op().await?;
                let res = self.create_in_op(&mut op, new_entity).await?;
                op.commit().await?;
                Ok(res)
            }

            pub async fn create_in_op<OP>(
                &self,
                op: &mut OP,
                new_entity: <Entity as es_entity::EsEntity>::New
            ) -> Result<Entity, EntityCreateError>
            where
                OP: es_entity::AtomicOperation
            {
                let __result: Result<Entity, EntityCreateError> = async {
                    use es_entity::prelude::sqlx::{Arguments, Row};

                    let id = &new_entity.id;

                    let mut __query_args = sqlx::postgres::PgArguments::default();
                    __query_args.add(id as &EntityId).map_err(sqlx::Error::Encode)?;
                    __query_args.add(op.maybe_now()).map_err(sqlx::Error::Encode)?;

                    let mut events = Self::convert_new(new_entity);
                    let events_types = events.new_event_types();
                    let serialized_events = events.serialize_new_events();
                    __query_args.add(&events_types).map_err(sqlx::Error::Encode)?;
                    __query_args.add(&serialized_events).map_err(sqlx::Error::Encode)?;

                    let rows = sqlx::query_with(
                        "WITH new_row AS (INSERT INTO entities (id, created_at) VALUES ($1, COALESCE($2, NOW())) RETURNING id) INSERT INTO entity_events (id, recorded_at, sequence, event_type, event) SELECT new_row.id, COALESCE($2, NOW()), ROW_NUMBER() OVER (), unnested.event_type, unnested.event FROM new_row CROSS JOIN UNNEST($3::TEXT[], $4::JSONB[]) AS unnested(event_type, event) RETURNING recorded_at",
                        __query_args
                    )
                        .fetch_all(op.as_executor())
                        .await
                        .map_err(Self::classify_create_error)?;

                    let recorded_at = rows
                        .first()
                        .ok_or(sqlx::Error::RowNotFound)
                        .and_then(|row| row.try_get("recorded_at"))?;
                    let n_events = events.mark_new_events_persisted_at(recorded_at);
                    let entity = Self::hydrate_entity(events)?;

                    Ok(entity)
                }.await;

                __result
            }
        
    "##;

    assert_eq!(norm(&tokens), norm(expected));
}

#[test]
fn create_fn_with_columns() {
    let mut name = Column::new("name".to_string(), TypeExpr::plain("String"));
    name.opts.create_opts = Some(CreateOpts {
        persist: None,
        accessor: Some(Accessor { text: "name()".to_string(), is_call: true }),
    });
    let columns = Columns::new("EntityId", vec![name]);

    let create_fn = CreateFn {
        table_name: "entities",
        entity: "Entity",
        id: "EntityId",
        event: "EntityEvent",
        events_table_name: "entity_events",
        event_ctx: false,
        forgettable_table_name: None,
        create_error: "EntityCreateError".to_string(),
        columns: &columns,
        nested_fn_names: Vec::new(),
        post_hydrate_error: None,
        post_persist_error: None,
        repo_name_snake: None,
    };

    let mut tokens = String::new();
    create_fn.to_tokens(&mut tokens);

    let expected = r##"
            #[inline(always)]
            fn convert_new<Entity, Event>(item: Entity) -> es_entity::EntityEvents<Event>
            where
                Entity: es_entity::IntoEvents<Event>,
                Event: es_entity::EsEvent,
            {
                item.into_events()
            }

            #[inline(always)]
            fn hydrate_entity<Entity, Event>(events: es_entity::EntityEvents<Event>) -> Result<Entity, es_entity::EntityHydrationError>
            where
                Entity: es_entity::TryFromEvents<Event>,
                Event: es_entity::EsEvent,
            {
                Entity::try_from_events(events)
            }

            pub async fn create(
                &self,
                new_entity: <Entity as es_entity::EsEntity>::New
            ) -> Result<Entity, EntityCreateError> {
                let mut op = self.begin_op().await?;
                let res = self.create_in_op(&mut op, new_entity).await?;
                op.commit().await?;
                Ok(res)
            }

            pub async fn create_in_op<OP>(
                &self,
                op: &mut OP,
                new_entity: <Entity as es_entity::EsEntity>::New
            ) -> Result<Entity, EntityCreateError>
            where
                OP: es_entity::AtomicOperation
            {
                let __result: Result<Entity, EntityCreateError> = async {
                    use es_entity::prelude::sqlx::{Arguments, Row};

                    let id = &new_entity.id;
                    let name = &new_entity.name();

                    let mut __query_args = sqlx::postgres::PgArguments::default();
                    __query_args.add(id as &EntityId).map_err(sqlx::Error::Encode)?;
                    __query_args.add(name as &String).map_err(sqlx::Error::Encode)?;
                    __query_args.add(op.maybe_now()).map_err(sqlx::Error::Encode)?;

                    let mut events = Self::convert_new(new_entity);
                    let events_types = events.new_event_types();
                    let serialized_events = events.serialize_new_events();
                    __query_args.add(&events_types).map_err(sqlx::Error::Encode)?;
                    __query_args.add(&serialized_events).map_err(sqlx::Error::Encode)?;

                    let rows = sqlx::query_with(
                        "WITH new_row AS (INSERT INTO entities (id, name, created_at) VALUES ($1, $2, COALESCE($3, NOW())) RETURNING id) INSERT INTO entity_events (id, recorded_at, sequence, event_type, event) SELECT new_row.id, COALESCE($3, NOW()), ROW_NUMBER() OVER (), unnested.event_type, unnested.event FROM new_row CROSS JOIN UNNEST($4::TEXT[], $5::JSONB[]) AS unnested(event_type, event) RETURNING recorded_at",
                        __query_args
                    )
                        .fetch_all(op.as_executor())
                        .await
                        .map_err(Self::classify_create_error)?;

                    let recorded_at = rows
                        .first()
                        .ok_or(sqlx::Error::RowNotFound)
                        .and_then(|row| row.try_get("recorded_at"))?;
                    let n_events = events.mark_new_events_persisted_at(recorded_at);
                    let entity = Self::hydrate_entity(events)?;

                    Ok(entity)
                }.await;

                __result
            }
        
    "##;

    assert_eq!(norm(&tokens), norm(expected));
}

#[test]
fn create_all_fn() {
    let name = Column::new("name".to_string(), TypeExpr::plain("String"));
    let columns = Columns::new("EntityId", vec![name]);

    let create_fn = CreateAllFn {
        table_name: "entities",
        entity: "Entity",
        id: "EntityId",
        event: "EntityEvent",
        events_table_name: "entity_events",
        event_ctx: false,
        forgettable_table_name: None,
        create_error: "EntityCreateError".to_string(),
        columns: &columns,
        nested_fn_names: Vec::new(),
        post_hydrate_error: None,
        post_persist_error: None,
        repo_name_snake: None,
    };

    let mut tokens = String::new();
    create_fn.to_tokens(&mut tokens);

    let expected = r##"
            pub async fn create_all(
                &self,
                new_entities: Vec<<Entity as es_entity::EsEntity>::New>
            ) -> Result<Vec<Entity>, EntityCreateError> {
                let mut op = self.begin_op().await?;
                let res = self.create_all_in_op(&mut op, new_entities).await?;
                op.commit().await?;
                Ok(res)
            }

            pub async fn create_all_in_op<OP>(
                &self,
                op: &mut OP,
                new_entities: Vec<<Entity as es_entity::EsEntity>::New>
            ) -> Result<Vec<Entity>, EntityCreateError>
            where
                OP: es_entity::AtomicOperation
            {
                let __result: Result<Vec<Entity>, EntityCreateError> = async {
                    use es_entity::prelude::sqlx::{Arguments, Row};

                    let mut entities = Vec::new();
                    if new_entities.is_empty() {
                        return Ok(entities);
                    }

                    let mut __query_args = sqlx::postgres::PgArguments::default();
                    __query_args.add(op.maybe_now()).map_err(sqlx::Error::Encode)?;

                    let mut id_collection = Vec::new();
                    let mut name_collection = Vec::new();

                    for new_entity in new_entities.iter() {
                        let id: &EntityId = &new_entity.id;
                        let name: &String = &new_entity.name;

                        id_collection.push(id);
                        name_collection.push(name);
                    }

                    __query_args.add(id_collection).map_err(sqlx::Error::Encode)?;
                    __query_args.add(name_collection).map_err(sqlx::Error::Encode)?;

                    let mut all_events: Vec<es_entity::EntityEvents<<Entity as es_entity::EsEntity>::Event>> = new_entities.into_iter().map(Self::convert_new).collect();

                    let mut all_ids: Vec<&EntityId> = Vec::new();
                    let mut all_sequences: Vec<i32> = Vec::new();
                    let mut all_types = Vec::new();
                    let mut all_serialized = Vec::new();
                    let mut n_persisted: Vec<usize> = Vec::new();

                    for events in all_events.iter() {
                        let id = events.id();
                        let offset = events.len_persisted() + 1;
                        let types = events.new_event_types();
                        let serialized = events.serialize_new_events();

                        let n_new = serialized.len();
                        all_types.extend(types);
                        all_serialized.extend(serialized);
                        all_ids.extend(std::iter::repeat(id).take(n_new));
                        all_sequences.extend((offset..).take(n_new).map(|i| i as i32));
                        n_persisted.push(n_new);
                    }

                    __query_args.add(&all_ids).map_err(sqlx::Error::Encode)?;
                    __query_args.add(&all_sequences).map_err(sqlx::Error::Encode)?;
                    __query_args.add(&all_types).map_err(sqlx::Error::Encode)?;
                    __query_args.add(&all_serialized).map_err(sqlx::Error::Encode)?;

                    let expected_events = all_ids.len();
                    let rows = sqlx::query_with(
                        "WITH new_rows AS (INSERT INTO entities (created_at, id, name) SELECT COALESCE($1, NOW()), unnested.id, unnested.name FROM UNNEST($2, $3) AS unnested(id, name) RETURNING id) INSERT INTO entity_events (id, recorded_at, sequence, event_type, event) SELECT unnested.id, COALESCE($1, NOW()), unnested.sequence, unnested.event_type, unnested.event FROM UNNEST($4, $5::INT[], $6::TEXT[], $7::JSONB[]) AS unnested(id, sequence, event_type, event) JOIN new_rows ON new_rows.id = unnested.id RETURNING recorded_at",
                        __query_args
                    )
                        .fetch_all(op.as_executor())
                        .await
                        .map_err(Self::classify_create_error)?;

                    if expected_events > 0 {
                        if rows.len() != expected_events {
                            return Err(EntityCreateError::ConcurrentModification);
                        }

                        let recorded_at = rows
                            .first()
                            .ok_or(sqlx::Error::RowNotFound)
                            .and_then(|row| row.try_get("recorded_at"))?;
                        for events in all_events.iter_mut() {
                            events.mark_new_events_persisted_at(recorded_at);
                        }
                    }

                    for (events, _n_events) in all_events.into_iter().zip(n_persisted) {
                        let entity = Self::hydrate_entity(events)?;
                        entities.push(entity);
                    }

                    Ok(entities)
                }.await;

                __result
            }
        
    "##;

    assert_eq!(norm(&tokens), norm(expected));
}

#[test]
fn delete_fn() {
    let mut columns = Columns::empty();
    columns.set_id_column("EntityId");

    let delete_fn = DeleteFn {
        id: "EntityId",
        event: "EntityEvent",
        entity: "Entity",
        modify_error: "EntityModifyError".to_string(),
        table_name: "entities",
        events_table_name: "entity_events",
        event_ctx: false,
        columns: &columns,
        delete_option: DeleteOption::Soft,
        nested_delete_fn_names: Vec::new(),
        post_persist_error: None,
        forgettable_table_name: None,
        repo_name_snake: None,
    };

    let mut tokens = String::new();
    delete_fn.to_tokens(&mut tokens);

    let expected = r##"
            pub async fn delete(
                &self,
                entity: Entity
            ) -> Result<(), EntityModifyError> {
                let mut op = self.begin_op().await?;
                let res = self.delete_in_op(&mut op, entity).await?;
                op.commit().await?;
                Ok(res)
            }

            pub async fn delete_in_op<OP>(
                &self,
                op: &mut OP,
                mut entity: Entity
            ) -> Result<(), EntityModifyError>
            where
                OP: es_entity::AtomicOperation
            {
                let __result: Result<(), EntityModifyError> = async {
                    let id = &entity.id;

                    let new_events = entity.events().any_new();
                    let offset = entity.events().len_persisted();
                    let events_types = entity.events().new_event_types();
                    let serialized_events = entity.events().serialize_new_events();

                    let rows = sqlx::query!(
                        "WITH updated AS (UPDATE entities SET deleted = TRUE WHERE id = $1 RETURNING id) INSERT INTO entity_events (id, recorded_at, sequence, event_type, event) SELECT updated.id, COALESCE($2, NOW()), ROW_NUMBER() OVER () + $3, unnested.event_type, unnested.event FROM updated CROSS JOIN UNNEST($4::TEXT[], $5::JSONB[]) AS unnested(event_type, event) RETURNING recorded_at",
                        id as &EntityId,
                        op.maybe_now(),
                        offset as i32,
                        &events_types,
                        &serialized_events
                    )
                        .fetch_all(op.as_executor())
                        .await
                        .map_err(|e| match &e {
                            sqlx::Error::Database(db_err)
                                if db_err.is_unique_violation()
                                    && db_err.table() == Some("entity_events") =>
                            {
                                EntityModifyError::ConcurrentModification
                            }
                            sqlx::Error::Database(db_err)
                                if db_err.table() != Some("entity_events")
                                    && es_entity::is_classified_constraint_violation(db_err.as_ref()) =>
                            {
                                EntityModifyError::ConstraintViolation {
                                    column: Self::map_constraint_column(db_err.constraint()),
                                    value: es_entity::extract_constraint_value(db_err.as_ref()),
                                    inner: e,
                                }
                            }
                            _ => EntityModifyError::Sqlx(e),
                        })?;

                    if new_events {
                        let recorded_at = rows
                            .first()
                            .map(|row| row.recorded_at)
                            .ok_or(EntityModifyError::ConcurrentModification)?;
                        let n_events = Self::extract_events(&mut entity)
                            .mark_new_events_persisted_at(recorded_at);
                    }

                    Ok(())
                }.await;

                __result
            }
        
    "##;

    assert_eq!(norm(&tokens), norm(expected));
}

#[test]
fn delete_fn_with_update_columns() {
    let name = Column::new("name".to_string(), TypeExpr::plain("String"));
    let columns = Columns::new("EntityId", vec![name]);

    let delete_fn = DeleteFn {
        id: "EntityId",
        event: "EntityEvent",
        entity: "Entity",
        modify_error: "EntityModifyError".to_string(),
        table_name: "entities",
        events_table_name: "entity_events",
        event_ctx: false,
        columns: &columns,
        delete_option: DeleteOption::Soft,
        nested_delete_fn_names: Vec::new(),
        post_persist_error: None,
        forgettable_table_name: None,
        repo_name_snake: None,
    };

    let mut tokens = String::new();
    delete_fn.to_tokens(&mut tokens);

    let expected = r##"
            pub async fn delete(
                &self,
                entity: Entity
            ) -> Result<(), EntityModifyError> {
                let mut op = self.begin_op().await?;
                let res = self.delete_in_op(&mut op, entity).await?;
                op.commit().await?;
                Ok(res)
            }

            pub async fn delete_in_op<OP>(
                &self,
                op: &mut OP,
                mut entity: Entity
            ) -> Result<(), EntityModifyError>
            where
                OP: es_entity::AtomicOperation
            {
                let __result: Result<(), EntityModifyError> = async {
                    let id = &entity.id;
                    let name = &entity.name;

                    let new_events = entity.events().any_new();
                    let offset = entity.events().len_persisted();
                    let events_types = entity.events().new_event_types();
                    let serialized_events = entity.events().serialize_new_events();

                    let rows = sqlx::query!(
                        "WITH updated AS (UPDATE entities SET name = $2, deleted = TRUE WHERE id = $1 RETURNING id) INSERT INTO entity_events (id, recorded_at, sequence, event_type, event) SELECT updated.id, COALESCE($3, NOW()), ROW_NUMBER() OVER () + $4, unnested.event_type, unnested.event FROM updated CROSS JOIN UNNEST($5::TEXT[], $6::JSONB[]) AS unnested(event_type, event) RETURNING recorded_at",
                        id as &EntityId,
                        name as &String,
                        op.maybe_now(),
                        offset as i32,
                        &events_types,
                        &serialized_events
                    )
                        .fetch_all(op.as_executor())
                        .await
                        .map_err(|e| match &e {
                            sqlx::Error::Database(db_err)
                                if db_err.is_unique_violation()
                                    && db_err.table() == Some("entity_events") =>
                            {
                                EntityModifyError::ConcurrentModification
                            }
                            sqlx::Error::Database(db_err)
                                if db_err.table() != Some("entity_events")
                                    && es_entity::is_classified_constraint_violation(db_err.as_ref()) =>
                            {
                                EntityModifyError::ConstraintViolation {
                                    column: Self::map_constraint_column(db_err.constraint()),
                                    value: es_entity::extract_constraint_value(db_err.as_ref()),
                                    inner: e,
                                }
                            }
                            _ => EntityModifyError::Sqlx(e),
                        })?;

                    if new_events {
                        let recorded_at = rows
                            .first()
                            .map(|row| row.recorded_at)
                            .ok_or(EntityModifyError::ConcurrentModification)?;
                        let n_events = Self::extract_events(&mut entity)
                            .mark_new_events_persisted_at(recorded_at);
                    }

                    Ok(())
                }.await;

                __result
            }
        
    "##;

    assert_eq!(norm(&tokens), norm(expected));
}

#[test]
fn delete_fn_with_forgettable() {
    let mut columns = Columns::empty();
    columns.set_id_column("EntityId");

    let delete_fn = DeleteFn {
        id: "EntityId",
        event: "EntityEvent",
        entity: "Entity",
        modify_error: "EntityModifyError".to_string(),
        table_name: "entities",
        events_table_name: "entity_events",
        event_ctx: false,
        columns: &columns,
        delete_option: DeleteOption::Soft,
        nested_delete_fn_names: Vec::new(),
        post_persist_error: None,
        forgettable_table_name: Some("entities_forgettable_payloads"),
        repo_name_snake: None,
    };

    let mut tokens = String::new();
    delete_fn.to_tokens(&mut tokens);

    let expected = r##"
            pub async fn delete(
                &self,
                entity: Entity
            ) -> Result<(), EntityModifyError> {
                let mut op = self.begin_op().await?;
                let res = self.delete_in_op(&mut op, entity).await?;
                op.commit().await?;
                Ok(res)
            }

            pub async fn delete_in_op<OP>(
                &self,
                op: &mut OP,
                mut entity: Entity
            ) -> Result<(), EntityModifyError>
            where
                OP: es_entity::AtomicOperation
            {
                let __result: Result<(), EntityModifyError> = async {
                    let id = &entity.id;

                    sqlx::query!(
                        "DELETE FROM entities_forgettable_payloads WHERE entity_id = $1",
                        id as &EntityId
                    )
                    .execute(op.as_executor())
                    .await?;

                    let new_events = entity.events().any_new();
                    let offset = entity.events().len_persisted();
                    let events_types = entity.events().new_event_types();
                    let serialized_events = entity.events().serialize_new_events();

                    let rows = sqlx::query!(
                        "WITH updated AS (UPDATE entities SET deleted = TRUE WHERE id = $1 RETURNING id) INSERT INTO entity_events (id, recorded_at, sequence, event_type, event) SELECT updated.id, COALESCE($2, NOW()), ROW_NUMBER() OVER () + $3, unnested.event_type, unnested.event FROM updated CROSS JOIN UNNEST($4::TEXT[], $5::JSONB[]) AS unnested(event_type, event) RETURNING recorded_at",
                        id as &EntityId,
                        op.maybe_now(),
                        offset as i32,
                        &events_types,
                        &serialized_events
                    )
                        .fetch_all(op.as_executor())
                        .await
                        .map_err(|e| match &e {
                            sqlx::Error::Database(db_err)
                                if db_err.is_unique_violation()
                                    && db_err.table() == Some("entity_events") =>
                            {
                                EntityModifyError::ConcurrentModification
                            }
                            sqlx::Error::Database(db_err)
                                if db_err.table() != Some("entity_events")
                                    && es_entity::is_classified_constraint_violation(db_err.as_ref()) =>
                            {
                                EntityModifyError::ConstraintViolation {
                                    column: Self::map_constraint_column(db_err.constraint()),
                                    value: es_entity::extract_constraint_value(db_err.as_ref()),
                                    inner: e,
                                }
                            }
                            _ => EntityModifyError::Sqlx(e),
                        })?;

                    let mut payload_sequences: Vec<i32> = Vec::new();
                    let mut payload_values: Vec<es_entity::prelude::serde_json::Value> = Vec::new();
                    for (idx, event_with_ctx) in entity.events().iter_new_events().enumerate() {
                        if let Some(payload) = EntityEvent::extract_forgettable_payloads(&event_with_ctx.event) {
                            payload_sequences.push((offset + 1 + idx) as i32);
                            payload_values.push(payload);
                        }
                    }
                    if !payload_sequences.is_empty() {
                        Self::extract_concurrent_modification(
                            sqlx::query!(
                                "INSERT INTO entities_forgettable_payloads (entity_id, sequence, payload) SELECT $1, unnested.sequence, unnested.payload FROM UNNEST($2::INT[], $3::JSONB[]) AS unnested(sequence, payload)",
                                id as &EntityId,
                                &payload_sequences,
                                &payload_values,
                            )
                            .execute(op.as_executor())
                            .await,
                            EntityModifyError::ConcurrentModification,
                        )?;
                    }

                    if new_events {
                        let recorded_at = rows
                            .first()
                            .map(|row| row.recorded_at)
                            .ok_or(EntityModifyError::ConcurrentModification)?;
                        let n_events = Self::extract_events(&mut entity)
                            .mark_new_events_persisted_at(recorded_at);
                    }

                    Ok(())
                }.await;

                __result
            }
        
    "##;

    assert_eq!(norm(&tokens), norm(expected));
}

#[test]
fn post_hydrate_hook_none() {
    let config = None;
    let hook = PostHydrateHook { entity: "Entity", hook: &config };

    let mut tokens = String::new();
    hook.to_tokens(&mut tokens);

    let expected = r##"
            #[inline(always)]
            fn execute_post_hydrate_hook(
                &self,
                entity: &Entity,
            ) -> Result<(), std::convert::Infallible> {
                Ok(())
            }
        
    "##;

    assert_eq!(norm(&tokens), norm(expected));
}

#[test]
fn post_hydrate_hook_some() {
    let config = Some(PostHydrateHookConfig {
        method: "validate_entity".to_string(),
        error: "EntityPostHydrateError".to_string(),
    });
    let hook = PostHydrateHook { entity: "Entity", hook: &config };

    let mut tokens = String::new();
    hook.to_tokens(&mut tokens);

    let expected = r##"
            #[inline(always)]
            fn execute_post_hydrate_hook(
                &self,
                entity: &Entity,
            ) -> Result<(), EntityPostHydrateError> {
                self.validate_entity(entity)
            }
        
    "##;

    assert_eq!(norm(&tokens), norm(expected));
}

#[test]
fn post_persist_hook_none() {
    let config = None;
    let hook = PostPersistHook { event: "EntityEvent", entity: "Entity", hook: &config };

    let mut tokens = String::new();
    hook.to_tokens(&mut tokens);

    let expected = r##"
            #[inline(always)]
            async fn execute_post_persist_hook<OP>(&self,
                op: &mut OP,
                entity: &Entity,
                new_events: es_entity::LastPersisted<'_, EntityEvent>
            ) -> Result<(), sqlx::Error>
                where
                    OP: es_entity::AtomicOperation + ?Sized
            {
                Ok(())
            }
        
    "##;

    assert_eq!(norm(&tokens), norm(expected));
}

#[test]
fn post_persist_hook_some() {
    let config = Some(PostPersistHookConfig {
        method: "on_persist".to_string(),
        error: "MyPersistError".to_string(),
    });
    let hook = PostPersistHook { event: "EntityEvent", entity: "Entity", hook: &config };

    let mut tokens = String::new();
    hook.to_tokens(&mut tokens);

    let expected = r##"
            #[inline(always)]
            async fn execute_post_persist_hook<OP>(&self,
                mut op: &mut OP,
                entity: &Entity,
                new_events: es_entity::LastPersisted<'_, EntityEvent>
            ) -> Result<(), MyPersistError>
                where
                    OP: es_entity::AtomicOperation + ?Sized
            {
                self.on_persist(&mut op, entity, new_events).await?;
                Ok(())
            }
        
    "##;

    assert_eq!(norm(&tokens), norm(expected));
}
