use es_entity_repo::forget_fn::ForgetFn;
use es_entity_repo::nested::Nested;
use es_entity_repo::options::repository::RepoField;
use es_entity_repo::persist_events_batch_fn::PersistEventsBatchFn;
use es_entity_repo::persist_events_fn::PersistEventsFn;
use es_entity_repo::tokens::TokenTree;
use es_entity_repo::types::TypeExpr;
use proc_macro2::{Group, Punct, Spacing, TokenStream};

const OPERATORS: [&str; 16] = [
    "..=", "...", "::", "->", "=>", "&&", "||", "==", "!=", "<=", ">=", "..", "+=", "-=", "*=",
    "/=",
];

fn push_puncts(run: &str, out: &mut Vec<proc_macro2::TokenTree>) {
    let mut rest = run;
    while let Some(first) = rest.chars().next() {
        let operator = OPERATORS.iter().find(|operator| rest.starts_with(**operator));
        let text = operator.map_or(&rest[..first.len_utf8()], |operator| *operator);
        for (i, c) in text.char_indices() {
            let joint = i + 1 < text.len() || c == '\'';
            let spacing = if joint { Spacing::Joint } else { Spacing::Alone };
            out.push(proc_macro2::TokenTree::Punct(Punct::new(c, spacing)));
        }
        rest = &rest[text.len()..];
    }
}

fn spaced(tokens: TokenStream) -> TokenStream {
    let mut out = Vec::new();
    let mut run = String::new();
    for tree in tokens {
        match tree {
            proc_macro2::TokenTree::Punct(punct) => {
                run.push(punct.as_char());
                if punct.spacing() == Spacing::Alone {
                    push_puncts(&run, &mut out);
                    run.clear();
                }
            }
            proc_macro2::TokenTree::Group(group) => {
                out.push(proc_macro2::TokenTree::Group(Group::new(group.delimiter(), spaced(group.stream()))))
            }
            other => {
                push_puncts(&run, &mut out);
                run.clear();
                out.push(other);
            }
        }
    }
    push_puncts(&run, &mut out);
    out.into_iter().collect()
}

fn norm(code: &str) -> String {
    spaced(code.parse().expect("code is made of tokens")).to_string()
}

#[test]
fn nested() {
    let field = RepoField {
        ident: Some("users".to_string()),
        ty: TypeExpr::plain("UserRepo"),
        ty_tokens: vec![TokenTree::Ident("UserRepo".to_string())],
        nested: true,
        pool: false,
        clock: false,
        entity: None,
    };

    let cursor = Nested {
        field: &field,
        parent_modify_error: "ParentModifyError".to_string(),
    };

    let mut tokens = String::new();
    cursor.to_tokens(&mut tokens);

    let expected = r##"
        fn has_pending_nested_users_work<P>(entities: &mut [&mut P]) -> bool
            where
                P: es_entity::Parent<<UserRepo as es_entity::EsRepo>::Entity>,
        {
            for entity in entities.iter_mut() {
                if !entity.new_children_mut().is_empty() {
                    return true;
                }
                let mut persisted: Vec<_> = entity.iter_persisted_children_mut().collect();
                if persisted.iter().any(|child| child.events().any_new()) {
                    return true;
                }
                if <UserRepo as es_entity::EsRepo>::has_pending_nested_work(&mut persisted) {
                    return true;
                }
            }
            false
        }

        async fn create_nested_users_in_op<OP, P>(&self, op: &mut OP, entities: &mut [&mut P]) -> Result<(), <UserRepo as es_entity::EsRepo>::CreateError>
            where
                P: es_entity::Parent<<UserRepo as EsRepo>::Entity>,
                OP: es_entity::AtomicOperation
        {
            let counts: Vec<usize> = entities
                .iter_mut()
                .map(|entity| entity.new_children_mut().len())
                .collect();
            if counts.iter().all(|n| *n == 0) {
                return Ok(());
            }

            let new_children: Vec<_> = entities
                .iter_mut()
                .flat_map(|entity| entity.new_children_mut().drain(..))
                .collect();

            let mut children = self.users.create_all_in_op(op, new_children).await?.into_iter();
            for (entity, n) in entities.iter_mut().zip(counts) {
                entity.inject_children(children.by_ref().take(n));
            }
            Ok(())
        }

        async fn update_nested_users_in_op<OP, P>(&self, op: &mut OP, entities: &mut [&mut P]) -> Result<(), ParentModifyError>
            where
                P: es_entity::Parent<<UserRepo as EsRepo>::Entity>,
                OP: es_entity::AtomicOperation
        {
            let persisted: Vec<_> = entities
                .iter_mut()
                .flat_map(|entity| entity.iter_persisted_children_mut())
                .collect();
            if !persisted.is_empty() {
                self.users.update_all_mut_in_op(op, persisted).await?;
            }
            self.create_nested_users_in_op(op, entities).await?;
            Ok(())
        }

        async fn find_nested_users_in_op<OP, P, __EsErr>(op: &mut OP, entities: &mut [P]) -> Result<(), __EsErr>
            where
                OP: es_entity::AtomicOperation,
                P: es_entity::Parent<<UserRepo as es_entity::EsRepo>::Entity> + es_entity::EsEntity,
                UserRepo: es_entity::PopulateNested<<<P as es_entity::EsEntity>::Event as es_entity::EsEvent>::EntityId>,
                __EsErr: From<sqlx::Error> + From<es_entity::EntityHydrationError> + Send,
        {
            let lookup = entities.iter_mut().map(|e| (e.events().entity_id.clone(), e)).collect();
            <UserRepo>::populate_in_op::<_, _, __EsErr>(op, lookup).await?;
            Ok(())
        }

        async fn find_nested_users_include_deleted_in_op<OP, P, __EsErr>(op: &mut OP, entities: &mut [P]) -> Result<(), __EsErr>
            where
                OP: es_entity::AtomicOperation,
                P: es_entity::Parent<<UserRepo as es_entity::EsRepo>::Entity> + es_entity::EsEntity,
                UserRepo: es_entity::PopulateNested<<<P as es_entity::EsEntity>::Event as es_entity::EsEvent>::EntityId>,
                __EsErr: From<sqlx::Error> + From<es_entity::EntityHydrationError> + Send,
        {
            let lookup = entities.iter_mut().map(|e| (e.events().entity_id.clone(), e)).collect();
            <UserRepo>::populate_in_op_include_deleted::<_, _, __EsErr>(op, lookup).await?;
            Ok(())
        }

        async fn delete_nested_users_in_op<OP, P, __EsErr>(op: &mut OP, entity: &P) -> Result<(), __EsErr>
            where
                OP: es_entity::AtomicOperation,
                P: es_entity::EsEntity,
                UserRepo: es_entity::CascadeDeleteNested<<<P as es_entity::EsEntity>::Event as es_entity::EsEvent>::EntityId>,
                __EsErr: From<sqlx::Error> + Send,
        {
            <UserRepo>::cascade_delete_in_op::<_, __EsErr>(op, &entity.events().entity_id).await?;
            Ok(())
        }
    "##;

    assert_eq!(norm(&tokens), norm(expected));
}

#[test]
fn forget_fn() {
    let id = "EntityId".to_string();
    let entity = "Entity".to_string();
    let event = "EntityEvent".to_string();
    let error = "EntityForgetError".to_string();

    let forget_fn = ForgetFn {
        id: &id,
        entity: &entity,
        event: &event,
        error,
        table_name: "entities",
        events_table_name: "entity_events",
        event_ctx: false,
        forgettable_table_name: "entities_forgettable_payloads",
        forgettable_columns: Vec::new(),
        nested_forget_fn_names: Vec::new(),
        post_persist_error: None,
    };

    let mut tokens = String::new();
    forget_fn.to_tokens(&mut tokens);

    let output = norm(&tokens);
    // Consume-and-return: forget takes the entity by value and returns the
    // rebuilt (forgotten) entity — no `&mut`, no in-place assignment.
    assert!(output.contains("entity : Entity) -> Result < Entity , EntityForgetError >"));
    assert!(!output.contains("& mut Entity"));
    assert!(!output.contains("* entity ="));
    assert!(output.contains("es_entity :: TryFromEvents :: try_from_events"));
    assert!(output.contains("Ok (entity)"));
    // No hook configured — no hook invocation is generated.
    assert!(!output.contains("execute_post_persist_hook"));
    // Staged events are persisted (fencing + no laundering), BEFORE the
    // payload delete — assert the persist appears before the DELETE.
    let persist_at = output
        .find("persist_events")
        .expect("staged events must be persisted");
    let delete_at = output
        .find("DELETE FROM entities_forgettable_payloads WHERE entity_id = $1")
        .expect("payload delete present");
    assert!(persist_at < delete_at, "must persist BEFORE payload delete");
    assert!(output.contains("Self :: extract_concurrent_modification"));
    assert!(output.contains("EntityForgetError :: ConcurrentModification"));
    // No framework-appended marker: erasure events are a client convention.
    assert!(!output.contains(":: Forgot"));
    assert!(output.contains("forget_and_take (EntityEvent :: forget_forgettable_payloads)"));
}

#[test]
fn forget_fn_nulls_index_columns() {
    let id = "EntityId".to_string();
    let entity = "Entity".to_string();
    let event = "EntityEvent".to_string();
    let error = "EntityForgetError".to_string();
    let email = "email".to_string();

    let forget_fn = ForgetFn {
        id: &id,
        entity: &entity,
        event: &event,
        error,
        table_name: "entities",
        events_table_name: "entity_events",
        event_ctx: false,
        forgettable_table_name: "entities_forgettable_payloads",
        forgettable_columns: vec![email],
        nested_forget_fn_names: Vec::new(),
        post_persist_error: None,
    };

    let mut tokens = String::new();
    forget_fn.to_tokens(&mut tokens);

    let output = norm(&tokens);
    // The index-column NULLing is now the CTE of the combined statement
    // that also inserts any staged events.
    assert!(output.contains(
        "WITH updated AS (UPDATE entities SET email = NULL WHERE id = $1 RETURNING id) INSERT INTO entity_events"
    ));
    // No laundering: the payload delete must still come after the statement
    // that persists staged events, and must not be folded into it (CTE
    // sub-statements cannot see each other's writes).
    let insert_at = output
        .find("INSERT INTO entity_events")
        .expect("staged events must be persisted");
    let delete_at = output
        .find("DELETE FROM entities_forgettable_payloads WHERE entity_id = $1")
        .expect("payload delete present");
    assert!(insert_at < delete_at, "must persist BEFORE payload delete");
    // The combined path skips the staged payload insert entirely — the
    // delete would remove those rows in the same transaction anyway.
    assert!(!output.contains("INSERT INTO entities_forgettable_payloads"));
}

#[test]
fn forget_fn_runs_post_persist_hook() {
    let id = "EntityId".to_string();
    let entity = "Entity".to_string();
    let event = "EntityEvent".to_string();
    let error = "EntityForgetError".to_string();
    let hook_error = "MyHookError";

    let forget_fn = ForgetFn {
        id: &id,
        entity: &entity,
        event: &event,
        error,
        table_name: "entities",
        events_table_name: "entity_events",
        event_ctx: false,
        forgettable_table_name: "entities_forgettable_payloads",
        forgettable_columns: Vec::new(),
        nested_forget_fn_names: Vec::new(),
        post_persist_error: Some(hook_error),
    };

    let mut tokens = String::new();
    forget_fn.to_tokens(&mut tokens);

    let output = norm(&tokens);
    // The hook runs once, with the just-persisted staged events...
    assert!(output.contains("if n_events > 0"));
    assert!(
        output.contains(
            "self . execute_post_persist_hook (op , & entity , entity . events () . last_persisted (n_events))"
        ),
        "hook must receive exactly the just-persisted events: {output}"
    );
    assert!(output.contains("EntityForgetError :: PostPersistHookError"));
    // ...AFTER the rebuild (hook observes the forgotten representation):
    // the hook invocation must come after try_from_events.
    let rebuild_at = output.find("try_from_events").expect("rebuild present");
    let hook_at = output
        .find("execute_post_persist_hook")
        .expect("hook invocation present");
    assert!(rebuild_at < hook_at, "hook must run on the rebuilt entity");
}

#[test]
fn forget_fn_runs_post_persist_hook_on_the_combined_path() {
    let id = "EntityId".to_string();
    let entity = "Entity".to_string();
    let event = "EntityEvent".to_string();
    let error = "EntityForgetError".to_string();
    let email = "email".to_string();
    let hook_error = "MyHookError";

    let forget_fn = ForgetFn {
        id: &id,
        entity: &entity,
        event: &event,
        error,
        table_name: "entities",
        events_table_name: "entity_events",
        event_ctx: false,
        forgettable_table_name: "entities_forgettable_payloads",
        forgettable_columns: vec![email],
        nested_forget_fn_names: Vec::new(),
        post_persist_error: Some(hook_error),
    };

    let mut tokens = String::new();
    forget_fn.to_tokens(&mut tokens);

    let output = norm(&tokens);
    // The count comes from marking, not from `persist_events`.
    assert!(!output.contains("persist_events"));
    assert!(
        output.contains("let n_events = if has_new_events { let recorded_at = rows . first ()")
    );
    assert!(output.contains("mark_new_events_persisted_at (recorded_at) } else { 0 } ;"));
    // Same guarantees as the `persist_events` path: hook after the rebuild,
    // and only when events were actually persisted.
    assert!(output.contains("if n_events > 0"));
    assert!(output.contains("EntityForgetError :: PostPersistHookError"));
    let rebuild_at = output.find("try_from_events").expect("rebuild present");
    let hook_at = output
        .find("execute_post_persist_hook")
        .expect("hook invocation present");
    assert!(rebuild_at < hook_at, "hook must run on the rebuilt entity");
    // The count is taken after the payload delete, since marking needs the
    // events mutably while the delete still holds `&entity.id`.
    let delete_at = output
        .find("DELETE FROM entities_forgettable_payloads")
        .expect("payload delete present");
    let mark_at = output
        .find("mark_new_events_persisted_at")
        .expect("mark present");
    assert!(
        delete_at < mark_at,
        "marking must follow the payload delete"
    );
}

#[test]
fn forget_fn_cascades_into_nested_children() {
    let id = "EntityId".to_string();
    let entity = "Entity".to_string();
    let event = "EntityEvent".to_string();
    let error = "EntityForgetError".to_string();
    let nested_fn_name = "forget_nested_users_in_op".to_string();

    let forget_fn = ForgetFn {
        id: &id,
        entity: &entity,
        event: &event,
        error,
        table_name: "entities",
        events_table_name: "entity_events",
        event_ctx: false,
        forgettable_table_name: "entities_forgettable_payloads",
        forgettable_columns: Vec::new(),
        nested_forget_fn_names: vec![nested_fn_name],
        post_persist_error: None,
    };

    let mut tokens = String::new();
    forget_fn.to_tokens(&mut tokens);

    let output = norm(&tokens);
    assert!(output.contains(
        "Self :: forget_nested_users_in_op :: < _ , _ , EntityForgetError > (op , & entity) . await ?"
    ));
    // Cascades before the entity's own payload row is touched, matching
    // `delete`'s cascade-then-own-row order.
    let cascade_at = output
        .find("forget_nested_users_in_op")
        .expect("cascade call present");
    let delete_at = output
        .find("DELETE FROM entities_forgettable_payloads WHERE entity_id = $1")
        .expect("own payload delete present");
    assert!(
        cascade_at < delete_at,
        "must cascade BEFORE own payload delete"
    );
}

#[test]
fn persist_events_fn_persist_events_fn() {
    let id = "EntityId".to_string();
    let event = "EntityEvent".to_string();
    let error = "es_entity::EsRepoError".to_string();
    let persist_fn = PersistEventsFn {
        id: &id,
        event: &event,
        error,
        events_table_name: "entity_events",
        event_ctx: true,
    };

    let mut tokens = String::new();
    persist_fn.to_tokens(&mut tokens);

    let expected = r##"
        fn extract_concurrent_modification<T>(res: Result<T, sqlx::Error>) -> Result<T, es_entity::EsRepoError> {
            match res {
                Ok(entity) => Ok(entity),
                Err(sqlx::Error::Database(db_error)) if db_error.is_unique_violation() => {
                    Err(es_entity::EsRepoError::from(es_entity::EsEntityError::ConcurrentModification))
                }
                Err(err) => Err(es_entity::EsRepoError::from(err)),
            }
        }

        async fn persist_events<OP>(
            &self,
            op: &mut OP,
            events: &mut es_entity::EntityEvents<EntityEvent>
        ) -> Result<usize, es_entity::EsRepoError>
        where
            OP: es_entity::AtomicOperation
        {
            if events.serialize_new_events().is_empty() {
                return Ok(0);
            }

            let id = events.id();
            let offset = events.len_persisted();
            let serialized_events = events.serialize_new_events();

            // Perform the COPY operation
            let rows_copied = Self::extract_concurrent_modification({
                let mut copy = op
                    .as_executor()
                    .copy_in_raw("COPY entity_events (id, sequence, event_type, event, context, recorded_at) FROM STDIN WITH (FORMAT text)")
                    .await?;

                let contexts = events.serialize_new_event_contexts();
                for (idx, (event, context)) in serialized_events.into_iter().zip(contexts.unwrap_or_default().into_iter()).enumerate() {
                    let event_type = event
                        .get("type")
                        .and_then(es_entity::prelude::serde_json::Value::as_str)
                        .expect("Could not read event type");
                    let row = format!(
                        "{}\t{}\t{}\t{}\t{}\t{}\n",
                        id,
                        offset + idx,
                        event_type,
                        es_entity::prelude::serde_json::to_string(&event).expect("event to string"),
                        es_entity::prelude::serde_json::to_string(&context).expect("context to string"),
                        es_entity::prelude::chrono::Utc::now(),
                    );
                    copy.send(row.as_bytes()).await?;
                }

                copy.finish().await
            })?;

            // Mark events as persisted with current timestamp
            let recorded_at = es_entity::prelude::chrono::Utc::now();
            let n_events = events.mark_new_events_persisted_at(recorded_at);

            Ok(n_events)
        }
    "##;

    assert_eq!(norm(&tokens), norm(expected));
}

#[test]
fn persist_events_fn_persist_events_fn_without_event_context() {
    let id = "EntityId".to_string();
    let event = "EntityEvent".to_string();
    let error = "es_entity::EsRepoError".to_string();
    let persist_fn = PersistEventsFn {
        id: &id,
        event: &event,
        error,
        events_table_name: "entity_events",
        event_ctx: false,
    };

    let mut tokens = String::new();
    persist_fn.to_tokens(&mut tokens);

    let expected = r##"
        fn extract_concurrent_modification<T>(res: Result<T, sqlx::Error>) -> Result<T, es_entity::EsRepoError> {
            match res {
                Ok(entity) => Ok(entity),
                Err(sqlx::Error::Database(db_error)) if db_error.is_unique_violation() => {
                    Err(es_entity::EsRepoError::from(es_entity::EsEntityError::ConcurrentModification))
                }
                Err(err) => Err(es_entity::EsRepoError::from(err)),
            }
        }

        async fn persist_events<OP>(
            &self,
            op: &mut OP,
            events: &mut es_entity::EntityEvents<EntityEvent>
        ) -> Result<usize, es_entity::EsRepoError>
        where
            OP: es_entity::AtomicOperation
        {
            if events.serialize_new_events().is_empty() {
                return Ok(0);
            }

            let id = events.id();
            let offset = events.len_persisted();
            let serialized_events = events.serialize_new_events();

            // Perform the COPY operation
            let rows_copied = Self::extract_concurrent_modification({
                let mut copy = op
                    .as_executor()
                    .copy_in_raw("COPY entity_events (id, sequence, event_type, event, recorded_at) FROM STDIN WITH (FORMAT text)")
                    .await?;

                for (idx, event) in serialized_events.into_iter().enumerate() {
                    let event_type = event
                        .get("type")
                        .and_then(es_entity::prelude::serde_json::Value::as_str)
                        .expect("Could not read event type")
                        .to_owned();
                    let row = format!(
                        "{}\t{}\t{}\t{}\t{}\n",
                        id,
                        offset + idx,
                        event_type,
                        es_entity::prelude::serde_json::to_string(&event).expect("event to string"),
                        es_entity::prelude::chrono::Utc::now(),
                    );
                    copy.send(row.as_bytes()).await?;
                }

                copy.finish().await
            })?;

            // Mark events as persisted with current timestamp
            let recorded_at = es_entity::prelude::chrono::Utc::now();
            let n_events = events.mark_new_events_persisted_at(recorded_at);

            Ok(n_events)
        }
    "##;

    assert_eq!(norm(&tokens), norm(expected));
}

#[test]
fn persist_events_batch_fn_persist_events_fn() {
    let id = "EntityId".to_string();
    let event = "EntityEvent".to_string();
    let error = "es_entity::EsRepoError".to_string();
    let persist_fn = PersistEventsBatchFn {
        id: &id,
        event: &event,
        error,
        events_table_name: "entity_events",
        event_ctx: true,
    };

    let mut tokens = String::new();
    persist_fn.to_tokens(&mut tokens);

    let expected = r##"
        async fn persist_events_batch<OP>(
            &self,
            op: &mut OP,
            all_events: &mut [es_entity::EntityEvents<EntityEvent>]
        ) -> Result<std::collections::HashMap<EntityId, usize>, es_entity::EsRepoError>
        where
            OP: es_entity::AtomicOperation
        {
            use es_entity::prelude::sqlx::Row;

            let mut all_serialized = Vec::new();
            let mut all_contexts: Vec<es_entity::ContextData> = Vec::new();
            let mut all_types = Vec::new();
            let mut all_ids: Vec<&EntityId> = Vec::new();
            let mut all_sequences = Vec::new();
            let now = op.maybe_now();

            let mut n_events_map = std::collections::HashMap::new();
            for events in all_events.iter_mut() {
                let id = events.id();
                let offset = events.len_persisted() + 1;
                let serialized = events.serialize_new_events();
                let contexts = events.serialize_new_event_contexts();
                if let Some(contexts) = contexts {
                    all_contexts.extend(contexts);
                }
                let types = serialized.iter()
                    .map(|e| e.get("type")
                        .and_then(es_entity::prelude::serde_json::Value::as_str)
                        .expect("Could not read event type")
                        .to_owned())
                    .collect::<Vec<_>>();

                let n_events = serialized.len();
                all_serialized.extend(serialized);
                all_types.extend(types);
                all_ids.extend(std::iter::repeat(id).take(n_events));
                all_sequences.extend((offset..).take(n_events).map(|i| i as i32));
                n_events_map.insert(id.clone(), n_events);
            }

            let rows = Self::extract_concurrent_modification(
                sqlx::query("INSERT INTO entity_events (id, recorded_at, sequence, event_type, event, context) SELECT unnested.id, COALESCE($1, NOW()), unnested.sequence, unnested.event_type, unnested.event, unnested.context FROM UNNEST($2, $3::INT[], $4::TEXT[], $5::JSONB[], $6::JSONB[]) AS unnested(id, sequence, event_type, event, context) RETURNING recorded_at")
                    .bind(now)
                    .bind(&all_ids)
                    .bind(&all_sequences)
                    .bind(&all_types)
                    .bind(&all_serialized)
                    .bind(&if all_contexts.is_empty() {
                        None
                    } else {
                         Some(all_contexts)
                    })
                    .fetch_all(op.as_executor())
                    .await
            )?;

            let recorded_at = rows[0].try_get("recorded_at").expect("no recorded at");

            for events in all_events.iter_mut() {
                events.mark_new_events_persisted_at(recorded_at);
            }

            Ok(n_events_map)
        }
    "##;

    assert_eq!(norm(&tokens), norm(expected));
}

#[test]
fn persist_events_batch_fn_persist_events_fn_without_event_context() {
    let id = "EntityId".to_string();
    let event = "EntityEvent".to_string();
    let error = "es_entity::EsRepoError".to_string();
    let persist_fn = PersistEventsBatchFn {
        id: &id,
        event: &event,
        error,
        events_table_name: "entity_events",
        event_ctx: false,
    };

    let mut tokens = String::new();
    persist_fn.to_tokens(&mut tokens);

    let expected = r##"
        async fn persist_events_batch<OP>(
            &self,
            op: &mut OP,
            all_events: &mut [es_entity::EntityEvents<EntityEvent>]
        ) -> Result<std::collections::HashMap<EntityId, usize>, es_entity::EsRepoError>
        where
            OP: es_entity::AtomicOperation
        {
            use es_entity::prelude::sqlx::Row;

            let mut all_serialized = Vec::new();
            let mut all_types = Vec::new();
            let mut all_ids: Vec<&EntityId> = Vec::new();
            let mut all_sequences = Vec::new();
            let now = op.maybe_now();

            let mut n_events_map = std::collections::HashMap::new();
            for events in all_events.iter_mut() {
                let id = events.id();
                let offset = events.len_persisted() + 1;
                let serialized = events.serialize_new_events();
                let types = serialized.iter()
                    .map(|e| e.get("type")
                        .and_then(es_entity::prelude::serde_json::Value::as_str)
                        .expect("Could not read event type")
                        .to_owned())
                    .collect::<Vec<_>>();

                let n_events = serialized.len();
                all_serialized.extend(serialized);
                all_types.extend(types);
                all_ids.extend(std::iter::repeat(id).take(n_events));
                all_sequences.extend((offset..).take(n_events).map(|i| i as i32));
                n_events_map.insert(id.clone(), n_events);
            }

            let rows = Self::extract_concurrent_modification(
                sqlx::query("INSERT INTO entity_events (id, recorded_at, sequence, event_type, event) SELECT unnested.id, COALESCE($1, NOW()), unnested.sequence, unnested.event_type, unnested.event FROM UNNEST($2, $3::INT[], $4::TEXT[], $5::JSONB[]) AS unnested(id, sequence, event_type, event) RETURNING recorded_at")
                    .bind(now)
                    .bind(&all_ids)
                    .bind(&all_sequences)
                    .bind(&all_types)
                    .bind(&all_serialized)
                    .fetch_all(op.as_executor())
                    .await
            )?;

            let recorded_at = rows[0].try_get("recorded_at").expect("no recorded at");

            for events in all_events.iter_mut() {
                events.mark_new_events_persisted_at(recorded_at);
            }

            Ok(n_events_map)
        }
    "##;

    assert_eq!(norm(&tokens), norm(expected));
}
