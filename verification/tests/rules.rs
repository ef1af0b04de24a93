use es_entity_repo::combo_cursor::ComboCursor;
use es_entity_repo::create_fn::CreateFn;
use es_entity_repo::delete_fn::DeleteFn;
use es_entity_repo::filter_states::{
    filter_state_combos, value_virtual_state_combos, virtual_state_combos, FilterState,
    ValueVirtualState, VirtualState,
};
use es_entity_repo::events_write::{EventSource, EventsInsert, SnapshotUpsert};
use es_entity_repo::filters_struct::substitute_value_placeholder;
use es_entity_repo::find_by_fn::FindByFn;
use es_entity_repo::index_catalog::{Index, IndexCatalog};
use es_entity_repo::list_by_fn::{
    assemble_union_select, not_deleted_conditions, not_deleted_predicate, CursorStruct,
};
use es_entity_repo::list_for_filters_fn::ListForFiltersFn;
use es_entity_repo::options::column::{Accessor, Column, ColumnOpts, CreateOpts, UpdateOpts};
use es_entity_repo::options::columns::Columns;
use es_entity_repo::options::delete::DeleteOption;
use es_entity_repo::options::repository::{DirFacts, MigrationsDir, RepositoryOptions};
use es_entity_repo::scope::{ScopeCol, ScopeInfo};
use es_entity_repo::text::{
    component_after_last_dot, decimal_text, end_each, join, param_text, quote,
};
use es_entity_repo::types::TypeExpr;

fn ty(text: &str) -> TypeExpr {
    TypeExpr::parse(text).expect("a type")
}

fn column(name: &str, text: &str) -> Column {
    Column::new(name.to_string(), ty(text))
}

fn strings(items: &[&str]) -> Vec<String> {
    items.iter().map(|item| item.to_string()).collect()
}

#[test]
fn literals_denote_their_text() {
    assert_eq!(quote("a \"b\" \\ c\n\r\td"), r#""a \"b\" \\ c\n\r\td""#);
    for text in ["", "plain", "\"", "\\", "a\nb", "tab\tand\rmore", "\\n is no newline", "d\u{e9}j\u{e0}"] {
        let literal: syn::LitStr = syn::parse_str(&quote(text)).expect("a string literal");
        assert_eq!(literal.value(), text);
    }
}

#[test]
fn numbers_are_written_in_decimal() {
    assert_eq!(decimal_text(0), "0");
    assert_eq!(decimal_text(9), "9");
    assert_eq!(decimal_text(10), "10");
    assert_eq!(decimal_text(20_480), "20480");
    assert_eq!(param_text(12), "$12");
    for n in [0usize, 7, 10, 99, 100, 65_537] {
        assert_eq!(decimal_text(n), n.to_string());
    }
}

#[test]
fn lists_are_joined() {
    assert_eq!(join(&Vec::new(), ", "), "");
    assert_eq!(join(&strings(&["a"]), ", "), "a");
    assert_eq!(join(&strings(&["a", "b", "c"]), ", "), "a, b, c");
    assert_eq!(end_each(&strings(&["a", "b"]), ";"), "a;b;");
    assert_eq!(component_after_last_dot("schema.order_events"), "order_events");
    assert_eq!(component_after_last_dot("order_events"), "order_events");
    assert_eq!(component_after_last_dot("order_events."), "");
}

#[test]
fn types_are_taken_apart() {
    let plain = ty("String");
    assert_eq!(plain.ident.as_deref(), Some("String"));
    assert!(plain.is_ident("String"));

    let option = ty("Option < Vec<u8>, >");
    assert!(option.is_single_segment("Option"));
    assert!(!option.is_ident("Option"));
    assert_eq!(option.sole_argument("Option").as_deref(), Some("Vec < u8 >"));
    assert_eq!(option.sole_argument("Forgettable"), None);

    let path = ty("std::option::Option<u8>");
    assert!(!path.is_single_segment("Option"));
    assert!(path.last_segment_is("Option"));
    assert_eq!(path.segments, ["std", "option", "Option"]);

    assert!(ty("(u8, u16)").segments.is_empty());
    assert_eq!(ty("Wrapper<'a, T>").args, [None, Some("T".to_string())]);
    assert_eq!(ty("u8 // a small number").text, "u8");
    let associated = ty("<Foo<Bar>>::Option<u8>");
    assert_eq!(associated.sole_argument("Option").as_deref(), Some("u8"));
    assert!(TypeExpr::parse("not a type").is_none());
    assert_eq!(ty("Forgettable< Email >").sole_argument("Forgettable").as_deref(), Some("Email"));
    assert_eq!(TypeExpr::option_of("Email").text, "Option<Email>");
}

#[test]
fn names_are_cased() {
    let cursor = ComboCursor::new("line_item");
    assert_eq!(cursor.ident(), "LineItemCursor");
    assert_eq!(cursor.sort_by_name(), "LineItemSortBy");
    assert_eq!(column("partner_id", "PartnerId").scope_variant(), "PartnerId");
}

#[test]
fn forgettable_types_are_normalized_once() {
    let mut opts = ColumnOpts::new(ty("Forgettable<Email>"));
    assert_eq!(opts.ty.text, "Option<Email>");
    assert!(opts.forgettable);
    opts.normalize_forgettable();
    assert_eq!(opts.ty.text, "Option<Email>");
    assert!(opts.forgettable);

    let other = ColumnOpts::new(ty("Email"));
    assert_eq!(other.ty.text, "Email");
    assert!(!other.forgettable);

    let email = column("email", "Forgettable<Email>");
    assert!(email.is_optional());
    assert!(email.is_nullable_column());
}

#[test]
fn indexes_serve_leading_columns() {
    let index = |table: &str, columns: &[&str]| Index {
        table: table.to_string(),
        columns: strings(columns),
    };
    let catalog = IndexCatalog {
        indexes: vec![index("orders", &["a", "b", "id"]), index("users", &["c"])],
    };
    assert!(catalog.specializes("orders", &strings(&[])));
    assert!(catalog.specializes("orders", &strings(&["a"])));
    assert!(catalog.specializes("orders", &strings(&["a", "b"])));
    assert!(catalog.specializes("orders", &strings(&["b", "a"])));
    assert!(!catalog.specializes("orders", &strings(&["b"])));
    assert!(!catalog.specializes("orders", &strings(&["a", "id"])));
    assert!(!catalog.specializes("orders", &strings(&["c"])));
    assert!(!catalog.specializes("items", &strings(&[])));
    assert!(!IndexCatalog::empty().specializes("orders", &strings(&[])));

    let more = IndexCatalog {
        indexes: vec![
            index("orders", &["b"]),
            index("orders", &["a", "b", "id"]),
            index("users", &["c"]),
        ],
    };
    assert!(more.specializes("orders", &strings(&["b"])));
    assert!(more.specializes("orders", &strings(&["b", "a"])));
}

#[test]
fn filter_states_are_combined() {
    let status = column("status", "Status");
    let owner = column("owner", "Option<Owner>");
    let combos = filter_state_combos(&vec![&status, &owner]);
    let present = [FilterState::Present, FilterState::Absent];
    assert_eq!(combos.len(), 6);
    for first in present {
        for second in
            [FilterState::Absent, FilterState::PresentNull, FilterState::PresentValue]
        {
            let count =
                combos.iter().filter(|combo| combo[0] == first && combo[1] == second).count();
            assert_eq!(count, 1);
        }
    }
    assert_eq!(filter_state_combos(&Vec::new()).len(), 1);
    assert!(filter_state_combos(&Vec::new())[0].is_empty());

    let flag = Column::new_virtual("flag".to_string(), "TRUE");
    let flags = virtual_state_combos(&vec![&flag, &flag]);
    assert_eq!(flags.len(), 9);
    assert!(flags.iter().any(|c| c[0] == VirtualState::True && c[1] == VirtualState::False));
    let values = value_virtual_state_combos(&vec![&flag]);
    assert_eq!(values.len(), 2);
    assert!(values.iter().any(|c| c[0] == ValueVirtualState::Present));

    assert!(!FilterState::Absent.is_present());
    assert!(FilterState::PresentNull.is_present());
}

#[test]
fn filter_patterns_tell_states_apart() {
    let status = column("status", "Status");
    let owner = column("owner", "Option<Owner>");
    assert_eq!(
        ListForFiltersFn::filter_pattern_elems(&status, FilterState::Present),
        ["true"]
    );
    assert_eq!(
        ListForFiltersFn::filter_pattern_elems(&status, FilterState::Absent),
        ["false"]
    );
    assert_eq!(
        ListForFiltersFn::filter_pattern_elems(&owner, FilterState::PresentNull),
        ["true", "false"]
    );
    assert_eq!(
        ListForFiltersFn::filter_pattern_elems(&owner, FilterState::PresentValue),
        ["true", "true"]
    );
    assert_eq!(
        ListForFiltersFn::filter_pattern_elems(&owner, FilterState::Absent),
        ["false", "_"]
    );
}

#[test]
fn value_placeholders_are_numbered() {
    assert_eq!(substitute_value_placeholder("n >= {value}", 4).as_deref(), Some("n >= $4"));
    assert_eq!(
        substitute_value_placeholder("{value} < n AND n < {value}", 2).as_deref(),
        Some("$2 < n AND n < $2")
    );
}

fn cursor<'a>(column: &'a Column) -> CursorStruct<'a> {
    CursorStruct { id: "OrderId", entity: "Order", column, cursor_mod: "order_cursor" }
}

fn branch(gate: &str, rows: Option<&str>) -> (String, Option<String>) {
    (gate.to_string(), rows.map(|rows| rows.to_string()))
}

#[test]
fn pages_have_a_branch_for_each_cursor() {
    let id = Column::for_id("OrderId");
    assert_eq!(
        cursor(&id).cursor_branches(0, true),
        [branch("$2 IS NOT NULL", Some("id > $2")), branch("$2 IS NULL", None)]
    );
    let name = column("name", "String");
    assert_eq!(
        cursor(&name).cursor_branches(1, false),
        [
            branch("$3 IS NOT NULL", Some("(name, id) < ($4, $3)")),
            branch("$3 IS NULL", None),
        ]
    );
    let value = column("value", "Option<u64>");
    assert_eq!(
        cursor(&value).cursor_branches(0, true),
        [
            branch("$2 IS NOT NULL AND $3 IS NOT NULL", Some("(value, id) > ($3, $2)")),
            branch("$2 IS NOT NULL AND $3 IS NULL", Some("(value IS NOT NULL OR id > $2)")),
            branch("$2 IS NULL", None),
        ]
    );
    assert_eq!(
        cursor(&value).cursor_branches(0, false),
        [
            branch(
                "$2 IS NOT NULL AND $3 IS NOT NULL",
                Some("(value IS NULL OR (value, id) < ($3, $2))")
            ),
            branch("$2 IS NOT NULL AND $3 IS NULL", Some("(value IS NULL AND id < $2)")),
            branch("$2 IS NULL", None),
        ]
    );
    assert_eq!(cursor(&value).order_by(false), "value DESC NULLS LAST, id DESC");
    assert_eq!(cursor(&name).select_columns(Some("owner")), "owner, name, id");
    assert_eq!(cursor(&name).select_columns(Some("name")), "name, id");
}

#[test]
fn every_branch_has_all_conditions() {
    let sql = assemble_union_select(
        "id",
        "orders",
        &strings(&["tenant = $1"]),
        &[branch("$3 IS NOT NULL", Some("id > $3")), branch("$3 IS NULL", None)],
        &strings(&["deleted = FALSE"]),
        "id ASC",
        2,
    );
    assert_eq!(
        sql,
        "(SELECT id FROM orders WHERE tenant = $1 AND (id > $3) AND ($3 IS NOT NULL) AND deleted = FALSE ORDER BY id ASC LIMIT $2) \
         UNION ALL (SELECT id FROM orders WHERE tenant = $1 AND ($3 IS NULL) AND deleted = FALSE ORDER BY id ASC LIMIT $2) \
         ORDER BY id ASC LIMIT $2"
    );
}

#[test]
fn deleted_entities_are_left_out() {
    assert_eq!(
        not_deleted_conditions(DeleteOption::No, DeleteOption::Soft),
        ["deleted = FALSE"]
    );
    assert!(not_deleted_conditions(DeleteOption::Soft, DeleteOption::Soft).is_empty());
    assert!(not_deleted_conditions(DeleteOption::No, DeleteOption::No).is_empty());
    assert_eq!(
        not_deleted_predicate(DeleteOption::SoftWithoutQueries).as_deref(),
        Some("deleted = FALSE")
    );
    assert_eq!(not_deleted_predicate(DeleteOption::No), None);
    assert_eq!(DeleteOption::Soft.include_deletion_fn_postfix(), "_include_deleted");
    assert_eq!(DeleteOption::No.include_deletion_fn_postfix(), "");
    assert_eq!(DeleteOption::Soft.query_variants().len(), 2);
    assert_eq!(DeleteOption::SoftWithoutQueries.query_variants().len(), 1);
    assert_eq!(DeleteOption::No.query_variants().len(), 1);
}

fn order_columns() -> Columns {
    let mut status = column("status", "Status");
    status.opts.update_opts = Some(UpdateOpts {
        persist: None,
        accessor: Some(Accessor { text: "status()".to_string(), is_call: true }),
    });
    let mut number = column("number", "u64");
    number.opts.update_opts = Some(UpdateOpts { persist: Some(false), accessor: None });
    let mut note = column("note", "Forgettable<String>");
    note.opts.create_opts = Some(CreateOpts { persist: Some(false), accessor: None });
    Columns::new("OrderId", vec![status, number, note])
}

#[test]
fn written_columns_are_in_step_with_their_parameters() {
    let columns = order_columns();
    assert_eq!(columns.insert_column_names(), ["id", "status", "number"]);
    assert_eq!(columns.insert_placeholders(0), "$1, $2, $3");
    assert_eq!(columns.insert_placeholders(4), "$5, $6, $7");
    assert_eq!(columns.create_query_arg_adds().len(), 3);

    assert!(columns.updates_needed());
    assert_eq!(columns.sql_updates(), "status = $2, note = $3");
    assert_eq!(
        columns.update_query_args(),
        ["id as &OrderId", "status as &Status", "note as &Option<String>"]
    );

    assert_eq!(columns.sql_updates_for_delete(), "status = $2, note = NULL");
    assert_eq!(columns.update_query_args_for_delete(), ["id as &OrderId", "status as &Status"]);
    assert_eq!(columns.forgettable_column_names(), ["note"]);
    assert_eq!(columns.update_all_column_names(), ["id", "status", "note"]);
}

fn scope_info() -> ScopeInfo<'static> {
    ScopeInfo {
        scope_ty: "OrderScope".to_string(),
        cols: vec![ScopeCol {
            variant: "PartnerId".to_string(),
            column_name: "partner_id",
            column_ty: "PartnerId".to_string(),
        }],
    }
}

fn find_by<'a>(column: &'a Column, scope: Option<ScopeInfo<'a>>) -> String {
    let mut code = String::new();
    FindByFn {
        prefix: None,
        entity: "Order",
        column,
        table_name: "orders",
        error: "OrderFindError".to_string(),
        delete: DeleteOption::Soft,
        any_nested: false,
        include_deleted_queries: false,
        scope,
        repo_name_snake: None,
    }
    .to_tokens(&mut code);
    code
}

#[test]
fn all_scopes_find_what_an_unscoped_repo_finds() {
    let id = Column::for_id("OrderId");
    let plain = find_by(&id, None);
    let scoped = find_by(&id, Some(scope_info()));
    let query = "\"SELECT id FROM orders WHERE id = $1 AND deleted = FALSE\"";
    assert!(plain.contains(query));
    assert!(scoped.contains(query));
    assert!(scoped.contains("OrderScope::All =>"));
    assert!(scoped.contains(
        "\"SELECT id FROM orders WHERE id = $1 AND partner_id = $2 AND deleted = FALSE\""
    ));
    assert!(!plain.contains("partner_id"));
}

#[test]
fn deleting_goes_from_the_children_to_the_hook() {
    let columns = order_columns();
    let mut code = String::new();
    DeleteFn {
        id: "OrderId",
        event: "OrderEvent",
        entity: "Order",
        modify_error: "OrderModifyError".to_string(),
        table_name: "orders",
        events_table_name: "order_events",
        event_ctx: false,
        columns: &columns,
        delete_option: DeleteOption::Soft,
        nested_delete_fn_names: strings(&["delete_nested_items_in_op"]),
        post_persist_error: Some("HookError"),
        forgettable_table_name: Some("orders_forgettable_payloads"),
        repo_name_snake: None,
    }
    .to_tokens(&mut code);
    let at = |part: &str| code.find(part).unwrap_or_else(|| panic!("no {part} in {code}"));
    let steps = [
        at("delete_nested_items_in_op"),
        at("DELETE FROM orders_forgettable_payloads WHERE entity_id = $1"),
        at("UPDATE orders SET status = $2, note = NULL, deleted = TRUE WHERE id = $1"),
        at("execute_post_persist_hook"),
    ];
    assert!(steps.windows(2).all(|pair| pair[0] < pair[1]), "{steps:?}");
}

#[test]
fn creating_goes_from_the_row_to_the_hooks() {
    let columns = order_columns();
    let mut code = String::new();
    CreateFn {
        table_name: "orders",
        entity: "Order",
        id: "OrderId",
        event: "OrderEvent",
        events_table_name: "order_events",
        event_ctx: false,
        forgettable_table_name: Some("orders_forgettable_payloads"),
        create_error: "OrderCreateError".to_string(),
        columns: &columns,
        nested_fn_names: strings(&["create_nested_items_in_op"]),
        post_hydrate_error: Some("InvalidOrder"),
        post_persist_error: Some("HookError"),
        repo_name_snake: None,
    }
    .to_tokens(&mut code);
    let at = |part: &str| code.find(part).unwrap_or_else(|| panic!("no {part} in {code}"));
    let steps = [
        at("INSERT INTO orders (id, status, number, created_at)"),
        at("INSERT INTO orders_forgettable_payloads"),
        at("create_nested_items_in_op"),
        at("execute_post_hydrate_hook"),
        at("execute_post_persist_hook"),
    ];
    assert!(steps.windows(2).all(|pair| pair[0] < pair[1]), "{steps:?}");
}

#[test]
fn migrations_are_looked_for_from_the_inside_out() {
    let dir = |has_migrations: bool, is_root: bool| DirFacts { has_migrations, is_root };
    let none = Vec::new();
    let find = RepositoryOptions::migrations_dir;
    assert!(matches!(find(Some(true), false, Some(true), &none), MigrationsDir::Environment));
    assert!(matches!(find(Some(false), true, Some(true), &none), MigrationsDir::Unknown));
    assert!(matches!(find(None, false, Some(true), &none), MigrationsDir::Unknown));
    assert!(matches!(find(None, true, Some(true), &none), MigrationsDir::Attribute));
    assert!(matches!(find(None, true, Some(false), &none), MigrationsDir::Unknown));
    let dirs = vec![dir(false, false), dir(true, true), dir(true, false)];
    assert!(matches!(find(None, true, None, &dirs), MigrationsDir::Ancestor(1)));
    let cut = vec![dir(false, true), dir(true, false)];
    assert!(matches!(find(None, true, None, &cut), MigrationsDir::Unknown));
    assert!(matches!(find(None, true, None, &none), MigrationsDir::Unknown));

    assert_eq!(RepositoryOptions::migrations_rerun_tokens(true, &strings(&["a.sql"])), "");
    let code = RepositoryOptions::migrations_rerun_tokens(false, &strings(&["a.sql", "b.sql"]));
    assert_eq!(code.matches("include_bytes").count(), 2);
    assert!(code.contains("\"a.sql\"") && code.contains("\"b.sql\""));
}

#[test]
fn several_rows_are_updated_at_once() {
    let columns = order_columns();
    assert_eq!(columns.sql_bulk_update_set(), "status = unnested.status, note = unnested.note");
    let (collections, pushes, bindings) = columns.update_all_arg_parts("entity");
    assert_eq!(
        collections.split_whitespace().collect::<Vec<_>>().join(" "),
        "let mut id_collection = Vec::new(); let mut status_collection = Vec::new(); \
         let mut note_collection = Vec::new();"
    );
    assert_eq!(
        pushes.split_whitespace().collect::<Vec<_>>().join(" "),
        "let id = &entity.id; let status = entity.status(); \
         let note = entity.note.value().map(|v| v.clone()); \
         id_collection.push(id); status_collection.push(status); note_collection.push(note);"
    );
    assert_eq!(
        bindings,
        [".bind(id_collection)", ".bind(status_collection)", ".bind(note_collection)"]
    );
    let assignments = columns.variable_assignments_for_update("entity");
    assert_eq!(
        assignments.split_whitespace().collect::<Vec<_>>().join(" "),
        "let id = &entity.id; let status = &entity.status(); \
         let note = &entity.note.value().map(|v| v.clone());"
    );
}

#[test]
fn snapshots_are_written_where_they_are_newer() {
    let upsert = SnapshotUpsert { table: "order_snapshots" };
    assert_eq!(
        upsert.cte_per_entity("updated.id", "FROM updated", 4, 5, 6, 7, 2),
        "snap AS (INSERT INTO order_snapshots (id, sequence, fingerprint, snapshot, first_recorded_at, recorded_at) \
         SELECT updated.id, $4::INT, $5::BIGINT, $6::JSONB, \
         COALESCE($7::TIMESTAMPTZ, COALESCE($2, NOW())), COALESCE($2, NOW()) \
         FROM updated WHERE $6::JSONB IS NOT NULL \
         ON CONFLICT (id) DO UPDATE SET sequence = EXCLUDED.sequence, fingerprint = EXCLUDED.fingerprint, \
         snapshot = EXCLUDED.snapshot, first_recorded_at = EXCLUDED.first_recorded_at, recorded_at = EXCLUDED.recorded_at \
         WHERE EXCLUDED.sequence > order_snapshots.sequence)"
    );
    assert_eq!(
        upsert.cte_batch(1, 2, 3, 4, 5, 6),
        "snap AS (INSERT INTO order_snapshots (id, sequence, fingerprint, snapshot, first_recorded_at, recorded_at) \
         SELECT u.id, u.sequence, $5::BIGINT, u.snapshot, \
         COALESCE(u.first_recorded_at, COALESCE($6, NOW())), COALESCE($6, NOW()) \
         FROM UNNEST($1, $2::INT[], $3::JSONB[], $4::TIMESTAMPTZ[]) \
         AS u(id, sequence, snapshot, first_recorded_at) \
         ON CONFLICT (id) DO UPDATE SET sequence = EXCLUDED.sequence, fingerprint = EXCLUDED.fingerprint, \
         snapshot = EXCLUDED.snapshot, first_recorded_at = EXCLUDED.first_recorded_at, recorded_at = EXCLUDED.recorded_at \
         WHERE EXCLUDED.sequence > order_snapshots.sequence)"
    );
    assert!(upsert.compact_per_entity("entity.events_mut()", "recorded_at").contains(
        "entity.events_mut().compact_to_snapshot(s, recorded_at, __snapshot_first.unwrap_or(recorded_at));"
    ));
    assert!(upsert.compact_batch("entities.iter_mut()", "at").contains(
        "entity.events_mut().compact_to_snapshot(s, at, first.unwrap_or(at));"
    ));
}

#[test]
fn snapshots_of_several_entities_are_remembered() {
    let upsert = SnapshotUpsert { table: "order_snapshots" };
    let declared = upsert.batch_declarations("OrderId");
    assert_eq!(
        declared,
        "let mut __snap_ids: Vec<&OrderId> = Vec::new();\n\
         let mut __snap_seqs: Vec<i32> = Vec::new();\n\
         let mut __snap_jsons: Vec<es_entity::prelude::serde_json::Value> = Vec::new();\n\
         let mut __snap_firsts: Vec<Option<es_entity::prelude::chrono::DateTime<es_entity::prelude::chrono::Utc>>> = Vec::new();\n\
         let mut __snapshots_to_compact = std::collections::HashMap::new();"
    );
    let gathered = upsert.gather_batch("snapshot", "events", "id");
    assert!(gathered.contains("__snapshots_to_compact.insert((id).clone(), (s, __first));"));
    for local in
        ["__snap_ids", "__snap_seqs", "__snap_firsts", "__snap_jsons", "__snapshots_to_compact"]
    {
        assert!(gathered.contains(local), "{local}");
        assert!(declared.contains(&format!("let mut {local}")), "{local}");
    }
    assert!(upsert
        .compact_batch("entities.iter_mut()", "recorded_at")
        .contains("__snapshots_to_compact.remove(&entity.id)"));
}

#[test]
fn event_statements_differ_where_they_must() {
    let insert = EventsInsert::new("order_events", true);
    let alone = insert.sql(&EventSource::BatchStandalone, 1, 2);
    let joined = insert.sql(&EventSource::BatchCte { cte: "rows" }, 1, 2);
    assert_eq!(
        joined,
        alone.replace(
            " RETURNING recorded_at",
            " JOIN rows ON rows.id = unnested.id RETURNING recorded_at"
        )
    );
    let first = insert.sql(&EventSource::PerEntityCte { cte: "row", offset_param: None }, 1, 3);
    let later = insert.sql(&EventSource::PerEntityCte { cte: "row", offset_param: Some(2) }, 1, 3);
    assert_eq!(
        later,
        first.replace("ROW_NUMBER() OVER ()", "ROW_NUMBER() OVER () + $2")
    );
    let source = EventSource::PerEntityStandalone { id_param: 1, offset_param: 3 };
    let sql = insert.sql(&source, 2, 4);
    assert_eq!(sql.matches('$').count(), insert.arg_exprs(&source).len() + 1);
    assert_eq!(joined.matches('$').count(), insert.arg_exprs(&EventSource::BatchStandalone).len());
}
