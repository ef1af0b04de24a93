use es_entity_repo::events_write::{EventSource, EventsInsert};
use proc_macro2::{Group, Punct, Spacing, TokenStream};

const OPERATORS: [&str; 16] = [
    "..=", "...", "::", "->", "=>", "&&", "||", "==", "!=", "<=", ">=", "..", "+=", "-=", "*=",
    "/=",
];

fn push_puncts(run: &str, out: &mut Vec<proc_macro2::TokenTree>) {
    let mut rest = run;
    while let Some(first) = rest.chars().next() {
        let operator = OPERATORS.iter().find(|operator| rest.starts_with(**operator));
        let text = operator.map_or(&rest[..first.len_utf8()], |operator| *operator);
        for (i, c) in text.char_indices() {
            let joint = i + 1 < text.len() || c == '\'';
            let spacing = if joint { Spacing::Joint } else { Spacing::Alone };
            out.push(proc_macro2::TokenTree::Punct(Punct::new(c, spacing)));
        }
        rest = &rest[text.len()..];
    }
}

fn spaced(tokens: TokenStream) -> TokenStream {
    let mut out = Vec::new();
    let mut run = String::new();
    for tree in tokens {
        match tree {
            proc_macro2::TokenTree::Punct(punct) => {
                run.push(punct.as_char());
                if punct.spacing() == Spacing::Alone {
                    push_puncts(&run, &mut out);
                    run.clear();
                }
            }
            proc_macro2::TokenTree::Group(group) => {
                out.push(proc_macro2::TokenTree::Group(Group::new(group.delimiter(), spaced(group.stream()))))
            }
            other => {
                push_puncts(&run, &mut out);
                run.clear();
                out.push(other);
            }
        }
    }
    push_puncts(&run, &mut out);
    out.into_iter().collect()
}

fn norm(code: &str) -> String {
    spaced(code.parse().expect("code is made of tokens")).to_string()
}

#[test]
fn per_entity_sql_without_offset_matches_create() {
    let insert = EventsInsert::new("entity_events", false);
    let source = EventSource::PerEntityCte {
        cte: "new_row",
        offset_param: None,
    };
    assert_eq!(
        insert.sql(&source, 2, 3),
        "INSERT INTO entity_events (id, recorded_at, sequence, event_type, event) \
         SELECT new_row.id, COALESCE($2, NOW()), ROW_NUMBER() OVER (), unnested.event_type, unnested.event \
         FROM new_row CROSS JOIN UNNEST($3::TEXT[], $4::JSONB[]) AS unnested(event_type, event) \
         RETURNING recorded_at"
    );
}

#[test]
fn per_entity_sql_with_offset_and_context() {
    let insert = EventsInsert::new("entity_events", true);
    let source = EventSource::PerEntityCte {
        cte: "updated",
        offset_param: Some(4),
    };
    assert_eq!(
        insert.sql(&source, 3, 5),
        "INSERT INTO entity_events (id, recorded_at, sequence, event_type, event, context) \
         SELECT updated.id, COALESCE($3, NOW()), ROW_NUMBER() OVER () + $4, unnested.event_type, unnested.event, unnested.context \
         FROM updated CROSS JOIN UNNEST($5::TEXT[], $6::JSONB[], $7::JSONB[]) AS unnested(event_type, event, context) \
         RETURNING recorded_at"
    );
}

#[test]
fn batch_sql_joins_the_cte() {
    let insert = EventsInsert::new("entity_events", false);
    let source = EventSource::BatchCte { cte: "new_rows" };
    assert_eq!(
        insert.sql(&source, 1, 4),
        "INSERT INTO entity_events (id, recorded_at, sequence, event_type, event) \
         SELECT unnested.id, COALESCE($1, NOW()), unnested.sequence, unnested.event_type, unnested.event \
         FROM UNNEST($4, $5::INT[], $6::TEXT[], $7::JSONB[]) AS unnested(id, sequence, event_type, event) \
         JOIN new_rows ON new_rows.id = unnested.id \
         RETURNING recorded_at"
    );
}

#[test]
fn arg_exprs_follow_placeholder_order() {
    let insert = EventsInsert::new("entity_events", false);
    let per_entity = insert.arg_exprs(&EventSource::PerEntityCte {
        cte: "updated",
        offset_param: Some(3),
    });
    let rendered: Vec<_> = per_entity.iter().map(|t| norm(t)).collect();
    assert_eq!(
        rendered,
        vec![
            "op . maybe_now ()",
            "offset as i32",
            "& events_types",
            "& serialized_events"
        ]
    );
}

#[test]
fn names_with_a_dollar_sign_add_no_parameter() {
    let insert = EventsInsert::new("my$events$", false);
    let source = EventSource::PerEntityCte { cte: "new$row", offset_param: Some(2) };
    let statement = insert.sql(&source, 1, 3);
    assert!(statement.starts_with("INSERT INTO my$events$ (id"));
    let numbers: Vec<&str> = statement
        .split('$')
        .skip(1)
        .map(|rest| &rest[..rest.find(|c: char| !c.is_ascii_digit()).unwrap_or(rest.len())])
        .filter(|digits| !digits.is_empty())
        .collect();
    assert_eq!(numbers, ["1", "2", "3", "4"]);
    assert_eq!(insert.arg_exprs(&source).len(), numbers.len());
}
