# es_entity_repo

The code of event-sourced repositories, derived from the options that describe
them. A struct is annotated with the entity it stores, its columns and its
hooks; the library turns those options into the Rust and SQL text of the
repository's functions: `create`, `find_by_*`, `list_by_*`, `list_for_*`,
`delete`, `forget`, the functions of nested repositories, and the types they
need.

The library is written in [Verus](https://github.com/verus-lang/verus). Every
function that emits code states the text it emits, and what the text relies on
is proved: that the parameters of a query and its arguments are in step, that
each combination of filters is matched once, that a page holds the rows behind
its cursor, that the steps of a write come in order, that the helpers by which
nested entities are created, found and deleted are emitted. The functions that
`forget` calls for nested entities are not emitted: a repository with nested
entities that can be forgotten has them beside what is derived.

## Layout

- `src/options/`: the options. `meta` holds the items of an attribute, `texts`
  reads the texts among them, `reading` and `attributes` read columns and
  repositories from them, `validate` says which options are rejected, and
  `column`, `columns` and `repository` hold what was read.
- `src/text.rs`, `src/naming.rs`, `src/types.rs`, `src/tokens.rs`: text, names,
  and Rust types as the emitted code mentions them.
- `src/create_fn.rs`, `src/find_by_fn.rs`, ...: one module for each group of
  emitted functions. Each has a spec function with the text it emits and an
  executable function that emits it.
- `src/filter_states.rs`, `src/filters_struct.rs`, `src/filters_code.rs`,
  `src/list_for_filters_fn.rs`: lists with several filters, whose queries are
  chosen by the state of each filter.
- `src/keyset.rs`: what the conditions of a page mean. `src/placeholders.rs`: the
  parameters that a statement mentions.
- `src/es_repo.rs`: the repository as a whole; `src/determined.rs`: its code
  depends on the options alone.
- `tests/`: what is emitted for concrete options.
- `app/`: the derive macro around the library, which reads the annotated struct
  and the migrations.

## Outside crates

`convert_case` changes the case of names, `pluralizer` finds plurals, `syn` says
what is a type, an expression or an identifier, and `quote` writes types and
expressions out. The functions that call them are marked
`#[verifier::external_body]`; their contracts are believed. What `syn` makes of a
text depends on whether the program is a macro, so their contracts only say that
a result is a reading of the text. `texts` reads the texts of an attribute; all
that follows is stated for whatever they were read as.
