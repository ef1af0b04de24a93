//! Source text for event-sourced repositories: from the options that describe
//! a repository to the Rust and SQL text of its functions.

pub mod begin;
pub mod choosing;
pub mod combo_cursor;
pub mod create_all_fn;
pub mod create_fn;
pub mod creating;
pub mod delete_fn;
pub mod determined;
pub mod emitting;
pub mod erasing;
pub mod error_classifier;
pub mod error_types;
pub mod es_repo;
pub mod events_write;
pub mod failing;
pub mod filter_states;
pub mod filtering;
pub mod filters_code;
pub mod filters_struct;
pub mod find_all_fn;
pub mod find_by_fn;
pub mod find_many;
pub mod finding;
pub mod forget_fn;
pub mod hydrate_nested;
pub mod index_catalog;
pub mod instrument;
pub mod keyset;
pub mod list_by_fn;
pub mod list_for_filter_fn;
pub mod list_for_filters_fn;
pub mod list_for_fn;
pub mod listing;
pub mod naming;
pub mod nested;
pub mod nesting;
pub mod options;
pub mod paging;
pub mod persist_events_batch_fn;
pub mod persist_events_fn;
pub mod placeholders;
pub mod populate_nested;
pub mod populating;
pub mod post_hydrate_hook;
pub mod post_persist_hook;
pub mod queries;
pub mod recording;
pub mod scope;
pub mod scoping;
pub mod sql;
pub mod text;
pub mod tokens;
pub mod types;
