//! The options that describe a repository.

pub mod attributes;
pub mod column;
pub mod columns;
pub mod delete;
pub mod error;
pub mod meta;
pub mod reading;
pub mod repository;
pub mod texts;
pub mod validate;
