//! A minimal task-tracking backend: a repository of `Todo` items offering
//! create, find, all, update and delete, with a concurrent in-memory
//! implementation behind a reader/writer lock.

pub mod laws;
pub mod repositories;
pub mod store;
