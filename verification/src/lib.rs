//! Persistence engine for short text notes ("buffers") over an embedded
//! SQLite store: connection management, schema and full-text-index upkeep,
//! the buffer and settings operations, and daily backup rotation.
//!
//! Everything the engine decides — size validation, title and preview
//! derivation, search-input sanitisation, settings overlay, backup naming and
//! pruning — is verified against the specifications in each module. The
//! driver calls themselves stand behind the trusted wrappers of `sqlite`,
//! whose contracts state no more than the statement texts show.
pub mod backup;
pub mod commands;
pub mod connection;
pub mod errors;
pub mod fts;
pub mod num;
pub mod queries;
pub mod schema;
pub mod sqlite;
pub mod text;
