//! Resolution of numeric content identifiers into typed content records.
//!
//! The library never talks to a store itself. A resolution is a small state
//! machine: it hands out the next query, is fed the store's reply, and ends
//! with an envelope or an error. Whoever drives it owns the connection.

pub mod text;
pub mod error;
pub mod discriminator;
pub mod alias;
pub mod store;
pub mod uuid;
pub mod comment;
pub mod page;
pub mod transaction;
pub mod context;
pub mod engine;
pub mod run;
pub mod named;
pub mod event;
pub mod entity_revision;
