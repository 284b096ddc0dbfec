//! A product catalog kept in two places at once: an authoritative primary
//! store and a derived search index that mirrors it.
//!
//! The primary store is the source of truth; the search index is a replica
//! with no independent write path. Every mutation applies to the primary
//! store first and is then propagated to the index, so the index never holds
//! a record that the primary store has not seen.

pub mod analytics;
pub mod catalog;
pub mod database;
pub mod http;
pub mod index;
pub mod laws;
pub mod model;
pub mod product;
pub mod profile;
pub mod store;
pub mod structures;
pub mod text;
