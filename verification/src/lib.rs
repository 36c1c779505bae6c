//! A persistent ledger of short text posts: identifier allocation, an ordered
//! entity store, a registry of unique usernames, and the post and profile
//! operations built on them.

pub mod allocator;
pub mod error;
pub mod laws;
pub mod ledger;
pub mod model;
pub mod records;
pub mod registry;
pub mod store;
