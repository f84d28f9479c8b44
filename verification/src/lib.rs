//! Type-system runtime for a reactive graph model.
//!
//! The crate keeps registries of type definitions (components, entity types
//! and relation types), fans behaviour requests out to behaviour providers,
//! and drives the lifecycle of plugins that contribute types and behaviours.
//! Every executable function carries a contract that is proved by Verus.

pub mod model;
pub mod text;
pub mod identifier;
pub mod wildcard;
pub mod names;
pub mod sequences;
pub mod api;
pub mod plugins;
pub mod implementation;
pub mod laws;
pub mod plugin;
