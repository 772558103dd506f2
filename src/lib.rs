//! A chain-registry browser: a per-session menu state machine, a time-bounded
//! cache of registry records, and a selector of live network endpoints.

pub mod cache;
pub mod health;
pub mod json;
pub mod queries;
pub mod registry;
pub mod render;
pub mod session;
pub mod text;
