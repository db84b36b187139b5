//! Sample tables, plans and data blocks for exercising a query engine.

pub mod append;
pub mod block;
pub mod config;
pub mod decimal;
pub mod fixture;
pub mod guard;
pub mod laws;
pub mod plan;
pub mod plan_laws;
pub mod samples;
pub mod schema;
pub mod session;
pub mod source;
pub mod value_laws;
pub mod variant;
pub mod view_laws;
pub mod workflow;
