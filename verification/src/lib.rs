//! A minimal subscription service, verified: a table of signups (id,
//! email, name, subscription time), the five request handlers over it —
//! greeting, liveness probe, subscribe, list as JSON, delete by email —
//! and the route table that reaches them. Process plumbing (the HTTP
//! server, the storage round-trips, configuration) stays outside; every
//! decision about what a request means and what a response holds is
//! stated in a contract and proved.

pub mod handlers;
pub mod ids;
pub mod json;
pub mod laws;
pub mod routes;
pub mod store;
pub mod text;
pub mod time;
