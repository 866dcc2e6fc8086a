//! Bookkeeping for a workshop's material-usage log: slugs, the material
//! catalog, log entries, the station's login state and the decisions behind
//! each request.

pub mod login;
pub mod text;
pub mod slug;
pub mod material;
pub mod failure;
pub mod catalog;
pub mod entry;
pub mod store;
pub mod routes;
pub mod laws;
