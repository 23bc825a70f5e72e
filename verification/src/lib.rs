//! Verified core of a small social posting backend: the row types it stores,
//! the decisions taken while serving requests (authentication, post listing,
//! post details, favorites) and the replies given for each outcome.
//!
//! Database and network access are performed by the caller: each operation is
//! a flow that asks for one [`cruds::Query`] at a time and is fed the
//! [`cruds::Answer`] that came back.
mod identifiers;

pub mod models;
pub mod auth;
pub mod cruds;
pub mod middle;
pub mod routers;
pub mod laws;
