//! Sessions with a gateway.

pub mod engine;
pub mod entries;
pub mod helpers;
pub mod protocol;
pub mod requests;
