//! The REST server's data and the decisions of its handlers.

pub mod common;
pub mod domains;
