//! What the server's domains share: the response wrapper, errors, and checks.

pub mod dto;
pub mod error;
pub mod handlers;
pub mod utils;
