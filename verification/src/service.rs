//! The arXiv service built on the framework: paper criteria and notifiers,
//! email settings, user email addresses, and the subscription API's responses.

pub mod api;
pub mod arxiv;
pub mod email;
pub mod user;
