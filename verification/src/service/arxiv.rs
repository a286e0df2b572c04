//! arXiv papers, criteria that select them, and a notifier that announces them.

pub mod criteria;
pub mod model;
pub mod notifier;
