//! Watchdog: a subscription framework in which fetchers gather content,
//! subscriptions select the content a user cares about, and notifiers
//! deliver it.

pub mod clock;
pub mod error;
pub mod fetcher;
pub mod fetchers;
pub mod keyed;
pub mod mail;
pub mod notifiers;
pub mod server;
pub mod service;
pub mod subscription;
pub mod text;
pub mod watchdog;

