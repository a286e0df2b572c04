//! The server's domains: fetchers, notifiers and subscriptions.

pub mod fetcher;
pub mod notifier;
pub mod subscription;
