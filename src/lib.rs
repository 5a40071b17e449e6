//! Watches a host's global IPv6 address and decides when to notify an operator
//! by mail that it changed, persisting the last address only after delivery.

pub mod config;
pub mod probe;
pub mod detector;
pub mod notifier;
