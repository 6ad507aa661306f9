//! A small webhook relay library: it resolves an inbound route name to a
//! configured destination URL, reshapes an alert payload into the rich
//! message the destination expects, and fixes the HTTP responses the relay
//! gives its callers.

pub mod config;
pub mod error;
pub mod message;
pub mod relay;
pub mod resolve;
pub mod text;
