//! Watches GitHub repositories for new releases and turns each new release
//! into alert messages for Slack and WeChat webhooks.
//!
//! This crate holds the verified core: the data model, the decisions taken
//! around the release store, the retry policy, and the exact bytes of the
//! HTTP requests that are sent.

pub mod cli;
pub mod common;
pub mod params;
pub mod server;
