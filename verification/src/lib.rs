//! Relay of issue-tracker comment webhooks to direct messages.
//!
//! A comment webhook is classified, the tracked users that the comment
//! mentions are looked up in the account directory, and one direct message
//! is prepared for each of them. Everything here is a function from values
//! to values; receiving the webhook and posting the messages is left to the
//! caller, which is told by [`dispatcher::Relay`] what to do next.

pub mod app_config;
pub mod account_mapping;
pub mod text;
pub mod pattern;
pub mod backlog_webhook_parser;
pub mod slack_api;
pub mod dispatcher;
