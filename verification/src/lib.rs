//! A typed client core for the Cloudflare API.
//!
//! The crate describes API operations as values, turns them into authenticated
//! HTTP requests against a configurable environment, and decodes the JSON
//! envelope of a response into a typed success or a structured failure.
//! Sending a request over the network is left to the caller.

pub mod framework;
