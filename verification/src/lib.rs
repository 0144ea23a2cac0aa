//! A minimal notification relay: the decision logic of a small HTTP service
//! that authenticates a trigger request against a shared secret and forwards
//! a fixed notification to a webhook endpoint, counting valid pings.
//!
//! This crate holds the verified core: authentication (bearer-token mode and
//! the alternative body-as-secret mode), the routing decision for each
//! endpoint, the fixed notification payload, and the ping counter. The host
//! program around it performs the actual HTTP listening and the outbound
//! webhook call, consulting these functions for every decision.

pub mod auth;
pub mod config;
pub mod counter;
pub mod payload;
pub mod service;
pub mod text;
pub mod utf8check;
