//! The core of a protocol gateway: one tool-invocation endpoint in front of
//! interchangeable text-completion backends.
//!
//! A caller sends an envelope that names a tool and hands it a prefix. The
//! gateway routes the call to the backend registered under that name, and
//! normalises whatever JSON the backend answers with into one completion
//! string. The library decides and computes; listening, sending and waiting
//! are left to the program around it.
//!
//! - [`gateway`]: envelopes, routing, replies.
//! - [`registry`]: tool names and the backends behind them.
//! - [`adapter`]: what is sent to a backend, and what its answer amounts to.
//! - [`extractor`]: the completion in a backend's answer.
//! - [`config`]: what can be configured, and the defaults.
//! - [`json`]: JSON documents.
//! - [`text`]: trimming, escaping and comparing text.

pub mod adapter;
pub mod config;
pub mod extractor;
pub mod gateway;
pub mod json;
pub mod registry;
pub mod text;
