//! The relay of streaming sessions in a desktop chat client, with what the
//! client decides around it.
//!
//! The relay opens a long-lived request against the backend, decodes the
//! server-sent events of the response as they arrive, publishes them to the
//! UI, renews an expired access token once without losing the stream, and
//! stops a stream when the UI cancels its kind. Its parts:
//!
//! - [`frame`] and [`sse`]: the frame decoder;
//! - [`cancel`]: the cancellation registry, one slot per stream kind;
//! - [`auth`]: the session store and the single-flight refresh;
//! - [`relay`]: the decisions of one streaming run.
//!
//! Nothing here waits, sends or reads: the caller does, and reports what
//! happened. The other modules hold the rules of the plain requests, of the
//! configuration and of the local history.

pub mod api_client;
pub mod attachment;
pub mod auth;
pub mod branding;
pub mod cancel;
pub mod config;
pub mod deep_link;
pub mod defect;
pub mod frame;
pub mod history;
pub mod models;
pub mod open_platform;
pub mod relay;
pub mod routes;
pub mod skill;
pub mod sse;
pub mod text;
pub mod updater;
pub mod vecs;
