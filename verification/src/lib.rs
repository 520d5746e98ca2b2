//! A typed client library for a bot messaging HTTP/JSON API.
//!
//! The library covers the three pieces that carry the design weight:
//! the conversion layer that turns loosely-typed wire records into
//! validated domain values (`responses`), the long-poll update stream
//! state machine (`stream`), and the dispatch/routing rules for the
//! response envelope and timeout budget (`api`). Transport, TLS and
//! JSON (de)serialization live outside the library and hand it plain
//! values.

pub mod api;
pub mod error;
pub mod raw;
pub mod requests;
pub mod responses;
pub mod stream;
pub mod text;
