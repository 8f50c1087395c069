//! The request-dispatch pipeline of a small HTTP backend: a router over four
//! handlers (health probe, metrics snapshot, JSON processing, binary
//! passthrough), wrapped by an access-logging stage and a CORS stage. Every
//! response's status, body, content type, headers and log records are pinned
//! by the contracts in [`pipeline`]; the server loop and all I/O live outside
//! this crate and only feed requests in and write responses out.

pub mod cors;
pub mod digits;
pub mod handlers;
pub mod http;
pub mod logging;
pub mod pipeline;
pub mod router;
