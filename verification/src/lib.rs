//! Client-side streaming layer for a container-engine daemon.
//!
//! The daemon answers control requests with buffered JSON bodies and
//! streaming requests with one of two encodings: a compact binary
//! multiplex framing that interleaves stdin/stdout/stderr on one
//! connection, or newline-delimited JSON records. This crate holds the
//! verified decoding logic for both encodings, the request-shaping
//! types around them, and the per-stream session state machines that an
//! I/O driver polls.

mod bytebuf;
pub mod conn;
pub mod error;
pub mod exec;
pub mod lines;
pub mod records;
pub mod service;
pub mod session;
pub mod tty;
