//! Core of an image-resizing HTTP service: request admission, parameter
//! validation, random asset selection, cache-key and path derivation, the
//! codec step, health monitoring, and the typed responses each step produces.
//!
//! Network and filesystem I/O live outside this crate; every function here is
//! a decision or a computation on plain values, stated and verified.

pub mod cache;
pub mod codec;
pub mod config;
pub mod errors;
pub mod health;
pub mod limiter;
pub mod numfmt;
pub mod pipeline;
pub mod response;
pub mod selector;
