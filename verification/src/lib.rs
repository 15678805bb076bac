//! Storage rules of a small image service: where originals, resized
//! derivatives and per-project history logs live, how a derivative is
//! produced and published on first request, and how a history log grows.
//!
//! The library performs no I/O. It names the objects to read and write and
//! decides what to do with what was read; the host carries the actions out.

pub mod fault;
pub mod names;
pub mod codec;
pub mod identity;
pub mod cache;
pub mod json;
pub mod history;
pub mod model;
pub mod content;
