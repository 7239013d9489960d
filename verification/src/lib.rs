//! A typed, ownership-safe binding core for a dynamically typed scene-graph
//! runtime.
//!
//! The foreign runtime is seen through plain values: a [`value::Value`] is the
//! host's image of one foreign value, and a [`graph::ObjectGraph`] is the
//! host's image of the foreign heap, on which property access is defined.
//! Invoking foreign code is never modelled: the library prepares an
//! invocation, the host performs it, and the library interprets the outcome.
//!
//! - [`loader`]: a load of the library's script, which settles exactly once.
//! - [`namespace`]: looking up the library's members, lazily and explicitly.
//! - [`handle`]: the generic handle, with typed reads, writes and calls.
//! - [`facade`]: the typed facades for applications, sprites and their parts.
//! - [`callback`]: the books of the per-frame callbacks.
//! - [`error`]: what can fail, and what a caller can do about it.
pub mod callback;
pub mod error;
pub mod facade;
pub mod graph;
pub mod handle;
pub mod loader;
pub mod namespace;
pub mod value;
