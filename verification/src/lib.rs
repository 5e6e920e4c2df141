//! Resolver logic for launching the Tact language server.
//!
//! The library decides, from plain values handed in by the host editor, how a
//! Tact language-server process is to be started: whether a user-configured
//! binary overrides everything, whether the npm package must be installed or
//! updated, which entry-point path the managed runtime is given, and how
//! paths are sanitized per platform. Every decision is a verified function;
//! the host glue performs the actual registry, settings and filesystem calls
//! and feeds their results back in.

pub mod paths;
pub mod resolver;
