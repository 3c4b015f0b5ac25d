//! Batch file renaming and audio tag editing, verified.
//!
//! Two pipelines share one shape: filter a directory listing, compute a
//! per-file transform, and commit it. This crate holds the decision and
//! computation core of both pipelines with proved contracts; the thin shell
//! that touches the filesystem supplies plain values (file names, directory
//! listings, step outcomes) and carries the computed actions out.

pub mod config;
pub mod errors;
pub mod id3tag;
pub mod names;
pub mod protocol;
pub mod rename;
pub mod tags;
