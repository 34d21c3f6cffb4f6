//! A multi-backend relational-database adapter for time-indexed numeric rows.
//!
//! The crate models a small database-abstraction layer: per-backend SQL
//! dialects, a schema-reconciliation planner that converges a live table to a
//! desired column set by additive DDL only, a row buffer and batched writer
//! for time-indexed data, and typed decoding of query results. Everything
//! that computes is verified; the I/O that carries the statements to a driver
//! lives outside this crate.

use vstd::prelude::*;

pub mod buffer;
pub mod column;
pub mod datatype;
pub mod decode;
pub mod dialect;
pub mod error;
pub mod parameter;
pub mod path;
pub mod provider;
pub mod reconcile;
pub mod registry;
pub mod statements;
pub mod strutil;
pub mod template;
pub mod writer;

verus! {

/// The number of buffered rows at which a batched writer flushes.
pub const FLUSH_THRESHOLD: usize = 240;

} // verus!
