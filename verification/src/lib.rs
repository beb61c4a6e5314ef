//! Core logic of a three-stage event pipeline: inbound events are buffered,
//! enriched with a block timestamp, and persisted to a relational store
//! through a reconnect-tolerant writer.

pub mod checkpoint;
pub mod config;
pub mod data;
pub mod error;
pub mod pipeline;
pub mod render;

use vstd::prelude::*;

verus! {

} // verus!
