//! Incremental mirroring of a numbered comic catalog: the decisions of a
//! synchronisation run and the rendering of its progress line.

pub mod catalog;
pub mod cli_progress;
pub mod store;
pub mod sync;
pub mod text;
