//! The sync run: which step comes next, and what follows from how it
//! ended.

pub mod laws;
pub mod model;
pub mod run;
