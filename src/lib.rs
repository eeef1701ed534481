//! Incremental Glicko-2 rating engine: player registry, match evidence and
//! lazy closing of rating periods, verified with Verus.
//!
//! The engine is generic over the rating payload `R`: the numeric Glicko-2
//! update of one player for one period is handed in by the caller as a
//! closure, and the engine decides when periods close, which evidence each
//! update sees, and that each close is applied to every player or to none.
use vstd::prelude::*;

pub mod engine;
pub mod error;
pub mod result;
pub mod lemmas;
pub mod store;
