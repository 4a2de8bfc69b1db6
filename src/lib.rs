//! Decisions of a configuration-file watcher: which filesystem events matter,
//! when a burst of them is over, and how a dead watch is recovered.
use vstd::prelude::*;

pub mod event;
pub mod runs;
pub mod session;

verus! {

} // verus!
