//! Control plane of a small HTTP server: a versioned configuration record updated only
//! by compare-and-swap, the lifecycle state machine of the listener, the mapping of
//! command line verbs to work and exit codes, and the bodies of the probe routes.

use vstd::prelude::*;

pub mod args;
pub mod config;
pub mod control;
pub mod http;
pub mod input;
pub mod laws;
pub mod lifecycle;
pub mod store;

verus! {

} // verus!
