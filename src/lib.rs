//! Decision logic of a supervisor that launches a companion backend
//! executable, remembers its process id on disk and makes sure it is gone
//! when the host application stops it or closes.
//!
//! Everything that touches the operating system (spawning, signals, the
//! filesystem, the loopback port) is performed by the host; this crate
//! decides what to do with what the host observed.
use vstd::prelude::*;

pub mod identity;
pub mod location;
pub mod supervisor;
pub mod termination;

verus! {

} // verus!
