//! Runs a child process under one of four redirection policies for its output
//! streams, and drains piped output so that a full pipe cannot stall the child.
use vstd::prelude::*;

pub mod launch;
pub mod policy;
pub mod relay;
pub mod run;

verus! {

} // verus!
