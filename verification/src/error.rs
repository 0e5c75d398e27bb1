//! Fatal error kinds: caller-contract and lifecycle violations that the
//! surrounding process must treat as unrecoverable aborts, kept distinct
//! from ordinary results.

use vstd::prelude::*;

verus! {

/// A contract violation detected at a component boundary. None of these
/// can occur under correct use of the dispatcher; the unverified shell
/// aborts on them rather than continuing in an inconsistent state.
#[derive(Clone, Copy, Debug, PartialEq, Eq, Structural)]
pub enum FatalError {
    /// A worker count above the fixed `MAX_THREADS` ceiling at init.
    TooManyWorkers,
    /// The writer was started twice without an intervening stop.
    AlreadyRunning,
}

impl FatalError {
    /// Short description for the abort message printed by the shell.
    pub fn describe(&self) -> (s: &'static str)
        ensures
            self is TooManyWorkers ==> s@ == "worker count above the supported maximum"@,
            self is AlreadyRunning ==> s@ == "writer already running"@,
    {
        match self {
            FatalError::TooManyWorkers => "worker count above the supported maximum",
            FatalError::AlreadyRunning => "writer already running",
        }
    }
}

} // verus!
