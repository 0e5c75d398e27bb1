//! The batch writer's lifecycle: a `Stopped -> Running -> Draining ->
//! Stopped` state machine. Starting twice without an intervening stop is
//! a fatal contract violation, never a silent no-op. The unverified
//! shell drives this machine: it spawns the writer thread on a
//! successful start, signals it through the stop request, and marks the
//! machine stopped once the thread has drained its batch and joined.

use vstd::prelude::*;
use crate::error::FatalError;

verus! {

/// Lifecycle phase of the batch writer.
#[derive(Clone, Copy, Debug, PartialEq, Eq, Structural)]
pub enum WriterPhase {
    /// No writer thread exists; starting is allowed.
    Stopped,
    /// The writer thread consumes records and flushes per policy.
    Running,
    /// A stop was requested; the writer flushes what is pending and exits.
    Draining,
}

/// The writer lifecycle state machine.
pub struct WriterControl {
    phase: WriterPhase,
}

impl WriterControl {
    /// The current lifecycle phase.
    pub closed spec fn phase(self) -> WriterPhase {
        self.phase
    }

    /// A writer that has never run.
    pub fn new() -> (w: WriterControl)
        ensures
            w.phase() == WriterPhase::Stopped,
    {
        WriterControl { phase: WriterPhase::Stopped }
    }

    /// Transition to Running. Succeeds exactly from Stopped; from any
    /// other phase it is the double-start contract violation and the
    /// machine is left unchanged.
    pub fn start(&mut self) -> (r: Result<(), FatalError>)
        ensures
            r is Ok <==> old(self).phase() == WriterPhase::Stopped,
            r is Ok ==> final(self).phase() == WriterPhase::Running,
            r matches Err(e) ==> e == FatalError::AlreadyRunning && *final(self) == *old(self),
    {
        match self.phase {
            WriterPhase::Stopped => {
                self.phase = WriterPhase::Running;
                Ok(())
            },
            _ => Err(FatalError::AlreadyRunning),
        }
    }

    /// Request a stop: the writer enters Draining from any phase (a stop
    /// of an already stopped or draining writer is idempotent-safe).
    pub fn request_stop(&mut self)
        ensures
            final(self).phase() == WriterPhase::Draining,
    {
        self.phase = WriterPhase::Draining;
    }

    /// Record that the writer thread has flushed its final batch and
    /// exited; only a draining writer can be marked stopped.
    pub fn mark_stopped(&mut self)
        requires
            old(self).phase() == WriterPhase::Draining,
        ensures
            final(self).phase() == WriterPhase::Stopped,
    {
        self.phase = WriterPhase::Stopped;
    }

    /// Whether the writer loop should keep consuming records.
    pub fn is_running(&self) -> (b: bool)
        ensures
            b == (self.phase() == WriterPhase::Running),
    {
        match self.phase {
            WriterPhase::Running => true,
            _ => false,
        }
    }
}

} // verus!
