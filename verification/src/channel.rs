//! The per-thread producer table: a fixed array of `MAX_THREADS`
//! endpoints, one per possible worker index, all clones of a single
//! prototype whose consumer end the writer thread owns. Generic in the
//! endpoint type; the unverified shell instantiates it with the channel
//! sender.

use vstd::prelude::*;
use crate::MAX_THREADS;
use crate::error::FatalError;

verus! {

/// Fixed table mapping each worker index to its producer endpoint, built
/// once at startup and never changed afterwards.
pub struct ChannelTable<S> {
    senders: Vec<S>,
}

impl<S: Clone> ChannelTable<S> {
    /// The endpoints, one per slot.
    pub closed spec fn slots(self) -> Seq<S> {
        self.senders@
    }

    /// The table always holds exactly `MAX_THREADS` endpoints.
    pub open spec fn wf(self) -> bool {
        self.slots().len() == MAX_THREADS
    }

    /// Build the table: `MAX_THREADS` clones of the prototype endpoint.
    /// A worker count above the fixed ceiling is a fatal configuration
    /// error, rejected before anything is built.
    pub fn init(worker_count: usize, prototype: S) -> (r: Result<ChannelTable<S>, FatalError>)
        ensures
            r is Ok <==> worker_count <= MAX_THREADS,
            r matches Err(e) ==> e == FatalError::TooManyWorkers,
            r matches Ok(t) ==> {
                &&& t.wf()
                &&& forall|i: int| 0 <= i < MAX_THREADS ==> cloned(prototype, #[trigger] t.slots()[i])
            },
    {
        if worker_count > MAX_THREADS {
            return Err(FatalError::TooManyWorkers);
        }
        let mut senders: Vec<S> = Vec::new();
        while senders.len() < MAX_THREADS
            invariant
                senders.len() <= MAX_THREADS,
                forall|i: int| 0 <= i < senders.len() ==> cloned(prototype, #[trigger] senders@[i]),
            decreases MAX_THREADS - senders.len(),
        {
            senders.push(prototype.clone());
        }
        Ok(ChannelTable { senders })
    }

    /// The endpoint for worker `thread`, in O(1): always the same slot
    /// for the same index, for the lifetime of the table.
    pub fn get_producer(&self, thread: usize) -> (s: &S)
        requires
            self.wf(),
            thread < MAX_THREADS,
        ensures
            *s == self.slots()[thread as int],
    {
        &self.senders[thread]
    }
}

} // verus!
