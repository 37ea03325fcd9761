use vstd::prelude::*;

verus! {

/// The state behind a message stream: exactly one receive is in flight, and
/// each receive that completes hands its handle straight to the next one.
///
/// `pending` holds the handle between the completion of one receive and the
/// start of the next; it is empty while a receive is in flight.
pub struct ReceiveRelay<H> {
    pending: Option<H>,
    produced: u64,
}

impl<H> ReceiveRelay<H> {
    /// The handle waiting for its receive to be started.
    pub closed spec fn pending(&self) -> Option<H> {
        self.pending
    }

    /// How many elements the stream has produced.
    pub closed spec fn produced(&self) -> nat {
        self.produced as nat
    }

    /// A relay around a fresh handle, whose first receive is yet to start.
    pub fn new(handle: H) -> (r: Self)
        ensures
            r.pending() == Some(handle),
            r.produced() == 0,
    {
        ReceiveRelay { pending: Some(handle), produced: 0 }
    }

    /// Whether a receive is in flight.
    pub fn in_flight(&self) -> (r: bool)
        ensures
            r == self.pending().is_none(),
    {
        self.pending.is_none()
    }

    /// Hands the waiting handle to a new receive; `None` while one is
    /// already in flight, so that there is never a second.
    pub fn start(&mut self) -> (r: Option<H>)
        ensures
            r == old(self).pending(),
            final(self).pending().is_none(),
            final(self).produced() == old(self).produced(),
    {
        self.pending.take()
    }

    /// Takes a completed receive: its handle is kept for the next receive
    /// whether the receive succeeded or failed, and its result, error or
    /// message, is the stream's next element. The stream never ends here.
    pub fn complete<M, E>(&mut self, result: Result<M, E>, returned: H) -> (r: Option<Result<M, E>>)
        requires
            old(self).pending().is_none(),
        ensures
            r == Some(result),
            final(self).pending() == Some(returned),
            final(self).produced() == if old(self).produced() < u64::MAX {
                old(self).produced() + 1
            } else {
                old(self).produced()
            },
    {
        self.pending = Some(returned);
        self.produced = self.produced.saturating_add(1);
        Some(result)
    }

    /// How many elements the stream has produced, saturating at `u64::MAX`.
    pub fn produced_count(&self) -> (r: u64)
        ensures
            r == self.produced(),
    {
        self.produced
    }
}

} // verus!
