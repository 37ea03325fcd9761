use vstd::prelude::*;
use crate::error::CommError;

verus! {

/// What a check-out on a session whose slot was `slot` returns.
pub open spec fn check_out_result<H, E>(slot: Option<H>) -> Result<H, CommError<E>> {
    match slot {
        Some(h) => Ok(h),
        None => Err(CommError::SessionUnavailable),
    }
}

/// A single-occupancy slot holding the one handle of a communication
/// endpoint. It is empty exactly while an operation has the handle checked
/// out.
pub struct SessionHandle<H> {
    slot: Option<H>,
}

impl<H> SessionHandle<H> {
    /// What the slot holds.
    pub closed spec fn slot(&self) -> Option<H> {
        self.slot
    }

    /// A session around a freshly created handle.
    pub fn new(handle: H) -> (r: Self)
        ensures
            r.slot() == Some(handle),
    {
        SessionHandle { slot: Some(handle) }
    }

    /// Whether the handle is in the slot, so that an operation may start.
    pub fn is_available(&self) -> (r: bool)
        ensures
            r == self.slot().is_some(),
    {
        self.slot.is_some()
    }

    /// Takes the handle out for one operation. An empty slot means that
    /// another operation holds it: that caller is refused, never let in.
    pub fn check_out<E>(&mut self) -> (r: Result<H, CommError<E>>)
        ensures
            final(self).slot().is_none(),
            r == check_out_result::<H, E>(old(self).slot()),
    {
        match self.slot.take() {
            Some(h) => Ok(h),
            None => Err(CommError::SessionUnavailable),
        }
    }

    /// Puts a handle back into the empty slot once an operation is over.
    pub fn restore(&mut self, handle: H)
        requires
            old(self).slot().is_none(),
        ensures
            final(self).slot() == Some(handle),
    {
        self.slot = Some(handle);
    }

    /// Gives up the session, handing out the handle if it is present.
    pub fn into_inner(self) -> (r: Option<H>)
        ensures
            r == self.slot(),
    {
        self.slot
    }
}

/// One operation at a time: whatever the slot held, once one check-out has
/// taken the handle, a second check-out before it is restored is refused
/// with `SessionUnavailable`, and the two never share the handle.
pub proof fn lemma_single_flight<H, E>(session: SessionHandle<H>, after_first: SessionHandle<H>)
    requires
        after_first.slot().is_none(),
    ensures
        check_out_result::<H, E>(after_first.slot()) == Err::<H, CommError<E>>(CommError::SessionUnavailable),
        check_out_result::<H, E>(session.slot()) is Ok <==> session.slot() is Some,
{
}

} // verus!
