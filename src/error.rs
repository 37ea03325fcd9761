use vstd::prelude::*;

verus! {

/// Failure of a session operation.
#[derive(Debug, PartialEq, Eq)]
pub enum CommError<E> {
    /// The operation found the session's slot empty: an earlier operation
    /// has not handed its handle back.
    SessionUnavailable,
    /// An error reported by the middleware, passed on as it came.
    Underlying(E),
    /// The deadline passed before the response arrived.
    Timeout,
}

impl<E> CommError<E> {
    /// Whether this is the error of an empty slot.
    pub fn is_session_unavailable(&self) -> (r: bool)
        ensures
            r == (self is SessionUnavailable),
    {
        match self {
            CommError::SessionUnavailable => true,
            _ => false,
        }
    }

    /// Whether this is the error of an elapsed deadline.
    pub fn is_timeout(&self) -> (r: bool)
        ensures
            r == (self is Timeout),
    {
        match self {
            CommError::Timeout => true,
            _ => false,
        }
    }
}

} // verus!
