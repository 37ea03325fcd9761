use vstd::prelude::*;
use crate::error::CommError;
use crate::session::{check_out_result, SessionHandle};

verus! {

/// How one request/response exchange of a client ended.
#[derive(Debug, PartialEq, Eq)]
pub enum Exchange<H, R, E> {
    /// The response arrived, together with the advanced client handle.
    Answered { handle: H, response: R },
    /// Awaiting the response failed; the base handle was reclaimed by
    /// giving up the exchange.
    Failed { recovered: H, error: E },
    /// The middleware refused the request itself; the handle, consumed by
    /// the refused send, is gone.
    Rejected(E),
}

impl<H, R, E> Exchange<H, R, E> {
    /// The handle that the exchange hands back, if any.
    pub open spec fn returned_handle(&self) -> Option<H> {
        match self {
            Exchange::Answered { handle, .. } => Some(*handle),
            Exchange::Failed { recovered, .. } => Some(*recovered),
            Exchange::Rejected(_) => None,
        }
    }

    /// What the caller of the exchange is told.
    pub open spec fn outcome(&self) -> Result<R, CommError<E>> {
        match self {
            Exchange::Answered { response, .. } => Ok(*response),
            Exchange::Failed { error, .. } => Err(CommError::Underlying(*error)),
            Exchange::Rejected(error) => Err(CommError::Underlying(*error)),
        }
    }
}

/// The slot after one send on a session whose slot was `slot`: an empty slot
/// refuses the send and stays empty; otherwise the exchange decides.
pub open spec fn slot_after_send<H, R, E>(slot: Option<H>, x: Exchange<H, R, E>) -> Option<H> {
    if slot is None {
        None
    } else {
        x.returned_handle()
    }
}

/// What one send on a session whose slot was `slot` returns.
pub open spec fn result_of_send<H, R, E>(slot: Option<H>, x: Exchange<H, R, E>) -> Result<R, CommError<E>> {
    if slot is None {
        Err(CommError::SessionUnavailable)
    } else {
        x.outcome()
    }
}

/// The slot after a series of sends, one for each exchange of `xs`, on a
/// session whose slot was `slot`.
pub open spec fn slot_after_sends<H, R, E>(slot: Option<H>, xs: Seq<Exchange<H, R, E>>) -> Option<H>
    decreases xs.len(),
{
    if xs.len() == 0 {
        slot
    } else {
        slot_after_send(slot_after_sends(slot, xs.drop_last()), xs.last())
    }
}

/// A session that starts with its handle keeps it through any series of
/// sends, whether each exchange was answered or failed: after every send the
/// slot holds a handle again, so the next send is never refused. Only an
/// exchange whose request the middleware rejected, keeping the handle,
/// empties it.
pub proof fn lemma_slot_liveness<H, R, E>(handle: H, xs: Seq<Exchange<H, R, E>>)
    requires
        forall|i: int| 0 <= i < xs.len() ==> !(xs[i] is Rejected),
    ensures
        forall|n: int| 0 <= n <= xs.len() ==> (#[trigger] slot_after_sends(Some(handle), xs.take(n))) is Some,
    decreases xs.len(),
{
    if xs.len() > 0 {
        let init = xs.drop_last();
        lemma_slot_liveness(handle, init);
        assert forall|n: int| 0 <= n <= xs.len() implies (#[trigger] slot_after_sends(Some(handle), xs.take(n))) is Some by {
            if n < xs.len() {
                assert(xs.take(n) =~= init.take(n));
            } else {
                assert(xs.take(n) =~= xs);
                assert(init.take(init.len() as int) =~= init);
                assert(slot_after_sends(Some(handle), init.take(init.len() as int)) is Some);
                assert(!(xs.last() is Rejected));
            }
        }
    } else {
        assert forall|n: int| 0 <= n <= xs.len() implies (#[trigger] slot_after_sends(Some(handle), xs.take(n))) is Some by {
            assert(xs.take(n).len() == 0);
        }
    }
}

/// The result of a send raced against a deadline: `None` when the deadline
/// came first.
pub open spec fn result_with_deadline<R, E>(finished: Option<Result<R, CommError<E>>>) -> Result<R, CommError<E>> {
    match finished {
        Some(r) => r,
        None => Err(CommError::Timeout),
    }
}

/// The client side of a request/response service: one handle, at most one
/// request in flight.
pub struct Client<H> {
    session: SessionHandle<H>,
}

impl<H> Client<H> {
    /// What the client's slot holds.
    pub closed spec fn slot(&self) -> Option<H> {
        self.session.slot()
    }

    /// A client around a freshly created handle.
    pub fn new(handle: H) -> (r: Self)
        ensures
            r.slot() == Some(handle),
    {
        Client { session: SessionHandle::new(handle) }
    }

    /// Whether a request may be sent now.
    pub fn is_ready(&self) -> (r: bool)
        ensures
            r == self.slot().is_some(),
    {
        self.session.is_available()
    }

    /// Takes the handle out to issue a request. A second caller while a
    /// request is in flight gets `SessionUnavailable`.
    pub fn begin_send<E>(&mut self) -> (r: Result<H, CommError<E>>)
        ensures
            final(self).slot().is_none(),
            r == check_out_result::<H, E>(old(self).slot()),
    {
        self.session.check_out()
    }

    /// Ends the request in flight: the handle that the exchange returns goes
    /// back into the slot and the caller gets the response or the error.
    pub fn complete_send<R, E>(&mut self, exchange: Exchange<H, R, E>) -> (r: Result<R, CommError<E>>)
        requires
            old(self).slot().is_none(),
        ensures
            final(self).slot() == exchange.returned_handle(),
            r == exchange.outcome(),
    {
        match exchange {
            Exchange::Answered { handle, response } => {
                self.session.restore(handle);
                Ok(response)
            },
            Exchange::Failed { recovered, error } => {
                self.session.restore(recovered);
                Err(CommError::Underlying(error))
            },
            Exchange::Rejected(error) => Err(CommError::Underlying(error)),
        }
    }

    /// Sends one request and waits for its response, `exchange` performing
    /// the round trip with the handle it is given.
    pub fn send<R, E, F: FnOnce(H) -> Exchange<H, R, E>>(&mut self, exchange: F) -> (r: Result<R, CommError<E>>)
        requires
            forall|h: H| exchange.requires((h,)),
        ensures
            old(self).slot() is None ==> final(self).slot() is None && r == Err::<R, CommError<E>>(CommError::SessionUnavailable),
            old(self).slot() matches Some(h) ==> exists|x: Exchange<H, R, E>|
                exchange.ensures((h,), x)
                && final(self).slot() == slot_after_send(old(self).slot(), x)
                && r == result_of_send(old(self).slot(), x),
    {
        let ghost before = self.slot();
        match self.begin_send() {
            Ok(h) => {
                let x = exchange(h);
                let ghost xg = x;
                let r = self.complete_send(x);
                assert(exchange.ensures((h,), xg) && self.slot() == slot_after_send(before, xg)
                    && r == result_of_send(before, xg));
                r
            },
            Err(e) => Err(e),
        }
    }

    /// Sends one request against a deadline. `exchange` returns `None` when
    /// the deadline passed first: the exchange is then abandoned together
    /// with the handle it holds, and the slot stays empty.
    pub fn send_timeout<R, E, F: FnOnce(H) -> Option<Exchange<H, R, E>>>(&mut self, exchange: F) -> (r: Result<R, CommError<E>>)
        requires
            forall|h: H| exchange.requires((h,)),
        ensures
            old(self).slot() is None ==> final(self).slot() is None && r == Err::<R, CommError<E>>(CommError::SessionUnavailable),
            old(self).slot() matches Some(h) ==> exists|x: Option<Exchange<H, R, E>>|
                exchange.ensures((h,), x) && match x {
                    Some(x) => final(self).slot() == x.returned_handle() && r == x.outcome(),
                    None => final(self).slot() is None && r == Err::<R, CommError<E>>(CommError::Timeout),
                },
    {
        match self.begin_send() {
            Ok(h) => {
                let x = exchange(h);
                let ghost xg = x;
                assert(exchange.ensures((h,), xg));
                match x {
                    Some(x) => self.complete_send(x),
                    None => Err(CommError::Timeout),
                }
            },
            Err(e) => Err(e),
        }
    }
}

/// Settles a send that was raced against a deadline: the send's own result
/// if it finished, `Timeout` if the deadline came first.
pub fn settle_deadline<R, E>(finished: Option<Result<R, CommError<E>>>) -> (r: Result<R, CommError<E>>)
    ensures
        r == result_with_deadline(finished),
{
    match finished {
        Some(r) => r,
        None => Err(CommError::Timeout),
    }
}

/// How sending one response ended.
#[derive(Debug, PartialEq, Eq)]
pub enum Delivery<H, E> {
    /// The response went out; the handle for the next request came back.
    Delivered(H),
    /// The response could not be sent; the handle was reclaimed by giving up
    /// the exchange.
    Undelivered { recovered: H, error: E },
}

impl<H, E> Delivery<H, E> {
    /// The handle that serving continues with.
    pub open spec fn next_handle(&self) -> H {
        match self {
            Delivery::Delivered(h) => *h,
            Delivery::Undelivered { recovered, .. } => *recovered,
        }
    }

    /// The failure to report, if any.
    pub open spec fn failure(&self) -> Option<E> {
        match self {
            Delivery::Delivered(_) => None,
            Delivery::Undelivered { error, .. } => Some(*error),
        }
    }
}

/// Where a serve loop stands.
#[derive(Debug, Clone, Copy, PartialEq, Eq, Structural)]
pub enum ServePhase {
    /// The handle is ready for the next receive.
    Ready,
    /// A receive is in flight and holds the handle.
    Receiving,
    /// A request was taken; its response sender holds the exchange.
    Responding,
    /// A receive failed: the loop is over.
    Terminated,
}

/// The decisions of a server's loop: receive a request, answer it, go on
/// with the handle that answering returns, and stop on a failed receive.
pub struct ServeLoop<H> {
    handle: Option<H>,
    phase: ServePhase,
}

impl<H> ServeLoop<H> {
    /// The phase of the loop.
    pub closed spec fn phase(&self) -> ServePhase {
        self.phase
    }

    /// The handle held between requests.
    pub closed spec fn handle(&self) -> Option<H> {
        self.handle
    }

    /// The handle is held exactly between requests.
    pub closed spec fn wf(&self) -> bool {
        self.handle.is_some() <==> self.phase is Ready
    }

    /// Whether the loop has ended.
    pub fn is_terminated(&self) -> (r: bool)
        ensures
            r == (self.phase() is Terminated),
    {
        match self.phase {
            ServePhase::Terminated => true,
            _ => false,
        }
    }

    /// Hands the handle to the next receive; `None` unless the loop is ready.
    pub fn next_receive(&mut self) -> (r: Option<H>)
        requires
            old(self).wf(),
        ensures
            final(self).wf(),
            old(self).phase() is Ready ==> final(self).phase() is Receiving && r == old(self).handle(),
            old(self).phase() is Ready ==> r is Some,
            !(old(self).phase() is Ready) ==> r is None && final(self).phase() == old(self).phase(),
    {
        match self.phase {
            ServePhase::Ready => {
                self.phase = ServePhase::Receiving;
                self.handle.take()
            },
            _ => None,
        }
    }

    /// Takes the outcome of the receive in flight: a request goes on to be
    /// answered, a failure ends the loop and is handed back to be reported.
    pub fn on_received<S, Q, E>(&mut self, incoming: Result<(S, Q), E>) -> (r: Result<(S, Q), E>)
        requires
            old(self).wf(),
            old(self).phase() is Receiving,
        ensures
            final(self).wf(),
            r == incoming,
            incoming is Ok ==> final(self).phase() is Responding,
            incoming is Err ==> final(self).phase() is Terminated,
    {
        match incoming {
            Ok(taken) => {
                self.phase = ServePhase::Responding;
                Ok(taken)
            },
            Err(e) => {
                self.phase = ServePhase::Terminated;
                Err(e)
            },
        }
    }

    /// Answers the request just taken: `callback` computes the response from
    /// the request, and the response goes back with that request's own
    /// sender. The loop stays responding until the send's outcome is in.
    pub fn answer<S, Q, P, F: FnOnce(Q) -> P>(&self, sender: S, request: Q, callback: F) -> (r: (S, P))
        requires
            self.wf(),
            self.phase() is Responding,
            callback.requires((request,)),
        ensures
            r.0 == sender,
            callback.ensures((request,), r.1),
    {
        let response = callback(request);
        (sender, response)
    }

    /// Takes the outcome of sending a response. Either way the loop is ready
    /// again with the handle that came back; a failed send is handed back to
    /// be reported and does not stop the loop.
    pub fn on_delivered<E>(&mut self, delivery: Delivery<H, E>) -> (r: Option<E>)
        requires
            old(self).wf(),
            old(self).phase() is Responding,
        ensures
            final(self).wf(),
            final(self).phase() is Ready,
            final(self).handle() == Some(delivery.next_handle()),
            r == delivery.failure(),
    {
        self.phase = ServePhase::Ready;
        match delivery {
            Delivery::Delivered(h) => {
                self.handle = Some(h);
                None
            },
            Delivery::Undelivered { recovered, error } => {
                self.handle = Some(recovered);
                Some(error)
            },
        }
    }
}

/// The server side of a request/response service.
pub struct Server<H> {
    session: SessionHandle<H>,
}

impl<H> Server<H> {
    /// What the server's slot holds.
    pub closed spec fn slot(&self) -> Option<H> {
        self.session.slot()
    }

    /// A server around a freshly created handle.
    pub fn new(handle: H) -> (r: Self)
        ensures
            r.slot() == Some(handle),
    {
        Server { session: SessionHandle::new(handle) }
    }

    /// Whether serving may start.
    pub fn is_ready(&self) -> (r: bool)
        ensures
            r == self.slot().is_some(),
    {
        self.session.is_available()
    }

    /// Starts serving: the handle leaves the slot for the loop and does not
    /// come back, so a later call, once the loop has ended, is refused with
    /// `SessionUnavailable`.
    pub fn start_serving<E>(&mut self) -> (r: Result<ServeLoop<H>, CommError<E>>)
        ensures
            final(self).slot().is_none(),
            old(self).slot().is_none() <==> r matches Err(CommError::SessionUnavailable),
            old(self).slot() is Some ==> (r matches Ok(l) && l.wf() && l.phase() is Ready && l.handle() == old(self).slot()),
    {
        match self.session.check_out() {
            Ok(h) => Ok(ServeLoop { handle: Some(h), phase: ServePhase::Ready }),
            Err(e) => Err(e),
        }
    }

    /// The handle, if no loop has taken it.
    pub fn into_inner(self) -> (r: Option<H>)
        ensures
            r == self.slot(),
    {
        self.session.into_inner()
    }
}

} // verus!
