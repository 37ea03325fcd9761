use vstd::prelude::*;

verus! {

/// What one non-blocking receive found.
#[derive(Debug, PartialEq, Eq)]
pub enum TryRecv<M, E> {
    /// A message was waiting.
    Ready(M),
    /// Nothing is waiting yet: not an error.
    Empty,
    /// The middleware reported an error.
    Failed(E),
}

/// The outcomes of sending `ms`, all successful.
pub open spec fn readies<M, E>(ms: Seq<M>) -> Seq<TryRecv<M, E>> {
    ms.map_values(|m: M| TryRecv::Ready(m))
}

/// `ms` put in front of the messages of `r`.
pub open spec fn prepend<M, E>(ms: Seq<M>, r: Result<Seq<M>, E>) -> Result<Seq<M>, E> {
    match r {
        Ok(s) => Ok(ms + s),
        Err(e) => Err(e),
    }
}

/// What a batch receive with room for `limit` messages returns when its
/// try-receives report `outs`, in order: the messages up to the limit, up to
/// the first `Empty`, or the first error.
pub open spec fn drain<M, E>(limit: nat, outs: Seq<TryRecv<M, E>>) -> Result<Seq<M>, E>
    decreases outs.len(),
{
    if limit == 0 || outs.len() == 0 {
        Ok(Seq::empty())
    } else {
        match outs[0] {
            TryRecv::Ready(m) => prepend(seq![m], drain((limit - 1) as nat, outs.skip(1))),
            TryRecv::Empty => Ok(Seq::empty()),
            TryRecv::Failed(e) => Err(e),
        }
    }
}

/// How many of the outcomes `outs` a batch receive with room for `limit`
/// messages asks for: it stops once full, at the first `Empty` and at the
/// first error.
pub open spec fn receives_made<M, E>(limit: nat, outs: Seq<TryRecv<M, E>>) -> nat
    decreases outs.len(),
{
    if limit == 0 || outs.len() == 0 {
        0
    } else {
        match outs[0] {
            TryRecv::Ready(_) => 1 + receives_made((limit - 1) as nat, outs.skip(1)),
            _ => 1,
        }
    }
}

/// The batch receive's result with its messages as a sequence.
pub open spec fn result_view<M, E>(r: Result<Vec<M>, E>) -> Result<Seq<M>, E> {
    match r {
        Ok(v) => Ok(v@),
        Err(e) => Err(e),
    }
}

/// Receiving `ms` first, with room for all of them, leaves the rest of the
/// batch to the outcomes that follow.
pub proof fn lemma_drain_readies<M, E>(limit: nat, ms: Seq<M>, tail: Seq<TryRecv<M, E>>)
    requires
        ms.len() <= limit,
    ensures
        drain(limit, readies::<M, E>(ms) + tail) == prepend(ms, drain((limit - ms.len()) as nat, tail)),
        receives_made(limit, readies::<M, E>(ms) + tail) == ms.len() + receives_made((limit - ms.len()) as nat, tail),
    decreases ms.len(),
{
    if ms.len() == 0 {
        assert(readies::<M, E>(ms) + tail =~= tail);
        assert(ms + Seq::<M>::empty() =~= ms);
        match drain((limit - ms.len()) as nat, tail) {
            Ok(s) => assert(ms + s =~= s),
            Err(_) => {},
        }
    } else {
        let all = readies::<M, E>(ms) + tail;
        lemma_drain_readies((limit - 1) as nat, ms.skip(1), tail);
        assert(all.skip(1) =~= readies::<M, E>(ms.skip(1)) + tail);
        assert(all[0] == TryRecv::<M, E>::Ready(ms[0]));
        match drain((limit - ms.len()) as nat, tail) {
            Ok(s) => {
                assert(seq![ms[0]] + (ms.skip(1) + s) =~= ms + s);
            },
            Err(_) => {},
        }
    }
}

/// A batch receive returns exactly the messages that are waiting, in the
/// order they arrived, up to its limit: with `q` waiting and then nothing,
/// it returns the first `min(limit, |q|)` of `q` after as many receives, and
/// one more when it found fewer than `limit`. A limit of 0 receives nothing.
pub proof fn lemma_recv_returns_waiting<M, E>(limit: nat, q: Seq<M>)
    ensures
        drain(limit, readies::<M, E>(q).push(TryRecv::Empty)) == Ok::<Seq<M>, E>(q.take(if limit < q.len() { limit as int } else { q.len() as int })),
        receives_made(limit, readies::<M, E>(q).push(TryRecv::Empty)) == if limit <= q.len() { limit } else { q.len() + 1 },
{
    let k: int = if limit < q.len() { limit as int } else { q.len() as int };
    let outs = readies::<M, E>(q).push(TryRecv::Empty);
    let tail = outs.skip(k);
    assert(outs =~= readies::<M, E>(q.take(k)) + tail);
    lemma_drain_readies(limit, q.take(k), tail);
    assert(q.take(k) + Seq::<M>::empty() =~= q.take(k));
    if limit > q.len() {
        assert(tail =~= seq![TryRecv::<M, E>::Empty]);
    }
}

/// Takes one try-receive's outcome into `collected`, which has room for
/// `limit` messages. Returns `None` to ask for another receive, or the
/// batch's end: `Ok` once it is full or nothing is waiting, the error if
/// one came.
pub fn on_try_recv<M, E>(collected: &mut Vec<M>, limit: usize, outcome: TryRecv<M, E>) -> (r: Option<Result<(), E>>)
    requires
        old(collected)@.len() < limit,
    ensures
        outcome matches TryRecv::Ready(m) ==> final(collected)@ == old(collected)@.push(m)
            && r == if old(collected)@.len() + 1 == limit { Some(Ok::<(), E>(())) } else { None },
        outcome is Empty ==> final(collected)@ == old(collected)@ && r == Some(Ok::<(), E>(())),
        outcome matches TryRecv::Failed(e) ==> final(collected)@ == old(collected)@ && r == Some(Err::<(), E>(e)),
{
    match outcome {
        TryRecv::Ready(m) => {
            collected.push(m);
            if collected.len() == limit {
                Some(Ok(()))
            } else {
                None
            }
        },
        TryRecv::Empty => Some(Ok(())),
        TryRecv::Failed(e) => Some(Err(e)),
    }
}

/// Drains up to `limit` messages that are waiting, calling `try_recv` until
/// `limit` messages are collected, nothing more is waiting, or an error
/// comes. `usize::MAX` drains everything that is waiting. On an error the
/// messages collected so far are dropped and the error is returned.
///
/// `outs` in the contract are the outcomes of the receives made, in order:
/// a limit of 0 makes none; otherwise the last one is the stop, an `Empty`,
/// an error, or the message that filled the batch.
pub fn recv_many<M, E, F: Fn() -> TryRecv<M, E>>(limit: usize, try_recv: &F) -> (r: Result<Vec<M>, E>)
    requires
        limit > 0 ==> try_recv.requires(()),
    ensures
        exists|outs: Seq<TryRecv<M, E>>| {
            &&& outs.len() == receives_made(limit as nat, outs)
            &&& limit > 0 ==> outs.len() > 0 && (outs.last() is Ready ==> outs.len() == limit)
            &&& forall|i: int| 0 <= i < outs.len() ==> try_recv.ensures((), #[trigger] outs[i])
            &&& result_view(r) == drain(limit as nat, outs)
        },
{
    let mut results: Vec<M> = Vec::new();
    if limit == 0 {
        proof {
            assert(result_view(Ok::<Vec<M>, E>(results)) == drain::<M, E>(0, Seq::empty()));
        }
        return Ok(results);
    }
    let ghost mut outs: Seq<TryRecv<M, E>> = Seq::empty();
    loop
        invariant
            0 < limit,
            try_recv.requires(()),
            results@.len() < limit,
            outs == readies::<M, E>(results@),
            forall|i: int| 0 <= i < outs.len() ==> try_recv.ensures((), #[trigger] outs[i]),
        decreases limit - results@.len(),
    {
        let outcome = try_recv();
        let ghost seen = outcome;
        let ghost before = results@;
        let step = on_try_recv(&mut results, limit, outcome);
        proof {
            lemma_drain_readies(limit as nat, before, seq![seen]);
            let next = outs.push(seen);
            assert(next =~= readies::<M, E>(before) + seq![seen]);
            assert(forall|i: int| 0 <= i < next.len() ==> try_recv.ensures((), #[trigger] next[i]));
            match seen {
                TryRecv::Ready(m) => {
                    assert(readies::<M, E>(results@) =~= next);
                    if results@.len() == limit {
                        let none = Seq::<TryRecv<M, E>>::empty();
                        lemma_drain_readies(limit as nat, results@, none);
                        assert(readies::<M, E>(results@) + none =~= readies::<M, E>(results@));
                        assert(results@ + Seq::<M>::empty() =~= results@);
                    }
                },
                _ => {
                    assert(before + Seq::<M>::empty() =~= before);
                },
            }
        }
        match step {
            Some(Ok(())) => {
                proof {
                    outs = outs.push(seen);
                }
                assert(result_view(Ok::<Vec<M>, E>(results)) == drain(limit as nat, outs));
                assert(outs.last() == seen);
                return Ok(results);
            },
            Some(Err(e)) => {
                proof {
                    outs = outs.push(seen);
                }
                assert(result_view(Err::<Vec<M>, E>(e)) == drain(limit as nat, outs));
                assert(outs.last() == seen);
                return Err(e);
            },
            None => {
                proof {
                    outs = outs.push(seen);
                }
            },
        }
    }
}

/// Takes the outcome of sending message `i` of `n`. Returns `None` to send
/// the next one, or the batch's end: the error if this send failed, `Ok`
/// after the last message.
pub fn on_sent<E>(i: usize, n: usize, sent: Result<(), E>) -> (r: Option<Result<(), E>>)
    requires
        i < n,
    ensures
        sent is Err ==> r == Some(sent),
        sent is Ok ==> r == if i + 1 == n { Some(Ok::<(), E>(())) } else { None },
{
    match sent {
        Ok(()) => {
            if i + 1 == n {
                Some(Ok(()))
            } else {
                None
            }
        },
        Err(e) => Some(Err(e)),
    }
}

/// Publishes `messages` in order through `send`, stopping at the first
/// error. Messages sent before that error stay delivered.
///
/// `outs` in the contract are the outcomes of the sends made, in order: the
/// `i`-th send is of `messages[i]`, every send but the last succeeded, and
/// there is one send per message unless one failed.
pub fn send_many<T, E, F: Fn(&T) -> Result<(), E>>(messages: &Vec<T>, send: &F) -> (r: Result<(), E>)
    requires
        forall|m: &T| send.requires((m,)),
    ensures
        exists|outs: Seq<Result<(), E>>| {
            &&& outs.len() <= messages@.len()
            &&& forall|i: int| 0 <= i < outs.len() ==> send.ensures((&messages@[i],), #[trigger] outs[i])
            &&& forall|i: int| 0 <= i < outs.len() - 1 ==> (#[trigger] outs[i]) is Ok
            &&& outs.len() < messages@.len() ==> outs.len() > 0 && outs.last() is Err
            &&& r == if outs.len() > 0 && outs.last() is Err { outs.last() } else { Ok::<(), E>(()) }
        },
{
    let n = messages.len();
    let ghost mut outs: Seq<Result<(), E>> = Seq::empty();
    if n == 0 {
        assert(outs.len() == 0);
        return Ok(());
    }
    let mut i: usize = 0;
    loop
        invariant
            i < n,
            n == messages@.len(),
            outs.len() == i,
            forall|m: &T| send.requires((m,)),
            forall|j: int| 0 <= j < outs.len() ==> send.ensures((&messages@[j],), #[trigger] outs[j]),
            forall|j: int| 0 <= j < outs.len() ==> (#[trigger] outs[j]) is Ok,
        decreases n - i,
    {
        let sent = send(&messages[i]);
        let ghost seen = sent;
        proof {
            outs = outs.push(seen);
            assert(forall|j: int| 0 <= j < outs.len() - 1 ==> (#[trigger] outs[j]) is Ok);
        }
        match on_sent(i, n, sent) {
            Some(done) => {
                assert(outs.last() == seen);
                assert(outs.len() < messages@.len() ==> outs.len() > 0 && outs.last() is Err);
                assert(done == if outs.len() > 0 && outs.last() is Err { outs.last() } else { Ok::<(), E>(()) });
                return done;
            },
            None => {},
        }
        i = i + 1;
    }
}

} // verus!
