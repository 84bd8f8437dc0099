//! The connection acceptor: a state machine from idle through listening to
//! stopped, fanning connection and failure events out to every subscriber.
//!
//! The socket work — binding the listener and performing accept attempts —
//! happens outside the library; the acceptor is driven with their outcomes.
//! Every subscriber has its own buffered event queue: each accepted
//! connection is published to all of them in registration order, and when
//! the accept loop terminates with an error, that error is published once to
//! every subscriber so none of them hangs.  An accept loop that terminates
//! without an error violates the acceptor's contract and is excluded here by
//! construction: the stop handler takes the terminating error itself.

use vstd::prelude::*;

use crate::Error;

verus! {

/// Lifecycle of the acceptor.
#[derive(Clone, Copy, Debug, PartialEq, Eq, Structural)]
pub enum AcceptorPhase {
    /// Constructed, not listening.
    Idle,
    /// Bound and accepting in a background loop.
    Listening,
    /// Cancelled or permanently failed.
    Stopped,
}

/// One event observed by a subscriber: an accepted connection, identified by
/// the handle the caller assigned to it, or the failure that terminated the
/// accept loop.
#[derive(Clone, Copy, Debug, PartialEq, Eq, Structural)]
pub enum AcceptorEvent {
    Connection(u64),
    Failed(Error),
}

/// Mathematical value of an [`Acceptor`]: its phase and the pending event
/// queue of each subscriber, in registration order.
#[verifier::ext_equal]
pub struct AcceptorModel {
    pub phase: AcceptorPhase,
    pub subs: Seq<Seq<AcceptorEvent>>,
}

/// Create inbound socket connections: accept-loop state and subscriber
/// fan-out.
pub struct Acceptor {
    phase: AcceptorPhase,
    subs: Vec<Vec<AcceptorEvent>>,
}

impl View for Acceptor {
    type V = AcceptorModel;

    closed spec fn view(&self) -> AcceptorModel {
        AcceptorModel {
            phase: self.phase,
            subs: self.subs@.map_values(|q: Vec<AcceptorEvent>| q@),
        }
    }
}

impl Acceptor {
    /// A new acceptor: idle, with no subscribers.
    pub fn new() -> (a: Acceptor)
        ensures
            a@ == (AcceptorModel { phase: AcceptorPhase::Idle, subs: Seq::empty() }),
    {
        let a = Acceptor { phase: AcceptorPhase::Idle, subs: Vec::new() };
        proof {
            assert(a@ =~= (AcceptorModel { phase: AcceptorPhase::Idle, subs: Seq::empty() }));
        }
        a
    }

    /// The current phase.
    pub fn phase(&self) -> (r: AcceptorPhase)
        ensures
            r == self@.phase,
    {
        self.phase
    }

    /// Number of registered subscribers.
    pub fn subscriber_count(&self) -> (r: usize)
        ensures
            r == self@.subs.len(),
    {
        self.subs.len()
    }

    /// Starts accepting inbound connections.  `bound` is the outcome of
    /// binding the listener at the requested address: on success the accept
    /// loop is considered running and the acceptor listens; on a bind or
    /// local-address-resolution failure the acceptor reports the failure and
    /// stays idle.
    pub fn start(&mut self, bound: bool) -> (r: Result<(), Error>)
        requires
            old(self)@.phase == AcceptorPhase::Idle,
        ensures
            final(self)@.subs == old(self)@.subs,
            bound ==> final(self)@.phase == AcceptorPhase::Listening && (r matches Ok(v) && v == ()),
            !bound ==> final(self)@.phase == AcceptorPhase::Idle
                && (r matches Err(e) && e == Error::OperationFailed),
    {
        if !bound {
            return Err(Error::OperationFailed);
        }
        self.phase = AcceptorPhase::Listening;
        Ok(())
    }

    /// Signals the background accept loop to stop.  Idempotent: the acceptor
    /// is stopped afterwards whatever phase it was in, and no subscriber
    /// queue is touched.
    pub fn stop(&mut self)
        ensures
            final(self)@ == (AcceptorModel { phase: AcceptorPhase::Stopped, ..old(self)@ }),
    {
        self.phase = AcceptorPhase::Stopped;
        proof {
            assert(self@ =~= (AcceptorModel { phase: AcceptorPhase::Stopped, ..old(self)@ }));
        }
    }

    /// Registers a new subscriber and returns its handle.  The subscriber
    /// receives every event published from this point forward.
    pub fn subscribe(&mut self) -> (s: usize)
        ensures
            final(self)@ == (AcceptorModel {
                subs: old(self)@.subs.push(Seq::empty()),
                ..old(self)@
            }),
            s == old(self)@.subs.len(),
    {
        let s = self.subs.len();
        self.subs.push(Vec::new());
        proof {
            assert(self@ =~= (AcceptorModel {
                subs: old(self)@.subs.push(Seq::empty()),
                ..old(self)@
            }));
        }
        s
    }

    /// Publishes one accepted connection to every current subscriber, in
    /// registration order.  Called by the accept loop after each successful
    /// accept attempt, so only while listening.
    pub fn notify_connection(&mut self, conn: u64)
        requires
            old(self)@.phase == AcceptorPhase::Listening,
        ensures
            final(self)@.phase == old(self)@.phase,
            final(self)@.subs.len() == old(self)@.subs.len(),
            forall|i: int| 0 <= i < old(self)@.subs.len()
                ==> final(self)@.subs[i] == old(self)@.subs[i].push(AcceptorEvent::Connection(conn)),
    {
        self.publish(AcceptorEvent::Connection(conn));
    }

    /// Handles the termination of the accept loop: the terminating error is
    /// published once to every current subscriber, so each observes the
    /// failure instead of hanging, and the acceptor stops.  A loop that
    /// terminates without an error has violated its contract; that case
    /// cannot be expressed here, since the handler takes the error itself.
    pub fn handle_stop(&mut self, err: Error)
        ensures
            final(self)@.phase == AcceptorPhase::Stopped,
            final(self)@.subs.len() == old(self)@.subs.len(),
            forall|i: int| 0 <= i < old(self)@.subs.len()
                ==> final(self)@.subs[i] == old(self)@.subs[i].push(AcceptorEvent::Failed(err)),
    {
        self.publish(AcceptorEvent::Failed(err));
        self.phase = AcceptorPhase::Stopped;
    }

    /// Appends one event to every subscriber queue.
    fn publish(&mut self, ev: AcceptorEvent)
        ensures
            final(self)@.phase == old(self)@.phase,
            final(self)@.subs.len() == old(self)@.subs.len(),
            forall|i: int| 0 <= i < old(self)@.subs.len()
                ==> final(self)@.subs[i] == old(self)@.subs[i].push(ev),
    {
        let mut i: usize = 0;
        while i < self.subs.len()
            invariant
                i <= self@.subs.len(),
                self@.phase == old(self)@.phase,
                self@.subs.len() == old(self)@.subs.len(),
                forall|j: int| 0 <= j < i ==> self@.subs[j] == old(self)@.subs[j].push(ev),
                forall|j: int| i <= j < self@.subs.len() ==> self@.subs[j] == old(self)@.subs[j],
            decreases self@.subs.len() - i,
        {
            let ghost before = self@.subs;
            let q = &mut self.subs[i];
            q.push(ev);
            proof {
                assert(self.subs@[i as int]@ =~= before[i as int].push(ev));
                assert forall|j: int| 0 <= j < i + 1 implies
                    self@.subs[j] == old(self)@.subs[j].push(ev) by {
                    assert(self@.subs[j] == self.subs@[j]@);
                    if j < i {
                        assert(self.subs@[j]@ == before[j]);
                    }
                }
                assert forall|j: int| i + 1 <= j < self@.subs.len() implies
                    self@.subs[j] == old(self)@.subs[j] by {
                    assert(self@.subs[j] == self.subs@[j]@);
                    assert(self.subs@[j]@ == before[j]);
                }
            }
            i = i + 1;
        }
    }

    /// Returns the next pending event of the given subscriber, oldest first,
    /// or `None` when its queue is empty.
    pub fn next_event(&mut self, s: usize) -> (r: Option<AcceptorEvent>)
        requires
            s < old(self)@.subs.len(),
        ensures
            final(self)@.phase == old(self)@.phase,
            final(self)@.subs.len() == old(self)@.subs.len(),
            forall|i: int| 0 <= i < old(self)@.subs.len() && i != s
                ==> final(self)@.subs[i] == old(self)@.subs[i],
            old(self)@.subs[s as int].len() == 0 ==> (r matches None
                && final(self)@.subs[s as int] == old(self)@.subs[s as int]),
            old(self)@.subs[s as int].len() > 0 ==> (r matches Some(e)
                && e == old(self)@.subs[s as int].first()
                && final(self)@.subs[s as int] == old(self)@.subs[s as int].drop_first()),
    {
        let q = &mut self.subs[s];
        if q.len() == 0 {
            return None;
        }
        let e = q.remove(0);
        proof {
            assert(self@.subs[s as int] =~= old(self)@.subs[s as int].drop_first());
        }
        Some(e)
    }
}

} // verus!
