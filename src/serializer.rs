//! The single-owner queue through which every operation reaches the
//! hardware.
//!
//! Callers submit operations and receive a ticket; one worker takes them out
//! one at a time, in submission order, runs each to completion and answers
//! it before it takes the next. At most one operation is ever in flight, so
//! no two handshakes can interleave on the ports.
use vstd::prelude::*;
use crate::error::EcError;
use crate::operation::EcOperation;

verus! {

/// What the queue has seen: every request in submission order (the ticket
/// of a request is its index), the tickets answered so far in the order of
/// their replies, the ticket in flight, and the requests still waiting.
pub struct QueueView {
    pub requests: Seq<EcOperation>,
    pub replied: Seq<u64>,
    pub in_flight: Option<u64>,
    pub pending: Seq<(u64, EcOperation)>,
    pub open: bool,
}

impl QueueView {
    /// The ticket of the first waiting request.
    pub open spec fn first_waiting(self) -> int {
        self.replied.len() + if self.in_flight is Some {
            1int
        } else {
            0int
        }
    }

    pub open spec fn wf(self) -> bool {
        &&& self.requests.len() <= u64::MAX
        &&& forall|i: int| 0 <= i < self.replied.len() ==> #[trigger] self.replied[i] == i
        &&& self.in_flight is Some ==> self.in_flight.unwrap() == self.replied.len()
        &&& self.first_waiting() + self.pending.len() == self.requests.len()
        &&& forall|i: int|
            0 <= i < self.pending.len() ==> #[trigger] self.pending[i] == (
                (self.first_waiting() + i) as u64,
                self.requests[self.first_waiting() + i],
            )
    }

    /// No request is waiting or in flight.
    pub open spec fn idle(self) -> bool {
        self.pending.len() == 0 && self.in_flight is None
    }
}

/// The operation queue.
pub struct OperationQueue {
    pending: Vec<(u64, EcOperation)>,
    in_flight: Option<u64>,
    next_ticket: u64,
    open: bool,
    requests: Ghost<Seq<EcOperation>>,
    replied: Ghost<Seq<u64>>,
}

impl View for OperationQueue {
    type V = QueueView;

    closed spec fn view(&self) -> QueueView {
        QueueView {
            requests: self.requests@,
            replied: self.replied@,
            in_flight: self.in_flight,
            pending: self.pending@,
            open: self.open,
        }
    }
}

impl OperationQueue {
    closed spec fn inv(&self) -> bool {
        &&& self@.wf()
        &&& self.next_ticket == self.requests@.len()
    }

    /// Whether the queue is in its consistent state; every method keeps it.
    pub closed spec fn valid(&self) -> bool {
        self.inv()
    }

    /// An empty queue that accepts work.
    pub fn new() -> (r: OperationQueue)
        ensures
            r.valid(),
            r@.wf(),
            r@.idle(),
            r@.open,
            r@.requests.len() == 0,
            r@.replied.len() == 0,
    {
        OperationQueue {
            pending: Vec::new(),
            in_flight: None,
            next_ticket: 0,
            open: true,
            requests: Ghost(Seq::empty()),
            replied: Ghost(Seq::empty()),
        }
    }

    /// Whether another request can still be given a ticket.
    pub fn has_ticket_left(&self) -> (r: bool)
        requires
            self.valid(),
        ensures
            r == (self@.requests.len() < u64::MAX),
    {
        self.next_ticket < u64::MAX
    }

    /// Submits an operation. A closed queue refuses it at once; an open one
    /// queues it behind every earlier request and returns its ticket.
    pub fn submit(&mut self, op: EcOperation) -> (r: Result<u64, EcError>)
        requires
            old(self).valid(),
            old(self)@.requests.len() < u64::MAX,
        ensures
            final(self).valid(),
            final(self)@.wf(),
            !old(self)@.open ==> r == Err::<u64, EcError>(EcError::QueueUnavailable)
                && final(self)@ == old(self)@,
            old(self)@.open ==> r == Ok::<u64, EcError>(old(self)@.requests.len() as u64)
                && final(self)@ == (QueueView {
                requests: old(self)@.requests.push(op),
                pending: old(self)@.pending.push((old(self)@.requests.len() as u64, op)),
                ..old(self)@
            }),
    {
        if !self.open {
            return Err(EcError::QueueUnavailable);
        }
        let ticket = self.next_ticket;
        self.pending.push((ticket, op));
        self.requests = Ghost(self.requests@.push(op));
        self.next_ticket = ticket + 1;
        Ok(ticket)
    }

    /// Hands the worker the oldest waiting request, which is then in flight.
    /// The worker may take one only when no other is in flight.
    pub fn take_next(&mut self) -> (r: Option<(u64, EcOperation)>)
        requires
            old(self).valid(),
            old(self)@.in_flight is None,
        ensures
            final(self).valid(),
            final(self)@.wf(),
            old(self)@.pending.len() == 0 ==> r is None && final(self)@ == old(self)@,
            old(self)@.pending.len() > 0 ==> r == Some(old(self)@.pending[0]) && final(self)@
                == (QueueView {
                in_flight: Some(old(self)@.pending[0].0),
                pending: old(self)@.pending.drop_first(),
                ..old(self)@
            }),
            r is Some ==> r.unwrap().0 == old(self)@.replied.len() && r.unwrap().1
                == old(self)@.requests[r.unwrap().0 as int],
    {
        if self.pending.len() == 0 {
            return None;
        }
        let (ticket, op) = self.pending.remove(0);
        self.in_flight = Some(ticket);
        proof {
            assert(self.pending@ =~= old(self).pending@.drop_first());
            let v = self@;
            assert forall|i: int| 0 <= i < v.pending.len() implies #[trigger] v.pending[i] == (
                (v.first_waiting() + i) as u64,
                v.requests[v.first_waiting() + i],
            ) by {
                assert(v.pending[i] == old(self)@.pending[i + 1]);
            }
        }
        Some((ticket, op))
    }

    /// Records that the request in flight has been answered.
    pub fn finish(&mut self, ticket: u64)
        requires
            old(self).valid(),
            old(self)@.in_flight == Some(ticket),
        ensures
            final(self).valid(),
            final(self)@.wf(),
            final(self)@ == (QueueView {
                in_flight: None,
                replied: old(self)@.replied.push(ticket),
                ..old(self)@
            }),
    {
        self.in_flight = None;
        self.replied = Ghost(self.replied@.push(ticket));
        proof {
            let v = self@;
            assert forall|i: int| 0 <= i < v.replied.len() implies #[trigger] v.replied[i] == i by {
                if i < old(self)@.replied.len() {
                    assert(v.replied[i] == old(self)@.replied[i]);
                }
            }
        }
    }

    /// Stops accepting work. Requests already queued are still handed out
    /// and answered.
    pub fn close(&mut self)
        requires
            old(self).valid(),
        ensures
            final(self).valid(),
            final(self)@ == (QueueView { open: false, ..old(self)@ }),
    {
        self.open = false;
    }

    /// Whether the queue still accepts work.
    pub fn is_open(&self) -> (r: bool)
        requires
            self.valid(),
        ensures
            r == self@.open,
    {
        self.open
    }

    /// Whether nothing is waiting or in flight.
    pub fn is_idle(&self) -> (r: bool)
        requires
            self.valid(),
        ensures
            r == self@.idle(),
    {
        self.pending.len() == 0 && self.in_flight.is_none()
    }

    /// Whether the queue is closed and has answered everything it accepted.
    pub fn is_drained(&self) -> (r: bool)
        requires
            self.valid(),
        ensures
            r == (!self@.open && self@.idle()),
    {
        !self.open && self.pending.len() == 0 && self.in_flight.is_none()
    }
}

/// Every request is answered exactly once and in submission order: the
/// replies so far answer the first requests in turn, and once nothing is
/// waiting or in flight there is one reply for each request submitted.
pub proof fn lemma_replies_follow_submissions(q: QueueView)
    requires
        q.wf(),
    ensures
        q.replied.len() <= q.requests.len(),
        forall|i: int| 0 <= i < q.replied.len() ==> #[trigger] q.replied[i] == i,
        q.idle() ==> q.replied.len() == q.requests.len(),
{
}

} // verus!
