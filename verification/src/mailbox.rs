//! The per-client outbound queue.
//!
//! The router enqueues envelopes; the client's delivery task dequeues them
//! and writes each to the connection. The queue is first-in first-out, so
//! delivery to one recipient preserves enqueue order. It is bounded, with a
//! drop-new overload policy: a full mailbox refuses further envelopes
//! rather than growing without limit behind a stalled reader.

use vstd::prelude::*;

verus! {

/// A bounded FIFO queue of rendered envelopes for one recipient.
pub struct Mailbox {
    pub items: Vec<String>,
    pub cap: usize,
}

impl Mailbox {
    /// The queue never holds more than its bound.
    pub open spec fn wf(self) -> bool {
        self.items@.len() <= self.cap
    }

    /// An empty mailbox that will hold at most `cap` envelopes.
    pub fn new(cap: usize) -> (m: Mailbox)
        ensures
            m.wf(),
            m.items@ == Seq::<String>::empty(),
            m.cap == cap,
    {
        Mailbox { items: Vec::new(), cap }
    }

    /// How many envelopes are waiting.
    pub fn len(&self) -> (n: usize)
        ensures
            n == self.items@.len(),
    {
        self.items.len()
    }

    /// Enqueues one envelope at the back. A full mailbox drops the new
    /// envelope and reports so; it never blocks and never reorders.
    pub fn push(&mut self, envelope: String) -> (accepted: bool)
        requires
            old(self).wf(),
        ensures
            final(self).wf(),
            final(self).cap == old(self).cap,
            accepted == (old(self).items@.len() < old(self).cap),
            accepted ==> final(self).items@ == old(self).items@.push(envelope),
            !accepted ==> final(self).items@ == old(self).items@,
    {
        if self.items.len() < self.cap {
            self.items.push(envelope);
            true
        } else {
            false
        }
    }

    /// Dequeues the oldest envelope, if any.
    pub fn pop(&mut self) -> (r: Option<String>)
        ensures
            final(self).cap == old(self).cap,
            old(self).items@.len() == 0 ==> r is None && final(self).items@ == old(self).items@,
            old(self).items@.len() > 0 ==> (r matches Some(m) && m == old(self).items@[0]
                && final(self).items@ == old(self).items@.drop_first()),
    {
        if self.items.len() == 0 {
            None
        } else {
            let m = self.items.remove(0);
            proof {
                assert(self.items@ =~= old(self).items@.drop_first());
            }
            Some(m)
        }
    }
}

/// The envelopes a delivery task takes out of a queue holding `s`: the
/// front element first, then whatever draining the rest yields.
pub open spec fn drain_order(s: Seq<Seq<char>>) -> Seq<Seq<char>>
    decreases s.len(),
{
    if s.len() == 0 {
        Seq::empty()
    } else {
        seq![s[0]] + drain_order(s.drop_first())
    }
}

/// Order preservation: draining a mailbox hands out exactly the enqueued
/// envelopes in enqueue order — the envelope at queue position i is the
/// i-th one delivered, so of two envelopes enqueued for the same recipient
/// the earlier one is always delivered first.
pub proof fn lemma_order_preservation(s: Seq<Seq<char>>)
    ensures
        drain_order(s) == s,
    decreases s.len(),
{
    if s.len() == 0 {
        assert(drain_order(s) =~= s);
    } else {
        lemma_order_preservation(s.drop_first());
        assert(drain_order(s) =~= s);
    }
}

} // verus!
