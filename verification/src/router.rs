//! The broadcast router.
//!
//! Given a sender and a message body, the router renders one envelope and
//! selects the delivery handle of every registered user except the sender.
//! Enqueueing onto those handles is the caller's business and is
//! fire-and-forget: a full or closed queue is the recipient's problem.

use vstd::prelude::*;

verus! {

use crate::protocol::envelope;
use crate::protocol::envelope_spec;
use crate::registry::Registry;
use crate::registry::distinct_handles;
use crate::registry::has_handle;

/// The handles of all entries of `s` whose name differs from `sender`, in
/// entry order.
pub open spec fn targets_of(s: Seq<(Seq<char>, u64)>, sender: Seq<char>) -> Seq<u64>
    decreases s.len(),
{
    if s.len() == 0 {
        Seq::empty()
    } else {
        let rest = targets_of(s.drop_last(), sender);
        if s.last().0 == sender {
            rest
        } else {
            rest.push(s.last().1)
        }
    }
}

/// Every target handle comes from an entry whose name differs from the sender.
pub proof fn lemma_targets_from_entries(s: Seq<(Seq<char>, u64)>, sender: Seq<char>, k: int)
    requires
        0 <= k < targets_of(s, sender).len(),
    ensures
        exists|i: int|
            0 <= i < s.len() && (#[trigger] s[i]).0 != sender && s[i].1 == targets_of(s, sender)[k],
    decreases s.len(),
{
    let t = targets_of(s, sender);
    if s.len() > 0 {
        let rest = targets_of(s.drop_last(), sender);
        if k < rest.len() {
            lemma_targets_from_entries(s.drop_last(), sender, k);
            let i = choose|i: int|
                0 <= i < s.drop_last().len() && (#[trigger] s.drop_last()[i]).0 != sender
                    && s.drop_last()[i].1 == rest[k];
            assert(s[i] == s.drop_last()[i]);
            assert(s[i].0 != sender && s[i].1 == t[k]);
        } else {
            assert(s.last().0 != sender && s.last().1 == t[k]);
            assert(s[s.len() - 1].0 != sender && s[s.len() - 1].1 == t[k]);
        }
    }
}

/// Exclusion: when handles are pairwise distinct, the handle registered
/// under the sender's own name is never among the broadcast targets — a
/// sender never receives its own message back.
pub proof fn lemma_broadcast_excludes_sender(
    s: Seq<(Seq<char>, u64)>,
    sender: Seq<char>,
    i: int,
)
    requires
        distinct_handles(s),
        0 <= i < s.len(),
        s[i].0 == sender,
    ensures
        !targets_of(s, sender).contains(s[i].1),
{
    let t = targets_of(s, sender);
    assert forall|k: int| 0 <= k < t.len() implies #[trigger] t[k] != s[i].1 by {
        lemma_targets_from_entries(s, sender, k);
        let j = choose|j: int|
            0 <= j < s.len() && (#[trigger] s[j]).0 != sender && s[j].1 == t[k];
        assert(j != i);
    }
}

/// A handle held by no entry is never targeted; with the registry's
/// contracts this means that once a user's entry is removed, no broadcast
/// planned afterwards can reach that user's handle again.
pub proof fn lemma_absent_handle_not_targeted(s: Seq<(Seq<char>, u64)>, sender: Seq<char>, h: u64)
    requires
        !has_handle(s, h),
    ensures
        !targets_of(s, sender).contains(h),
{
    let t = targets_of(s, sender);
    assert forall|k: int| 0 <= k < t.len() implies #[trigger] t[k] != h by {
        lemma_targets_from_entries(s, sender, k);
        let j = choose|j: int|
            0 <= j < s.len() && (#[trigger] s[j]).0 != sender && s[j].1 == t[k];
        assert(s[j].1 != h);
    }
}

/// One planned broadcast: the rendered envelope and the handles to enqueue
/// it on.
pub struct Delivery {
    pub targets: Vec<u64>,
    pub payload: String,
}

/// Plans the fan-out of one message: the envelope `FROM <sender> <body>` and
/// the delivery handles of every registered user other than the sender.
pub fn plan_broadcast(registry: &Registry, sender: &str, body: &str) -> (d: Delivery)
    requires
        registry.wf(),
    ensures
        d.targets@ == targets_of(registry.entries(), sender@),
        d.payload@ == envelope_spec(sender@, body@),
{
    let payload = envelope(sender, body);
    let sender_s: String = sender.to_owned();
    let mut targets: Vec<u64> = Vec::new();
    let n = registry.names.len();
    let mut i: usize = 0;
    while i < n
        invariant
            registry.wf(),
            n == registry.names@.len(),
            i <= n,
            sender_s@ == sender@,
            targets@ == targets_of(registry.entries().take(i as int), sender@),
        decreases n - i,
    {
        proof {
            let e = registry.entries();
            assert(e.take(i + 1).drop_last() =~= e.take(i as int));
            assert(e.take(i + 1).last() == e[i as int]);
        }
        if !(registry.names[i] == sender_s) {
            targets.push(registry.handles[i]);
        }
        i += 1;
    }
    proof {
        assert(registry.entries().take(n as int) =~= registry.entries());
    }
    Delivery { targets, payload }
}

} // verus!
