//! The registry of connected users.
//!
//! One entry per connected user: the username and the handle of that user's
//! outbound delivery queue. The username is the key: at most one entry per
//! name at any time, and join admission is a single atomic check-and-insert,
//! so two joins under one name can never both succeed. Handles are allocated
//! by the registry itself, strictly increasing, so a handle is never reused
//! even after its owner leaves.

use vstd::prelude::*;

verus! {

/// The name `name` is registered in entries `s`.
pub open spec fn has_name(s: Seq<(Seq<char>, u64)>, name: Seq<char>) -> bool {
    exists|i: int| 0 <= i < s.len() && (#[trigger] s[i]).0 == name
}

/// The exact pair `(name, h)` is an entry of `s`.
pub open spec fn has_entry(s: Seq<(Seq<char>, u64)>, name: Seq<char>, h: u64) -> bool {
    exists|i: int| 0 <= i < s.len() && #[trigger] s[i] == (name, h)
}

/// The handle `h` belongs to some entry of `s`.
pub open spec fn has_handle(s: Seq<(Seq<char>, u64)>, h: u64) -> bool {
    exists|i: int| 0 <= i < s.len() && (#[trigger] s[i]).1 == h
}

/// No two entries share a username.
pub open spec fn distinct_names(s: Seq<(Seq<char>, u64)>) -> bool {
    forall|i: int, j: int| 0 <= i < j < s.len() ==> (#[trigger] s[i]).0 != (#[trigger] s[j]).0
}

/// No two entries share a handle.
pub open spec fn distinct_handles(s: Seq<(Seq<char>, u64)>) -> bool {
    forall|i: int, j: int| 0 <= i < j < s.len() ==> (#[trigger] s[i]).1 != (#[trigger] s[j]).1
}

/// The mapping from usernames to delivery handles.
pub struct Registry {
    pub names: Vec<String>,
    pub handles: Vec<u64>,
    pub next_handle: u64,
}

/// Both registries hold the same entries and the same allocation state.
pub open spec fn registry_unchanged(r0: Registry, r1: Registry) -> bool {
    r1.entries() == r0.entries() && r1.next_handle == r0.next_handle
}

impl Registry {
    /// The entries as a sequence of (username, handle) pairs, in insertion
    /// order of the names still present.
    pub open spec fn entries(self) -> Seq<(Seq<char>, u64)> {
        Seq::new(self.names@.len(), |i: int| (self.names@[i]@, self.handles@[i]))
    }

    /// Well-formedness: names are unique, handles are unique and all below
    /// the next handle to be allocated.
    pub open spec fn wf(self) -> bool {
        &&& self.names@.len() == self.handles@.len()
        &&& distinct_names(self.entries())
        &&& distinct_handles(self.entries())
        &&& forall|i: int|
            0 <= i < self.entries().len() ==> (#[trigger] self.entries()[i]).1 < self.next_handle
    }

    /// A join under `name` is admitted: the name is free and a fresh handle
    /// can still be allocated.
    pub open spec fn join_admitted(self, name: Seq<char>) -> bool {
        !has_name(self.entries(), name) && self.next_handle < u64::MAX
    }

    /// An empty registry.
    pub fn new() -> (r: Registry)
        ensures
            r.wf(),
            r.entries() == Seq::<(Seq<char>, u64)>::empty(),
            r.next_handle == 0,
    {
        let r = Registry { names: Vec::new(), handles: Vec::new(), next_handle: 0 };
        proof {
            assert(r.entries() =~= Seq::<(Seq<char>, u64)>::empty());
        }
        r
    }

    /// The number of connected users.
    pub fn len(&self) -> (n: usize)
        ensures
            n == self.entries().len(),
    {
        self.names.len()
    }

    /// The index of the entry registered under `name`, if any.
    fn index_of(&self, name: &str) -> (r: Option<usize>)
        ensures
            r matches Some(i) ==> i < self.entries().len() && self.entries()[i as int].0
                == name@,
            r is None ==> !has_name(self.entries(), name@),
    {
        let name_s: String = name.to_owned();
        let n = self.names.len();
        let mut i: usize = 0;
        while i < n
            invariant
                n == self.names@.len(),
                i <= n,
                name_s@ == name@,
                forall|j: int| 0 <= j < i ==> self.names@[j]@ != name@,
            decreases n - i,
        {
            if self.names[i] == name_s {
                return Some(i);
            }
            i += 1;
        }
        proof {
            assert forall|k: int|
                0 <= k < self.entries().len() implies (#[trigger] self.entries()[k]).0
                != name@ by {
                assert(self.entries()[k].0 == self.names@[k]@);
            }
        }
        None
    }

    /// Whether `name` is currently registered.
    pub fn contains(&self, name: &str) -> (r: bool)
        ensures
            r == has_name(self.entries(), name@),
    {
        self.index_of(name).is_some()
    }

    /// The handle registered under `name`, if any.
    pub fn handle_of(&self, name: &str) -> (r: Option<u64>)
        requires
            self.wf(),
        ensures
            r matches Some(h) ==> exists|i: int|
                0 <= i < self.entries().len() && #[trigger] self.entries()[i] == (name@, h),
            r is None ==> !has_name(self.entries(), name@),
    {
        match self.index_of(name) {
            Some(i) => Some(self.handles[i]),
            None => None,
        }
    }

    /// Registers `name` if it is absent, allocating a fresh handle for its
    /// delivery queue. Returns the handle exactly when the join is admitted;
    /// a join under a taken name (or with the handle space exhausted, once
    /// `u64::MAX` joins have been admitted) leaves the registry unchanged.
    pub fn insert_if_absent(&mut self, name: &str) -> (r: Option<u64>)
        requires
            old(self).wf(),
        ensures
            final(self).wf(),
            r matches Some(h) ==> old(self).join_admitted(name@) && h == old(self).next_handle
                && final(self).entries() == old(self).entries().push((name@, h))
                && final(self).next_handle == old(self).next_handle + 1,
            r is None ==> !old(self).join_admitted(name@) && registry_unchanged(
                *old(self),
                *final(self),
            ),
    {
        if self.contains(name) {
            return None;
        }
        if self.next_handle == u64::MAX {
            return None;
        }
        let h = self.next_handle;
        self.next_handle = h + 1;
        self.names.push(name.to_owned());
        self.handles.push(h);
        proof {
            let e1 = self.entries();
            let e0 = old(self).entries();
            assert(e1 =~= e0.push((name@, h)));
            assert forall|i: int, j: int| 0 <= i < j < e1.len() implies (#[trigger] e1[i]).0 != (
            #[trigger] e1[j]).0 by {
                if j == e1.len() - 1 {
                    assert(!has_name(e0, name@));
                    assert(e0[i].0 != name@);
                }
            }
            assert forall|i: int, j: int| 0 <= i < j < e1.len() implies (#[trigger] e1[i]).1 != (
            #[trigger] e1[j]).1 by {
                if j == e1.len() - 1 {
                    assert(e0[i].1 < h);
                }
            }
        }
        Some(h)
    }

    /// Removes the entry registered under `name`, if any. Other entries keep
    /// their places and order; the removed handle disappears with its entry,
    /// and the allocation counter does not move back, so the handle is gone
    /// for good.
    pub fn remove(&mut self, name: &str)
        requires
            old(self).wf(),
        ensures
            final(self).wf(),
            final(self).next_handle == old(self).next_handle,
            !has_name(final(self).entries(), name@),
            !has_name(old(self).entries(), name@) ==> final(self).entries() == old(
                self,
            ).entries(),
            forall|i: int|
                0 <= i < old(self).entries().len() && (#[trigger] old(self).entries()[i]).0
                    == name@ ==> final(self).entries() == old(self).entries().remove(i)
                    && !has_handle(final(self).entries(), old(self).entries()[i].1),
    {
        let idx = self.index_of(name);
        match idx {
            None => {
            }
            Some(i) => {
                let ghost e0 = self.entries();
                let ghost ispec = i as int;
                self.names.remove(i);
                self.handles.remove(i);
                proof {
                    e0.remove_ensures(ispec);
                    old(self).names@.remove_ensures(ispec);
                    old(self).handles@.remove_ensures(ispec);
                    let e1 = self.entries();
                    assert forall|k: int| 0 <= k < e1.len() implies #[trigger] e1[k] == e0.remove(
                        ispec,
                    )[k] by {
                        if k < ispec {
                            assert(self.names@[k] == old(self).names@[k]);
                            assert(self.handles@[k] == old(self).handles@[k]);
                        } else {
                            assert(self.names@[k] == old(self).names@[k + 1]);
                            assert(self.handles@[k] == old(self).handles@[k + 1]);
                        }
                    }
                    assert(e1 =~= e0.remove(ispec));
                    assert forall|k: int| 0 <= k < e1.len() implies (#[trigger] e1[k]).0
                        != name@ by {
                        if k < ispec {
                            assert(e1[k] == e0[k]);
                        } else {
                            assert(e1[k] == e0[k + 1]);
                        }
                    }
                    assert forall|k: int| 0 <= k < e1.len() implies (#[trigger] e1[k]).1 != e0[
                        ispec].1 by {
                        if k < ispec {
                            assert(e1[k] == e0[k]);
                        } else {
                            assert(e1[k] == e0[k + 1]);
                        }
                    }
                    assert forall|i2: int|
                        0 <= i2 < e0.len() && (#[trigger] e0[i2]).0 == name@ implies e1
                        == e0.remove(i2) && !has_handle(e1, e0[i2].1) by {
                        assert(e0[ispec].0 == name@);
                        if i2 < ispec {
                            assert(e0[i2].0 != e0[ispec].0);
                        } else if i2 > ispec {
                            assert(e0[ispec].0 != e0[i2].0);
                        }
                        assert(i2 == ispec);
                    }
                    assert(distinct_names(e1)) by {
                        assert forall|a: int, b: int| 0 <= a < b < e1.len() implies (
                        #[trigger] e1[a]).0 != (#[trigger] e1[b]).0 by {
                            if b < ispec {
                                assert(e1[a] == e0[a] && e1[b] == e0[b]);
                            } else if a < ispec {
                                assert(e1[a] == e0[a] && e1[b] == e0[b + 1]);
                            } else {
                                assert(e1[a] == e0[a + 1] && e1[b] == e0[b + 1]);
                            }
                        }
                    }
                    assert(distinct_handles(e1)) by {
                        assert forall|a: int, b: int| 0 <= a < b < e1.len() implies (
                        #[trigger] e1[a]).1 != (#[trigger] e1[b]).1 by {
                            if b < ispec {
                                assert(e1[a] == e0[a] && e1[b] == e0[b]);
                            } else if a < ispec {
                                assert(e1[a] == e0[a] && e1[b] == e0[b + 1]);
                            } else {
                                assert(e1[a] == e0[a + 1] && e1[b] == e0[b + 1]);
                            }
                        }
                    }
                    assert forall|k: int| 0 <= k < e1.len() implies (#[trigger] e1[k]).1
                        < self.next_handle by {
                        if k < ispec {
                            assert(e1[k] == e0[k]);
                        } else {
                            assert(e1[k] == e0[k + 1]);
                        }
                    }
                }
            }
        }
    }

    /// A copy of the current entries, for broadcast iteration.
    pub fn snapshot(&self) -> (r: Vec<(String, u64)>)
        requires
            self.wf(),
        ensures
            r@.len() == self.entries().len(),
            forall|i: int|
                0 <= i < r@.len() ==> ((#[trigger] r@[i]).0@, r@[i].1) == self.entries()[i],
    {
        let mut r: Vec<(String, u64)> = Vec::new();
        let n = self.names.len();
        let mut i: usize = 0;
        while i < n
            invariant
                self.wf(),
                n == self.names@.len(),
                i <= n,
                r@.len() == i,
                forall|j: int|
                    0 <= j < i ==> ((#[trigger] r@[j]).0@, r@[j].1) == self.entries()[j],
            decreases n - i,
        {
            r.push((self.names[i].clone(), self.handles[i]));
            i += 1;
        }
        r
    }
}

/// Uniqueness: the moment a join for `name` succeeds — by the contract of
/// `insert_if_absent`, the entries grow by exactly `(name, h)` — the
/// registry contains `name` and admits no further join under `name` until
/// the entry is removed. Of any set of join attempts for one username,
/// settled in whatever order, at most one can succeed.
pub proof fn lemma_join_uniqueness(r0: Registry, r1: Registry, name: Seq<char>, h: u64)
    requires
        r1.entries() == r0.entries().push((name, h)),
    ensures
        has_name(r1.entries(), name),
        !r1.join_admitted(name),
{
    assert(r1.entries()[r0.entries().len() as int].0 == name);
}

/// A handle that is absent from the registry and below the allocation
/// counter stays absent through any later admission: the fresh handle the
/// counter yields differs from it, and the counter only grows. Together
/// with `remove`'s contract this means a handle, once removed, never comes
/// back.
pub proof fn lemma_stale_handle_stays_absent(
    r0: Registry,
    r1: Registry,
    name: Seq<char>,
    h: u64,
    stale: u64,
)
    requires
        !has_handle(r0.entries(), stale),
        stale < r0.next_handle,
        h == r0.next_handle,
        r1.entries() == r0.entries().push((name, h)),
        r1.next_handle == r0.next_handle + 1,
    ensures
        !has_handle(r1.entries(), stale),
        stale < r1.next_handle,
{
    assert forall|i: int| 0 <= i < r1.entries().len() implies (#[trigger] r1.entries()[i]).1
        != stale by {
        if i < r0.entries().len() {
            assert(r1.entries()[i] == r0.entries()[i]);
        } else {
            assert(r1.entries()[i] == (name, h));
        }
    }
}

} // verus!
