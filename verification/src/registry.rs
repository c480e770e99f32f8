//! The shared map from connection identity to session handle.
//!
//! At most one live session is registered per identity: a reconnect from
//! the same identity overwrites the slot. The registry never removes an
//! entry on its own; the dispatcher reads a snapshot of it once per
//! broadcast.

use vstd::prelude::*;

verus! {

/// Registered sessions, keyed by connection identity. The handle type is
/// the caller's; the registry only stores and returns it.
pub struct SessionRegistry<H> {
    entries: Vec<(u64, H)>,
}

impl<H> View for SessionRegistry<H> {
    type V = Seq<(u64, H)>;

    closed spec fn view(&self) -> Seq<(u64, H)> {
        self.entries@
    }
}

impl<H> SessionRegistry<H> {
    /// The registered identities, in registration order.
    pub open spec fn ids(&self) -> Seq<u64> {
        Seq::new(self@.len(), |i: int| self@[i].0)
    }

    /// No identity is registered twice.
    pub open spec fn wf(&self) -> bool {
        forall|i: int, j: int|
            0 <= i < j < self@.len() ==> (#[trigger] self@[i]).0 != (#[trigger] self@[j]).0
    }

    /// An empty registry.
    pub fn new() -> (r: Self)
        ensures
            r@ =~= Seq::<(u64, H)>::empty(),
            r.wf(),
    {
        SessionRegistry { entries: Vec::new() }
    }

    /// How many sessions are registered.
    pub fn len(&self) -> (r: usize)
        ensures
            r == self@.len(),
    {
        self.entries.len()
    }

    /// The identity registered at position `i`.
    pub fn id_at(&self, i: usize) -> (r: u64)
        requires
            i < self@.len(),
        ensures
            r == self.ids()[i as int],
    {
        self.entries[i].0
    }

    /// Whether `id` is registered.
    #[verifier::loop_isolation(false)]
    pub fn contains(&self, id: u64) -> (r: bool)
        ensures
            r == self.ids().contains(id),
    {
        let mut i: usize = 0;
        while i < self.entries.len()
            invariant
                i <= self@.len(),
                forall|k: int| 0 <= k < i ==> (#[trigger] self@[k]).0 != id,
            decreases self@.len() - i,
        {
            if self.entries[i].0 == id {
                assert(self.ids()[i as int] == id);
                return true;
            }
            i = i + 1;
        }
        assert(!self.ids().contains(id)) by {
            if self.ids().contains(id) {
                let k = choose|k: int| 0 <= k < self.ids().len() && self.ids()[k] == id;
                assert(self@[k].0 != id);
            }
        }
        false
    }

    /// The handle registered for `id`, if any.
    #[verifier::loop_isolation(false)]
    pub fn get(&self, id: u64) -> (r: Option<&H>)
        ensures
            r is Some <==> self.ids().contains(id),
            r matches Some(h) ==> exists|k: int|
                0 <= k < self@.len() && #[trigger] self@[k] == (id, *h),
    {
        let mut i: usize = 0;
        while i < self.entries.len()
            invariant
                i <= self@.len(),
                forall|k: int| 0 <= k < i ==> (#[trigger] self@[k]).0 != id,
            decreases self@.len() - i,
        {
            if self.entries[i].0 == id {
                assert(self.ids()[i as int] == id);
                assert(self@[i as int] == (id, self@[i as int].1));
                return Some(&self.entries[i].1);
            }
            i = i + 1;
        }
        assert(!self.ids().contains(id)) by {
            if self.ids().contains(id) {
                let k = choose|k: int| 0 <= k < self.ids().len() && self.ids()[k] == id;
                assert(self@[k].0 != id);
            }
        }
        None
    }

    /// Registers `handle` under `id`. A fresh identity is appended; an
    /// identity already present has its slot overwritten, without the old
    /// session being stopped.
    #[verifier::loop_isolation(false)]
    pub fn insert(&mut self, id: u64, handle: H)
        requires
            old(self).wf(),
            old(self)@.len() < usize::MAX,
        ensures
            final(self).wf(),
            old(self).ids().contains(id) ==> {
                &&& final(self)@.len() == old(self)@.len()
                &&& forall|k: int|
                    0 <= k < old(self)@.len() ==> #[trigger] final(self)@[k] == (
                    if old(self)@[k].0 == id {
                        (id, handle)
                    } else {
                        old(self)@[k]
                    })
            },
            !old(self).ids().contains(id) ==> final(self)@ == old(self)@.push((id, handle)),
            final(self).ids().contains(id),
    {
        let mut i: usize = 0;
        while i < self.entries.len()
            invariant
                *self == *old(self),
                i <= self@.len(),
                forall|k: int| 0 <= k < i ==> (#[trigger] self@[k]).0 != id,
            decreases self@.len() - i,
        {
            if self.entries[i].0 == id {
                let ghost o = self@;
                self.entries.set(i, (id, handle));
                proof {
                    assert(self@ == o.update(i as int, (id, handle)));
                    assert(o[i as int].0 == id);
                    assert(self.ids()[i as int] == id);
                    assert(old(self).ids().contains(id)) by {
                        assert(old(self).ids()[i as int] == id);
                    }
                    assert forall|k: int| 0 <= k < o.len() implies #[trigger] self@[k] == (
                    if o[k].0 == id {
                        (id, handle)
                    } else {
                        o[k]
                    }) by {
                        if k != i && o[k].0 == id {
                            if k < i {
                                assert(o[k].0 != o[i as int].0);
                            } else {
                                assert(o[i as int].0 != o[k].0);
                            }
                        }
                    }
                    assert forall|k: int, l: int|
                        0 <= k < l < self@.len() implies (#[trigger] self@[k]).0 != (
                    #[trigger] self@[l]).0 by {
                        assert(o[k].0 != o[l].0);
                    }
                }
                return ;
            }
            i = i + 1;
        }
        proof {
            assert(!self.ids().contains(id)) by {
                if self.ids().contains(id) {
                    let k = choose|k: int| 0 <= k < self.ids().len() && self.ids()[k] == id;
                    assert(self@[k].0 != id);
                }
            }
        }
        let ghost o = self@;
        self.entries.push((id, handle));
        proof {
            assert(self@ == o.push((id, handle)));
            assert forall|k: int, l: int|
                0 <= k < l < self@.len() implies (#[trigger] self@[k]).0 != (
            #[trigger] self@[l]).0 by {
                if l < o.len() {
                    assert(o[k].0 != o[l].0);
                } else {
                    assert(self@[l].0 == id);
                    if o[k].0 == id {
                        assert(old(self).ids()[k] == id);
                        assert(old(self).ids().contains(id));
                    }
                }
            }
            assert(self.ids()[o.len() as int] == id);
        }
    }
}

} // verus!
