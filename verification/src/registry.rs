//! The identifier registry: the append-only collection of every custom
//! menu-item identifier allocated in the process, consulted at dispatch time
//! to tell custom command identifiers from everything else.

use vstd::prelude::*;

verus! {

/// The append-only record of every custom menu-item identifier allocated.
#[derive(Clone, Debug)]
pub struct IdRegistry {
    ids: Vec<u16>,
}

impl IdRegistry {
    /// The identifiers registered so far, in allocation order.
    pub closed spec fn ids(self) -> Seq<u16> {
        self.ids@
    }

    /// An empty registry.
    pub fn new() -> (r: IdRegistry)
        ensures
            r.ids() == Seq::<u16>::empty(),
    {
        IdRegistry { ids: Vec::new() }
    }

    /// Record one more allocated identifier. The registry is append-only:
    /// nothing is ever pruned.
    pub fn register(&mut self, id: u16)
        ensures
            final(self).ids() == old(self).ids().push(id),
    {
        self.ids.push(id);
    }

    /// Whether `id` was ever registered.
    pub fn contains(&self, id: u16) -> (r: bool)
        ensures
            r == self.ids().contains(id),
    {
        let n = self.ids.len();
        let mut i: usize = 0;
        while i < n
            invariant
                n == self.ids.len(),
                i <= n,
                forall|k: int| 0 <= k < i ==> self.ids@[k] != id,
            decreases n - i,
        {
            if self.ids[i] == id {
                assert(self.ids@.contains(id)) by {
                    assert(self.ids@[i as int] == id);
                }
                return true;
            }
            i += 1;
        }
        false
    }
}

} // verus!
