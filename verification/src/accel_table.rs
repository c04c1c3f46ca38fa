//! The merged accelerator table a menu carries: a collection of native
//! accelerator entries with unique command identifiers, where a later
//! insertion under the same identifier replaces the earlier entry.

use vstd::prelude::*;

use crate::accelerator::AccelEntry;

verus! {

/// No two entries share a command identifier.
pub open spec fn unique_cmds(s: Seq<AccelEntry>) -> bool {
    forall|i: int, j: int| 0 <= i < j < s.len() ==> s[i].cmd != s[j].cmd
}

/// Some entry in `s` carries the command identifier `cmd`.
pub open spec fn has_cmd(s: Seq<AccelEntry>, cmd: u16) -> bool {
    exists|i: int| 0 <= i < s.len() && s[i].cmd == cmd
}

/// `post` is `pre` with `e` inserted: `e` is present, entries under other
/// identifiers are kept, and nothing else appears.
pub open spec fn seq_inserted(pre: Seq<AccelEntry>, post: Seq<AccelEntry>, e: AccelEntry) -> bool {
    &&& post.contains(e)
    &&& forall|x: AccelEntry| pre.contains(x) && x.cmd != e.cmd ==> post.contains(x)
    &&& forall|x: AccelEntry|
        post.contains(x) ==> x == e || (pre.contains(x) && x.cmd != e.cmd)
}

/// A table of native accelerator entries with unique command identifiers.
#[derive(Clone, Debug)]
pub struct AccelTable {
    entries: Vec<AccelEntry>,
}

impl AccelTable {
    /// The entries the table holds.
    pub closed spec fn entries(self) -> Seq<AccelEntry> {
        self.entries@
    }

    /// The table's invariant: command identifiers are unique.
    pub open spec fn wf(self) -> bool {
        unique_cmds(self.entries())
    }

    /// An empty table.
    pub fn new() -> (r: AccelTable)
        ensures
            r.entries() == Seq::<AccelEntry>::empty(),
            r.wf(),
    {
        AccelTable { entries: Vec::new() }
    }

    /// How many entries the table holds.
    pub fn len(&self) -> (r: usize)
        ensures
            r == self.entries().len(),
    {
        self.entries.len()
    }

    /// The entry at position `i`, in insertion order.
    pub fn entry_at(&self, i: usize) -> (r: AccelEntry)
        requires
            i < self.entries().len(),
        ensures
            r == self.entries()[i as int],
    {
        self.entries[i]
    }

    /// Insert `e`, replacing any earlier entry under the same command
    /// identifier.
    pub fn insert(&mut self, e: AccelEntry)
        requires
            old(self).wf(),
        ensures
            final(self).wf(),
            seq_inserted(old(self).entries(), final(self).entries(), e),
    {
        let n = self.entries.len();
        let mut i: usize = 0;
        while i < n
            invariant
                n == self.entries.len(),
                i <= n,
                self.entries@ == old(self).entries@,
                unique_cmds(self.entries@),
                forall|k: int| 0 <= k < i ==> self.entries@[k].cmd != e.cmd,
            decreases n - i,
        {
            if self.entries[i].cmd == e.cmd {
                self.entries.set(i, e);
                assert(self.entries@.contains(e)) by {
                    assert(self.entries@[i as int] == e);
                }
                assert(forall|x: AccelEntry|
                    old(self).entries@.contains(x) && x.cmd != e.cmd
                        ==> self.entries@.contains(x)) by {
                    assert forall|x: AccelEntry|
                        old(self).entries@.contains(x) && x.cmd != e.cmd
                        implies self.entries@.contains(x) by {
                        let k = choose|k: int|
                            0 <= k < old(self).entries@.len() && old(self).entries@[k] == x;
                        assert(self.entries@[k] == x);
                    }
                }
                assert(forall|x: AccelEntry|
                    self.entries@.contains(x)
                        ==> x == e || (old(self).entries@.contains(x) && x.cmd != e.cmd)) by {
                    assert forall|x: AccelEntry| self.entries@.contains(x)
                        implies x == e || (old(self).entries@.contains(x) && x.cmd != e.cmd) by {
                        let k = choose|k: int|
                            0 <= k < self.entries@.len() && self.entries@[k] == x;
                        if k != i {
                            assert(old(self).entries@[k] == x);
                        }
                    }
                }
                return ;
            }
            i += 1;
        }
        self.entries.push(e);
        assert(self.entries@ == old(self).entries@.push(e));
        assert(self.entries@.contains(e)) by {
            assert(self.entries@[self.entries@.len() - 1] == e);
        }
        assert(forall|x: AccelEntry|
            old(self).entries@.contains(x) ==> self.entries@.contains(x)) by {
            assert forall|x: AccelEntry| old(self).entries@.contains(x)
                implies self.entries@.contains(x) by {
                let k = choose|k: int|
                    0 <= k < old(self).entries@.len() && old(self).entries@[k] == x;
                assert(self.entries@[k] == x);
            }
        }
        assert(forall|x: AccelEntry|
            self.entries@.contains(x) ==> x == e || old(self).entries@.contains(x)) by {
            assert forall|x: AccelEntry| self.entries@.contains(x)
                implies x == e || old(self).entries@.contains(x) by {
                let k = choose|k: int|
                    0 <= k < self.entries@.len() && self.entries@[k] == x;
                if k < self.entries@.len() - 1 {
                    assert(old(self).entries@[k] == x);
                }
            }
        }
        assert(forall|x: AccelEntry|
            old(self).entries@.contains(x) ==> x.cmd != e.cmd) by {
            assert forall|x: AccelEntry| old(self).entries@.contains(x)
                implies x.cmd != e.cmd by {
                let k = choose|k: int|
                    0 <= k < old(self).entries@.len() && old(self).entries@[k] == x;
            }
        }
    }

    /// Drain every entry of `other` into `self`, in `other`'s order, so that
    /// on a shared command identifier `other`'s entry wins; `other` is left
    /// empty.
    pub fn merge_from(&mut self, other: &mut AccelTable)
        requires
            old(self).wf(),
            old(other).wf(),
        ensures
            final(self).wf(),
            final(other).entries() == Seq::<AccelEntry>::empty(),
            forall|x: AccelEntry|
                old(other).entries().contains(x) ==> final(self).entries().contains(x),
            forall|x: AccelEntry|
                old(self).entries().contains(x) && !has_cmd(old(other).entries(), x.cmd)
                    ==> final(self).entries().contains(x),
            forall|x: AccelEntry|
                final(self).entries().contains(x) ==> old(other).entries().contains(x) || (old(
                self).entries().contains(x) && !has_cmd(old(other).entries(), x.cmd)),
    {
        let n = other.entries.len();
        let mut j: usize = 0;
        while j < n
            invariant
                n == other.entries.len(),
                j <= n,
                other.entries@ == old(other).entries@,
                unique_cmds(other.entries@),
                self.wf(),
                forall|x: AccelEntry|
                    old(other).entries@.subrange(0, j as int).contains(x)
                        ==> self.entries().contains(x),
                forall|x: AccelEntry|
                    old(self).entries().contains(x) && !has_cmd(old(other).entries@, x.cmd)
                        ==> self.entries().contains(x),
                forall|x: AccelEntry|
                    self.entries().contains(x) ==> old(other).entries@.subrange(
                        0,
                        j as int,
                    ).contains(x) || (old(self).entries().contains(x) && !has_cmd(
                        old(other).entries@.subrange(0, j as int),
                        x.cmd,
                    )),
            decreases n - j,
        {
            let e = other.entries[j];
            let ghost pre = self.entries();
            let ghost head = old(other).entries@.subrange(0, j as int);
            let ghost head1 = old(other).entries@.subrange(0, j + 1 as int);
            self.insert(e);
            proof {
                assert(head1 == head.push(e)) by {
                    assert(head1 =~= head.push(e));
                }
                // entries already carried over stay: none of them shares e's
                // identifier, except an earlier copy under e.cmd in `other`,
                // which uniqueness of `other` rules out.
                assert forall|x: AccelEntry| head1.contains(x)
                    implies self.entries().contains(x) by {
                    if x == e {
                    } else {
                        let k = choose|k: int| 0 <= k < head.len() && head[k] == x;
                        assert(old(other).entries@[k] == x);
                        assert(old(other).entries@[j as int] == e);
                        assert(x.cmd != e.cmd);
                        assert(pre.contains(x));
                    }
                }
                assert forall|x: AccelEntry|
                    old(self).entries().contains(x) && !has_cmd(old(other).entries@, x.cmd)
                    implies self.entries().contains(x) by {
                    assert(pre.contains(x));
                    assert(old(other).entries@[j as int] == e);
                    assert(x.cmd != e.cmd);
                }
                assert forall|x: AccelEntry| self.entries().contains(x)
                    implies head1.contains(x) || (old(self).entries().contains(x) && !has_cmd(
                    head1,
                    x.cmd,
                )) by {
                    if x == e {
                        assert(head1[j as int] == e);
                    } else {
                        assert(pre.contains(x) && x.cmd != e.cmd);
                        if head.contains(x) {
                            let k = choose|k: int| 0 <= k < head.len() && head[k] == x;
                            assert(head1[k] == x);
                        } else {
                            assert(!has_cmd(head, x.cmd));
                            assert forall|k: int| 0 <= k < head1.len()
                                implies head1[k].cmd != x.cmd by {
                                if k < j {
                                    assert(head[k] == head1[k]);
                                }
                            }
                        }
                    }
                }
            }
            j += 1;
        }
        proof {
            assert(old(other).entries@.subrange(0, n as int) == old(other).entries@);
        }
        other.entries.clear();
    }
}

} // verus!
