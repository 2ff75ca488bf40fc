//! The snapshot table of a project: a mapping from commit id to the full
//! document text stored for that commit.
//!
//! On disk each entry is one file `commit_data/<commit_id>.md`; in memory the
//! table is an association list whose keys are distinct, mirroring the fact
//! that a directory holds at most one file per name.
use vstd::prelude::*;

verus! {

/// Mapping from commit id to the document snapshot stored for that commit.
#[derive(Debug, Clone, PartialEq, Eq)]
pub struct SnapshotMap {
    entries: Vec<(String, String)>,
}

impl SnapshotMap {
    /// The entries in storage order, as (commit id, snapshot text) pairs.
    pub closed spec fn entry_seq(&self) -> Seq<(Seq<char>, Seq<char>)> {
        self.entries.deep_view()
    }

    /// The keys are pairwise distinct.
    pub closed spec fn wf(&self) -> bool {
        forall|i: int, j: int|
            0 <= i < j < self.entry_seq().len() ==> self.entry_seq()[i].0 != self.entry_seq()[j].0
    }

    /// The snapshot stored under commit id `k`, if any.
    pub closed spec fn spec_get(&self, k: Seq<char>) -> Option<Seq<char>> {
        if exists|i: int| 0 <= i < self.entry_seq().len() && self.entry_seq()[i].0 == k {
            let i = choose|i: int| 0 <= i < self.entry_seq().len() && self.entry_seq()[i].0 == k;
            Some(self.entry_seq()[i].1)
        } else {
            None
        }
    }

    /// Under distinct keys, the entry at position `i` is exactly what
    /// `spec_get` finds for its key.
    pub proof fn lemma_get_at(&self, i: int)
        requires
            self.wf(),
            0 <= i < self.entry_seq().len(),
        ensures
            self.spec_get(self.entry_seq()[i].0) == Some(self.entry_seq()[i].1),
    {
        let k = self.entry_seq()[i].0;
        assert(0 <= i < self.entry_seq().len() && self.entry_seq()[i].0 == k);
        let j = choose|j: int| 0 <= j < self.entry_seq().len() && self.entry_seq()[j].0 == k;
        if i < j {
            assert(self.entry_seq()[i].0 != self.entry_seq()[j].0);
        } else if j < i {
            assert(self.entry_seq()[j].0 != self.entry_seq()[i].0);
        }
    }

    /// A key that occurs at no position is absent from the table.
    pub proof fn lemma_get_none(&self, k: Seq<char>)
        requires
            forall|i: int| 0 <= i < self.entry_seq().len() ==> self.entry_seq()[i].0 != k,
        ensures
            self.spec_get(k) is None,
    {
    }

    /// An empty table.
    pub fn new() -> (r: Self)
        ensures
            r.entry_seq() == Seq::<(Seq<char>, Seq<char>)>::empty(),
            r.wf(),
    {
        let r = SnapshotMap { entries: Vec::new() };
        proof {
            assert(r.entry_seq() =~= Seq::<(Seq<char>, Seq<char>)>::empty());
        }
        r
    }

    /// Number of snapshots stored.
    pub fn len(&self) -> (n: usize)
        ensures
            n == self.entry_seq().len(),
    {
        self.entries.len()
    }

    /// The commit id of the entry at position `i`.
    pub fn key_at(&self, i: usize) -> (k: &String)
        requires
            i < self.entry_seq().len(),
        ensures
            k@ == self.entry_seq()[i as int].0,
    {
        &self.entries[i].0
    }

    /// The snapshot text of the entry at position `i`.
    pub fn val_at(&self, i: usize) -> (v: &String)
        requires
            i < self.entry_seq().len(),
        ensures
            v@ == self.entry_seq()[i as int].1,
    {
        &self.entries[i].1
    }

    /// Stores `text` under commit id `id`, replacing any snapshot already
    /// stored under that id.
    pub fn insert(&mut self, id: String, text: String)
        requires
            old(self).wf(),
        ensures
            final(self).wf(),
            final(self).spec_get(id@) == Some(text@),
            forall|k: Seq<char>|
                k != id@ ==> final(self).spec_get(k) == #[trigger] old(self).spec_get(k),
            final(self).entry_seq().len() <= old(self).entry_seq().len() + 1,
    {
        let n = self.entries.len();
        let mut i: usize = 0;
        while i < n
            invariant
                0 <= i <= n,
                n == self.entry_seq().len(),
                self.wf(),
                *self == *old(self),
                forall|j: int| 0 <= j < i ==> self.entry_seq()[j].0 != id@,
            decreases n - i,
        {
            if self.entries[i].0 == id {
                let ghost pre = *self;
                self.entries[i] = (id, text);
                proof {
                    assert(self.entry_seq() =~= pre.entry_seq().update(
                        i as int,
                        (id@, text@),
                    ));
                    assert(forall|j: int|
                        0 <= j < self.entry_seq().len() ==> self.entry_seq()[j].0
                            == pre.entry_seq()[j].0);
                    assert forall|p: int, q: int|
                        0 <= p < q < self.entry_seq().len() implies self.entry_seq()[p].0
                        != self.entry_seq()[q].0 by {
                        assert(self.entry_seq()[p].0 == pre.entry_seq()[p].0);
                        assert(self.entry_seq()[q].0 == pre.entry_seq()[q].0);
                        assert(pre.entry_seq()[p].0 != pre.entry_seq()[q].0);
                    }
                    assert(self.wf());
                    self.lemma_get_at(i as int);
                    assert forall|k: Seq<char>| k != id@ implies self.spec_get(k) == pre.spec_get(
                        k,
                    ) by {
                        lemma_lookup_same_keys(pre, *self, i as int, k);
                    }
                }
                return ;
            }
            i = i + 1;
        }
        let ghost pre = *self;
        self.entries.push((id, text));
        proof {
            assert(self.entry_seq() =~= pre.entry_seq().push((id@, text@)));
            let m = pre.entry_seq().len() as int;
            assert(self.wf());
            self.lemma_get_at(m);
            assert forall|k: Seq<char>| k != id@ implies self.spec_get(k) == pre.spec_get(k) by {
                if exists|j: int| 0 <= j < pre.entry_seq().len() && pre.entry_seq()[j].0 == k {
                    let j = choose|j: int|
                        0 <= j < pre.entry_seq().len() && pre.entry_seq()[j].0 == k;
                    pre.lemma_get_at(j);
                    self.lemma_get_at(j);
                } else {
                    pre.lemma_get_none(k);
                    self.lemma_get_none(k);
                }
            }
        }
    }

    /// The snapshot stored under `id`, if any.
    pub fn get(&self, id: &String) -> (r: Option<&String>)
        requires
            self.wf(),
        ensures
            match r {
                Some(v) => self.spec_get(id@) == Some(v@),
                None => self.spec_get(id@) is None,
            },
    {
        let n = self.entries.len();
        let mut i: usize = 0;
        while i < n
            invariant
                0 <= i <= n,
                n == self.entry_seq().len(),
                self.wf(),
                forall|j: int| 0 <= j < i ==> self.entry_seq()[j].0 != id@,
            decreases n - i,
        {
            if self.entries[i].0 == *id {
                proof {
                    self.lemma_get_at(i as int);
                }
                return Some(&self.entries[i].1);
            }
            i = i + 1;
        }
        proof {
            self.lemma_get_none(id@);
        }
        None
    }
}

/// Two tables with pointwise equal keys, and equal values everywhere but at
/// position `i`, agree on the lookup of every key other than the one at `i`.
proof fn lemma_lookup_same_keys(a: SnapshotMap, b: SnapshotMap, i: int, k: Seq<char>)
    requires
        a.wf(),
        b.wf(),
        a.entry_seq().len() == b.entry_seq().len(),
        0 <= i < a.entry_seq().len(),
        forall|j: int|
            0 <= j < a.entry_seq().len() ==> a.entry_seq()[j].0 == #[trigger] b.entry_seq()[j].0,
        forall|j: int|
            0 <= j < a.entry_seq().len() && j != i ==> a.entry_seq()[j].1 == #[trigger] b.entry_seq()[j].1,
        k != a.entry_seq()[i].0,
    ensures
        a.spec_get(k) == b.spec_get(k),
{
    if exists|j: int| 0 <= j < a.entry_seq().len() && a.entry_seq()[j].0 == k {
        let j = choose|j: int| 0 <= j < a.entry_seq().len() && a.entry_seq()[j].0 == k;
        a.lemma_get_at(j);
        b.lemma_get_at(j);
    } else {
        a.lemma_get_none(k);
        b.lemma_get_none(k);
    }
}

} // verus!
