//! The per-sequence-number state table: a finite map from sequence number
//! to a pending action, with exact insert/take semantics.
//!
//! Both the host async context and the guest runtime key their pending
//! actions by sequence number; this table gives them map semantics that
//! proofs about request/response correlation can rest on.

use vstd::prelude::*;

verus! {

/// The map built from an entry list: later entries win.
pub open spec fn kv_map<V>(s: Seq<(u64, V)>) -> Map<u64, V>
    decreases s.len(),
{
    if s.len() == 0 {
        Map::<u64, V>::empty()
    } else {
        kv_map(s.drop_last()).insert(s.last().0, s.last().1)
    }
}

/// No two entries share a key.
pub open spec fn kv_distinct<V>(s: Seq<(u64, V)>) -> bool {
    forall|i: int, j: int|
        0 <= i < j < s.len() ==> (#[trigger] s[i]).0 != (#[trigger] s[j]).0
}

proof fn lemma_kv_dom<V>(s: Seq<(u64, V)>, k: u64)
    ensures
        kv_map(s).contains_key(k) <==> exists|i: int| 0 <= i < s.len() && (#[trigger] s[i]).0 == k,
    decreases s.len(),
{
    if s.len() > 0 {
        lemma_kv_dom(s.drop_last(), k);
        if s.last().0 == k {
            assert(s[s.len() - 1].0 == k);
        } else {
            if kv_map(s).contains_key(k) {
                let i = choose|i: int|
                    0 <= i < s.drop_last().len() && (#[trigger] s.drop_last()[i]).0 == k;
                assert(s[i].0 == k);
            }
            if exists|i: int| 0 <= i < s.len() && (#[trigger] s[i]).0 == k {
                let i = choose|i: int| 0 <= i < s.len() && (#[trigger] s[i]).0 == k;
                assert(s.drop_last()[i].0 == k);
            }
        }
    }
}

proof fn lemma_kv_remove<V>(s: Seq<(u64, V)>, i: int)
    requires
        kv_distinct(s),
        0 <= i < s.len(),
    ensures
        kv_map(s).contains_key(s[i].0),
        kv_map(s)[s[i].0] == s[i].1,
        kv_map(s.remove(i)) == kv_map(s).remove(s[i].0),
        kv_distinct(s.remove(i)),
    decreases s.len(),
{
    let k = s[i].0;
    assert forall|a: int, b: int|
        0 <= a < b < s.remove(i).len() implies (#[trigger] s.remove(i)[a]).0 != (
    #[trigger] s.remove(i)[b]).0 by {
        let a2: int = if a < i {
            a
        } else {
            a + 1
        };
        let b2: int = if b < i {
            b
        } else {
            b + 1
        };
        assert(s.remove(i)[a] == s[a2]);
        assert(s.remove(i)[b] == s[b2]);
    }
    if i == s.len() - 1 {
        assert(s.remove(i) =~= s.drop_last());
        lemma_kv_dom(s.drop_last(), k);
        assert(!kv_map(s.drop_last()).contains_key(k));
        assert(kv_map(s) == kv_map(s.drop_last()).insert(k, s[i].1));
        assert(kv_map(s.remove(i)) =~= kv_map(s).remove(k));
    } else {
        let t = s.drop_last();
        let last = s.last();
        lemma_kv_remove(t, i);
        assert(s.remove(i).drop_last() =~= t.remove(i));
        assert(s.remove(i).last() == last);
        assert(s.remove(i).len() > 0);
        assert(kv_map(s.remove(i)) == kv_map(t.remove(i)).insert(last.0, last.1));
        assert(last.0 != k);
        assert(kv_map(s.remove(i)) =~= kv_map(s).remove(k));
    }
}

/// The table of pending actions, keyed by sequence number.
pub struct PendingMap<V> {
    entries: Vec<(u64, V)>,
}

impl<V> View for PendingMap<V> {
    type V = Map<u64, V>;

    closed spec fn view(&self) -> Map<u64, V> {
        kv_map(self.entries@)
    }
}

impl<V> PendingMap<V> {
    /// The table's representation invariant: one entry per key.
    pub closed spec fn wf(&self) -> bool {
        kv_distinct(self.entries@)
    }

    /// An empty table.
    pub fn new() -> (r: Self)
        ensures
            r.wf(),
            r@ == Map::<u64, V>::empty(),
    {
        let r = PendingMap { entries: Vec::new() };
        proof {
            assert(r.entries@.len() == 0);
        }
        r
    }

    /// Remove and return the action stored under `seq_no`, if any.
    pub fn take(&mut self, seq_no: u64) -> (r: Option<V>)
        requires
            old(self).wf(),
        ensures
            final(self).wf(),
            old(self)@.contains_key(seq_no) ==> (r matches Some(v) && v == old(self)@[seq_no]
                && final(self)@ == old(self)@.remove(seq_no)),
            !old(self)@.contains_key(seq_no) ==> r is None && final(self)@ == old(self)@,
    {
        let n = self.entries.len();
        let mut i = n;
        while i > 0
            invariant
                i <= n,
                n == self.entries@.len(),
                *self == *old(self),
                old(self).wf(),
                forall|j: int| i <= j < n ==> (#[trigger] self.entries@[j]).0 != seq_no,
            decreases i,
        {
            i = i - 1;
            if self.entries[i].0 == seq_no {
                proof {
                    lemma_kv_remove(self.entries@, i as int);
                }
                let e = self.entries.remove(i);
                return Some(e.1);
            }
        }
        proof {
            lemma_kv_dom(self.entries@, seq_no);
        }
        None
    }

    /// Store `action` under `seq_no`, replacing any earlier entry.
    pub fn insert(&mut self, seq_no: u64, action: V)
        requires
            old(self).wf(),
        ensures
            final(self).wf(),
            final(self)@ == old(self)@.insert(seq_no, action),
    {
        let _ = self.take(seq_no);
        let ghost mid = self.entries@;
        self.entries.push((seq_no, action));
        proof {
            assert(self.entries@.drop_last() =~= mid);
            lemma_kv_dom(mid, seq_no);
            assert(forall|j: int|
                0 <= j < mid.len() ==> (#[trigger] mid[j]).0 != seq_no);
            assert forall|a: int, b: int|
                0 <= a < b < self.entries@.len() implies (#[trigger] self.entries@[a]).0 != (
            #[trigger] self.entries@[b]).0 by {
                if b < self.entries@.len() - 1 {
                    assert(mid[a].0 != mid[b].0);
                }
            }
            assert(old(self)@.insert(seq_no, action) =~= kv_map(mid).insert(seq_no, action));
        }
    }

    /// Whether an action is stored under `seq_no`.
    pub fn contains(&self, seq_no: u64) -> (r: bool)
        requires
            self.wf(),
        ensures
            r == self@.contains_key(seq_no),
    {
        let n = self.entries.len();
        let mut i = n;
        while i > 0
            invariant
                i <= n,
                n == self.entries@.len(),
                forall|j: int| i <= j < n ==> (#[trigger] self.entries@[j]).0 != seq_no,
            decreases i,
        {
            i = i - 1;
            if self.entries[i].0 == seq_no {
                proof {
                    lemma_kv_dom(self.entries@, seq_no);
                }
                return true;
            }
        }
        proof {
            lemma_kv_dom(self.entries@, seq_no);
        }
        false
    }
}

} // verus!
