//! The module registry: a map from link hint to owned module, used as the
//! routing table for forwarded calls.
//!
//! The registry never stores two modules under one hint: registering under
//! an occupied hint hands the displaced module back, so the caller can
//! terminate it.

use vstd::prelude::*;

verus! {

use crate::abi::LinkHint;
use crate::abi::LinkHintV;
use crate::errors::RpcError;
use crate::errors::RpcErrorV;

/// The map built from a registration list: later entries win.
pub open spec fn hint_map<M>(s: Seq<(LinkHint, M)>) -> Map<LinkHintV, M>
    decreases s.len(),
{
    if s.len() == 0 {
        Map::<LinkHintV, M>::empty()
    } else {
        hint_map(s.drop_last()).insert(s.last().0@, s.last().1)
    }
}

/// No two entries share a hint.
pub open spec fn hint_distinct<M>(s: Seq<(LinkHint, M)>) -> bool {
    forall|i: int, j: int|
        0 <= i < j < s.len() ==> (#[trigger] s[i]).0@ != (#[trigger] s[j]).0@
}

proof fn lemma_hint_dom<M>(s: Seq<(LinkHint, M)>, k: LinkHintV)
    ensures
        hint_map(s).contains_key(k) <==> exists|i: int|
            0 <= i < s.len() && (#[trigger] s[i]).0@ == k,
    decreases s.len(),
{
    if s.len() > 0 {
        lemma_hint_dom(s.drop_last(), k);
        if s.last().0@ == k {
            assert(s[s.len() - 1].0@ == k);
        } else {
            if hint_map(s).contains_key(k) {
                let i = choose|i: int|
                    0 <= i < s.drop_last().len() && (#[trigger] s.drop_last()[i]).0@ == k;
                assert(s[i].0@ == k);
            }
            if exists|i: int| 0 <= i < s.len() && (#[trigger] s[i]).0@ == k {
                let i = choose|i: int| 0 <= i < s.len() && (#[trigger] s[i]).0@ == k;
                assert(s.drop_last()[i].0@ == k);
            }
        }
    }
}

proof fn lemma_hint_remove<M>(s: Seq<(LinkHint, M)>, i: int)
    requires
        hint_distinct(s),
        0 <= i < s.len(),
    ensures
        hint_map(s).contains_key(s[i].0@),
        hint_map(s)[s[i].0@] == s[i].1,
        hint_map(s.remove(i)) == hint_map(s).remove(s[i].0@),
        hint_distinct(s.remove(i)),
    decreases s.len(),
{
    let k = s[i].0@;
    assert forall|a: int, b: int|
        0 <= a < b < s.remove(i).len() implies (#[trigger] s.remove(i)[a]).0@ != (
    #[trigger] s.remove(i)[b]).0@ by {
        let a2: int = if a < i {
            a
        } else {
            a + 1
        };
        let b2: int = if b < i {
            b
        } else {
            b + 1
        };
        assert(s.remove(i)[a] == s[a2]);
        assert(s.remove(i)[b] == s[b2]);
    }
    if i == s.len() - 1 {
        assert(s.remove(i) =~= s.drop_last());
        lemma_hint_dom(s.drop_last(), k);
        assert(!hint_map(s.drop_last()).contains_key(k));
        assert(hint_map(s) == hint_map(s.drop_last()).insert(k, s[i].1));
        assert(hint_map(s.remove(i)) =~= hint_map(s).remove(k));
    } else {
        let t = s.drop_last();
        let last = s.last();
        lemma_hint_remove(t, i);
        assert(s.remove(i).drop_last() =~= t.remove(i));
        assert(s.remove(i).last() == last);
        assert(s.remove(i).len() > 0);
        assert(hint_map(s.remove(i)) == hint_map(t.remove(i)).insert(last.0@, last.1));
        assert(last.0@ != k);
        assert(hint_map(s.remove(i)) =~= hint_map(s).remove(k));
    }
}

/// The registry of loaded modules, keyed by link hint.
pub struct ModuleManager<M> {
    entries: Vec<(LinkHint, M)>,
}

impl<M> View for ModuleManager<M> {
    type V = Map<LinkHintV, M>;

    closed spec fn view(&self) -> Map<LinkHintV, M> {
        hint_map(self.entries@)
    }
}

impl<M> ModuleManager<M> {
    /// The registry's representation invariant: one module per hint.
    pub closed spec fn wf(&self) -> bool {
        hint_distinct(self.entries@)
    }

    /// An empty registry.
    pub fn new() -> (r: Self)
        ensures
            r.wf(),
            r@ == Map::<LinkHintV, M>::empty(),
    {
        let r = ModuleManager { entries: Vec::new() };
        proof {
            assert(r.entries@.len() == 0);
        }
        r
    }

    /// The module registered under `link_hint`, if any.
    pub fn resolve(&self, link_hint: &LinkHint) -> (r: Option<&M>)
        requires
            self.wf(),
        ensures
            self@.contains_key(link_hint@) ==> (r matches Some(m) && *m == self@[link_hint@]),
            !self@.contains_key(link_hint@) ==> r is None,
    {
        let n = self.entries.len();
        let mut i = n;
        while i > 0
            invariant
                i <= n,
                n == self.entries@.len(),
                self.wf(),
                forall|j: int| i <= j < n ==> (#[trigger] self.entries@[j]).0@ != link_hint@,
            decreases i,
        {
            i = i - 1;
            let e = &self.entries[i];
            if e.0.eq(link_hint) {
                proof {
                    lemma_hint_remove(self.entries@, i as int);
                }
                return Some(&e.1);
            }
        }
        proof {
            lemma_hint_dom(self.entries@, link_hint@);
        }
        None
    }

    /// Remove and return the module registered under `link_hint`, if any.
    pub fn unregister(&mut self, link_hint: &LinkHint) -> (r: Option<M>)
        requires
            old(self).wf(),
        ensures
            final(self).wf(),
            old(self)@.contains_key(link_hint@) ==> (r matches Some(m) && m == old(
                self,
            )@[link_hint@] && final(self)@ == old(self)@.remove(link_hint@)),
            !old(self)@.contains_key(link_hint@) ==> r is None && final(self)@ == old(self)@,
    {
        let n = self.entries.len();
        let mut i = n;
        while i > 0
            invariant
                i <= n,
                n == self.entries@.len(),
                *self == *old(self),
                old(self).wf(),
                forall|j: int| i <= j < n ==> (#[trigger] self.entries@[j]).0@ != link_hint@,
            decreases i,
        {
            i = i - 1;
            if self.entries[i].0.eq(link_hint) {
                proof {
                    lemma_hint_remove(self.entries@, i as int);
                }
                let e = self.entries.remove(i);
                return Some(e.1);
            }
        }
        proof {
            lemma_hint_dom(self.entries@, link_hint@);
        }
        None
    }

    /// Register `module` under `link_hint`. An earlier module under the
    /// same hint is displaced and handed back, so exactly one module
    /// stands under each hint.
    pub fn register(&mut self, link_hint: LinkHint, module: M) -> (r: Option<M>)
        requires
            old(self).wf(),
        ensures
            final(self).wf(),
            final(self)@ == old(self)@.insert(link_hint@, module),
            old(self)@.contains_key(link_hint@) ==> (r matches Some(m) && m == old(
                self,
            )@[link_hint@]),
            !old(self)@.contains_key(link_hint@) ==> r is None,
    {
        let displaced = self.unregister(&link_hint);
        let ghost mid = self.entries@;
        self.entries.push((link_hint, module));
        proof {
            assert(self.entries@.drop_last() =~= mid);
            lemma_hint_dom(mid, self.entries@.last().0@);
            assert forall|a: int, b: int|
                0 <= a < b < self.entries@.len() implies (#[trigger] self.entries@[a]).0@ != (
            #[trigger] self.entries@[b]).0@ by {
                if b < self.entries@.len() - 1 {
                    assert(mid[a].0@ != mid[b].0@);
                }
            }
        }
        displaced
    }

    /// Every registered hint, each exactly once.
    pub fn list_modules(&self) -> (r: Vec<LinkHint>)
        requires
            self.wf(),
        ensures
            forall|i: int| 0 <= i < r@.len() ==> self@.contains_key((#[trigger] r@[i])@),
            forall|k: LinkHintV| self@.contains_key(k) ==> exists|i: int|
                0 <= i < r@.len() && (#[trigger] r@[i])@ == k,
            forall|i: int, j: int| 0 <= i < j < r@.len() ==> (#[trigger] r@[i])@ != (
            #[trigger] r@[j])@,
    {
        let n = self.entries.len();
        let mut out: Vec<LinkHint> = Vec::new();
        let mut i: usize = 0;
        while i < n
            invariant
                i <= n,
                n == self.entries@.len(),
                self.wf(),
                out@.len() == i,
                forall|j: int| 0 <= j < i ==> (#[trigger] out@[j])@ == self.entries@[j].0@,
            decreases n - i,
        {
            let e = &self.entries[i];
            out.push(e.0.clone());
            i = i + 1;
        }
        proof {
            assert forall|j: int| 0 <= j < out@.len() implies self@.contains_key(
                (#[trigger] out@[j])@,
            ) by {
                lemma_hint_dom(self.entries@, out@[j]@);
            }
            assert forall|k: LinkHintV| self@.contains_key(k) implies exists|j: int|
                0 <= j < out@.len() && (#[trigger] out@[j])@ == k by {
                lemma_hint_dom(self.entries@, k);
                let j = choose|j: int| 0 <= j < self.entries@.len() && (#[trigger] self.entries@[j]).0@ == k;
                assert(out@[j]@ == k);
            }
        }
        out
    }

    /// Resolve the destination of a forwarded call issued by the module
    /// whose hint is `my_hint`: a self-reference is rejected at once, an
    /// unknown hint is unresolved, and anything else is the registered
    /// module.
    pub fn resolve_for(&self, my_hint: &LinkHint, link_hint: &LinkHint) -> (r: Result<
        &M,
        RpcError,
    >)
        requires
            self.wf(),
        ensures
            link_hint@ == my_hint@ ==> (r matches Err(e) && e@ == RpcErrorV::CircularRoute),
            link_hint@ != my_hint@ && !self@.contains_key(link_hint@) ==> (r matches Err(e) && e@
                == RpcErrorV::UnresolvedHint(link_hint@)),
            link_hint@ != my_hint@ && self@.contains_key(link_hint@) ==> (r matches Ok(m) && *m
                == self@[link_hint@]),
    {
        if link_hint.eq(my_hint) {
            return Err(RpcError::CircularRoute);
        }
        match self.resolve(link_hint) {
            Some(m) => Ok(m),
            None => Err(RpcError::UnresolvedHint(link_hint.clone())),
        }
    }
}

} // verus!
