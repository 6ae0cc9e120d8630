//! The export and import tables of an RPC node: registered callbacks keyed
//! by function name (exports, under one shared link hint) or by full
//! function identifier (imports).
//!
//! The tables never run a callback; they store and look up opaque callback
//! values of the caller's choosing, with map semantics: a later
//! registration under the same key replaces the earlier one.

use vstd::prelude::*;

verus! {

use crate::abi::FunctionIdent;
use crate::abi::FunctionIdentV;
use crate::abi::LinkHint;
use crate::abi::LinkHintV;

/// The map built from a registration list: later entries win.
pub open spec fn name_map<C>(s: Seq<(String, C)>) -> Map<Seq<char>, C>
    decreases s.len(),
{
    if s.len() == 0 {
        Map::<Seq<char>, C>::empty()
    } else {
        name_map(s.drop_last()).insert(s.last().0@, s.last().1)
    }
}

proof fn lemma_name_map_skip_tail<C>(s: Seq<(String, C)>, k: int, name: Seq<char>)
    requires
        0 <= k <= s.len(),
        forall|j: int| k <= j < s.len() ==> (#[trigger] s[j]).0@ != name,
    ensures
        name_map(s).contains_key(name) == name_map(s.subrange(0, k)).contains_key(name),
        name_map(s).contains_key(name) ==> name_map(s)[name] == name_map(s.subrange(0, k))[name],
    decreases s.len() - k,
{
    if k < s.len() {
        let t = s.drop_last();
        assert(s.last().0@ != name);
        lemma_name_map_skip_tail(t, k, name);
        assert(t.subrange(0, k) =~= s.subrange(0, k));
    } else {
        assert(s.subrange(0, k) =~= s);
    }
}

/// The table of functions a node exports. All exports of one table share
/// the table's link hint; a lookup succeeds only under that hint.
pub struct RpcExports<C> {
    hint: LinkHint,
    entries: Vec<(String, C)>,
}

impl<C> View for RpcExports<C> {
    type V = Map<Seq<char>, C>;

    closed spec fn view(&self) -> Map<Seq<char>, C> {
        name_map(self.entries@)
    }
}

impl<C> RpcExports<C> {
    /// The link hint shared by every export of this table.
    pub closed spec fn spec_hint(&self) -> LinkHintV {
        self.hint@
    }

    /// An empty table under `hint`.
    pub fn new(hint: LinkHint) -> (r: Self)
        ensures
            r.spec_hint() == hint@,
            r@ == Map::<Seq<char>, C>::empty(),
    {
        let r = RpcExports { hint, entries: Vec::new() };
        proof {
            assert(r.entries@.len() == 0);
        }
        r
    }

    /// Register `cb` as the export named by `func`; a second registration
    /// under the same name replaces the first.
    pub fn add_exports(&mut self, func: FunctionIdent, cb: C)
        ensures
            final(self)@ == old(self)@.insert(func@.name, cb),
            final(self).spec_hint() == old(self).spec_hint(),
    {
        self.entries.push((func.name, cb));
        proof {
            assert(self.entries@.drop_last() =~= old(self).entries@);
        }
    }

    /// Look up the callback for `func`: its hint must equal the table's
    /// hint and its name must be registered.
    pub fn get_callback(&self, func: &FunctionIdent) -> (r: Option<&C>)
        ensures
            match r {
                Some(cb) => func@.hint == self.spec_hint() && self@.contains_key(func@.name)
                    && *cb == self@[func@.name],
                None => !(func@.hint == self.spec_hint() && self@.contains_key(func@.name)),
            },
    {
        if !self.hint.eq(&func.hint) {
            return None;
        }
        let n = self.entries.len();
        let mut i = n;
        while i > 0
            invariant
                i <= n,
                n == self.entries@.len(),
                func@.hint == self.spec_hint(),
                forall|j: int| i <= j < n ==> (#[trigger] self.entries@[j]).0@ != func@.name,
            decreases i,
        {
            i = i - 1;
            let e = &self.entries[i];
            if e.0.eq(&func.name) {
                proof {
                    lemma_name_map_skip_tail(self.entries@, i as int + 1, func@.name);
                    let pre = self.entries@.subrange(0, i as int + 1);
                    assert(pre.len() >= 1);
                    assert(pre.drop_last() =~= self.entries@.subrange(0, i as int));
                    assert(pre.last() == self.entries@[i as int]);
                    assert(name_map(pre) == name_map(pre.drop_last()).insert(
                        pre.last().0@,
                        pre.last().1,
                    ));
                }
                return Some(&e.1);
            }
        }
        proof {
            lemma_name_map_skip_tail(self.entries@, 0, func@.name);
            assert(self.entries@.subrange(0, 0) =~= Seq::<(String, C)>::empty());
        }
        None
    }
}

/// The map built from an import registration list: later entries win.
pub open spec fn ident_map<C>(s: Seq<(FunctionIdent, C)>) -> Map<FunctionIdentV, C>
    decreases s.len(),
{
    if s.len() == 0 {
        Map::<FunctionIdentV, C>::empty()
    } else {
        ident_map(s.drop_last()).insert(s.last().0@, s.last().1)
    }
}

proof fn lemma_ident_map_skip_tail<C>(s: Seq<(FunctionIdent, C)>, k: int, key: FunctionIdentV)
    requires
        0 <= k <= s.len(),
        forall|j: int| k <= j < s.len() ==> (#[trigger] s[j]).0@ != key,
    ensures
        ident_map(s).contains_key(key) == ident_map(s.subrange(0, k)).contains_key(key),
        ident_map(s).contains_key(key) ==> ident_map(s)[key] == ident_map(s.subrange(0, k))[key],
    decreases s.len() - k,
{
    if k < s.len() {
        let t = s.drop_last();
        assert(s.last().0@ != key);
        lemma_ident_map_skip_tail(t, k, key);
        assert(t.subrange(0, k) =~= s.subrange(0, k));
    } else {
        assert(s.subrange(0, k) =~= s);
    }
}

/// The table of functions a node imports, keyed by the full identifier.
pub struct RpcImports<C> {
    entries: Vec<(FunctionIdent, C)>,
}

impl<C> View for RpcImports<C> {
    type V = Map<FunctionIdentV, C>;

    closed spec fn view(&self) -> Map<FunctionIdentV, C> {
        ident_map(self.entries@)
    }
}

impl<C> RpcImports<C> {
    /// An empty import table.
    pub fn new() -> (r: Self)
        ensures
            r@ == Map::<FunctionIdentV, C>::empty(),
    {
        let r = RpcImports { entries: Vec::new() };
        proof {
            assert(r.entries@.len() == 0);
        }
        r
    }

    /// Register `cb` as the handler of the imported `func`.
    pub fn add_imports(&mut self, func: FunctionIdent, cb: C)
        ensures
            final(self)@ == old(self)@.insert(func@, cb),
    {
        self.entries.push((func, cb));
        proof {
            assert(self.entries@.drop_last() =~= old(self).entries@);
        }
    }

    /// Look up the callback registered for `func`.
    pub fn get_callback(&self, func: &FunctionIdent) -> (r: Option<&C>)
        ensures
            match r {
                Some(cb) => self@.contains_key(func@) && *cb == self@[func@],
                None => !self@.contains_key(func@),
            },
    {
        let n = self.entries.len();
        let mut i = n;
        while i > 0
            invariant
                i <= n,
                n == self.entries@.len(),
                forall|j: int| i <= j < n ==> (#[trigger] self.entries@[j]).0@ != func@,
            decreases i,
        {
            i = i - 1;
            let e = &self.entries[i];
            if e.0.eq(func) {
                proof {
                    lemma_ident_map_skip_tail(self.entries@, i as int + 1, func@);
                    let pre = self.entries@.subrange(0, i as int + 1);
                    assert(pre.len() >= 1);
                    assert(pre.drop_last() =~= self.entries@.subrange(0, i as int));
                    assert(pre.last() == self.entries@[i as int]);
                    assert(ident_map(pre) == ident_map(pre.drop_last()).insert(
                        pre.last().0@,
                        pre.last().1,
                    ));
                }
                return Some(&e.1);
            }
        }
        proof {
            lemma_ident_map_skip_tail(self.entries@, 0, func@);
            assert(self.entries@.subrange(0, 0) =~= Seq::<(FunctionIdent, C)>::empty());
        }
        None
    }
}

} // verus!
