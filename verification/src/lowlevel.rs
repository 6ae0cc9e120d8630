//! The verified core of the low-level byte channel: the bounds-checked
//! copies in and out of a linear memory, and the one-shot handoff slot
//! that owns the isolate store.
//!
//! The isolate itself — allocating in the guest, invoking its entry
//! points — belongs to the embedding program; it hands the memory image
//! and the store values in and out of these functions.

use vstd::prelude::*;

verus! {

use vstd::slice::slice_index_get;
use vstd::slice::slice_subrange;
use vstd::slice::slice_to_vec;
use crate::errors::RpcError;
use crate::errors::RpcErrorV;

/// Copy `val` into `mem` at `offset`; out of bounds writes nothing.
pub fn store_bytes(mem: &mut Vec<u8>, offset: usize, val: &[u8]) -> (r: Result<(), RpcError>)
    ensures
        offset + val@.len() <= old(mem)@.len() ==> (r is Ok && final(mem)@ == old(mem)@.subrange(
            0,
            offset as int,
        ) + val@ + old(mem)@.subrange(offset + val@.len(), old(mem)@.len() as int)),
        offset + val@.len() > old(mem)@.len() ==> (r matches Err(e) && e@
            == RpcErrorV::MemoryOutOfBounds && final(mem)@ == old(mem)@),
{
    let n = val.len();
    if n > mem.len() || offset > mem.len() - n {
        return Err(RpcError::MemoryOutOfBounds);
    }
    let mut i: usize = 0;
    while i < n
        invariant
            i <= n,
            n == val@.len(),
            offset + n <= mem@.len(),
            offset + n <= usize::MAX,
            mem@.len() == old(mem)@.len(),
            forall|j: int| 0 <= j < offset ==> #[trigger] mem@[j] == old(mem)@[j],
            forall|j: int| 0 <= j < i ==> #[trigger] mem@[offset + j] == val@[j],
            forall|j: int|
                offset + n <= j < mem@.len() ==> #[trigger] mem@[j] == old(mem)@[j],
            forall|j: int|
                offset + i <= j < offset + n ==> #[trigger] mem@[j] == old(mem)@[j],
        decreases n - i,
    {
        mem.set(offset + i, *slice_index_get(val, i));
        i = i + 1;
    }
    proof {
        let target = old(mem)@.subrange(0, offset as int) + val@ + old(mem)@.subrange(
            offset + val@.len(),
            old(mem)@.len() as int,
        );
        assert forall|j: int| 0 <= j < mem@.len() implies mem@[j] == target[j] by {
            if offset <= j < offset + n {
                assert(mem@[offset + (j - offset)] == val@[j - offset]);
            }
        }
        assert(mem@ =~= target);
    }
    Ok(())
}

/// Read `len` bytes of `mem` at `offset` as an owned copy; an
/// out-of-bounds range is an error. This is the copy a message callback
/// must make: the borrowed region is valid only during the call.
pub fn read_bytes(mem: &[u8], offset: usize, len: usize) -> (r: Result<Vec<u8>, RpcError>)
    ensures
        offset + len <= mem@.len() ==> (r matches Ok(v) && v@ == mem@.subrange(
            offset as int,
            offset + len,
        )),
        offset + len > mem@.len() ==> (r matches Err(e) && e@ == RpcErrorV::MemoryOutOfBounds),
{
    if len > mem.len() || offset > mem.len() - len {
        return Err(RpcError::MemoryOutOfBounds);
    }
    let s = slice_subrange(mem, offset, offset + len);
    Ok(slice_to_vec(s))
}

/// Where a store-consuming send got its store from.
pub enum StoreOrigin {
    /// From the cached caller handle of a nested callback; it is consumed
    /// and not restored.
    Caller,
    /// From the owned slot; it must be restored with
    /// [`StoreSlot::restore`] after the send.
    Owned,
}

/// The one-shot handoff slot for the isolate store. At any moment at most
/// one of the cached caller handle and the owned store is present; a send
/// consumes whichever is there, and fails when neither is.
pub struct StoreSlot<S> {
    caller: Option<S>,
    store: Option<S>,
}

impl<S> StoreSlot<S> {
    pub closed spec fn spec_caller(&self) -> Option<S> {
        self.caller
    }

    pub closed spec fn spec_store(&self) -> Option<S> {
        self.store
    }

    /// Never both a cached caller and an owned store.
    pub open spec fn wf(&self) -> bool {
        !(self.spec_caller() is Some && self.spec_store() is Some)
    }

    /// An empty slot.
    pub fn new() -> (r: Self)
        ensures
            r.wf(),
            r.spec_caller() is None,
            r.spec_store() is None,
    {
        StoreSlot { caller: None, store: None }
    }

    /// Move the owned store in.
    pub fn move_store(&mut self, store: S)
        requires
            old(self).spec_caller() is None,
        ensures
            final(self).wf(),
            final(self).spec_store() == Some(store),
            final(self).spec_caller() is None,
    {
        self.store = Some(store);
    }

    /// Take the owned store back out.
    pub fn take_store(&mut self) -> (r: Option<S>)
        ensures
            r == old(self).spec_store(),
            final(self).spec_store() is None,
            final(self).spec_caller() == old(self).spec_caller(),
            old(self).wf() ==> final(self).wf(),
    {
        let mut r: Option<S> = None;
        core::mem::swap(&mut r, &mut self.store);
        r
    }

    /// Cache the caller handle for the duration of a nested callback.
    /// While the guest is executing, the owned store is out of the slot,
    /// so only the caller handle can be present.
    pub fn cache_caller(&mut self, caller: S)
        requires
            old(self).spec_store() is None,
        ensures
            final(self).wf(),
            final(self).spec_caller() == Some(caller),
            final(self).spec_store() is None,
    {
        self.caller = Some(caller);
    }

    /// Drop the cached caller handle, consumed or not, when the callback
    /// returns.
    pub fn clear_caller(&mut self) -> (r: Option<S>)
        ensures
            r == old(self).spec_caller(),
            final(self).spec_caller() is None,
            final(self).spec_store() == old(self).spec_store(),
            old(self).wf() ==> final(self).wf(),
    {
        let mut r: Option<S> = None;
        core::mem::swap(&mut r, &mut self.caller);
        r
    }

    /// Acquire a store for one send: the cached caller if present (a
    /// nested send from inside a callback), else the owned store, else
    /// nobody can send right now.
    pub fn acquire(&mut self) -> (r: Result<(S, StoreOrigin), RpcError>)
        requires
            old(self).wf(),
        ensures
            final(self).wf(),
            final(self).spec_caller() is None,
            final(self).spec_store() is None,
            old(self).spec_caller() matches Some(s) ==> (r matches Ok(p) && p.0 == s && p.1
                is Caller),
            old(self).spec_store() matches Some(s) ==> (old(self).spec_caller() is None ==> (r
                matches Ok(p) && p.0 == s && p.1 is Owned)),
            old(self).spec_caller() is None && old(self).spec_store() is None ==> (r matches Err(e)
                && e@ == RpcErrorV::NoAvailableStore),
    {
        let mut c: Option<S> = None;
        core::mem::swap(&mut c, &mut self.caller);
        match c {
            Some(s) => Ok((s, StoreOrigin::Caller)),
            None => {
                let mut t: Option<S> = None;
                core::mem::swap(&mut t, &mut self.store);
                match t {
                    Some(s) => Ok((s, StoreOrigin::Owned)),
                    None => Err(RpcError::NoAvailableStore),
                }
            },
        }
    }

    /// Give a store obtained from the owned slot back after the send; a
    /// store obtained from the caller handle is consumed instead.
    pub fn restore(&mut self, store: S, origin: StoreOrigin)
        requires
            old(self).spec_caller() is None,
        ensures
            final(self).wf(),
            origin is Owned ==> final(self).spec_store() == Some(store),
            origin is Caller ==> final(self).spec_store() == old(self).spec_store(),
            final(self).spec_caller() is None,
    {
        match origin {
            StoreOrigin::Owned => {
                self.store = Some(store);
            },
            StoreOrigin::Caller => {},
        }
    }
}

} // verus!
