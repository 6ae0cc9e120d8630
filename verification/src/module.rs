//! The host-side handle of one loaded guest module: its async context,
//! its low-level channel handle, and the peer name the guest announced.
//!
//! Loading and instantiating the guest itself is the embedding program's
//! work; the handle verifies the bookkeeping around it: the RPC wiring,
//! the peer-name handshake, and the kill switch.

use vstd::prelude::*;

verus! {

use crate::abi::LinkHint;
use crate::abi::LinkHintV;
use crate::ctx::AsyncCtx;
use crate::entry::RpcExports;
use crate::errors::RpcError;
use crate::errors::RpcErrorV;
use crate::node::RpcNode;
use crate::serialize::SerializeCtx;

/// One loaded guest module, from the host's point of view.
pub struct WasmModule<L, C, W> {
    name: Option<String>,
    async_ctx: AsyncCtx<C, W>,
    ll: Option<L>,
}

impl<L, C, W> WasmModule<L, C, W> {
    /// The peer name the guest announced, once initialization finished.
    pub closed spec fn spec_name(&self) -> Option<Seq<char>> {
        match self.name {
            Some(ref n) => Some(n@),
            None => None,
        }
    }

    pub closed spec fn spec_async_ctx(&self) -> AsyncCtx<C, W> {
        self.async_ctx
    }

    pub closed spec fn spec_ll(&self) -> Option<L> {
        self.ll
    }

    pub open spec fn wf(&self) -> bool {
        self.spec_async_ctx().wf()
    }

    /// A fresh, unloaded module handle.
    pub fn new() -> (r: Self)
        ensures
            r.wf(),
            r.spec_name() is None,
            r.spec_ll() is None,
            r.spec_async_ctx()@.alive,
            r.spec_async_ctx()@.node is None,
    {
        WasmModule { name: None, async_ctx: AsyncCtx::new(), ll: None }
    }

    /// Wire the RPC node of this module: a host-side node carrying the
    /// host's export table, embedded into the async context with its
    /// forward and result routes enabled. The host node uses nonce zero;
    /// guest nodes derive theirs from the module name.
    pub fn init_rpc(&mut self, host_exports: RpcExports<C>)
        ensures
            final(self).spec_name() == old(self).spec_name(),
            final(self).spec_ll() == old(self).spec_ll(),
            final(self).spec_async_ctx()@ == (crate::ctx::AsyncCtxV {
                node: final(self).spec_async_ctx()@.node,
                ..old(self).spec_async_ctx()@
            }),
            final(self).spec_async_ctx()@.node matches Some(n) && n.spec_exports() == Some(
                host_exports,
            ) && n.spec_forward_enabled() && n.spec_result_enabled() && n.spec_count() == 0
                && n.spec_peer_name() is None,
            old(self).wf() ==> final(self).wf(),
    {
        let mut node: RpcNode<(), C> = RpcNode::new(SerializeCtx::new(), 0, ());
        node.set_exports(host_exports);
        self.async_ctx.bind_rpc(node);
    }

    /// Finish initialization once the guest's entry has run: the guest
    /// must have announced its peer name through its initialization
    /// envelope; record it and keep the low-level handle. Without the
    /// name the module is not ready and the handle is discarded.
    pub fn complete_init(&mut self, ll: L) -> (r: Result<(), RpcError>)
        ensures
            final(self).spec_async_ctx() == old(self).spec_async_ctx(),
            old(self).wf() ==> final(self).wf(),
            match old(self).spec_async_ctx()@.node {
                Some(n) => match n.spec_peer_name() {
                    Some(pn) => r matches Ok(u) && final(self).spec_name() == Some(pn) && final(self).spec_ll() is Some,
                    None => r matches Err(e) && e@ == RpcErrorV::NotReady && final(self).spec_name()
                        == old(self).spec_name() && final(self).spec_ll() == old(self).spec_ll(),
                },
                None => r matches Err(e) && e@ == RpcErrorV::NotReady && final(self).spec_name()
                    == old(self).spec_name() && final(self).spec_ll() == old(self).spec_ll(),
            },
    {
        let peer = match self.async_ctx.peer_name() {
            Some(n) => n,
            None => {
                return Err(RpcError::NotReady);
            },
        };
        self.name = Some(peer);
        self.ll = Some(ll);
        Ok(())
    }

    /// The guest's announced name.
    pub fn get_name(&self) -> (r: &str)
        requires
            self.spec_name() is Some,
        ensures
            Some(r@) == self.spec_name(),
    {
        self.name.as_ref().unwrap().as_str()
    }

    /// The link hint under which this module is addressed.
    pub fn get_hint(&self) -> (r: LinkHint)
        requires
            self.spec_name() is Some,
        ensures
            self.spec_name() matches Some(n) && r@ == LinkHintV::GuestModule(n),
    {
        LinkHint::GuestModule(self.name.as_ref().unwrap().clone())
    }

    /// Issue an asynchronous call on this module.
    pub fn request_api(&mut self, func: crate::abi::FunctionIdent, args: Vec<u8>) -> (r: Result<
        crate::future::AsyncRequestFuture,
        RpcError,
    >)
        requires
            old(self).wf(),
        ensures
            final(self).wf(),
            final(self).spec_name() == old(self).spec_name(),
            final(self).spec_ll() == old(self).spec_ll(),
            !old(self).spec_async_ctx()@.alive ==> (r matches Err(e) && e@
                == RpcErrorV::ChannelFailed),
            old(self).spec_async_ctx()@.alive && old(self).spec_async_ctx()@.node is None ==> (r
                matches Err(e) && e@ == RpcErrorV::NotReady),
    {
        self.async_ctx.request_api(func, args)
    }

    /// Terminate this module's drivers; see `AsyncCtx::kill`.
    pub fn kill(&mut self)
        ensures
            final(self).spec_name() == old(self).spec_name(),
            final(self).spec_ll() == old(self).spec_ll(),
            final(self).spec_async_ctx()@ == (crate::ctx::AsyncCtxV {
                alive: false,
                ..old(self).spec_async_ctx()@
            }),
            old(self).wf() ==> final(self).wf(),
    {
        self.async_ctx.kill();
    }

    /// The module's async context, for the executor and the drivers.
    pub fn async_ctx(&mut self) -> (r: &mut AsyncCtx<C, W>)
        ensures
            *r == old(self).spec_async_ctx(),
            final(self).spec_async_ctx() == *final(r),
            final(self).spec_name() == old(self).spec_name(),
            final(self).spec_ll() == old(self).spec_ll(),
    {
        &mut self.async_ctx
    }
}

} // verus!
