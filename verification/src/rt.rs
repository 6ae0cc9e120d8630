//! The guest-side runtime context: the guest's RPC node and its map from
//! sequence number to return action, plus the poll logic of the guest's
//! request future.
//!
//! The guest runs single-threaded and cooperatively; the host drives it
//! from outside. As on the host side, every function here is a pure state
//! step: the embedding shim performs the actual sends.

use vstd::prelude::*;

verus! {

use crate::abi::FunctionIdent;
use crate::context::MessageV;
use crate::context::RpcMessageV;
use crate::context::spec_encode_env;
use crate::context::spec_parse_env;
use crate::errors::RpcError;
use crate::errors::RpcErrorV;
use crate::node::RpcDispatch;
use crate::node::RpcNode;
use crate::pending::PendingMap;

/// The action recorded for a guest-issued call awaiting its response.
pub enum WasmReturnAction<W> {
    /// A guest task awaits the response: wake this waker.
    Wake(W),
    /// The response arrived and awaits pickup by the guest future.
    Response(Vec<u8>),
}

/// Mathematical value of a [`WasmRtCtx`].
pub struct WasmRtCtxV<T, C, W> {
    pub node: Option<RpcNode<T, C>>,
    pub actions: Map<u64, WasmReturnAction<W>>,
}

/// The runtime context of one guest module.
pub struct WasmRtCtx<T, C, W> {
    node: Option<RpcNode<T, C>>,
    return_actions: PendingMap<WasmReturnAction<W>>,
}

impl<T, C, W> View for WasmRtCtx<T, C, W> {
    type V = WasmRtCtxV<T, C, W>;

    closed spec fn view(&self) -> WasmRtCtxV<T, C, W> {
        WasmRtCtxV { node: self.node, actions: self.return_actions@ }
    }
}

/// What one host-delivered envelope asks of the guest shim.
pub enum GuestStep<W> {
    /// A request matched a guest export: run it and send its response.
    RunExport { seq_no: u64, func: FunctionIdent, args: Vec<u8> },
    /// A response was stored for its waiting guest future: wake this
    /// waker, then have the host tick the guest queue.
    Wake(W),
    /// The peer announced its name, now recorded on the guest node.
    PeerUpdated { name: String },
    /// No node is installed yet; the message was ignored.
    NoNode,
}

impl<T, C, W> WasmRtCtx<T, C, W> {
    /// The context's bookkeeping invariant.
    pub open spec fn wf(&self) -> bool {
        &&& self.spec_actions_wf()
        &&& match self@.node {
            Some(n) => n.wf(),
            None => true,
        }
    }

    pub closed spec fn spec_actions_wf(&self) -> bool {
        self.return_actions.wf()
    }

    /// A fresh guest context: no node, no pending returns.
    pub fn new() -> (r: Self)
        ensures
            r.wf(),
            r@.node is None,
            r@.actions == Map::<u64, WasmReturnAction<W>>::empty(),
    {
        WasmRtCtx { node: None, return_actions: PendingMap::new() }
    }

    /// Install the guest's RPC node, set up by the module's entry shim.
    pub fn bind_rpc(&mut self, node: RpcNode<T, C>)
        ensures
            final(self)@ == (WasmRtCtxV { node: Some(node), ..old(self)@ }),
            node.wf() && old(self).spec_actions_wf() ==> final(self).wf(),
    {
        self.node = Some(node);
    }

    /// Record `action` under `seq_no`.
    pub fn push_action(&mut self, seq_no: u64, action: WasmReturnAction<W>)
        requires
            old(self).wf(),
        ensures
            final(self).wf(),
            final(self)@ == (WasmRtCtxV {
                actions: old(self)@.actions.insert(seq_no, action),
                ..old(self)@
            }),
    {
        self.return_actions.insert(seq_no, action);
    }

    /// Remove and return the action recorded under `seq_no`, if any.
    pub fn take_action(&mut self, seq_no: u64) -> (r: Option<WasmReturnAction<W>>)
        requires
            old(self).wf(),
        ensures
            final(self).wf(),
            old(self)@.actions.contains_key(seq_no) ==> (r matches Some(a) && a == old(
                self,
            )@.actions[seq_no] && final(self)@ == (WasmRtCtxV {
                actions: old(self)@.actions.remove(seq_no),
                ..old(self)@
            })),
            !old(self)@.actions.contains_key(seq_no) ==> r is None && final(self)@ == old(self)@,
    {
        self.return_actions.take(seq_no)
    }
}

/// Handle a response delivered to the guest: store the payload for the
/// waiting future and hand back the waker to wake. A response nothing
/// waits for is a protocol error.
pub fn result_message_cb<T, C, W>(
    rt: &mut WasmRtCtx<T, C, W>,
    seq_no: u64,
    res: Vec<u8>,
) -> (r: Result<W, RpcError>)
    requires
        old(rt).wf(),
    ensures
        final(rt).wf(),
        final(rt)@.node == old(rt)@.node,
        old(rt)@.actions.contains_key(seq_no) ==> match old(rt)@.actions[seq_no] {
            WasmReturnAction::Wake(w) => r matches Ok(w2) && w2 == w && final(rt)@.actions.remove(seq_no) == old(rt)@.actions.remove(seq_no) && final(rt)@.actions.contains_key(seq_no) && (final(rt)@.actions[seq_no] matches
                WasmReturnAction::Response(d) && d@ == res@),
            WasmReturnAction::Response(_) => r matches Err(e) && e@ == RpcErrorV::NoCallback
                && final(rt)@.actions == old(rt)@.actions,
        },
        !old(rt)@.actions.contains_key(seq_no) ==> (r matches Err(e) && e@
            == RpcErrorV::NoCallback) && final(rt)@ == old(rt)@,
{
    match rt.take_action(seq_no) {
        Some(WasmReturnAction::Wake(w)) => {
            rt.push_action(seq_no, WasmReturnAction::Response(res));
            proof {
                assert(rt@.actions.remove(seq_no) =~= old(rt)@.actions.remove(seq_no));
            }
            Ok(w)
        },
        Some(a) => {
            rt.push_action(seq_no, a);
            proof {
                assert(old(rt)@.actions.remove(seq_no).insert(seq_no, old(rt)@.actions[seq_no])
                    =~= old(rt)@.actions);
            }
            Err(RpcError::NoCallback)
        },
        None => Err(RpcError::NoCallback),
    }
}

/// Dispatch one envelope the host copied into the guest: requests run a
/// guest export, responses wake the guest future that issued the call.
pub fn host_message_handler<T, C, W>(rt: &mut WasmRtCtx<T, C, W>, msg: &[u8]) -> (r: Result<
    GuestStep<W>,
    RpcError,
>)
    requires
        old(rt).wf(),
    ensures
        final(rt).wf(),
        old(rt)@.node is None ==> (r matches Ok(s) && s is NoNode && final(rt)@ == old(rt)@),
        old(rt)@.node matches Some(n) ==> match spec_parse_env(msg@) {
            Some(mv) => match mv.message {
                MessageV::PeerInfo(pn) => r matches Ok(s) && (s matches GuestStep::PeerUpdated {
                    name,
                } && name@ == pn) && final(rt)@.actions == old(rt)@.actions,
                MessageV::Request => {
                    &&& final(rt)@.actions == old(rt)@.actions
                    &&& if n.spec_export_match(mv.func) {
                        r matches Ok(s) && s matches GuestStep::RunExport {
                            seq_no,
                            func,
                            args,
                        } && seq_no == mv.seq_no && func@ == mv.func && args@ == mv.data
                    } else {
                        r matches Err(e) && (e@ == RpcErrorV::UnknownExport || e@
                            == RpcErrorV::NoCallback)
                    }
                },
                MessageV::Response => {
                    if n.spec_result_enabled() {
                        if old(rt)@.actions.contains_key(mv.seq_no) {
                            match old(rt)@.actions[mv.seq_no] {
                                WasmReturnAction::Wake(w) => r matches Ok(s) && (s
                                    matches GuestStep::Wake(w2) && w2 == w) && final(rt)@.actions.remove(mv.seq_no) == old(rt)@.actions.remove(mv.seq_no)
                                    && final(rt)@.actions.contains_key(mv.seq_no) && (final(rt)@.actions[mv.seq_no] matches WasmReturnAction::Response(d) && d@
                                    == mv.data),
                                WasmReturnAction::Response(_) => r matches Err(e) && e@
                                    == RpcErrorV::NoCallback,
                            }
                        } else {
                            r matches Err(e) && e@ == RpcErrorV::NoCallback
                        }
                    } else {
                        r matches Err(e) && e@ == RpcErrorV::NoCallback && final(rt)@.actions
                            == old(rt)@.actions
                    }
                },
            },
            None => r matches Err(e) && e@ == RpcErrorV::SerializationFailed && final(rt)@.actions
                == old(rt)@.actions,
        },
{
    if rt.node.is_none() {
        return Ok(GuestStep::NoNode);
    }
    let step = match rt.node.as_mut().unwrap().handle_message(msg) {
        Ok(d) => d,
        Err(e) => {
            return Err(e);
        },
    };
    match step {
        RpcDispatch::PeerUpdated { name } => Ok(GuestStep::PeerUpdated { name }),
        RpcDispatch::CallExport { seq_no, func, args } => Ok(
            GuestStep::RunExport { seq_no, func, args },
        ),
        RpcDispatch::Forward { seq_no: _, func: _, raw: _ } => Err(RpcError::UnknownExport),
        RpcDispatch::DeliverResult { seq_no, data } => {
            match result_message_cb(rt, seq_no, data) {
                Ok(w) => Ok(GuestStep::Wake(w)),
                Err(e) => Err(e),
            }
        },
    }
}

/// What one poll of a guest request future decides.
pub enum WasmReqPoll {
    /// Not finished; if bytes are attached, the shim must send them to
    /// the host now.
    Pending(Option<Vec<u8>>),
    /// The response payload arrived; the call is complete.
    Ready(Vec<u8>),
}

/// The guest future of one outstanding call.
pub struct WasmAsyncRequestFuture {
    seq_no: u64,
    msg: Option<Vec<u8>>,
}

impl WasmAsyncRequestFuture {
    /// The sequence number this future awaits.
    pub closed spec fn spec_seq_no(&self) -> u64 {
        self.seq_no
    }

    /// The framed request envelope, until the first poll emits it.
    pub closed spec fn spec_msg(&self) -> Option<Vec<u8>> {
        self.msg
    }

    /// A guest future awaiting `seq_no`, holding the framed request.
    pub fn new(seq_no: u64, msg: Vec<u8>) -> (r: Self)
        ensures
            r.spec_seq_no() == seq_no,
            r.spec_msg() == Some(msg),
    {
        WasmAsyncRequestFuture { seq_no, msg: Some(msg) }
    }

    /// One poll. On the first poll, record `waker` and emit the request
    /// bytes for the shim to send at once. Later polls pick up the stored
    /// response if it arrived.
    pub fn poll_step<T, C, W>(&mut self, rt: &mut WasmRtCtx<T, C, W>, waker: W) -> (r: WasmReqPoll)
        requires
            old(rt).wf(),
        ensures
            final(rt).wf(),
            final(self).spec_seq_no() == old(self).spec_seq_no(),
            final(rt)@.node == old(rt)@.node,
            !old(rt)@.actions.contains_key(old(self).spec_seq_no()) ==> (final(self).spec_msg()
                is None && final(rt)@ == (WasmRtCtxV {
                actions: old(rt)@.actions.insert(
                    old(self).spec_seq_no(),
                    WasmReturnAction::Wake(waker),
                ),
                ..old(rt)@
            }) && (r matches WasmReqPoll::Pending(m) && m == old(self).spec_msg())),
            old(rt)@.actions.contains_key(old(self).spec_seq_no()) ==> match old(rt)@.actions[old(
                self,
            ).spec_seq_no()] {
                WasmReturnAction::Response(d) => r matches WasmReqPoll::Ready(d2) && d2 == d
                    && final(self).spec_msg() == old(self).spec_msg() && final(rt)@ == (WasmRtCtxV {
                    actions: old(rt)@.actions.remove(old(self).spec_seq_no()),
                    ..old(rt)@
                }),
                WasmReturnAction::Wake(_) => (r matches WasmReqPoll::Pending(m) && m is None)
                    && final(self).spec_msg() == old(self).spec_msg() && final(rt)@.actions == old(
                    rt,
                )@.actions,
            },
    {
        let s = self.seq_no;
        match rt.take_action(s) {
            None => {
                rt.push_action(s, WasmReturnAction::Wake(waker));
                let mut m: Option<Vec<u8>> = None;
                core::mem::swap(&mut m, &mut self.msg);
                WasmReqPoll::Pending(m)
            },
            Some(WasmReturnAction::Response(d)) => WasmReqPoll::Ready(d),
            Some(a) => {
                rt.push_action(s, a);
                proof {
                    assert(old(rt)@.actions.remove(s).insert(s, old(rt)@.actions[s]) =~= old(
                        rt,
                    )@.actions);
                }
                WasmReqPoll::Pending(None)
            },
        }
    }
}

/// Issue a guest-side asynchronous call: allocate a sequence number on
/// the guest node, frame the request envelope, and return the future.
pub fn request_api<T, C, W>(
    rt: &mut WasmRtCtx<T, C, W>,
    func: FunctionIdent,
    args: Vec<u8>,
) -> (r: Result<WasmAsyncRequestFuture, RpcError>)
    requires
        old(rt).wf(),
    ensures
        final(rt).wf(),
        final(rt)@.actions == old(rt)@.actions,
        old(rt)@.node is None ==> (r matches Err(e) && e@ == RpcErrorV::NotReady && final(rt)@
            == old(rt)@),
        old(rt)@.node matches Some(n) ==> (n.spec_count() >= 0x1_0000_0000 ==> (r matches Err(e)
            && e@ == RpcErrorV::SeqNoExhausted)),
        old(rt)@.node matches Some(n) ==> (n.spec_count() < 0x1_0000_0000 ==> (r matches Ok(fut)
            && fut.spec_seq_no() == crate::node::spec_seq_no_of(
            n.spec_nonce(),
            n.spec_count() as int,
        ) && (fut.spec_msg() matches Some(m) && m@ == spec_encode_env(
            RpcMessageV {
                seq_no: fut.spec_seq_no(),
                func: func@,
                message: MessageV::Request,
                data: args@,
            },
        )) && (final(rt)@.node matches Some(n2) && n2.spec_count() == n.spec_count() + 1
            && n2.spec_issued() == n.spec_issued().push(fut.spec_seq_no()) && n2.spec_nonce()
            == n.spec_nonce() && n2.spec_exports() == n.spec_exports() && n2.spec_peer_name()
            == n.spec_peer_name()))),
{
    let seq_no = match &mut rt.node {
        Some(node) => match node.request() {
            Ok(s) => s,
            Err(e) => {
                return Err(e);
            },
        },
        None => {
            return Err(RpcError::NotReady);
        },
    };
    let msg = match &rt.node {
        Some(node) => {
            let req = crate::context::RpcRequestCtx::new(seq_no, node.serialize_ctx(), node.data());
            match req.make_request(func, args) {
                Ok(m) => m,
                Err(e) => {
                    return Err(e);
                },
            }
        },
        None => {
            return Err(RpcError::NotReady);
        },
    };
    Ok(WasmAsyncRequestFuture::new(seq_no, msg))
}

} // verus!
