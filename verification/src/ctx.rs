//! The host-side async context of one live module: the TX and RX message
//! queues, the registered driver wakers, the liveness flag, the embedded
//! RPC node, and the pending-action table keyed by sequence number.
//!
//! The context is a pure state machine. The executor around it owns the
//! locking and the actual task wake-ups; every decision — what a driver
//! drains, how an inbound envelope is dispatched, where a forwarded
//! request or response goes — is made here, under contract.

use vstd::prelude::*;

verus! {

use crate::abi::FunctionIdent;
use crate::abi::LinkHint;
use crate::context::MessageV;
use crate::context::RpcMessage;
use crate::context::Message;
use crate::context::RpcMessageV;
use crate::context::spec_encode_env;
use crate::context::spec_parse_env;
use crate::errors::RpcError;
use crate::errors::RpcErrorV;
use crate::node::RpcDispatch;
use crate::node::RpcNode;
use crate::pending::PendingMap;

/// The action recorded for a sequence number awaiting its response.
pub enum ResultAction<W> {
    /// A local caller awaits the response: wake this waker.
    Wake(W),
    /// The response arrived and awaits pickup by the caller's future.
    Response(Vec<u8>),
    /// The request was forwarded; when the response comes back, route it
    /// onward to the context resolved from this hint.
    ForwardResult(LinkHint, FunctionIdent),
}

/// Mathematical value of an [`AsyncCtx`]: its queues, wakers, liveness,
/// pending actions, node and resolver flag.
pub struct AsyncCtxV<C, W> {
    pub tx_queue: Seq<Vec<u8>>,
    pub rx_queue: Seq<Vec<u8>>,
    pub tx_waker: Option<W>,
    pub rx_waker: Option<W>,
    pub alive: bool,
    pub actions: Map<u64, ResultAction<W>>,
    pub node: Option<RpcNode<(), C>>,
    pub resolver_enabled: bool,
}

/// The async context of one module.
pub struct AsyncCtx<C, W> {
    tx_queue: Vec<Vec<u8>>,
    rx_queue: Vec<Vec<u8>>,
    tx_waker: Option<W>,
    rx_waker: Option<W>,
    alive: bool,
    actions: PendingMap<ResultAction<W>>,
    node: Option<RpcNode<(), C>>,
    resolver_enabled: bool,
}

impl<C, W> View for AsyncCtx<C, W> {
    type V = AsyncCtxV<C, W>;

    closed spec fn view(&self) -> AsyncCtxV<C, W> {
        AsyncCtxV {
            tx_queue: self.tx_queue@,
            rx_queue: self.rx_queue@,
            tx_waker: self.tx_waker,
            rx_waker: self.rx_waker,
            alive: self.alive,
            actions: self.actions@,
            node: self.node,
            resolver_enabled: self.resolver_enabled,
        }
    }
}

/// What one driver poll decides.
pub enum DriverPoll {
    /// The module was killed; the driver completes on this poll.
    Completed,
    /// The module is alive; process this batch, then stay pending.
    Running(Vec<Vec<u8>>),
}

/// What one inbound envelope asks the host layer to do.
pub enum HostStep<W> {
    /// A request matched an export: run it and send its response.
    RunExport { seq_no: u64, func: FunctionIdent, args: Vec<u8> },
    /// A response was stored for its waiting future: wake this waker.
    Wake(W),
    /// A request matched nothing here: resolve the hint of `func` and hand
    /// the untouched raw envelope to [`forward_request_into`].
    ForwardRequest { seq_no: u64, func: FunctionIdent, raw: Vec<u8> },
    /// A forwarded call finished: resolve `hint` and hand the response to
    /// [`forward_response_into`] on the context it resolves to.
    ForwardResponse { hint: LinkHint, func: FunctionIdent, seq_no: u64, data: Vec<u8> },
    /// The guest announced its name, now recorded on the node.
    PeerUpdated { name: String },
    /// A response arrived for a sequence number with no pending action
    /// (for example after cancellation): dropped, with this diagnostic.
    Stale { seq_no: u64 },
}

impl<C, W> AsyncCtx<C, W> {
    /// The context's bookkeeping invariant.
    pub open spec fn wf(&self) -> bool {
        &&& self.spec_actions_wf()
        &&& match self@.node {
            Some(n) => n.wf(),
            None => true,
        }
    }

    pub closed spec fn spec_actions_wf(&self) -> bool {
        self.actions.wf()
    }

    /// A fresh context: empty queues, no wakers, alive, no node.
    pub fn new() -> (r: Self)
        ensures
            r.wf(),
            r@.tx_queue == Seq::<Vec<u8>>::empty(),
            r@.rx_queue == Seq::<Vec<u8>>::empty(),
            r@.tx_waker is None,
            r@.rx_waker is None,
            r@.alive,
            r@.actions == Map::<u64, ResultAction<W>>::empty(),
            r@.node is None,
            !r@.resolver_enabled,
    {
        AsyncCtx {
            tx_queue: Vec::new(),
            rx_queue: Vec::new(),
            tx_waker: None,
            rx_waker: None,
            alive: true,
            actions: PendingMap::new(),
            node: None,
            resolver_enabled: false,
        }
    }

    /// Record that a resolver stands behind this context, so unknown
    /// exports can be forwarded.
    pub fn set_resolve_cb(&mut self)
        ensures
            final(self)@ == (AsyncCtxV { resolver_enabled: true, ..old(self)@ }),
            old(self).wf() ==> final(self).wf(),
    {
        self.resolver_enabled = true;
    }

    /// Embed the RPC node, with its forward and result routes enabled:
    /// this context is their handler.
    pub fn bind_rpc(&mut self, node: RpcNode<(), C>)
        ensures
            final(self)@ == (AsyncCtxV { node: final(self)@.node, ..old(self)@ }),
            final(self)@.node matches Some(n) && n.spec_forward_enabled() && n.spec_result_enabled()
                && n.spec_nonce() == node.spec_nonce() && n.spec_count() == node.spec_count()
                && n.spec_issued() == node.spec_issued() && n.spec_exports() == node.spec_exports()
                && n.spec_imports() == node.spec_imports() && n.spec_peer_name()
                == node.spec_peer_name(),
            node.wf() && old(self).spec_actions_wf() ==> final(self).wf(),
    {
        let mut node = node;
        node.set_forward_cb();
        node.set_result_cb();
        self.node = Some(node);
    }

    /// Append a host-bound message to the TX queue. The caller must then
    /// wake the TX driver through [`Self::tx_waker`].
    pub fn push_tx(&mut self, msg: Vec<u8>)
        ensures
            final(self)@ == (AsyncCtxV { tx_queue: old(self)@.tx_queue.push(msg), ..old(self)@ }),
            old(self).wf() ==> final(self).wf(),
    {
        self.tx_queue.push(msg);
    }

    /// Append a guest-bound message to the RX queue. The caller must then
    /// wake the RX driver through [`Self::rx_waker`]. No readiness is
    /// required: a message pushed before the drivers start waits in the
    /// queue and is drained by the first RX poll.
    pub fn push_rx(&mut self, msg: Vec<u8>)
        ensures
            final(self)@ == (AsyncCtxV { rx_queue: old(self)@.rx_queue.push(msg), ..old(self)@ }),
            old(self).wf() ==> final(self).wf(),
    {
        self.rx_queue.push(msg);
    }

    /// Record `action` under `seq_no`.
    pub fn push_action(&mut self, seq_no: u64, action: ResultAction<W>)
        requires
            old(self).wf(),
        ensures
            final(self).wf(),
            final(self)@ == (AsyncCtxV {
                actions: old(self)@.actions.insert(seq_no, action),
                ..old(self)@
            }),
    {
        self.actions.insert(seq_no, action);
    }

    /// Remove and return the action recorded under `seq_no`, if any.
    pub fn take_action(&mut self, seq_no: u64) -> (r: Option<ResultAction<W>>)
        requires
            old(self).wf(),
        ensures
            final(self).wf(),
            old(self)@.actions.contains_key(seq_no) ==> (r matches Some(a) && a == old(
                self,
            )@.actions[seq_no] && final(self)@ == (AsyncCtxV {
                actions: old(self)@.actions.remove(seq_no),
                ..old(self)@
            })),
            !old(self)@.actions.contains_key(seq_no) ==> r is None && final(self)@ == old(self)@,
    {
        self.actions.take(seq_no)
    }

    /// The registered TX driver waker, if any.
    pub fn tx_waker(&self) -> (r: Option<&W>)
        ensures
            match self@.tx_waker {
                Some(w) => r matches Some(x) && *x == w,
                None => r is None,
            },
    {
        self.tx_waker.as_ref()
    }

    /// The registered RX driver waker, if any.
    pub fn rx_waker(&self) -> (r: Option<&W>)
        ensures
            match self@.rx_waker {
                Some(w) => r matches Some(x) && *x == w,
                None => r is None,
            },
    {
        self.rx_waker.as_ref()
    }

    /// Whether the module is still alive.
    pub fn alive(&self) -> (r: bool)
        ensures
            r == self@.alive,
    {
        self.alive
    }

    /// Terminate the module: both drivers observe `alive == false` and
    /// complete on their next poll, and no new request is accepted. The
    /// caller must wake both drivers so that next poll happens.
    pub fn kill(&mut self)
        ensures
            final(self)@ == (AsyncCtxV { alive: false, ..old(self)@ }),
            old(self).wf() ==> final(self).wf(),
    {
        self.alive = false;
    }

    /// Readiness: both driver tasks have registered their wakers.
    pub fn prepared(&self) -> (r: bool)
        ensures
            r == (self@.tx_waker is Some && self@.rx_waker is Some),
    {
        match (&self.tx_waker, &self.rx_waker) {
            (Some(_), Some(_)) => true,
            _ => false,
        }
    }

    /// One poll of the TX driver: register the waker; if killed, complete;
    /// otherwise drain the whole TX queue, in push order, for dispatch
    /// through [`Self::handle_host_message`].
    pub fn begin_tx_poll(&mut self, waker: W) -> (r: DriverPoll)
        ensures
            old(self)@.alive ==> (r matches DriverPoll::Running(msgs) && msgs@ == old(
                self,
            )@.tx_queue && final(self)@ == (AsyncCtxV {
                tx_waker: Some(waker),
                tx_queue: Seq::<Vec<u8>>::empty(),
                ..old(self)@
            })),
            !old(self)@.alive ==> (r is Completed && final(self)@ == (AsyncCtxV {
                tx_waker: Some(waker),
                ..old(self)@
            })),
            old(self).wf() ==> final(self).wf(),
    {
        self.tx_waker = Some(waker);
        if !self.alive {
            return DriverPoll::Completed;
        }
        let mut msgs: Vec<Vec<u8>> = Vec::new();
        core::mem::swap(&mut msgs, &mut self.tx_queue);
        DriverPoll::Running(msgs)
    }

    /// One poll of the RX driver: register the waker; if killed, complete;
    /// otherwise drain the whole RX queue, in push order, to be copied
    /// into the guest, after which the guest runtime is ticked once.
    pub fn begin_rx_poll(&mut self, waker: W) -> (r: DriverPoll)
        ensures
            old(self)@.alive ==> (r matches DriverPoll::Running(msgs) && msgs@ == old(
                self,
            )@.rx_queue && final(self)@ == (AsyncCtxV {
                rx_waker: Some(waker),
                rx_queue: Seq::<Vec<u8>>::empty(),
                ..old(self)@
            })),
            !old(self)@.alive ==> (r is Completed && final(self)@ == (AsyncCtxV {
                rx_waker: Some(waker),
                ..old(self)@
            })),
            old(self).wf() ==> final(self).wf(),
    {
        self.rx_waker = Some(waker);
        if !self.alive {
            return DriverPoll::Completed;
        }
        let mut msgs: Vec<Vec<u8>> = Vec::new();
        core::mem::swap(&mut msgs, &mut self.rx_queue);
        DriverPoll::Running(msgs)
    }

    /// Dispatch one host-bound envelope and decide the follow-up: a
    /// request runs an export or is forwarded, a response is stored and
    /// its waiting future woken (or routed back along a forward), and a
    /// peer-info envelope records the peer name.
    pub fn handle_host_message(&mut self, raw: &[u8]) -> (r: Result<HostStep<W>, RpcError>)
        requires
            old(self).wf(),
        ensures
            final(self).wf(),
            old(self)@.node is None ==> (r matches Err(e) && e@ == RpcErrorV::NotReady && final(self)@ == old(self)@),
            old(self)@.node matches Some(n) ==> (final(self)@ == (AsyncCtxV {
                node: final(self)@.node,
                actions: final(self)@.actions,
                ..old(self)@
            }) && (final(self)@.node matches Some(n2) && n2.spec_same_config(&n))
                && match spec_parse_env(raw@) {
                Some(mv) => match mv.message {
                    MessageV::PeerInfo(pn) => r matches Ok(s) && (s matches HostStep::PeerUpdated {
                        name,
                    } && name@ == pn) && final(self)@.actions == old(self)@.actions && (final(self)@.node matches Some(n2) && n2.spec_peer_name() == Some(pn)),
                    MessageV::Request => {
                        &&& final(self)@.actions == old(self)@.actions
                        &&& (final(self)@.node matches Some(n2) && n2.spec_peer_name()
                            == n.spec_peer_name())
                        &&& if n.spec_export_match(mv.func) {
                            r matches Ok(s) && s matches HostStep::RunExport {
                                seq_no,
                                func,
                                args,
                            } && seq_no == mv.seq_no && func@ == mv.func && args@ == mv.data
                        } else if !n.spec_forward_enabled() {
                            r matches Err(e) && e@ == RpcErrorV::UnknownExport
                        } else if old(self)@.resolver_enabled {
                            r matches Ok(s) && s matches HostStep::ForwardRequest {
                                seq_no,
                                func,
                                raw: fw,
                            } && seq_no == mv.seq_no && func@ == mv.func && fw@ == raw@
                        } else {
                            r matches Err(e) && e@ == RpcErrorV::NoCallback
                        }
                    },
                    MessageV::Response => {
                        &&& (final(self)@.node matches Some(n2) && n2.spec_peer_name()
                            == n.spec_peer_name())
                        &&& if !n.spec_result_enabled() {
                            r matches Err(e) && e@ == RpcErrorV::NoCallback && final(self)@.actions
                                == old(self)@.actions
                        } else if old(self)@.actions.contains_key(mv.seq_no) {
                            match old(self)@.actions[mv.seq_no] {
                                ResultAction::Wake(w) => r matches Ok(s) && (s
                                    matches HostStep::Wake(w2) && w2 == w) && final(self)@.actions.remove(mv.seq_no) == old(self)@.actions.remove(
                                    mv.seq_no,
                                ) && (final(self)@.actions.contains_key(mv.seq_no) && (final(self)@.actions[mv.seq_no] matches ResultAction::Response(d) && d@
                                    == mv.data)),
                                ResultAction::ForwardResult(h, f) => r matches Ok(s) && (s
                                    matches HostStep::ForwardResponse {
                                    hint,
                                    func,
                                    seq_no,
                                    data,
                                } && hint == h && func == f && seq_no == mv.seq_no && data@
                                    == mv.data) && final(self)@.actions == old(
                                    self,
                                )@.actions.remove(mv.seq_no),
                                ResultAction::Response(_) => r matches Err(e) && e@
                                    == RpcErrorV::NoCallback && final(self)@.actions == old(
                                    self,
                                )@.actions.remove(mv.seq_no),
                            }
                        } else {
                            r matches Ok(s) && (s matches HostStep::Stale {
                                seq_no,
                            } && seq_no == mv.seq_no) && final(self)@.actions == old(
                                self,
                            )@.actions
                        }
                    },
                },
                None => r matches Err(e) && e@ == RpcErrorV::SerializationFailed && final(self)@.actions == old(self)@.actions && (final(self)@.node matches Some(n2)
                    && n2.spec_peer_name() == n.spec_peer_name()),
            }),
    {
        if self.node.is_none() {
            return Err(RpcError::NotReady);
        }
        let step = match self.node.as_mut().unwrap().handle_message(raw) {
            Ok(d) => d,
            Err(e) => {
                return Err(e);
            },
        };
        match step {
            RpcDispatch::PeerUpdated { name } => Ok(HostStep::PeerUpdated { name }),
            RpcDispatch::CallExport { seq_no, func, args } => Ok(
                HostStep::RunExport { seq_no, func, args },
            ),
            RpcDispatch::Forward { seq_no, func, raw } => {
                if self.resolver_enabled {
                    Ok(HostStep::ForwardRequest { seq_no, func, raw })
                } else {
                    Err(RpcError::NoCallback)
                }
            },
            RpcDispatch::DeliverResult { seq_no, data } => {
                match self.take_action(seq_no) {
                    Some(ResultAction::Wake(w)) => {
                        self.push_action(seq_no, ResultAction::Response(data));
                        proof {
                            assert(self@.actions.remove(seq_no) =~= old(self)@.actions.remove(
                                seq_no,
                            ));
                        }
                        Ok(HostStep::Wake(w))
                    },
                    Some(ResultAction::ForwardResult(hint, func)) => Ok(
                        HostStep::ForwardResponse { hint, func, seq_no, data },
                    ),
                    Some(ResultAction::Response(_)) => Err(RpcError::NoCallback),
                    None => Ok(HostStep::Stale { seq_no }),
                }
            },
        }
    }

    /// The peer name the embedded node has recorded, if any.
    pub fn peer_name(&self) -> (r: Option<String>)
        ensures
            match self@.node {
                Some(n) => match n.spec_peer_name() {
                    Some(pn) => r matches Some(s) && s@ == pn,
                    None => r is None,
                },
                None => r is None,
            },
    {
        match &self.node {
            Some(n) => n.get_peer_name(),
            None => None,
        }
    }

    /// Issue an asynchronous call: allocate a sequence number, frame the
    /// request envelope, and return the future that awaits the response.
    /// A killed module accepts no new requests.
    pub fn request_api(&mut self, func: crate::abi::FunctionIdent, args: Vec<u8>) -> (r: Result<
        crate::future::AsyncRequestFuture,
        RpcError,
    >)
        requires
            old(self).wf(),
        ensures
            final(self).wf(),
            !old(self)@.alive ==> (r matches Err(e) && e@ == RpcErrorV::ChannelFailed && final(self)@ == old(self)@),
            old(self)@.alive && old(self)@.node is None ==> (r matches Err(e) && e@
                == RpcErrorV::NotReady && final(self)@ == old(self)@),
            old(self)@.node matches Some(n) ==> (old(self)@.alive && n.spec_count()
                >= 0x1_0000_0000 ==> (r matches Err(e) && e@ == RpcErrorV::SeqNoExhausted)),
            old(self)@.node matches Some(n) ==> (old(self)@.alive && n.spec_count()
                < 0x1_0000_0000 ==> (r matches Ok(fut) && fut.wf() && !fut.spec_triggered()
                && fut.spec_seq_no() == crate::node::spec_seq_no_of(
                n.spec_nonce(),
                n.spec_count() as int,
            ) && (fut.spec_msg() matches Some(m) && m@ == spec_encode_env(
                RpcMessageV {
                    seq_no: fut.spec_seq_no(),
                    func: func@,
                    message: MessageV::Request,
                    data: args@,
                },
            )) && (final(self)@ == (AsyncCtxV { node: final(self)@.node, ..old(self)@ })) && (
            final(self)@.node matches Some(n2) && n2.spec_count() == n.spec_count() + 1
                && n2.spec_issued() == n.spec_issued().push(fut.spec_seq_no()) && n2.spec_nonce()
                == n.spec_nonce() && n2.spec_exports() == n.spec_exports() && n2.spec_imports()
                == n.spec_imports() && n2.spec_forward_enabled() == n.spec_forward_enabled()
                && n2.spec_result_enabled() == n.spec_result_enabled() && n2.spec_peer_name()
                == n.spec_peer_name()))),
    {
        if !self.alive {
            return Err(RpcError::ChannelFailed);
        }
        let seq_no = match &mut self.node {
            Some(node) => match node.request() {
                Ok(s) => s,
                Err(e) => {
                    return Err(e);
                },
            },
            None => {
                return Err(RpcError::NotReady);
            },
        };
        let msg = match &self.node {
            Some(node) => {
                let req = crate::context::RpcRequestCtx::new(
                    seq_no,
                    node.serialize_ctx(),
                    node.data(),
                );
                match req.make_request(func, args) {
                    Ok(m) => m,
                    Err(e) => {
                        return Err(e);
                    },
                }
            },
            None => {
                return Err(RpcError::NotReady);
            },
        };
        Ok(crate::future::AsyncRequestFuture::new(seq_no, msg))
    }
}

/// Carry a forwarded request into the context it resolves to: the original
/// raw envelope joins the destination's RX queue, and the destination
/// records that the eventual response must be routed back toward `hint`.
pub fn forward_request_into<C, W>(
    dest: &mut AsyncCtx<C, W>,
    seq_no: u64,
    hint: LinkHint,
    func: FunctionIdent,
    raw: Vec<u8>,
)
    requires
        old(dest).wf(),
    ensures
        final(dest).wf(),
        final(dest)@ == (AsyncCtxV {
            rx_queue: old(dest)@.rx_queue.push(raw),
            actions: old(dest)@.actions.insert(seq_no, ResultAction::ForwardResult(hint, func)),
            ..old(dest)@
        }),
{
    dest.push_rx(raw);
    dest.push_action(seq_no, ResultAction::ForwardResult(hint, func));
}

/// Route a forwarded call's response back to the originating context: a
/// fresh response envelope under the original sequence number joins that
/// context's RX queue.
pub fn forward_response_into<C, W>(
    dest: &mut AsyncCtx<C, W>,
    seq_no: u64,
    func: FunctionIdent,
    data: Vec<u8>,
) -> (sent: Ghost<Vec<u8>>)
    requires
        old(dest).wf(),
    ensures
        final(dest).wf(),
        sent@@ == spec_encode_env(
            RpcMessageV {
                seq_no,
                func: func@,
                message: MessageV::Response,
                data: data@,
            },
        ),
        final(dest)@ == (AsyncCtxV {
            rx_queue: old(dest)@.rx_queue.push(sent@),
            ..old(dest)@
        }),
{
    let msg = RpcMessage::new(seq_no, func, Message::Response, data);
    let bytes = msg.to_bytes();
    let ghost sent = bytes;
    dest.push_rx(bytes);
    Ghost(sent)
}

/// Request/response correlation: delivering a response under one sequence
/// number stores it exactly there and leaves every other pending action
/// untouched, so a response can complete only the future that holds its
/// own sequence number, whatever the delivery order.
pub proof fn lemma_response_correlation<W>(
    actions: Map<u64, ResultAction<W>>,
    s1: u64,
    s2: u64,
    resp: ResultAction<W>,
)
    requires
        s1 != s2,
    ensures
        actions.insert(s1, resp).contains_key(s2) == actions.contains_key(s2),
        actions.contains_key(s2) ==> actions.insert(s1, resp)[s2] == actions[s2],
        actions.insert(s1, resp)[s1] == resp,
{
}

/// FIFO within one queue: pushing two messages in order places them at
/// consecutive positions after everything already queued, and leaves what
/// was queued unchanged; since a driver poll drains the queue exactly as
/// it stands, messages are observed in push order.
pub proof fn lemma_queue_fifo(q: Seq<Vec<u8>>, a: Vec<u8>, b: Vec<u8>)
    ensures
        q.push(a).push(b).len() == q.len() + 2,
        q.push(a).push(b)[q.len() as int] == a,
        q.push(a).push(b)[q.len() as int + 1] == b,
        forall|i: int| 0 <= i < q.len() ==> q.push(a).push(b)[i] == q[i],
{
}

/// Forwarding closes the loop: the response envelope that
/// [`forward_response_into`] frames under the original request's sequence
/// number parses back to exactly that sequence number and the second
/// module's result bytes. Together with the contracts that hand the raw
/// request on untouched ([`AsyncCtx::handle_host_message`] and
/// [`forward_request_into`]), the originator observes the same response a
/// direct call to the second module would have produced.
pub proof fn lemma_forward_response_round_trip(
    seq_no: u64,
    func: crate::abi::FunctionIdentV,
    d: Seq<u8>,
)
    requires
        vstd::utf8::encode_utf8(func.name).len() <= 0xffff_ffff_ffff_ffff,
        crate::context::wf_hint(func.hint),
        d.len() <= 0xffff_ffff_ffff_ffff,
    ensures
        spec_parse_env(
            spec_encode_env(
                RpcMessageV { seq_no, func, message: MessageV::Response, data: d },
            ),
        ) == Some(RpcMessageV { seq_no, func, message: MessageV::Response, data: d }),
{
    crate::context::lemma_env_round_trip(
        RpcMessageV { seq_no, func, message: MessageV::Response, data: d },
    );
}

} // verus!
