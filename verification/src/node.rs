//! The RPC node: one endpoint of the message channel. It allocates
//! sequence numbers, frames outbound envelopes, decodes inbound envelopes,
//! and decides how each one is dispatched.
//!
//! The node itself never runs a callback: `handle_message` returns an
//! [`RpcDispatch`] decision, and the surrounding layer (the host async
//! context, the guest runtime, or the embedding program) carries it out.

use vstd::prelude::*;

verus! {

use crate::abi::FunctionIdent;
use crate::abi::FunctionIdentV;
use crate::abi::LinkHintV;
use crate::context::spec_encode_env;
use crate::context::Message;
use crate::context::MessageV;
use crate::context::RpcMessage;
use crate::context::RpcMessageV;
use crate::context::spec_parse_env;
use crate::entry::RpcExports;
use crate::entry::RpcImports;
use crate::errors::RpcError;
use crate::errors::RpcErrorV;
use crate::serialize::SerializeCtx;

/// What an inbound envelope asks of the surrounding layer.
pub enum RpcDispatch {
    /// A request matched an export of this node: run the export under
    /// `seq_no` on the raw packed arguments.
    CallExport { seq_no: u64, func: FunctionIdent, args: Vec<u8> },
    /// A request matched no export and a forward handler is installed:
    /// route the original raw envelope toward the hint of `func`.
    Forward { seq_no: u64, func: FunctionIdent, raw: Vec<u8> },
    /// A response arrived: hand the payload to whoever awaits `seq_no`.
    DeliverResult { seq_no: u64, data: Vec<u8> },
    /// The peer announced its name; the node has recorded it.
    PeerUpdated { name: String },
}

/// The sequence number formed from a node nonce and a counter value:
/// the nonce in the high 32 bits, the counter in the low 32 bits.
pub open spec fn spec_seq_no_of(nonce: u32, k: int) -> u64
    recommends
        0 <= k < 0x1_0000_0000,
{
    ((nonce as int) * 0x1_0000_0000 + k) as u64
}

/// The node nonce carried in the high 32 bits of a sequence number.
pub open spec fn spec_seq_no_nonce(s: u64) -> u32 {
    (s / 0x1_0000_0000) as u32
}

/// One RPC endpoint.
pub struct RpcNode<T, C> {
    serialize_ctx: SerializeCtx,
    nonce: u32,
    request_num: u64,
    imports: Option<RpcImports<C>>,
    exports: Option<RpcExports<C>>,
    forward_enabled: bool,
    result_enabled: bool,
    peer_name: Option<String>,
    data: T,
    issued: Ghost<Seq<u64>>,
}

impl<T, C> RpcNode<T, C> {
    /// The nonce this node stamps into the high half of every sequence
    /// number.
    pub closed spec fn spec_nonce(&self) -> u32 {
        self.nonce
    }

    /// How many sequence numbers this node has allocated.
    pub closed spec fn spec_count(&self) -> u64 {
        self.request_num
    }

    /// Every sequence number this node has allocated, in allocation order.
    pub closed spec fn spec_issued(&self) -> Seq<u64> {
        self.issued@
    }

    /// The peer name recorded from the initialization envelope, if any.
    pub closed spec fn spec_peer_name(&self) -> Option<Seq<char>> {
        match self.peer_name {
            Some(ref n) => Some(n@),
            None => None,
        }
    }

    pub closed spec fn spec_exports(&self) -> Option<RpcExports<C>> {
        self.exports
    }

    pub closed spec fn spec_imports(&self) -> Option<RpcImports<C>> {
        self.imports
    }

    pub closed spec fn spec_forward_enabled(&self) -> bool {
        self.forward_enabled
    }

    pub closed spec fn spec_result_enabled(&self) -> bool {
        self.result_enabled
    }

    pub closed spec fn spec_data(&self) -> &T {
        &self.data
    }

    /// The node's bookkeeping invariant: the counter counts the issued
    /// sequence numbers, and the k-th one is the nonce over k.
    pub open spec fn wf(&self) -> bool {
        &&& self.spec_count() == self.spec_issued().len()
        &&& self.spec_issued().len() <= 0x1_0000_0000
        &&& forall|i: int|
            0 <= i < self.spec_issued().len() ==> #[trigger] self.spec_issued()[i]
                == spec_seq_no_of(self.spec_nonce(), i)
    }

    /// Everything except the recorded peer name is the same on both nodes.
    pub open spec fn spec_same_config(&self, other: &Self) -> bool {
        &&& self.spec_nonce() == other.spec_nonce()
        &&& self.spec_count() == other.spec_count()
        &&& self.spec_issued() == other.spec_issued()
        &&& self.spec_exports() == other.spec_exports()
        &&& self.spec_imports() == other.spec_imports()
        &&& self.spec_forward_enabled() == other.spec_forward_enabled()
        &&& self.spec_result_enabled() == other.spec_result_enabled()
        &&& self.spec_data() == other.spec_data()
    }

    /// A fresh node. `nonce` must be distinct per node in one deployment;
    /// that is the caller's naming duty, not a machine-checked one.
    pub fn new(serialize_ctx: SerializeCtx, nonce: u32, data: T) -> (r: Self)
        ensures
            r.wf(),
            r.spec_nonce() == nonce,
            r.spec_count() == 0,
            r.spec_issued() == Seq::<u64>::empty(),
            r.spec_exports() is None,
            r.spec_imports() is None,
            !r.spec_forward_enabled(),
            !r.spec_result_enabled(),
            r.spec_peer_name() is None,
    {
        RpcNode {
            serialize_ctx,
            nonce,
            request_num: 0,
            imports: None,
            exports: None,
            forward_enabled: false,
            result_enabled: false,
            peer_name: None,
            data,
            issued: Ghost(Seq::<u64>::empty()),
        }
    }

    /// Install the import table.
    pub fn set_imports(&mut self, imports: RpcImports<C>)
        ensures
            final(self).spec_imports() == Some(imports),
            final(self).spec_exports() == old(self).spec_exports(),
            final(self).spec_nonce() == old(self).spec_nonce(),
            final(self).spec_count() == old(self).spec_count(),
            final(self).spec_issued() == old(self).spec_issued(),
            final(self).spec_forward_enabled() == old(self).spec_forward_enabled(),
            final(self).spec_result_enabled() == old(self).spec_result_enabled(),
            final(self).spec_peer_name() == old(self).spec_peer_name(),
            old(self).wf() ==> final(self).wf(),
    {
        self.imports = Some(imports);
    }

    /// Install the export table.
    pub fn set_exports(&mut self, exports: RpcExports<C>)
        ensures
            final(self).spec_exports() == Some(exports),
            final(self).spec_imports() == old(self).spec_imports(),
            final(self).spec_nonce() == old(self).spec_nonce(),
            final(self).spec_count() == old(self).spec_count(),
            final(self).spec_issued() == old(self).spec_issued(),
            final(self).spec_forward_enabled() == old(self).spec_forward_enabled(),
            final(self).spec_result_enabled() == old(self).spec_result_enabled(),
            final(self).spec_peer_name() == old(self).spec_peer_name(),
            old(self).wf() ==> final(self).wf(),
    {
        self.exports = Some(exports);
    }

    /// Record that a forward handler stands behind this node: requests
    /// matching no export are then dispatched as [`RpcDispatch::Forward`].
    pub fn set_forward_cb(&mut self)
        ensures
            final(self).spec_forward_enabled(),
            final(self).spec_exports() == old(self).spec_exports(),
            final(self).spec_imports() == old(self).spec_imports(),
            final(self).spec_nonce() == old(self).spec_nonce(),
            final(self).spec_count() == old(self).spec_count(),
            final(self).spec_issued() == old(self).spec_issued(),
            final(self).spec_result_enabled() == old(self).spec_result_enabled(),
            final(self).spec_peer_name() == old(self).spec_peer_name(),
            old(self).wf() ==> final(self).wf(),
    {
        self.forward_enabled = true;
    }

    /// Record that a result handler stands behind this node: inbound
    /// responses are then dispatched as [`RpcDispatch::DeliverResult`].
    pub fn set_result_cb(&mut self)
        ensures
            final(self).spec_result_enabled(),
            final(self).spec_exports() == old(self).spec_exports(),
            final(self).spec_imports() == old(self).spec_imports(),
            final(self).spec_nonce() == old(self).spec_nonce(),
            final(self).spec_count() == old(self).spec_count(),
            final(self).spec_issued() == old(self).spec_issued(),
            final(self).spec_forward_enabled() == old(self).spec_forward_enabled(),
            final(self).spec_peer_name() == old(self).spec_peer_name(),
            old(self).wf() ==> final(self).wf(),
    {
        self.result_enabled = true;
    }

    /// The codec context this node frames envelopes with.
    pub fn serialize_ctx(&self) -> (r: &SerializeCtx) {
        &self.serialize_ctx
    }

    /// The per-node user data, handed back to every callback context.
    pub fn data(&self) -> (r: &T)
        ensures
            r == self.spec_data(),
    {
        &self.data
    }

    /// The export callback registered for `func`, if its hint and name
    /// match this node's export table.
    pub fn export_callback(&self, func: &FunctionIdent) -> (r: Option<&C>)
        ensures
            r is Some <==> self.spec_export_match(func@),
    {
        match &self.exports {
            Some(t) => t.get_callback(func),
            None => None,
        }
    }

    /// Whether a request for `f` finds an export on this node.
    pub open spec fn spec_export_match(&self, f: FunctionIdentV) -> bool {
        match self.spec_exports() {
            Some(t) => f.hint == t.spec_hint() && t@.contains_key(f.name),
            None => false,
        }
    }

    /// Allocate the next sequence number: the node nonce over the counter.
    /// After 2^32 allocations the counter is exhausted and allocation
    /// fails; sequence numbers are never reused.
    pub fn request(&mut self) -> (r: Result<u64, RpcError>)
        requires
            old(self).wf(),
        ensures
            final(self).wf(),
            old(self).spec_count() < 0x1_0000_0000 ==> (r matches Ok(s) && s == spec_seq_no_of(
                old(self).spec_nonce(),
                old(self).spec_count() as int,
            ) && final(self).spec_count() == old(self).spec_count() + 1
                && final(self).spec_issued() == old(self).spec_issued().push(s)),
            old(self).spec_count() >= 0x1_0000_0000 ==> (r matches Err(e) && e@
                == RpcErrorV::SeqNoExhausted && final(self).spec_count() == old(self).spec_count()
                && final(self).spec_issued() == old(self).spec_issued()),
            final(self).spec_nonce() == old(self).spec_nonce(),
            final(self).spec_exports() == old(self).spec_exports(),
            final(self).spec_imports() == old(self).spec_imports(),
            final(self).spec_forward_enabled() == old(self).spec_forward_enabled(),
            final(self).spec_result_enabled() == old(self).spec_result_enabled(),
            final(self).spec_peer_name() == old(self).spec_peer_name(),
    {
        if self.request_num >= 0x1_0000_0000 {
            return Err(RpcError::SeqNoExhausted);
        }
        let seq_no = (self.nonce as u64) * 0x1_0000_0000 + self.request_num;
        self.request_num = self.request_num + 1;
        proof {
            self.issued@ = self.issued@.push(seq_no);
        }
        Ok(seq_no)
    }

    /// Frame the initialization envelope announcing this node's name.
    pub fn make_peer_info(&self, name: String) -> (r: Vec<u8>)
        ensures
            r@ == spec_encode_env(
                RpcMessageV {
                    seq_no: 0,
                    func: FunctionIdentV { name: Seq::<char>::empty(), hint: LinkHintV::Host },
                    message: MessageV::PeerInfo(name@),
                    data: Seq::<u8>::empty(),
                },
            ),
    {
        let func = FunctionIdent::new("");
        proof {
            reveal_strlit("");
            assert(func@.name =~= Seq::<char>::empty());
        }
        let msg = RpcMessage::new(0, func, Message::PeerInfo(name), Vec::new());
        msg.to_bytes()
    }

    /// The peer name recorded from the peer's initialization envelope.
    pub fn get_peer_name(&self) -> (r: Option<String>)
        ensures
            match self.spec_peer_name() {
                Some(n) => r matches Some(s) && s@ == n,
                None => r is None,
            },
    {
        match &self.peer_name {
            Some(n) => Some(n.clone()),
            None => None,
        }
    }

    /// Dispatch a decoded request: an export match runs the export, and
    /// anything else is the caller's problem, reported as `UnknownExport`.
    pub fn handle_request(&self, seq_no: u64, func: FunctionIdent, args: Vec<u8>) -> (r: Result<
        RpcDispatch,
        RpcError,
    >)
        ensures
            self.spec_export_match(func@) ==> (r matches Ok(d) && d matches RpcDispatch::CallExport {
                seq_no: s,
                func: f,
                args: a,
            } && s == seq_no && f@ == func@ && a@ == args@),
            !self.spec_export_match(func@) ==> (r matches Err(e) && e@ == RpcErrorV::UnknownExport),
    {
        match self.export_callback(&func) {
            Some(_) => Ok(RpcDispatch::CallExport { seq_no, func, args }),
            None => Err(RpcError::UnknownExport),
        }
    }

    /// Decode an inbound envelope and decide its dispatch, as one step of
    /// the protocol:
    /// a `PeerInfo` records the peer name; a `Request` runs a matching
    /// export, else is forwarded if a forward handler stands, else fails
    /// with `UnknownExport`; a `Response` goes to the result handler, and
    /// fails with `NoCallback` if none stands.
    pub fn handle_message(&mut self, raw: &[u8]) -> (r: Result<RpcDispatch, RpcError>)
        ensures
            final(self).spec_same_config(old(self)),
            match spec_parse_env(raw@) {
                Some(mv) => match mv.message {
                    MessageV::PeerInfo(n) => r matches Ok(d) && (d matches RpcDispatch::PeerUpdated {
                        name,
                    } && name@ == n) && final(self).spec_peer_name() == Some(n),
                    MessageV::Request => {
                        &&& final(self).spec_peer_name() == old(self).spec_peer_name()
                        &&& if old(self).spec_export_match(mv.func) {
                            r matches Ok(d) && d matches RpcDispatch::CallExport {
                                seq_no,
                                func,
                                args,
                            } && seq_no == mv.seq_no && func@ == mv.func && args@ == mv.data
                        } else if old(self).spec_forward_enabled() {
                            r matches Ok(d) && d matches RpcDispatch::Forward {
                                seq_no,
                                func,
                                raw: fw,
                            } && seq_no == mv.seq_no && func@ == mv.func && fw@ == raw@
                        } else {
                            r matches Err(e) && e@ == RpcErrorV::UnknownExport
                        }
                    },
                    MessageV::Response => {
                        &&& final(self).spec_peer_name() == old(self).spec_peer_name()
                        &&& if old(self).spec_result_enabled() {
                            r matches Ok(d) && d matches RpcDispatch::DeliverResult {
                                seq_no,
                                data,
                            } && seq_no == mv.seq_no && data@ == mv.data
                        } else {
                            r matches Err(e) && e@ == RpcErrorV::NoCallback
                        }
                    },
                },
                None => r matches Err(e) && e@ == RpcErrorV::SerializationFailed
                    && final(self).spec_peer_name() == old(self).spec_peer_name(),
            },
    {
        let msg = match RpcMessage::from_bytes(raw) {
            Ok(m) => m,
            Err(e) => {
                return Err(e);
            },
        };
        let seq_no = msg.seq_no();
        let func = msg.func().clone();
        match msg.message() {
            Message::PeerInfo(n) => {
                let name = n.clone();
                self.peer_name = Some(name.clone());
                Ok(RpcDispatch::PeerUpdated { name })
            },
            Message::Request => {
                let args = msg.data().clone();
                match self.handle_request(seq_no, func, args) {
                    Ok(d) => Ok(d),
                    Err(e) => {
                        if self.forward_enabled {
                            let func2 = msg.func().clone();
                            let mut fw: Vec<u8> = Vec::new();
                            crate::codec::push_bytes(&mut fw, raw);
                            proof {
                                assert(Seq::<u8>::empty() + raw@ =~= raw@);
                            }
                            Ok(RpcDispatch::Forward { seq_no, func: func2, raw: fw })
                        } else {
                            Err(e)
                        }
                    },
                }
            },
            Message::Response => {
                if self.result_enabled {
                    let data = msg.data().clone();
                    Ok(RpcDispatch::DeliverResult { seq_no, data })
                } else {
                    Err(RpcError::NoCallback)
                }
            },
        }
    }
}

/// Uniqueness of allocated sequence numbers: on any single node, all issued
/// sequence numbers are pairwise distinct, and every one carries the node's
/// nonce in its high 32 bits.
pub proof fn lemma_seq_no_uniqueness<T, C>(node: &RpcNode<T, C>)
    requires
        node.wf(),
    ensures
        forall|i: int, j: int|
            0 <= i < j < node.spec_issued().len() ==> node.spec_issued()[i]
                != node.spec_issued()[j],
        forall|i: int|
            0 <= i < node.spec_issued().len() ==> spec_seq_no_nonce(
                #[trigger] node.spec_issued()[i],
            ) == node.spec_nonce(),
{
    let nonce = node.spec_nonce() as int;
    assert forall|i: int| 0 <= i < node.spec_issued().len() implies spec_seq_no_nonce(
        #[trigger] node.spec_issued()[i],
    ) == node.spec_nonce() by {
        assert(0 <= nonce * 0x1_0000_0000 + i < 0x1_0000_0000_0000_0000) by (nonlinear_arith)
            requires
                0 <= nonce < 0x1_0000_0000,
                0 <= i < 0x1_0000_0000,
        ;
        assert((nonce * 0x1_0000_0000 + i) / 0x1_0000_0000 == nonce) by (nonlinear_arith)
            requires
                0 <= i < 0x1_0000_0000,
        ;
    }
    assert forall|i: int, j: int|
        0 <= i < j < node.spec_issued().len() implies node.spec_issued()[i]
        != node.spec_issued()[j] by {
        assert(0 <= nonce * 0x1_0000_0000 + i < 0x1_0000_0000_0000_0000) by (nonlinear_arith)
            requires
                0 <= nonce < 0x1_0000_0000,
                0 <= i < 0x1_0000_0000,
        ;
        assert(0 <= nonce * 0x1_0000_0000 + j < 0x1_0000_0000_0000_0000) by (nonlinear_arith)
            requires
                0 <= nonce < 0x1_0000_0000,
                0 <= j < 0x1_0000_0000,
        ;
    }
}

} // verus!
