//! The framed message on the wire — the envelope — and the temporary
//! contexts handed to request, response and result handling code.
//!
//! An envelope carries a sequence number, a function identifier, a payload
//! kind, and the payload bytes. Its byte encoding is specified exactly and
//! decoding is proved to invert encoding.

use vstd::prelude::*;

verus! {

use vstd::bytes::spec_u64_to_le_bytes;
use vstd::string::StringSliceAdditionalSpecFns;
use vstd::utf8::decode_utf8;
use vstd::utf8::encode_utf8;
use vstd::utf8::encode_utf8_decode_utf8;
use vstd::utf8::encode_utf8_valid_utf8;
use vstd::utf8::valid_utf8;
use crate::abi::FunctionIdent;
use crate::abi::FunctionIdentV;
use crate::abi::LinkHint;
use crate::abi::LinkHintV;
use crate::codec::lemma_take_lp_of_encoded;
use crate::codec::lemma_take_u64_of_encoded;
use crate::codec::lemma_take_u8_of_encoded;
use vstd::bytes::lemma_auto_spec_u64_to_from_le_bytes;
use crate::codec::read_lp;
use crate::codec::read_u64;
use crate::codec::read_u8;
use crate::codec::spec_lp;
use crate::codec::spec_take_lp;
use crate::codec::spec_take_u64;
use crate::codec::spec_take_u8;
use crate::codec::write_lp;
use crate::codec::write_u64;
use crate::codec::write_u8;
use crate::errors::RpcError;
use crate::errors::RpcErrorV;
use crate::serialize::bytes_to_string;
use crate::serialize::SerializeCtx;

/// The payload kind of an envelope.
pub enum Message {
    /// A call request; the payload is the packed argument tuple.
    Request,
    /// A call response; the payload is the encoded return value.
    Response,
    /// The initialization envelope announcing the sender's name.
    PeerInfo(String),
}

/// Mathematical value of a [`Message`].
pub enum MessageV {
    Request,
    Response,
    PeerInfo(Seq<char>),
}

impl View for Message {
    type V = MessageV;

    open spec fn view(&self) -> MessageV {
        match self {
            Message::Request => MessageV::Request,
            Message::Response => MessageV::Response,
            Message::PeerInfo(n) => MessageV::PeerInfo(n@),
        }
    }
}

impl Clone for Message {
    fn clone(&self) -> (r: Self)
        ensures
            r@ == self@,
    {
        match self {
            Message::Request => Message::Request,
            Message::Response => Message::Response,
            Message::PeerInfo(n) => Message::PeerInfo(n.clone()),
        }
    }
}

/// One framed message on the wire.
pub struct RpcMessage {
    seq_no: u64,
    func: FunctionIdent,
    message: Message,
    data: Vec<u8>,
}

/// Mathematical value of an [`RpcMessage`].
pub struct RpcMessageV {
    pub seq_no: u64,
    pub func: FunctionIdentV,
    pub message: MessageV,
    pub data: Seq<u8>,
}

impl View for RpcMessage {
    type V = RpcMessageV;

    closed spec fn view(&self) -> RpcMessageV {
        RpcMessageV { seq_no: self.seq_no, func: self.func@, message: self.message@, data: self.data@ }
    }
}

// --- the wire encoding ---
/// The byte encoding of a link hint: a tag, then for the named variants the
/// length-prefixed UTF-8 name.
pub open spec fn spec_encode_hint(h: LinkHintV) -> Seq<u8> {
    match h {
        LinkHintV::Host => seq![0u8],
        LinkHintV::GuestModule(n) => seq![1u8] + spec_lp(encode_utf8(n)),
        LinkHintV::NativeModule(n) => seq![2u8] + spec_lp(encode_utf8(n)),
    }
}

/// The byte encoding of a payload kind.
pub open spec fn spec_encode_kind(m: MessageV) -> Seq<u8> {
    match m {
        MessageV::Request => seq![0u8],
        MessageV::Response => seq![1u8],
        MessageV::PeerInfo(n) => seq![2u8] + spec_lp(encode_utf8(n)),
    }
}

/// The byte encoding of a whole envelope.
pub open spec fn spec_encode_env(m: RpcMessageV) -> Seq<u8> {
    spec_u64_to_le_bytes(m.seq_no) + spec_lp(encode_utf8(m.func.name)) + spec_encode_hint(
        m.func.hint,
    ) + spec_encode_kind(m.message) + spec_lp(m.data)
}

/// The machine bound on every encoded piece of an envelope.
pub open spec fn wf_hint(h: LinkHintV) -> bool {
    match h {
        LinkHintV::Host => true,
        LinkHintV::GuestModule(n) => encode_utf8(n).len() <= 0xffff_ffff_ffff_ffff,
        LinkHintV::NativeModule(n) => encode_utf8(n).len() <= 0xffff_ffff_ffff_ffff,
    }
}

pub open spec fn wf_kind(m: MessageV) -> bool {
    match m {
        MessageV::PeerInfo(n) => encode_utf8(n).len() <= 0xffff_ffff_ffff_ffff,
        _ => true,
    }
}

pub open spec fn wf_env(m: RpcMessageV) -> bool {
    &&& encode_utf8(m.func.name).len() <= 0xffff_ffff_ffff_ffff
    &&& wf_hint(m.func.hint)
    &&& wf_kind(m.message)
    &&& m.data.len() <= 0xffff_ffff_ffff_ffff
}

/// What reading a link hint at `pos` yields.
pub open spec fn spec_take_hint(b: Seq<u8>, pos: int) -> Option<(LinkHintV, int)> {
    match spec_take_u8(b, pos) {
        Some(tp) => if tp.0 == 0 {
            Some((LinkHintV::Host, tp.1))
        } else if tp.0 == 1 || tp.0 == 2 {
            match spec_take_lp(b, tp.1) {
                Some(np) => if valid_utf8(np.0) {
                    if tp.0 == 1 {
                        Some((LinkHintV::GuestModule(decode_utf8(np.0)), np.1))
                    } else {
                        Some((LinkHintV::NativeModule(decode_utf8(np.0)), np.1))
                    }
                } else {
                    None
                },
                None => None,
            }
        } else {
            None
        },
        None => None,
    }
}

/// What reading a payload kind at `pos` yields.
pub open spec fn spec_take_kind(b: Seq<u8>, pos: int) -> Option<(MessageV, int)> {
    match spec_take_u8(b, pos) {
        Some(tp) => if tp.0 == 0 {
            Some((MessageV::Request, tp.1))
        } else if tp.0 == 1 {
            Some((MessageV::Response, tp.1))
        } else if tp.0 == 2 {
            match spec_take_lp(b, tp.1) {
                Some(np) => if valid_utf8(np.0) {
                    Some((MessageV::PeerInfo(decode_utf8(np.0)), np.1))
                } else {
                    None
                },
                None => None,
            }
        } else {
            None
        },
        None => None,
    }
}

/// What a whole byte string parses to as an envelope; every field must be
/// present and the encoding must span the whole input.
pub open spec fn spec_parse_env(b: Seq<u8>) -> Option<RpcMessageV> {
    match spec_take_u64(b, 0) {
        Some(sp) => match spec_take_lp(b, sp.1) {
            Some(np) => if valid_utf8(np.0) {
                match spec_take_hint(b, np.1) {
                    Some(hp) => match spec_take_kind(b, hp.1) {
                        Some(mp) => match spec_take_lp(b, mp.1) {
                            Some(dp) => if dp.1 == b.len() {
                                Some(
                                    RpcMessageV {
                                        seq_no: sp.0,
                                        func: FunctionIdentV {
                                            name: decode_utf8(np.0),
                                            hint: hp.0,
                                        },
                                        message: mp.0,
                                        data: dp.0,
                                    },
                                )
                            } else {
                                None
                            },
                            None => None,
                        },
                        None => None,
                    },
                    None => None,
                }
            } else {
                None
            },
            None => None,
        },
        None => None,
    }
}

pub proof fn lemma_take_hint_of_encoded(pre: Seq<u8>, h: LinkHintV, rest: Seq<u8>)
    requires
        wf_hint(h),
    ensures
        spec_take_hint(pre + spec_encode_hint(h) + rest, pre.len() as int) == Some(
            (h, pre.len() as int + spec_encode_hint(h).len()),
        ),
{
    broadcast use encode_utf8_valid_utf8;
    broadcast use encode_utf8_decode_utf8;

    lemma_auto_spec_u64_to_from_le_bytes();
    let b = pre + spec_encode_hint(h) + rest;
    match h {
        LinkHintV::Host => {
            assert(b =~= pre + seq![0u8] + rest);
            lemma_take_u8_of_encoded(pre, 0u8, rest);
        },
        LinkHintV::GuestModule(n) => {
            let nb = encode_utf8(n);
            assert(b =~= pre + seq![1u8] + (spec_lp(nb) + rest));
            lemma_take_u8_of_encoded(pre, 1u8, spec_lp(nb) + rest);
            let pre1 = pre + seq![1u8];
            assert(b =~= pre1 + spec_lp(nb) + rest);
            lemma_take_lp_of_encoded(pre1, nb, rest);
        },
        LinkHintV::NativeModule(n) => {
            let nb = encode_utf8(n);
            assert(b =~= pre + seq![2u8] + (spec_lp(nb) + rest));
            lemma_take_u8_of_encoded(pre, 2u8, spec_lp(nb) + rest);
            let pre1 = pre + seq![2u8];
            assert(b =~= pre1 + spec_lp(nb) + rest);
            lemma_take_lp_of_encoded(pre1, nb, rest);
        },
    }
}

pub proof fn lemma_take_kind_of_encoded(pre: Seq<u8>, m: MessageV, rest: Seq<u8>)
    requires
        wf_kind(m),
    ensures
        spec_take_kind(pre + spec_encode_kind(m) + rest, pre.len() as int) == Some(
            (m, pre.len() as int + spec_encode_kind(m).len()),
        ),
{
    broadcast use encode_utf8_valid_utf8;
    broadcast use encode_utf8_decode_utf8;

    lemma_auto_spec_u64_to_from_le_bytes();
    let b = pre + spec_encode_kind(m) + rest;
    match m {
        MessageV::Request => {
            assert(b =~= pre + seq![0u8] + rest);
            lemma_take_u8_of_encoded(pre, 0u8, rest);
        },
        MessageV::Response => {
            assert(b =~= pre + seq![1u8] + rest);
            lemma_take_u8_of_encoded(pre, 1u8, rest);
        },
        MessageV::PeerInfo(n) => {
            let nb = encode_utf8(n);
            assert(b =~= pre + seq![2u8] + (spec_lp(nb) + rest));
            lemma_take_u8_of_encoded(pre, 2u8, spec_lp(nb) + rest);
            let pre1 = pre + seq![2u8];
            assert(b =~= pre1 + spec_lp(nb) + rest);
            lemma_take_lp_of_encoded(pre1, nb, rest);
        },
    }
}

/// Round trip of the envelope codec: parsing an encoded envelope gives back
/// exactly the original envelope value.
#[verifier::rlimit(60)]
pub proof fn lemma_env_round_trip(m: RpcMessageV)
    requires
        wf_env(m),
    ensures
        spec_parse_env(spec_encode_env(m)) == Some(m),
{
    broadcast use encode_utf8_valid_utf8;
    broadcast use encode_utf8_decode_utf8;

    lemma_auto_spec_u64_to_from_le_bytes();
    let b = spec_encode_env(m);
    let nb = encode_utf8(m.func.name);
    let hb = spec_encode_hint(m.func.hint);
    let kb = spec_encode_kind(m.message);
    let db = spec_lp(m.data);

    assert(b =~= Seq::<u8>::empty() + spec_u64_to_le_bytes(m.seq_no) + (spec_lp(nb) + hb + kb
        + db));
    lemma_take_u64_of_encoded(Seq::<u8>::empty(), m.seq_no, spec_lp(nb) + hb + kb + db);
    let pre1 = spec_u64_to_le_bytes(m.seq_no);
    assert(spec_take_u64(b, 0) == Some((m.seq_no, pre1.len() as int)));

    assert(b =~= pre1 + spec_lp(nb) + (hb + kb + db));
    lemma_take_lp_of_encoded(pre1, nb, hb + kb + db);
    let pre2 = pre1 + spec_lp(nb);

    assert(b =~= pre2 + hb + (kb + db));
    lemma_take_hint_of_encoded(pre2, m.func.hint, kb + db);
    let pre3 = pre2 + hb;

    assert(b =~= pre3 + kb + db);
    lemma_take_kind_of_encoded(pre3, m.message, db);
    let pre4 = pre3 + kb;

    assert(b =~= pre4 + spec_lp(m.data) + Seq::<u8>::empty());
    lemma_take_lp_of_encoded(pre4, m.data, Seq::<u8>::empty());
    assert(pre4.len() as int + 8 + m.data.len() == b.len());
}

impl RpcMessage {
    /// Assemble an envelope.
    pub fn new(seq_no: u64, func: FunctionIdent, message: Message, data: Vec<u8>) -> (r: Self)
        ensures
            r@ == (RpcMessageV { seq_no, func: func@, message: message@, data: data@ }),
    {
        RpcMessage { seq_no, func, message, data }
    }

    /// The sequence number of this envelope.
    pub fn seq_no(&self) -> (r: u64)
        ensures
            r == self@.seq_no,
    {
        self.seq_no
    }

    /// The function identifier of this envelope.
    pub fn func(&self) -> (r: &FunctionIdent)
        ensures
            r@ == self@.func,
    {
        &self.func
    }

    /// The payload kind of this envelope.
    pub fn message(&self) -> (r: &Message)
        ensures
            r@ == self@.message,
    {
        &self.message
    }

    /// The payload bytes of this envelope.
    pub fn data(&self) -> (r: &Vec<u8>)
        ensures
            r@ == self@.data,
    {
        &self.data
    }

    /// Encode this envelope to its wire bytes.
    pub fn to_bytes(&self) -> (r: Vec<u8>)
        ensures
            r@ == spec_encode_env(self@),
    {
        let mut out: Vec<u8> = Vec::new();
        write_u64(&mut out, self.seq_no);
        write_lp(&mut out, self.func.name.as_str().as_bytes());
        match &self.func.hint {
            LinkHint::Host => {
                write_u8(&mut out, 0);
            },
            LinkHint::GuestModule(n) => {
                write_u8(&mut out, 1);
                write_lp(&mut out, n.as_str().as_bytes());
            },
            LinkHint::NativeModule(n) => {
                write_u8(&mut out, 2);
                write_lp(&mut out, n.as_str().as_bytes());
            },
        }
        match &self.message {
            Message::Request => {
                write_u8(&mut out, 0);
            },
            Message::Response => {
                write_u8(&mut out, 1);
            },
            Message::PeerInfo(n) => {
                write_u8(&mut out, 2);
                write_lp(&mut out, n.as_str().as_bytes());
            },
        }
        write_lp(&mut out, self.data.as_slice());
        proof {
            assert(out@ =~= spec_encode_env(self@));
        }
        out
    }

    /// Decode an envelope from its wire bytes.
    pub fn from_bytes(bytes: &[u8]) -> (r: Result<RpcMessage, RpcError>)
        ensures
            match spec_parse_env(bytes@) {
                Some(mv) => r matches Ok(m) && m@ == mv,
                None => r matches Err(e) && e@ == RpcErrorV::SerializationFailed,
            },
    {
        let mut pos: usize = 0;
        let seq_no = match read_u64(bytes, &mut pos) {
            Some(v) => v,
            None => {
                return Err(RpcError::SerializationFailed);
            },
        };
        let name = match read_lp(bytes, &mut pos) {
            Some(v) => match bytes_to_string(v) {
                Some(s) => s,
                None => {
                    return Err(RpcError::SerializationFailed);
                },
            },
            None => {
                return Err(RpcError::SerializationFailed);
            },
        };
        let hint = match read_u8(bytes, &mut pos) {
            Some(0) => LinkHint::Host,
            Some(1) => match read_lp(bytes, &mut pos) {
                Some(v) => match bytes_to_string(v) {
                    Some(s) => LinkHint::GuestModule(s),
                    None => {
                        return Err(RpcError::SerializationFailed);
                    },
                },
                None => {
                    return Err(RpcError::SerializationFailed);
                },
            },
            Some(2) => match read_lp(bytes, &mut pos) {
                Some(v) => match bytes_to_string(v) {
                    Some(s) => LinkHint::NativeModule(s),
                    None => {
                        return Err(RpcError::SerializationFailed);
                    },
                },
                None => {
                    return Err(RpcError::SerializationFailed);
                },
            },
            _ => {
                return Err(RpcError::SerializationFailed);
            },
        };
        let message = match read_u8(bytes, &mut pos) {
            Some(0) => Message::Request,
            Some(1) => Message::Response,
            Some(2) => match read_lp(bytes, &mut pos) {
                Some(v) => match bytes_to_string(v) {
                    Some(s) => Message::PeerInfo(s),
                    None => {
                        return Err(RpcError::SerializationFailed);
                    },
                },
                None => {
                    return Err(RpcError::SerializationFailed);
                },
            },
            _ => {
                return Err(RpcError::SerializationFailed);
            },
        };
        let data = match read_lp(bytes, &mut pos) {
            Some(v) => v,
            None => {
                return Err(RpcError::SerializationFailed);
            },
        };
        if pos == bytes.len() {
            Ok(RpcMessage { seq_no, func: FunctionIdent { name, hint }, message, data })
        } else {
            Err(RpcError::SerializationFailed)
        }
    }
}

// --- the temporary call contexts ---
/// Context of an outbound call request: knows the sequence number, the
/// codec, and the per-node user data.
pub struct RpcRequestCtx<'a, T> {
    seq_no: u64,
    serialize_ctx: &'a SerializeCtx,
    data: &'a T,
}

impl<'a, T> RpcRequestCtx<'a, T> {
    pub closed spec fn spec_seq_no(&self) -> u64 {
        self.seq_no
    }

    pub closed spec fn spec_data(&self) -> &'a T {
        self.data
    }

    pub fn new(seq_no: u64, serialize_ctx: &'a SerializeCtx, data: &'a T) -> (r: Self)
        ensures
            r.spec_seq_no() == seq_no,
            r.spec_data() == data,
    {
        RpcRequestCtx { seq_no, serialize_ctx, data }
    }

    /// Frame a request envelope carrying `args` for `func`.
    pub fn make_request(&self, func: FunctionIdent, args: Vec<u8>) -> (r: Result<Vec<u8>, RpcError>)
        ensures
            r matches Ok(v) && v@ == spec_encode_env(
                RpcMessageV {
                    seq_no: self.spec_seq_no(),
                    func: func@,
                    message: MessageV::Request,
                    data: args@,
                },
            ),
    {
        let msg = RpcMessage::new(self.seq_no, func, Message::Request, args);
        Ok(msg.to_bytes())
    }

    pub fn serialize_ctx(&self) -> (r: &'a SerializeCtx) {
        self.serialize_ctx
    }

    pub fn seq_no(&self) -> (r: u64)
        ensures
            r == self.spec_seq_no(),
    {
        self.seq_no
    }

    pub fn data(&self) -> (r: &'a T)
        ensures
            r == self.spec_data(),
    {
        self.data
    }
}

/// Context of an inbound call at the moment the export runs: what the
/// wrapper needs to frame the response.
pub struct RpcResponseCtx<'a, T> {
    seq_no: u64,
    serialize_ctx: &'a SerializeCtx,
    data: &'a T,
}

impl<'a, T> RpcResponseCtx<'a, T> {
    pub closed spec fn spec_seq_no(&self) -> u64 {
        self.seq_no
    }

    pub closed spec fn spec_data(&self) -> &'a T {
        self.data
    }

    pub fn new(seq_no: u64, serialize_ctx: &'a SerializeCtx, data: &'a T) -> (r: Self)
        ensures
            r.spec_seq_no() == seq_no,
            r.spec_data() == data,
    {
        RpcResponseCtx { seq_no, serialize_ctx, data }
    }

    /// Frame a response envelope carrying `result` for `func`, under the
    /// sequence number of the request being answered.
    pub fn make_response(&self, func: FunctionIdent, result: Vec<u8>) -> (r: Result<
        Vec<u8>,
        RpcError,
    >)
        ensures
            r matches Ok(v) && v@ == spec_encode_env(
                RpcMessageV {
                    seq_no: self.spec_seq_no(),
                    func: func@,
                    message: MessageV::Response,
                    data: result@,
                },
            ),
    {
        let msg = RpcMessage::new(self.seq_no, func, Message::Response, result);
        Ok(msg.to_bytes())
    }

    pub fn serialize_ctx(&self) -> (r: &'a SerializeCtx) {
        self.serialize_ctx
    }

    pub fn seq_no(&self) -> (r: u64)
        ensures
            r == self.spec_seq_no(),
    {
        self.seq_no
    }

    pub fn data(&self) -> (r: &'a T)
        ensures
            r == self.spec_data(),
    {
        self.data
    }
}

/// Context of an inbound result or forwarded request: what the handler of a
/// finished call needs.
pub struct RpcEndCtx<'a, T> {
    seq_no: u64,
    serialize_ctx: &'a SerializeCtx,
    data: &'a T,
}

impl<'a, T> RpcEndCtx<'a, T> {
    pub closed spec fn spec_seq_no(&self) -> u64 {
        self.seq_no
    }

    pub closed spec fn spec_data(&self) -> &'a T {
        self.data
    }

    pub fn new(seq_no: u64, serialize_ctx: &'a SerializeCtx, data: &'a T) -> (r: Self)
        ensures
            r.spec_seq_no() == seq_no,
            r.spec_data() == data,
    {
        RpcEndCtx { seq_no, serialize_ctx, data }
    }

    pub fn serialize_ctx(&self) -> (r: &'a SerializeCtx) {
        self.serialize_ctx
    }

    pub fn seq_no(&self) -> (r: u64)
        ensures
            r == self.spec_seq_no(),
    {
        self.seq_no
    }

    pub fn data(&self) -> (r: &'a T)
        ensures
            r == self.spec_data(),
    {
        self.data
    }
}

} // verus!
