//! The unified error kind of the fabric.

use vstd::prelude::*;

verus! {

use crate::abi::LinkHint;
use crate::abi::LinkHintV;

/// Everything that can go wrong inside the fabric, as structured variants.
#[derive(Debug)]
pub enum RpcError {
    /// A value or an envelope could not be encoded or decoded.
    SerializationFailed,
    /// The channel to the guest is gone; the module is unhealthy.
    ChannelFailed,
    /// A request named an export that the receiving table lacks.
    UnknownExport,
    /// The registry has no module under this hint.
    UnresolvedHint(LinkHint),
    /// A forwarded request would re-enter the module that issued it.
    CircularRoute,
    /// A message arrived for which no handler is installed.
    NoCallback,
    /// Neither a cached caller handle nor an owned store is available.
    NoAvailableStore,
    /// A write or read past the end of the guest memory.
    MemoryOutOfBounds,
    /// The guest lacks one of the required symbols.
    MissingExport,
    /// The low 32 bits of the sequence counter are used up.
    SeqNoExhausted,
    /// The operation needs an initialized module and the module is not ready.
    NotReady,
}

/// Mathematical value of an [`RpcError`].
pub enum RpcErrorV {
    SerializationFailed,
    ChannelFailed,
    UnknownExport,
    UnresolvedHint(LinkHintV),
    CircularRoute,
    NoCallback,
    NoAvailableStore,
    MemoryOutOfBounds,
    MissingExport,
    SeqNoExhausted,
    NotReady,
}

impl View for RpcError {
    type V = RpcErrorV;

    open spec fn view(&self) -> RpcErrorV {
        match self {
            RpcError::SerializationFailed => RpcErrorV::SerializationFailed,
            RpcError::ChannelFailed => RpcErrorV::ChannelFailed,
            RpcError::UnknownExport => RpcErrorV::UnknownExport,
            RpcError::UnresolvedHint(h) => RpcErrorV::UnresolvedHint(h@),
            RpcError::CircularRoute => RpcErrorV::CircularRoute,
            RpcError::NoCallback => RpcErrorV::NoCallback,
            RpcError::NoAvailableStore => RpcErrorV::NoAvailableStore,
            RpcError::MemoryOutOfBounds => RpcErrorV::MemoryOutOfBounds,
            RpcError::MissingExport => RpcErrorV::MissingExport,
            RpcError::SeqNoExhausted => RpcErrorV::SeqNoExhausted,
            RpcError::NotReady => RpcErrorV::NotReady,
        }
    }
}

} // verus!
