//! The adapter interface between the RPC layer and whatever moves a byte
//! string to the other side of the channel.

use vstd::prelude::*;

verus! {

use crate::errors::RpcError;

/// Whatever can carry one framed message to the peer. The embedding
/// program implements this over its channel; the library never calls it
/// from verified code, so no behavior is assumed of an implementation.
pub trait SendMessageAdapter {
    fn send_message(&self, message: &[u8]) -> Result<(), RpcError>;
}

/// The guest-side adapter: sending means crossing into the host through
/// the guest's low-level export shim, which the embedding program owns.
pub struct WasmSendMessageAdapter;

impl WasmSendMessageAdapter {
    pub fn new() -> (r: Self) {
        WasmSendMessageAdapter
    }
}

} // verus!
