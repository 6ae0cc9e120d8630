use bc_hostcall::abi::FunctionIdent;
use bc_hostcall::abi::LinkHint;
use bc_hostcall::ctx::HostStep;
use bc_hostcall::entry::RpcExports;
use bc_hostcall::errors::RpcError;
use bc_hostcall::module::WasmModule;
use bc_hostcall::node::RpcNode;
use bc_hostcall::serialize::SerializeCtx;

fn host_exports() -> RpcExports<()> {
    RpcExports::new(LinkHint::Host)
}

/// Initialization is complete only after the guest announced its name
/// through a `PeerInfo` envelope, which the pre-readiness path hands to
/// the node synchronously.
#[test]
fn init_completes_after_peer_info() {
    let mut module: WasmModule<u32, (), i32> = WasmModule::new();
    module.init_rpc(host_exports());

    // before the guest speaks, the module is not ready
    assert!(matches!(module.complete_init(0), Err(RpcError::NotReady)));

    // the guest's entry announces its peer name
    let guest_node: RpcNode<(), ()> = RpcNode::new(SerializeCtx::new(), 9, ());
    let hello = guest_node.make_peer_info("dispatch".to_string());
    match module.async_ctx().handle_host_message(&hello).unwrap() {
        HostStep::PeerUpdated { name } => assert_eq!(name, "dispatch"),
        _ => panic!("expected the peer name to be recorded"),
    }

    module.complete_init(0).unwrap();
    assert_eq!(module.get_name(), "dispatch");
    assert!(module.get_hint() == LinkHint::GuestModule("dispatch".to_string()));
}

#[test]
fn killed_module_rejects_requests() {
    let mut module: WasmModule<u32, (), i32> = WasmModule::new();
    module.init_rpc(host_exports());
    module.kill();
    assert!(matches!(
        module.request_api(FunctionIdent::new("f"), vec![]),
        Err(RpcError::ChannelFailed)
    ));
}

#[test]
fn unbound_module_is_not_ready() {
    let mut module: WasmModule<u32, (), i32> = WasmModule::new();
    assert!(matches!(
        module.request_api(FunctionIdent::new("f"), vec![]),
        Err(RpcError::NotReady)
    ));
}
