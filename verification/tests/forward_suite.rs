use bc_hostcall::abi::FunctionIdent;
use bc_hostcall::abi::LinkHint;
use bc_hostcall::args::Args;
use bc_hostcall::args::ArgsBuilder;
use bc_hostcall::context::RpcResponseCtx;
use bc_hostcall::ctx::forward_request_into;
use bc_hostcall::ctx::forward_response_into;
use bc_hostcall::ctx::AsyncCtx;
use bc_hostcall::ctx::DriverPoll;
use bc_hostcall::ctx::HostStep;
use bc_hostcall::entry::RpcExports;
use bc_hostcall::errors::RpcError;
use bc_hostcall::future::HandleRxFuture;
use bc_hostcall::future::HandleTxFuture;
use bc_hostcall::future::ReqPoll;
use bc_hostcall::manager::ModuleManager;
use bc_hostcall::node::RpcNode;
use bc_hostcall::rt::host_message_handler;
use bc_hostcall::rt::GuestStep;
use bc_hostcall::rt::WasmReqPoll;
use bc_hostcall::rt::WasmRtCtx;
use bc_hostcall::serialize::SerializeCtx;

fn module_hint(name: &str) -> LinkHint {
    LinkHint::GuestModule(name.to_string())
}

/// One in-process module: a host context with resolver enabled and a
/// guest runtime exporting the named functions under `name`.
fn make_module(
    name: &str,
    nonce: u32,
    exports: &[&str],
) -> (AsyncCtx<(), i32>, WasmRtCtx<(), (), i32>) {
    let mut ctx: AsyncCtx<(), i32> = AsyncCtx::new();
    let node: RpcNode<(), ()> = RpcNode::new(SerializeCtx::new(), nonce, ());
    ctx.bind_rpc(node);
    ctx.set_resolve_cb();

    let mut rt: WasmRtCtx<(), (), i32> = WasmRtCtx::new();
    let mut gnode: RpcNode<(), ()> = RpcNode::new(SerializeCtx::new(), nonce + 1, ());
    let mut table: RpcExports<()> = RpcExports::new(module_hint(name));
    for n in exports.iter() {
        table.add_exports(FunctionIdent::new(n), ());
    }
    gnode.set_exports(table);
    gnode.set_result_cb();
    rt.bind_rpc(gnode);
    (ctx, rt)
}

fn start(ctx: &mut AsyncCtx<(), i32>, tx: &HandleTxFuture, rx: &HandleRxFuture) {
    assert!(matches!(tx.poll_step(ctx, 1), DriverPoll::Running(_)));
    assert!(matches!(rx.poll_step(ctx, 2), DriverPoll::Running(_)));
}

/// S2: the host calls `a.ping()`; inside it, module `a` calls `b.pong()`
/// through the registry; `b` answers "pong", `a` answers "pong!", and the
/// host observes "pong!". The request that reaches `b` is byte-identical
/// to the one `a` issued, and the response is routed back to `a`.
#[test]
fn forwarded_call_round_trips_through_second_module() {
    let ser = SerializeCtx::new();
    let (mut ctx_a, mut rt_a) = make_module("a", 0, &["ping"]);
    let (mut ctx_b, mut rt_b) = make_module("b", 10, &["pong"]);
    let tx = HandleTxFuture::new();
    let rx = HandleRxFuture::new();
    start(&mut ctx_a, &tx, &rx);
    start(&mut ctx_b, &tx, &rx);

    // the registry knows both modules, by index
    let mut manager: ModuleManager<usize> = ModuleManager::new();
    assert!(manager.register(module_hint("a"), 0).is_none());
    assert!(manager.register(module_hint("b"), 1).is_none());

    // host calls a.ping()
    let mut func = FunctionIdent::new("ping");
    func.set_hint(module_hint("a"));
    let mut fut = ctx_a.request_api(func, vec![]).unwrap();
    assert!(matches!(fut.poll_step(&mut ctx_a, 3), ReqPoll::Pending));
    let batch = match rx.poll_step(&mut ctx_a, 2) {
        DriverPoll::Running(b) => b,
        _ => panic!("driver completed early"),
    };

    // guest a runs ping and internally calls b.pong()
    let (ping_seq, ping_func) = match host_message_handler(&mut rt_a, &batch[0]).unwrap() {
        GuestStep::RunExport { seq_no, func, .. } => (seq_no, func),
        _ => panic!("expected ping to run in a"),
    };
    let mut pong = FunctionIdent::new("pong");
    pong.set_hint(module_hint("b"));
    let mut gfut = bc_hostcall::rt::request_api(&mut rt_a, pong, vec![]).unwrap();
    match gfut.poll_step(&mut rt_a, 7) {
        WasmReqPoll::Pending(Some(bytes)) => ctx_a.push_tx(bytes),
        _ => panic!("expected the guest request to be emitted"),
    }

    // a's host context cannot dispatch pong locally and forwards it
    let batch = match tx.poll_step(&mut ctx_a, 1) {
        DriverPoll::Running(b) => b,
        _ => panic!("driver completed early"),
    };
    let original = batch[0].clone();
    match ctx_a.handle_host_message(&batch[0]).unwrap() {
        HostStep::ForwardRequest { seq_no, func, raw } => {
            // the forwarded envelope is byte-identical to the original
            assert_eq!(raw, original);
            let dest = *manager.resolve_for(&module_hint("a"), &func.hint).unwrap();
            assert_eq!(dest, 1);
            // record that the response must come back to a
            forward_request_into(&mut ctx_b, seq_no, module_hint("a"), func, raw);
        }
        _ => panic!("expected a forward"),
    }

    // b's guest runs pong and answers
    let batch = match rx.poll_step(&mut ctx_b, 2) {
        DriverPoll::Running(b) => b,
        _ => panic!("driver completed early"),
    };
    match host_message_handler(&mut rt_b, &batch[0]).unwrap() {
        GuestStep::RunExport { seq_no, func, .. } => {
            let value = ser.serialize_str("pong").unwrap();
            let resp_ctx = RpcResponseCtx::new(seq_no, &ser, &());
            let resp = resp_ctx.make_response(func, value).unwrap();
            ctx_b.push_tx(resp);
        }
        _ => panic!("expected pong to run in b"),
    }

    // b's host context sees the forward bookkeeping and routes the
    // response back toward a
    let batch = match tx.poll_step(&mut ctx_b, 1) {
        DriverPoll::Running(b) => b,
        _ => panic!("driver completed early"),
    };
    match ctx_b.handle_host_message(&batch[0]).unwrap() {
        HostStep::ForwardResponse { hint, func, seq_no, data } => {
            assert!(hint == module_hint("a"));
            let dest = *manager.resolve_for(&module_hint("b"), &hint).unwrap();
            assert_eq!(dest, 0);
            forward_response_into(&mut ctx_a, seq_no, func, data);
        }
        _ => panic!("expected the forwarded response"),
    }

    // the response reaches a's guest, which resumes ping
    let batch = match rx.poll_step(&mut ctx_a, 2) {
        DriverPoll::Running(b) => b,
        _ => panic!("driver completed early"),
    };
    match host_message_handler(&mut rt_a, &batch[0]).unwrap() {
        GuestStep::Wake(w) => assert_eq!(w, 7),
        _ => panic!("expected the guest future of a to wake"),
    }
    let inner = match gfut.poll_step(&mut rt_a, 7) {
        WasmReqPoll::Ready(d) => ser.deserialize_str(&d).unwrap(),
        _ => panic!("guest future of a not ready"),
    };
    assert_eq!(inner, "pong");

    // a answers ping with "pong!" and the host observes it
    let value = ser.serialize_str(&format!("{}!", inner)).unwrap();
    let resp_ctx = RpcResponseCtx::new(ping_seq, &ser, &());
    let resp = resp_ctx.make_response(ping_func, value).unwrap();
    ctx_a.push_tx(resp);
    let batch = match tx.poll_step(&mut ctx_a, 1) {
        DriverPoll::Running(b) => b,
        _ => panic!("driver completed early"),
    };
    assert!(matches!(
        ctx_a.handle_host_message(&batch[0]).unwrap(),
        HostStep::Wake(_)
    ));
    let out = match fut.poll_step(&mut ctx_a, 3) {
        ReqPoll::Ready(d) => d,
        _ => panic!("future not ready"),
    };
    assert_eq!(ser.deserialize_str(&out).unwrap(), "pong!");
}

/// P8: a request whose hint resolves to the originating module fails with
/// `CircularRoute` before anything reaches a target.
#[test]
fn self_forward_is_a_circular_route() {
    let mut manager: ModuleManager<usize> = ModuleManager::new();
    manager.register(module_hint("a"), 0);
    assert!(matches!(
        manager.resolve_for(&module_hint("a"), &module_hint("a")),
        Err(RpcError::CircularRoute)
    ));
}

/// An unregistered hint is reported as unresolved, naming the hint.
#[test]
fn unknown_hint_is_unresolved() {
    let mut manager: ModuleManager<usize> = ModuleManager::new();
    manager.register(module_hint("a"), 0);
    match manager.resolve_for(&module_hint("a"), &module_hint("c")) {
        Err(RpcError::UnresolvedHint(h)) => assert!(h == module_hint("c")),
        _ => panic!("expected an unresolved hint"),
    }
}

/// S4: re-registering a hint displaces the old module, and the hint list
/// still names the hint exactly once.
#[test]
fn reload_displaces_previous_module() {
    let mut manager: ModuleManager<usize> = ModuleManager::new();
    assert!(manager.register(module_hint("dispatch"), 0).is_none());
    let displaced = manager.register(module_hint("dispatch"), 1);
    assert_eq!(displaced, Some(0));

    let hints = manager.list_modules();
    let occurrences = hints
        .iter()
        .filter(|h| **h == module_hint("dispatch"))
        .count();
    assert_eq!(occurrences, 1);
    assert_eq!(hints.len(), 1);
    assert_eq!(*manager.resolve(&module_hint("dispatch")).unwrap(), 1);
}

/// The forwarded request's arguments survive the detour unchanged.
#[test]
fn forwarded_arguments_are_untouched() {
    let ser = SerializeCtx::new();
    let (mut ctx_a, _rt_a) = make_module("a", 0, &[]);
    let (mut ctx_b, mut rt_b) = make_module("b", 10, &["work"]);
    let tx = HandleTxFuture::new();
    let rx = HandleRxFuture::new();
    start(&mut ctx_a, &tx, &rx);
    start(&mut ctx_b, &tx, &rx);

    // a request addressed to b arrives at a
    let mut func = FunctionIdent::new("work");
    func.set_hint(module_hint("b"));
    let mut builder = ArgsBuilder::new(&ser);
    builder.push_str("payload");
    builder.push_i32(7);
    let args = builder.build().unwrap();
    let mut fut = ctx_a.request_api(func, args).unwrap();
    assert!(matches!(fut.poll_step(&mut ctx_a, 3), ReqPoll::Pending));
    let batch = match rx.poll_step(&mut ctx_a, 2) {
        DriverPoll::Running(b) => b,
        _ => panic!("driver completed early"),
    };
    // (the request came from the host here; a's guest plays no part)
    ctx_a.push_tx(batch[0].clone());
    let batch = match tx.poll_step(&mut ctx_a, 1) {
        DriverPoll::Running(b) => b,
        _ => panic!("driver completed early"),
    };
    match ctx_a.handle_host_message(&batch[0]).unwrap() {
        HostStep::ForwardRequest { seq_no, func, raw } => {
            forward_request_into(&mut ctx_b, seq_no, module_hint("a"), func, raw);
        }
        _ => panic!("expected a forward"),
    }
    let batch = match rx.poll_step(&mut ctx_b, 2) {
        DriverPoll::Running(b) => b,
        _ => panic!("driver completed early"),
    };
    match host_message_handler(&mut rt_b, &batch[0]).unwrap() {
        GuestStep::RunExport { args, .. } => {
            let a = Args::from_bytes(&args).unwrap();
            assert_eq!(a.get_str(&ser, 0).unwrap(), "payload");
            assert_eq!(a.get_i32(&ser, 1).unwrap(), 7);
        }
        _ => panic!("expected work to run in b"),
    }
}
