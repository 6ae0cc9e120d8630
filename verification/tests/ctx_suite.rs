use bc_hostcall::abi::FunctionIdent;
use bc_hostcall::abi::LinkHint;
use bc_hostcall::args::Args;
use bc_hostcall::args::ArgsBuilder;
use bc_hostcall::context::RpcMessage;
use bc_hostcall::context::RpcResponseCtx;
use bc_hostcall::ctx::AsyncCtx;
use bc_hostcall::ctx::DriverPoll;
use bc_hostcall::ctx::HostStep;
use bc_hostcall::entry::RpcExports;
use bc_hostcall::errors::RpcError;
use bc_hostcall::future::AsyncRequestFuture;
use bc_hostcall::future::HandleRxFuture;
use bc_hostcall::future::HandleTxFuture;
use bc_hostcall::future::ReqPoll;
use bc_hostcall::node::RpcNode;
use bc_hostcall::rt::host_message_handler;
use bc_hostcall::rt::GuestStep;
use bc_hostcall::rt::WasmReqPoll;
use bc_hostcall::rt::WasmRtCtx;
use bc_hostcall::serialize::SerializeCtx;

/// A host context whose node carries the given export table.
fn host_ctx(exports: Option<RpcExports<()>>) -> AsyncCtx<(), i32> {
    let mut ctx: AsyncCtx<(), i32> = AsyncCtx::new();
    let mut node: RpcNode<(), ()> = RpcNode::new(SerializeCtx::new(), 0, ());
    if let Some(x) = exports {
        node.set_exports(x);
    }
    ctx.bind_rpc(node);
    ctx
}

/// A guest runtime whose node exports the named functions under the
/// module name `demo`.
fn guest_rt(names: &[&str]) -> WasmRtCtx<(), (), i32> {
    let mut rt: WasmRtCtx<(), (), i32> = WasmRtCtx::new();
    let mut node: RpcNode<(), ()> = RpcNode::new(SerializeCtx::new(), 1, ());
    let mut exports: RpcExports<()> = RpcExports::new(LinkHint::GuestModule("demo".to_string()));
    for n in names.iter() {
        exports.add_exports(FunctionIdent::new(n), ());
    }
    node.set_exports(exports);
    node.set_result_cb();
    rt.bind_rpc(node);
    rt
}

fn start_drivers(ctx: &mut AsyncCtx<(), i32>, tx: &HandleTxFuture, rx: &HandleRxFuture) {
    assert!(matches!(tx.poll_step(ctx, 1), DriverPoll::Running(_)));
    assert!(matches!(rx.poll_step(ctx, 2), DriverPoll::Running(_)));
    assert!(ctx.prepared());
}

/// S1: the guest exports `echo`; calling it with "hi" returns "hi".
#[test]
fn echo_scenario() {
    let ser = SerializeCtx::new();
    let mut rt = guest_rt(&["echo"]);
    let mut ctx = host_ctx(None);
    let tx = HandleTxFuture::new();
    let rx = HandleRxFuture::new();
    start_drivers(&mut ctx, &tx, &rx);

    // issue echo("hi")
    let mut func = FunctionIdent::new("echo");
    func.set_hint(LinkHint::GuestModule("demo".to_string()));
    let mut builder = ArgsBuilder::new(&ser);
    builder.push_str("hi");
    let args = builder.build().unwrap();
    let mut fut = ctx.request_api(func, args).unwrap();
    assert!(matches!(fut.poll_step(&mut ctx, 3), ReqPoll::Pending));

    // the RX driver carries the request into the guest
    let batch = match rx.poll_step(&mut ctx, 2) {
        DriverPoll::Running(b) => b,
        _ => panic!("driver completed early"),
    };
    assert_eq!(batch.len(), 1);
    for msg in batch.iter() {
        match host_message_handler(&mut rt, msg).unwrap() {
            GuestStep::RunExport { seq_no, func, args } => {
                let a = Args::from_bytes(&args).unwrap();
                let s = a.get_str(&ser, 0).unwrap();
                assert_eq!(s, "hi");
                let ret = ser.serialize_str(&s).unwrap();
                let resp_ctx = RpcResponseCtx::new(seq_no, &ser, &());
                let resp = resp_ctx.make_response(func, ret).unwrap();
                ctx.push_tx(resp);
            }
            _ => panic!("expected an export call in the guest"),
        }
    }

    // the TX driver hands the response to the node, which wakes the future
    let batch = match tx.poll_step(&mut ctx, 1) {
        DriverPoll::Running(b) => b,
        _ => panic!("driver completed early"),
    };
    for msg in batch.iter() {
        match ctx.handle_host_message(msg).unwrap() {
            HostStep::Wake(w) => assert_eq!(w, 3),
            _ => panic!("expected a wake"),
        }
    }
    let out = match fut.poll_step(&mut ctx, 3) {
        ReqPoll::Ready(d) => d,
        _ => panic!("future not ready"),
    };
    assert_eq!(ser.deserialize_str(&out).unwrap(), "hi");
}

/// S3: one hundred concurrent calls on one module; responses delivered in
/// reverse order; every future completes with its own result.
#[test]
fn hundred_concurrent_calls_resolve_their_own_futures() {
    let ser = SerializeCtx::new();
    let mut ctx = host_ctx(None);
    let tx = HandleTxFuture::new();
    let rx = HandleRxFuture::new();
    start_drivers(&mut ctx, &tx, &rx);

    let mut futs: Vec<AsyncRequestFuture> = Vec::new();
    for i in 0..100 {
        let mut func = FunctionIdent::new("do_service");
        func.set_hint(LinkHint::GuestModule("demo".to_string()));
        let mut builder = ArgsBuilder::new(&ser);
        builder.push_str(&format!("url{}", i));
        let args = builder.build().unwrap();
        let mut fut = ctx.request_api(func, args).unwrap();
        assert!(matches!(fut.poll_step(&mut ctx, 1000 + i), ReqPoll::Pending));
        futs.push(fut);
    }

    // drain the hundred requests and craft the hundred responses
    let batch = match rx.poll_step(&mut ctx, 2) {
        DriverPoll::Running(b) => b,
        _ => panic!("driver completed early"),
    };
    assert_eq!(batch.len(), 100);
    let mut responses: Vec<Vec<u8>> = Vec::new();
    for msg in batch.iter() {
        let req = RpcMessage::from_bytes(msg).unwrap();
        let a = Args::from_bytes(req.data()).unwrap();
        let url = a.get_str(&ser, 0).unwrap();
        let body = ser.serialize_str(&format!("body of {}", url)).unwrap();
        let resp_ctx = RpcResponseCtx::new(req.seq_no(), &ser, &());
        responses.push(resp_ctx.make_response(req.func().clone(), body).unwrap());
    }

    // deliver them in reverse order
    responses.reverse();
    for resp in responses {
        ctx.push_tx(resp);
    }
    let batch = match tx.poll_step(&mut ctx, 1) {
        DriverPoll::Running(b) => b,
        _ => panic!("driver completed early"),
    };
    for msg in batch.iter() {
        assert!(matches!(ctx.handle_host_message(msg).unwrap(), HostStep::Wake(_)));
    }

    // every future sees exactly its own response
    for (i, fut) in futs.iter_mut().enumerate() {
        let out = match fut.poll_step(&mut ctx, 1000 + i as i32) {
            ReqPoll::Ready(d) => d,
            _ => panic!("future {} not ready", i),
        };
        assert_eq!(
            ser.deserialize_str(&out).unwrap(),
            format!("body of url{}", i)
        );
    }
}

/// P6: a request issued before the drivers start waits in the queue and
/// is serviced by the first RX poll after start.
#[test]
fn request_before_start_is_serviced() {
    let ser = SerializeCtx::new();
    let mut ctx = host_ctx(None);
    assert!(!ctx.prepared());

    let mut func = FunctionIdent::new("early");
    func.set_hint(LinkHint::GuestModule("demo".to_string()));
    let mut builder = ArgsBuilder::new(&ser);
    builder.push_str("x");
    let args = builder.build().unwrap();
    let mut fut = ctx.request_api(func, args).unwrap();
    assert!(matches!(fut.poll_step(&mut ctx, 3), ReqPoll::Pending));

    // drivers start afterwards; the first RX poll drains the request
    let tx = HandleTxFuture::new();
    let rx = HandleRxFuture::new();
    assert!(matches!(tx.poll_step(&mut ctx, 1), DriverPoll::Running(_)));
    let batch = match rx.poll_step(&mut ctx, 2) {
        DriverPoll::Running(b) => b,
        _ => panic!("driver completed early"),
    };
    assert!(ctx.prepared());
    assert_eq!(batch.len(), 1);
    let req = RpcMessage::from_bytes(&batch[0]).unwrap();
    assert_eq!(req.func().name, "early");
}

/// P9: after kill, both drivers complete on their next poll and no new
/// request is accepted.
#[test]
fn kill_completes_drivers_and_rejects_requests() {
    let mut ctx = host_ctx(None);
    let tx = HandleTxFuture::new();
    let rx = HandleRxFuture::new();
    start_drivers(&mut ctx, &tx, &rx);
    assert!(ctx.alive());

    ctx.kill();
    assert!(!ctx.alive());
    assert!(matches!(tx.poll_step(&mut ctx, 1), DriverPoll::Completed));
    assert!(matches!(rx.poll_step(&mut ctx, 2), DriverPoll::Completed));

    let func = FunctionIdent::new("late");
    assert!(matches!(
        ctx.request_api(func, vec![]),
        Err(RpcError::ChannelFailed)
    ));
}

/// A response for a sequence number nothing waits on is dropped with a
/// diagnostic, not an error.
#[test]
fn stale_response_is_dropped() {
    let mut ctx = host_ctx(None);
    let ser = SerializeCtx::new();
    let resp_ctx = RpcResponseCtx::new(424242, &ser, &());
    let resp = resp_ctx
        .make_response(FunctionIdent::new("gone"), vec![])
        .unwrap();
    match ctx.handle_host_message(&resp).unwrap() {
        HostStep::Stale { seq_no } => assert_eq!(seq_no, 424242),
        _ => panic!("expected a stale diagnostic"),
    }
}

/// S6: while executing a host-to-guest call, the guest issues a call with
/// the `Host` hint; the host export runs, the guest resumes, and the
/// outer call completes with the value the guest computed from it.
#[test]
fn nested_host_call_from_guest() {
    let ser = SerializeCtx::new();
    let mut rt = guest_rt(&["outer"]);
    let mut host_exports: RpcExports<()> = RpcExports::new(LinkHint::Host);
    host_exports.add_exports(FunctionIdent::new("host_fn"), ());
    let mut ctx = host_ctx(Some(host_exports));
    let tx = HandleTxFuture::new();
    let rx = HandleRxFuture::new();
    start_drivers(&mut ctx, &tx, &rx);

    // host calls the guest's `outer`
    let mut func = FunctionIdent::new("outer");
    func.set_hint(LinkHint::GuestModule("demo".to_string()));
    let mut fut = ctx.request_api(func, vec![]).unwrap();
    assert!(matches!(fut.poll_step(&mut ctx, 3), ReqPoll::Pending));

    // deliver the request into the guest; the guest issues a host call
    let batch = match rx.poll_step(&mut ctx, 2) {
        DriverPoll::Running(b) => b,
        _ => panic!("driver completed early"),
    };
    let (outer_seq, outer_func) = match host_message_handler(&mut rt, &batch[0]).unwrap() {
        GuestStep::RunExport { seq_no, func, .. } => (seq_no, func),
        _ => panic!("expected an export call in the guest"),
    };
    let mut hfunc = FunctionIdent::new("host_fn");
    hfunc.set_hint(LinkHint::Host);
    let mut gfut = bc_hostcall::rt::request_api(&mut rt, hfunc, vec![]).unwrap();
    match gfut.poll_step(&mut rt, 7) {
        WasmReqPoll::Pending(Some(bytes)) => ctx.push_tx(bytes),
        _ => panic!("expected the guest request to be emitted"),
    }

    // the host runs its export and answers toward the guest
    let batch = match tx.poll_step(&mut ctx, 1) {
        DriverPoll::Running(b) => b,
        _ => panic!("driver completed early"),
    };
    match ctx.handle_host_message(&batch[0]).unwrap() {
        HostStep::RunExport { seq_no, func, .. } => {
            let value = ser.serialize_str("42").unwrap();
            let resp_ctx = RpcResponseCtx::new(seq_no, &ser, &());
            let resp = resp_ctx.make_response(func, value).unwrap();
            ctx.push_rx(resp);
        }
        _ => panic!("expected the host export to run"),
    }

    // the response reaches the guest, which resumes and answers `outer`
    let batch = match rx.poll_step(&mut ctx, 2) {
        DriverPoll::Running(b) => b,
        _ => panic!("driver completed early"),
    };
    match host_message_handler(&mut rt, &batch[0]).unwrap() {
        GuestStep::Wake(w) => assert_eq!(w, 7),
        _ => panic!("expected the guest future to wake"),
    }
    let inner = match gfut.poll_step(&mut rt, 7) {
        WasmReqPoll::Ready(d) => ser.deserialize_str(&d).unwrap(),
        _ => panic!("guest future not ready"),
    };
    assert_eq!(inner, "42");
    let outer_value = ser.serialize_str(&format!("guest saw {}", inner)).unwrap();
    let resp_ctx = RpcResponseCtx::new(outer_seq, &ser, &());
    let resp = resp_ctx.make_response(outer_func, outer_value).unwrap();
    ctx.push_tx(resp);

    // the outer call completes on the host
    let batch = match tx.poll_step(&mut ctx, 1) {
        DriverPoll::Running(b) => b,
        _ => panic!("driver completed early"),
    };
    assert!(matches!(
        ctx.handle_host_message(&batch[0]).unwrap(),
        HostStep::Wake(_)
    ));
    let out = match fut.poll_step(&mut ctx, 3) {
        ReqPoll::Ready(d) => d,
        _ => panic!("future not ready"),
    };
    assert_eq!(ser.deserialize_str(&out).unwrap(), "guest saw 42");
}
