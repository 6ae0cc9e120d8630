use std::cell::Cell;
use std::cell::RefCell;
use std::rc::Rc;
use std::sync::Arc;
use std::sync::Mutex;

use bc_hostcall::abi::FunctionIdent;
use bc_hostcall::abi::LinkHint;
use bc_hostcall::adapter::SendMessageAdapter;
use bc_hostcall::context::Message;
use bc_hostcall::context::RpcMessage;
use bc_hostcall::context::RpcRequestCtx;
use bc_hostcall::context::RpcResponseCtx;
use bc_hostcall::entry::RpcExports;
use bc_hostcall::errors::RpcError;
use bc_hostcall::node::RpcDispatch;
use bc_hostcall::node::RpcNode;
use bc_hostcall::serialize::SerializeCtx;

struct MockAdapter {
    sent: Rc<RefCell<Option<Vec<u8>>>>,
}

impl SendMessageAdapter for MockAdapter {
    fn send_message(&self, msg: &[u8]) -> Result<(), RpcError> {
        *self.sent.borrow_mut() = Some(msg.to_vec());
        Ok(())
    }
}

type ExportCb = Box<dyn for<'a> Fn(&RpcResponseCtx<'a, MockAdapter>, &[u8]) -> Result<(), RpcError>>;

#[test]
fn test_call_request() {
    let serialize_ctx = SerializeCtx::new();
    let sent: Rc<RefCell<Option<Vec<u8>>>> = Rc::new(RefCell::new(None));
    let mut node: RpcNode<MockAdapter, ExportCb> =
        RpcNode::new(serialize_ctx, 0, MockAdapter { sent: sent.clone() });

    // the module exports a `test` function
    let mut func = FunctionIdent::new("test");
    func.set_hint(LinkHint::Host);
    let mut exports: RpcExports<ExportCb> = RpcExports::new(func.hint.clone());
    let count: Arc<Mutex<Cell<i32>>> = Arc::new(Mutex::new(Cell::new(0)));
    let inner_count = count.clone();
    exports.add_exports(
        func.clone(),
        Box::new(move |_: &'_ RpcResponseCtx<'_, _>, _: &'_ [u8]| {
            let count = inner_count.lock().unwrap();
            count.set(count.get() + 1);
            println!("test called, count = {}", count.get());
            Ok(())
        }),
    );
    node.set_exports(exports);

    // send a call request
    let seq_no = node.request().unwrap();
    let req = RpcRequestCtx::new(seq_no, node.serialize_ctx(), node.data());
    let msg = req.make_request(func.clone(), vec![]).unwrap();
    req.data().send_message(&msg).unwrap();

    // handle the call request
    let raw = sent.borrow().clone().unwrap();
    match node.handle_message(&raw).unwrap() {
        RpcDispatch::CallExport { seq_no, func, args } => {
            let cb = node.export_callback(&func).unwrap();
            let resp = RpcResponseCtx::new(seq_no, node.serialize_ctx(), node.data());
            cb(&resp, &args).unwrap();
        }
        _ => panic!("expected an export call"),
    }

    // check the result
    assert_eq!(1, count.lock().unwrap().get());
}

#[test]
fn seq_no_carries_nonce_and_counts_up() {
    let mut node: RpcNode<(), ()> = RpcNode::new(SerializeCtx::new(), 7, ());
    let s0 = node.request().unwrap();
    let s1 = node.request().unwrap();
    let s2 = node.request().unwrap();
    assert_eq!(s0, 7u64 << 32);
    assert_eq!(s1, (7u64 << 32) + 1);
    assert_eq!(s2, (7u64 << 32) + 2);
    assert!(s0 != s1 && s1 != s2 && s0 != s2);
    assert_eq!(s0 >> 32, 7);
    assert_eq!(s1 >> 32, 7);
    assert_eq!(s2 >> 32, 7);
}

#[test]
fn peer_info_is_recorded() {
    let sender: RpcNode<(), ()> = RpcNode::new(SerializeCtx::new(), 1, ());
    let bytes = sender.make_peer_info("dispatch".to_string());

    let mut receiver: RpcNode<(), ()> = RpcNode::new(SerializeCtx::new(), 2, ());
    assert!(receiver.get_peer_name().is_none());
    match receiver.handle_message(&bytes).unwrap() {
        RpcDispatch::PeerUpdated { name } => assert_eq!(name, "dispatch"),
        _ => panic!("expected a peer update"),
    }
    assert_eq!(receiver.get_peer_name().unwrap(), "dispatch");
}

#[test]
fn unknown_export_without_forward_fails() {
    // a module whose export table lacks `unknown_fn` and which has no
    // forward callback: the caller sees `UnknownExport`
    let mut node: RpcNode<(), ()> = RpcNode::new(SerializeCtx::new(), 3, ());
    let mut exports: RpcExports<()> = RpcExports::new(LinkHint::GuestModule("demo".to_string()));
    exports.add_exports(FunctionIdent::new("echo"), ());
    node.set_exports(exports);

    let mut func = FunctionIdent::new("unknown_fn");
    func.set_hint(LinkHint::GuestModule("demo".to_string()));
    let seq_no = node.request().unwrap();
    let req = RpcRequestCtx::new(seq_no, node.serialize_ctx(), node.data());
    let msg = req.make_request(func, vec![]).unwrap();

    assert!(matches!(node.handle_message(&msg), Err(RpcError::UnknownExport)));
}

#[test]
fn hint_mismatch_is_unknown_export() {
    let mut node: RpcNode<(), ()> = RpcNode::new(SerializeCtx::new(), 3, ());
    let mut exports: RpcExports<()> = RpcExports::new(LinkHint::GuestModule("demo".to_string()));
    exports.add_exports(FunctionIdent::new("echo"), ());
    node.set_exports(exports);

    // right name, wrong hint
    let mut func = FunctionIdent::new("echo");
    func.set_hint(LinkHint::GuestModule("other".to_string()));
    let seq_no = node.request().unwrap();
    let req = RpcRequestCtx::new(seq_no, node.serialize_ctx(), node.data());
    let msg = req.make_request(func, vec![]).unwrap();

    assert!(matches!(node.handle_message(&msg), Err(RpcError::UnknownExport)));
}

#[test]
fn envelope_round_trips() {
    let mut func = FunctionIdent::new("do_service");
    func.set_hint(LinkHint::NativeModule("worker".to_string()));
    let msg = RpcMessage::new(5, func, Message::Request, vec![1, 2, 3]);
    let bytes = msg.to_bytes();

    let back = RpcMessage::from_bytes(&bytes).unwrap();
    assert_eq!(back.seq_no(), 5);
    assert_eq!(back.func().name, "do_service");
    assert!(back.func().hint == LinkHint::NativeModule("worker".to_string()));
    assert!(matches!(back.message(), Message::Request));
    assert_eq!(back.data().clone(), vec![1, 2, 3]);
}

#[test]
fn garbage_envelope_is_a_serialization_error() {
    let mut node: RpcNode<(), ()> = RpcNode::new(SerializeCtx::new(), 4, ());
    assert!(matches!(
        node.handle_message(&[9, 9, 9]),
        Err(RpcError::SerializationFailed)
    ));
}

#[test]
fn response_without_result_handler_is_no_callback() {
    let mut node: RpcNode<(), ()> = RpcNode::new(SerializeCtx::new(), 5, ());
    let resp_ctx = RpcResponseCtx::new(1, node.serialize_ctx(), node.data());
    let bytes = resp_ctx
        .make_response(FunctionIdent::new("f"), vec![])
        .unwrap();
    assert!(matches!(node.handle_message(&bytes), Err(RpcError::NoCallback)));
}

#[test]
fn envelope_bytes_follow_the_documented_layout() {
    // sequence number 5; name "f"; host hint; request; one payload byte
    let mut func = FunctionIdent::new("f");
    func.set_hint(LinkHint::Host);
    let msg = RpcMessage::new(5, func, Message::Request, vec![7]);
    let bytes = msg.to_bytes();
    let expected: Vec<u8> = vec![
        5, 0, 0, 0, 0, 0, 0, 0, // sequence number, little endian
        1, 0, 0, 0, 0, 0, 0, 0, 102, // function name: length 1, "f"
        0, // hint tag: host
        0, // payload tag: request
        1, 0, 0, 0, 0, 0, 0, 0, 7, // payload: length 1, one byte
    ];
    assert_eq!(bytes, expected);
}
