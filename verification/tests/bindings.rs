use erpc_rs::context::AppContext;
use erpc_rs::cstr::c_string;
use erpc_rs::ffi::{CallbackKind, FfiCall};
use erpc_rs::msgbuffs::MsgBuffers;
use erpc_rs::nexus::Nexus;
use erpc_rs::reqhandle::ReqHandle;
use erpc_rs::rpc::Rpc;

#[test]
fn it_works() {
    assert_eq!(2 + 2, 4);
}

#[test]
fn c_string_appends_one_nul() {
    assert_eq!(c_string(b"127.0.0.1:31850"), Some(b"127.0.0.1:31850\0".to_vec()));
    assert_eq!(c_string(b""), Some(vec![0u8]));
}

#[test]
fn c_string_refuses_inner_nul() {
    assert_eq!(c_string(b"127.0.0.1\0:31850"), None);
    assert_eq!(c_string(&[0u8]), None);
}

#[test]
fn c_string_reads_back() {
    let input = b"hello".to_vec();
    let out = c_string(&input).unwrap();
    assert_eq!(out.len(), input.len() + 1);
    assert_eq!(out[out.len() - 1], 0);
    assert_eq!(&out[..out.len() - 1], &input[..]);
}

#[test]
fn nexus_new_passes_uri_as_c_string() {
    let call = Nexus::new("127.0.0.1:31850".to_string(), 0, 0);
    assert_eq!(
        call,
        FfiCall::NexusNew { local_uri: b"127.0.0.1:31850\0".to_vec(), numa_node: 0, num_bg_threads: 0 }
    );
    let call = Nexus::new("h\u{e9}".to_string(), 1, 2);
    assert_eq!(
        call,
        FfiCall::NexusNew { local_uri: vec![b'h', 0xc3, 0xa9, 0], numa_node: 1, num_bg_threads: 2 }
    );
}

#[test]
fn nexus_register_and_release() {
    let mut nexus = Nexus::from_raw(0x1000);
    let call = nexus.register_req_func(1, 0);
    assert_eq!(call, FfiCall::NexusRegisterReqFunc { nexus: 0x1000, req_type: 1, req_func_type: 0 });
    assert_eq!(nexus.inner, 0x1000);
    assert_eq!(nexus.release(), Some(FfiCall::NexusDestroy { nexus: 0x1000 }));
}

#[test]
fn app_context_new_and_release() {
    let call = AppContext::new();
    assert_eq!(call, FfiCall::AppContextNew);
    let context = AppContext::after_call(&call, 0x2000);
    assert_eq!(context.inner, 0x2000);
    assert!(context.owner);
    assert_eq!(context.release(), Some(FfiCall::AppContextDestroy { context: 0x2000 }));
}

#[test]
fn app_context_from_raw_is_never_destroyed() {
    let context = AppContext::from_raw(0x2000);
    assert_eq!(context.inner, 0x2000);
    assert!(!context.owner);
    assert_eq!(context.release(), None);
}

#[test]
fn app_context_connect_session_passes_uri_as_c_string() {
    let context = AppContext::from_raw(0x2000);
    assert_eq!(
        context.connect_session("127.0.0.1:31850".to_string(), 0),
        FfiCall::ConnectSession { context: 0x2000, server_uri: b"127.0.0.1:31850\0".to_vec(), rem_rpc_id: 0 }
    );
    assert_eq!(context.get_session_num(), FfiCall::AppContextGetSessionNum { context: 0x2000 });
}

#[test]
fn calls_name_their_callbacks() {
    let context = AppContext::from_raw(0x2000);
    let mut nexus = Nexus::from_raw(0x1000);
    assert_eq!(nexus.register_req_func(1, 0).callback(), CallbackKind::ReqFunc);
    assert_eq!(Rpc::new(&context, &nexus, 0, 0).callback(), CallbackKind::SmHandler);
    let rpc = Rpc::after_call(&Rpc::from_context(&context), 0x3000);
    assert_eq!(rpc.enqueue_request(&context, 1, 1, vec![1], 0, 0).callback(), CallbackKind::ContFunc);
    assert_eq!(rpc.run_event_loop(10).callback(), CallbackKind::NoCallback);
    assert_eq!(AppContext::new().callback(), CallbackKind::NoCallback);
}

#[test]
fn rpc_new_makes_owned_rpc() {
    let context = AppContext::from_raw(0x2000);
    let nexus = Nexus::from_raw(0x1000);
    assert_eq!(
        Rpc::new(&context, &nexus, 3, 0),
        FfiCall::RpcNew { nexus: 0x1000, context: 0x2000, rpc_id: 3, phy_port: 0 }
    );
    let call = Rpc::new(&context, &nexus, 3, 0);
    let rpc = Rpc::after_call(&call, 0x3000);
    assert!(rpc.owner());
    assert_eq!(rpc.release(), Some(FfiCall::RpcDestroy { rpc: 0x3000 }));
}

#[test]
fn rpc_from_context_is_never_destroyed() {
    let context = AppContext::from_raw(0x2000);
    assert_eq!(Rpc::from_context(&context), FfiCall::AppContextRpc { context: 0x2000 });
    let rpc = Rpc::after_call(&Rpc::from_context(&context), 0x3000);
    assert!(!rpc.owner());
    assert_eq!(rpc.release(), None);
}

#[test]
fn rpc_session_and_event_loop_calls() {
    let context = AppContext::from_raw(0x2000);
    let nexus = Nexus::from_raw(0x1000);
    let rpc = Rpc::after_call(&Rpc::new(&context, &nexus, 0, 0), 0x3000);
    assert_eq!(rpc.is_connected(7), FfiCall::RpcIsConnected { rpc: 0x3000, session_num: 7 });
    assert_eq!(rpc.run_event_loop_once(), FfiCall::RunEventLoopOnce { rpc: 0x3000 });
    assert_eq!(rpc.run_event_loop(1000), FfiCall::RunEventLoop { rpc: 0x3000, timeout_ms: 1000 });
}

#[test]
fn rpc_enqueue_request_sends_bytes_with_length() {
    let context = AppContext::from_raw(0x2000);
    let nexus = Nexus::from_raw(0x1000);
    let rpc = Rpc::after_call(&Rpc::new(&context, &nexus, 0, 0), 0x3000);
    let call = rpc.enqueue_request(&context, 5, 1, "hello".to_string().into_bytes(), 1000, 0);
    assert_eq!(
        call,
        FfiCall::EnqueueRequest {
            context: 0x2000,
            rpc: 0x3000,
            session_num: 5,
            req_type: 1,
            data: b"hello".to_vec(),
            data_size: 5,
            tag: 1000,
            cont_etid: 0,
        }
    );
    let call = rpc.enqueue_request(&context, 0, 2, Vec::new(), 0, 8);
    match call {
        FfiCall::EnqueueRequest { data, data_size, cont_etid, .. } => {
            assert!(data.is_empty());
            assert_eq!(data_size, 0);
            assert_eq!(cont_etid, 8);
        }
        other => panic!("unexpected call {:?}", other),
    }
}

#[test]
fn rpc_enqueue_response_sends_bytes_with_length() {
    let context = AppContext::from_raw(0x2000);
    let rpc = Rpc::after_call(&Rpc::from_context(&context), 0x3000);
    let req = ReqHandle::from_raw(0x4000);
    assert_eq!(
        rpc.enqueue_response(&req, "world".to_string().into_bytes()),
        FfiCall::EnqueueResponse { rpc: 0x3000, req_handle: 0x4000, data: b"world".to_vec(), data_size: 5 }
    );
}

#[test]
fn req_handle_response_goes_through_context_rpc() {
    let context = AppContext::from_raw(0x2000);
    let req = ReqHandle::from_raw(0x4000);
    let (lookup, pending) = req.enqueue_response(&context, b"world".to_vec());
    assert_eq!(lookup, Rpc::from_context(&context));
    assert_eq!(pending.context, 0x2000);
    assert_eq!(pending.req_handle, 0x4000);
    assert_eq!(pending.data, b"world".to_vec());
    let rpc = Rpc::after_call(&lookup, 0x3000);
    let (sent, released) = pending.send_via(0x3000);
    assert_eq!(sent, rpc.enqueue_response(&req, b"world".to_vec()));
    assert_eq!(released, None);
}

#[test]
fn req_handle_reads_request_and_releases_nothing() {
    let req = ReqHandle::from_raw(0x4000);
    assert_eq!(req.inner, 0x4000);
    assert_eq!(req.get_req_msgbuf(), FfiCall::GetReqMsgbuf { req_handle: 0x4000 });
    assert_eq!(req.release(), None);
}

#[test]
fn msg_buffers_calls() {
    let context = AppContext::from_raw(0x2000);
    assert_eq!(MsgBuffers::from_context(&context, 1000), FfiCall::MsgbuffsGetByTag { context: 0x2000, tag: 1000 });
    let buffers = MsgBuffers::from_raw(0x5000);
    assert_eq!(buffers.get_req_msgbuf(), FfiCall::MsgbuffsReqMsgbuf { msgbuffs: 0x5000 });
    assert_eq!(buffers.get_resp_msgbuf(), FfiCall::MsgbuffsRespMsgbuf { msgbuffs: 0x5000 });
    assert_eq!(buffers.release(), Some(FfiCall::MsgbuffsDestroy { msgbuffs: 0x5000 }));
}

#[test]
fn rpc_destroyed_once_over_a_run() {
    let context = AppContext::from_raw(0x2000);
    let nexus = Nexus::from_raw(0x1000);
    let mut destroys = Vec::new();
    let owner = Rpc::after_call(&Rpc::new(&context, &nexus, 0, 0), 0x3000);
    for _ in 0..3 {
        let looked_up = Rpc::after_call(&Rpc::from_context(&context), 0x3000);
        if let Some(call) = looked_up.release() {
            destroys.push(call);
        }
    }
    if let Some(call) = owner.release() {
        destroys.push(call);
    }
    assert_eq!(destroys, vec![FfiCall::RpcDestroy { rpc: 0x3000 }]);
}

#[test]
fn teardown_destroys_rpc_before_nexus_and_context() {
    let new_context = AppContext::new();
    let context = AppContext::after_call(&new_context, 0x2000);
    let nexus = Nexus::from_raw(0x1000);
    let rpc = Rpc::after_call(&Rpc::new(&context, &nexus, 0, 0), 0x3000);
    let looked_up = Rpc::after_call(&Rpc::from_context(&context), 0x3000);
    let mut calls = Vec::new();
    for release in [looked_up.release(), rpc.release(), nexus.release(), context.release()] {
        if let Some(call) = release {
            calls.push(call);
        }
    }
    assert_eq!(
        calls,
        vec![
            FfiCall::RpcDestroy { rpc: 0x3000 },
            FfiCall::NexusDestroy { nexus: 0x1000 },
            FfiCall::AppContextDestroy { context: 0x2000 },
        ]
    );
}
