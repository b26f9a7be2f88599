use tauri_mcp::bridge::{BridgeAction, BridgeCall, BridgeError, BridgeEvent, BridgePhase, OperationKind};
use tauri_mcp::resolver::HostSurfaces;
use tauri_mcp::rpc::{
    interpret_rpc_reply, prepare_iframe_rpc, reported_error, rpc_failure,
    rpc_response, ErrorField, IframeRpcError, IframeRpcRequest,
};

fn started(kind: OperationKind, timeout: Option<u64>) -> BridgeCall {
    let mut call = BridgeCall::new(kind, "preview".to_string(), timeout);
    match call.step(BridgeEvent::Start) {
        BridgeAction::RegisterListener(ev) => assert_eq!(ev, kind.response_event()),
        _ => panic!("the listener comes first"),
    }
    call
}

#[test]
fn listener_is_registered_before_emission() {
    let mut call = started(OperationKind::Rpc, None);
    assert!(!call.listener_active);
    // nothing is emitted before the host confirms the listener
    assert!(matches!(call.step(BridgeEvent::Emitted), BridgeAction::Nothing));
    match call.step(BridgeEvent::ListenerRegistered) {
        BridgeAction::Emit { target, event } => {
            assert!(call.listener_active);
            assert_eq!(target, "preview");
            assert_eq!(event, "iframe-rpc");
        }
        _ => panic!("expected the request to be emitted"),
    }
}

#[test]
fn reply_injected_during_emission_is_received() {
    let mut call = started(OperationKind::Rpc, None);
    call.step(BridgeEvent::ListenerRegistered);
    // the surface answers synchronously, before emission returns
    assert!(matches!(
        call.step(BridgeEvent::Reply("{\"result\":1}".to_string())),
        BridgeAction::Nothing
    ));
    match call.step(BridgeEvent::Emitted) {
        BridgeAction::Deliver(p) => assert_eq!(p, "{\"result\":1}"),
        _ => panic!("the early reply was lost"),
    }
    assert!(call.phase == BridgePhase::Finished);
}

#[test]
fn call_without_reply_times_out_with_its_timeout() {
    let mut call = started(OperationKind::Rpc, Some(100));
    call.step(BridgeEvent::ListenerRegistered);
    match call.step(BridgeEvent::Emitted) {
        BridgeAction::Wait(ms) => assert_eq!(ms, 100),
        _ => panic!("expected a bounded wait"),
    }
    assert!(matches!(
        call.step(BridgeEvent::TimedOut),
        BridgeAction::Fail(BridgeError::Timeout)
    ));
    // a late reply has no effect
    assert!(matches!(
        call.step(BridgeEvent::Reply("late".to_string())),
        BridgeAction::Nothing
    ));
}

#[test]
fn reply_while_waiting_is_delivered_once() {
    let mut call = started(OperationKind::DomFetch, None);
    call.step(BridgeEvent::ListenerRegistered);
    assert!(matches!(call.step(BridgeEvent::Emitted), BridgeAction::Wait(5000)));
    assert!(matches!(call.step(BridgeEvent::Reply("a".to_string())), BridgeAction::Deliver(_)));
    assert!(matches!(call.step(BridgeEvent::Reply("b".to_string())), BridgeAction::Nothing));
}

#[test]
fn failed_emission_reports_unavailable() {
    let mut call = started(OperationKind::ElementType, None);
    call.step(BridgeEvent::ListenerRegistered);
    match call.step(BridgeEvent::EmitFailed("no surface".to_string())) {
        BridgeAction::Fail(BridgeError::Unavailable(m)) => assert_eq!(m, "no surface"),
        _ => panic!("expected an emission failure"),
    }
}

#[test]
fn operation_kinds_have_their_events_and_timeouts() {
    assert_eq!(OperationKind::Rpc.default_timeout_ms(), 10000);
    assert_eq!(OperationKind::DomFetch.default_timeout_ms(), 5000);
    assert_eq!(OperationKind::ElementLocate.default_timeout_ms(), 5000);
    assert_eq!(OperationKind::ElementType.default_timeout_ms(), 30000);
    assert_eq!(OperationKind::Screenshot.default_timeout_ms(), 30000);
    assert_eq!(OperationKind::ElementLocate.request_event(), "get-element-position");
    assert_eq!(
        OperationKind::Screenshot.response_event(),
        "capture-screenshot-response"
    );
}

#[test]
fn falsy_error_fields_mean_success() {
    assert_eq!(reported_error(&ErrorField::Absent), None);
    assert_eq!(reported_error(&ErrorField::Null), None);
    assert_eq!(reported_error(&ErrorField::Bool(false)), None);
    assert_eq!(reported_error(&ErrorField::Text(String::new())), None);
    assert_eq!(reported_error(&ErrorField::Bool(true)), Some("true".to_string()));
    assert_eq!(
        reported_error(&ErrorField::Text("boom".to_string())),
        Some("boom".to_string())
    );
    assert_eq!(
        reported_error(&ErrorField::Other("{\"code\":3}".to_string())),
        Some("{\"code\":3}".to_string())
    );
}

#[test]
fn rpc_envelope_follows_error_field() {
    let ok = rpc_response(ErrorField::Null, Some(serde_json::Value::Bool(true)));
    assert!(ok.success);
    assert_eq!(ok.result, Some(serde_json::Value::Bool(true)));
    assert_eq!(ok.error, None);

    let bad = rpc_response(ErrorField::Text("boom".to_string()), Some(serde_json::Value::Null));
    assert!(!bad.success);
    assert_eq!(bad.result, None);
    assert_eq!(bad.error, Some("boom".to_string()));
}

#[test]
fn rpc_reply_payloads() {
    for p in [
        r#"{"result":5,"error":null}"#,
        r#"{"result":5,"error":false}"#,
        r#"{"result":5,"error":""}"#,
        r#"{"result":5}"#,
    ] {
        let r = interpret_rpc_reply(p).ok().unwrap();
        assert!(r.success, "{}", p);
        assert_eq!(r.result.and_then(|v| v.as_u64()), Some(5));
    }
    let r = interpret_rpc_reply(r#"{"result":5,"error":"bad"}"#).ok().unwrap();
    assert!(!r.success);
    assert_eq!(r.error, Some("bad".to_string()));
    let r = interpret_rpc_reply(r#"{"error":{"code":7}}"#).ok().unwrap();
    assert_eq!(r.error, Some("{\"code\":7}".to_string()));
    assert!(matches!(
        interpret_rpc_reply("{oops"),
        Err(IframeRpcError::RpcError(_))
    ));
}

#[test]
fn rpc_reply_error_kinds() {
    let r = interpret_rpc_reply(r#"{"error":true}"#).ok().unwrap();
    assert_eq!(r.error, Some("true".to_string()));
    let r = interpret_rpc_reply(r#"{"error":12}"#).ok().unwrap();
    assert_eq!(r.error, Some("12".to_string()));
    let r = interpret_rpc_reply(r#"{"error":["a"]}"#).ok().unwrap();
    assert_eq!(r.error, Some("[\"a\"]".to_string()));
    match interpret_rpc_reply("not json") {
        Err(IframeRpcError::RpcError(m)) => assert!(m.starts_with("Failed to parse response: ")),
        _ => panic!("a text that is no JSON is an RpcError"),
    }
}

#[test]
fn rpc_failures_and_messages() {
    let e = rpc_failure(BridgeError::Timeout);
    assert_eq!(
        e.message(),
        "Operation timed out: Timeout waiting for iframe RPC response: timed out waiting on channel"
    );
    let e = rpc_failure(BridgeError::Unavailable("x".to_string()));
    assert_eq!(e.message(), "Iframe RPC error: Failed to emit iframe-rpc event: x");
    assert_eq!(
        IframeRpcError::RpcError("y".to_string()).message(),
        "RPC error: y"
    );
}

#[test]
fn rpc_request_resolves_main_to_child_surface() {
    let host = HostSurfaces {
        webview_windows: vec![],
        windows: vec!["main".to_string()],
        webviews: vec!["preview".to_string()],
    };
    let req = IframeRpcRequest {
        method: "ping".to_string(),
        args: vec![],
        window_label: None,
        timeout_ms: None,
    };
    let call = prepare_iframe_rpc(&host, &req).ok().unwrap();
    assert_eq!(call.target, "preview");
    assert_eq!(call.timeout_ms, 10000);
    let req = IframeRpcRequest {
        method: "ping".to_string(),
        args: vec![],
        window_label: Some("other".to_string()),
        timeout_ms: Some(100),
    };
    assert!(prepare_iframe_rpc(&host, &req).is_err());
}
