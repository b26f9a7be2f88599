use tauri_mcp::bridge::BridgeError;
use tauri_mcp::handlers::{
    action_failure, action_response, default_delay_ms, dom_request_label, get_dom_response,
    get_dom_text_for_label, interpret_action_reply, CaptureScreenshotPayload, DomRequest,
    GetDomError, SocketResponse,
};

#[test]
fn test_default_values_applied() {
    let parsed = CaptureScreenshotPayload {
        window_label: None,
        quality: None,
        max_width: None,
    };

    let window_label = parsed.window_label.unwrap_or_else(|| "main".to_string());
    let quality = parsed.quality.unwrap_or(85);
    let max_width = parsed.max_width.unwrap_or(1920);

    assert_eq!(window_label, "main");
    assert_eq!(quality, 85);
    assert_eq!(max_width, 1920);
}

#[test]
fn test_custom_values_override_defaults() {
    let parsed = CaptureScreenshotPayload {
        window_label: Some("custom".to_string()),
        quality: Some(50),
        max_width: Some(800),
    };

    let window_label = parsed.window_label.unwrap_or_else(|| "main".to_string());
    let quality = parsed.quality.unwrap_or(85);
    let max_width = parsed.max_width.unwrap_or(1920);

    assert_eq!(window_label, "custom");
    assert_eq!(quality, 50);
    assert_eq!(max_width, 800);
}

#[test]
fn test_success_response_format() {
    let mut map = serde_json::Map::new();
    map.insert(
        "data".to_string(),
        serde_json::Value::String("base64_image_data_here".to_string()),
    );
    map.insert("success".to_string(), serde_json::Value::Bool(true));
    map.insert("error".to_string(), serde_json::Value::Null);
    let data = serde_json::Value::Object(map);

    let response = SocketResponse {
        success: true,
        data: Some(data.clone()),
        error: None,
    };

    assert!(response.success);
    assert!(response.error.is_none());
    assert!(response.data.is_some());

    let response_data = response.data.unwrap();
    assert_eq!(response_data.get("success").and_then(|v| v.as_bool()), Some(true));
    assert_eq!(
        response_data.get("data").and_then(|v| v.as_str()),
        Some("base64_image_data_here")
    );
    assert!(response_data.get("error").and_then(|v| v.as_null()).is_some());
}

#[test]
fn test_error_response_format() {
    let response = SocketResponse {
        success: false,
        data: None,
        error: Some("Failed to capture screenshot".to_string()),
    };

    assert!(!response.success);
    assert!(response.data.is_none());
    assert_eq!(response.error, Some("Failed to capture screenshot".to_string()));
}

#[test]
fn test_timeout_error_response() {
    let error_msg = format!(
        "Timeout waiting for screenshot capture: {}",
        "channel is empty and sending half is closed"
    );

    let response = SocketResponse {
        success: false,
        data: None,
        error: Some(error_msg.clone()),
    };

    assert!(!response.success);
    assert!(response.error.as_ref().unwrap().contains("Timeout"));
}

#[test]
fn test_get_dom_error_display() {
    let webview_err = GetDomError::WebviewOperation("test error".to_string());
    assert_eq!(webview_err.message(), "Webview operation error: test error");

    let js_err = GetDomError::JavaScriptError("js error".to_string());
    assert_eq!(js_err.message(), "JavaScript execution error: js error");

    let empty_err = GetDomError::DomIsEmpty;
    assert_eq!(empty_err.message(), "Retrieved DOM string is empty");
}

#[test]
fn screenshot_settings_defaults_and_overrides() {
    let s = CaptureScreenshotPayload::from_label(None).settings();
    assert_eq!(s.window_label, "main");
    assert_eq!(s.quality, 85);
    assert_eq!(s.max_width, 1920);

    let p = CaptureScreenshotPayload {
        window_label: Some("preview".to_string()),
        quality: Some(90),
        max_width: Some(1280),
    };
    let s = p.settings();
    assert_eq!(s.window_label, "preview");
    assert_eq!(s.quality, 90);
    assert_eq!(s.max_width, 1280);
}

#[test]
fn default_delay_is_twenty() {
    assert_eq!(default_delay_ms(), 20);
}

#[test]
fn dom_text_outcomes() {
    assert!(matches!(
        get_dom_text_for_label("main", Ok(String::new())),
        Err(GetDomError::DomIsEmpty)
    ));
    assert_eq!(
        get_dom_text_for_label("main", Ok("<html></html>".to_string())).ok(),
        Some("<html></html>".to_string())
    );
    match get_dom_text_for_label("preview", Err(BridgeError::Unavailable("gone".to_string()))) {
        Err(GetDomError::WebviewOperation(m)) => assert_eq!(m, "Failed to emit to preview: gone"),
        _ => panic!("expected an emission failure"),
    }
    match get_dom_text_for_label("main", Err(BridgeError::Timeout)) {
        Err(GetDomError::WebviewOperation(m)) => {
            assert_eq!(m, "Timeout waiting for DOM: timed out waiting on channel")
        }
        _ => panic!("expected a timeout"),
    }
}

#[test]
fn dom_response_envelopes() {
    let r = get_dom_response("main", Ok("<p>x</p>".to_string()));
    assert!(r.success);
    assert_eq!(r.data.as_ref().and_then(|v| v.as_str()), Some("<p>x</p>"));
    let r = get_dom_response("main", Ok(String::new()));
    assert!(!r.success);
    assert_eq!(r.error, Some("Retrieved DOM string is empty".to_string()));
}

#[test]
fn action_reply_success_and_failure() {
    let r = interpret_action_reply(
        r#"{"success":true,"data":{"x":10,"y":20}}"#,
        "Unknown error occurred",
    )
    .unwrap();
    assert!(r.success);
    assert_eq!(r.data.unwrap().get("x").and_then(|v| v.as_u64()), Some(10));

    let r = interpret_action_reply(r#"{"success":false,"error":"no such element"}"#, "Unknown")
        .unwrap();
    assert!(!r.success);
    assert_eq!(r.error, Some("no such element".to_string()));

    let r = interpret_action_reply(r#"{"success":false}"#, "Unknown error occurred").unwrap();
    assert_eq!(r.error, Some("Unknown error occurred".to_string()));

    let r = interpret_action_reply(r#"{"success":true}"#, "Unknown").unwrap();
    assert!(r.data.unwrap().is_null());

    assert!(interpret_action_reply("not json", "Unknown")
        .err()
        .unwrap()
        .starts_with("Failed to parse result: "));
}

#[test]
fn action_response_without_success_flag_fails() {
    let r = action_response(None, None, None, "Unknown error during JS screenshot capture");
    assert!(!r.success);
    assert_eq!(
        r.error,
        Some("Unknown error during JS screenshot capture".to_string())
    );
}

#[test]
fn action_failure_messages() {
    let r = action_failure(
        "Timeout waiting for element position result: ",
        "Failed to emit: ",
        BridgeError::Timeout,
    );
    assert_eq!(
        r.error,
        Some("Timeout waiting for element position result: timed out waiting on channel".to_string())
    );
    let r = action_failure(
        "Timeout: ",
        "Failed to emit: ",
        BridgeError::Unavailable("closed".to_string()),
    );
    assert_eq!(r.error, Some("Failed to emit: closed".to_string()));
}

#[test]
fn dom_request_labels() {
    assert_eq!(
        dom_request_label(DomRequest::Label("tools".to_string())),
        Ok("tools".to_string())
    );
    assert_eq!(
        dom_request_label(DomRequest::Object(Some("preview".to_string()))),
        Ok("preview".to_string())
    );
    assert_eq!(dom_request_label(DomRequest::Object(None)), Ok("main".to_string()));
    assert_eq!(
        dom_request_label(DomRequest::BadLabel),
        Err("Missing or invalid window_label in payload object".to_string())
    );
    assert_eq!(
        dom_request_label(DomRequest::Other("42".to_string())),
        Err("Invalid payload format for getDom: expected string or object with window_label, got 42".to_string())
    );
}

#[test]
fn dom_response_failure_carries_message() {
    let r = get_dom_response("preview", Err(BridgeError::Unavailable("gone".to_string())));
    assert!(!r.success);
    assert_eq!(
        r.error,
        Some("Webview operation error: Failed to emit to preview: gone".to_string())
    );
    let r = get_dom_response("main", Err(BridgeError::Timeout));
    assert_eq!(
        r.error,
        Some("Webview operation error: Timeout waiting for DOM: timed out waiting on channel".to_string())
    );
}

#[test]
fn action_response_with_error_text() {
    let r = action_response(Some(false), None, Some("boom".to_string()), "Unknown");
    assert!(!r.success);
    assert_eq!(r.error, Some("boom".to_string()));
    let r = action_response(Some(true), None, None, "Unknown");
    assert!(r.success);
    assert!(r.data.unwrap().is_null());
}
