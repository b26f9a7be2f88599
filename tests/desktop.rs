use tauri_mcp::desktop::{
    plan_text_input, plan_window_operation, text_input_response, window_command, TextInputRequest,
    WindowCommand, WindowManagerRequest,
};
use tauri_mcp::handlers::{create_error_response, create_success_response};
use tauri_mcp::resolver::{HostSurfaces, WindowKind};
use tauri_mcp::text::{contains_text, decimal_text, join_text, same_text};

fn request(op: &str) -> WindowManagerRequest {
    WindowManagerRequest {
        window_label: None,
        operation: op.to_string(),
        x: None,
        y: None,
        width: None,
        height: None,
    }
}

#[test]
fn typing_without_delay_is_one_injection() {
    let plan = plan_text_input(&TextInputRequest {
        text: "hi".to_string(),
        delay_ms: Some(0),
        initial_delay_ms: Some(0),
    });
    assert_eq!(plan.chunks, vec!["hi".to_string()]);
    assert_eq!(plan.pause_ms, 0);
    assert_eq!(text_input_response("hi", 3).chars_typed, 2);
}

#[test]
fn typing_with_delay_is_one_injection_per_character() {
    let plan = plan_text_input(&TextInputRequest {
        text: "hi".to_string(),
        delay_ms: Some(20),
        initial_delay_ms: None,
    });
    assert_eq!(plan.chunks, vec!["h".to_string(), "i".to_string()]);
    assert_eq!(plan.pause_ms, 20);
    assert_eq!(plan.initial_delay_ms, 500);
    let plan = plan_text_input(&TextInputRequest {
        text: "é!".to_string(),
        delay_ms: None,
        initial_delay_ms: Some(5),
    });
    assert_eq!(plan.chunks, vec!["é".to_string(), "!".to_string()]);
    assert_eq!(plan.pause_ms, 20);
    assert_eq!(text_input_response("é!", 40).chars_typed, 2);
}

#[test]
fn window_operations_parse() {
    assert!(window_command(&request("minimize")).ok() == Some(WindowCommand::Minimize));
    assert!(window_command(&request("toggleFullscreen")).ok() == Some(WindowCommand::ToggleFullscreen));
    assert_eq!(
        window_command(&request("setPosition")).err(),
        Some("setPosition requires x and y coordinates".to_string())
    );
    assert_eq!(
        window_command(&request("setSize")).err(),
        Some("setSize requires width and height parameters".to_string())
    );
    assert_eq!(
        window_command(&request("spin")).err(),
        Some("Unknown window operation: spin".to_string())
    );
    let mut r = request("setPosition");
    r.x = Some(10);
    r.y = Some(-20);
    assert!(window_command(&r).ok() == Some(WindowCommand::SetPosition { x: 10, y: -20 }));
    let mut r = request("setSize");
    r.width = Some(800);
    r.height = Some(600);
    assert!(window_command(&r).ok() == Some(WindowCommand::SetSize { width: 800, height: 600 }));
}

#[test]
fn window_plans_find_the_window_first() {
    let h = HostSurfaces {
        webview_windows: vec![],
        windows: vec!["main".to_string()],
        webviews: vec!["preview".to_string()],
    };
    let (w, c) = plan_window_operation(&h, &request("center")).ok().unwrap();
    assert_eq!(w.label, "main");
    assert!(w.kind == WindowKind::Window);
    assert!(c == WindowCommand::Center);
    let mut r = request("spin");
    r.window_label = Some("ghost".to_string());
    assert_eq!(
        plan_window_operation(&h, &r).err(),
        Some("Window not found: ghost".to_string())
    );
}

#[test]
fn screenshot_responses() {
    let ok = create_success_response("data:image/jpeg;base64,AA".to_string());
    assert!(ok.success);
    assert_eq!(ok.data, Some("data:image/jpeg;base64,AA".to_string()));
    assert_eq!(ok.error, None);
    let bad = create_error_response("no window".to_string());
    assert!(!bad.success);
    assert_eq!(bad.data, None);
    assert_eq!(bad.error, Some("no window".to_string()));
}

#[test]
fn text_helpers() {
    assert!(same_text("abc", "abc"));
    assert!(!same_text("abc", "abd"));
    assert!(contains_text("hello world", "o w"));
    assert!(contains_text("abc", ""));
    assert!(!contains_text("ab", "abc"));
    assert_eq!(join_text("ab", "cd"), "abcd");
    assert_eq!(decimal_text(0), "0");
    assert_eq!(decimal_text(1234567), "1234567");
}
