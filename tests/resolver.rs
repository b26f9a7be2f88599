use tauri_mcp::resolver::{
    get_webview_for_eval, get_window_handle, has_label, resolve_webview, HostSurfaces, WindowKind,
};

fn host(ww: &[&str], w: &[&str], wv: &[&str]) -> HostSurfaces {
    HostSurfaces {
        webview_windows: ww.iter().map(|s| s.to_string()).collect(),
        windows: w.iter().map(|s| s.to_string()).collect(),
        webviews: wv.iter().map(|s| s.to_string()).collect(),
    }
}

#[test]
fn combined_window_resolves_to_itself() {
    let h = host(&["main"], &["main"], &["main", "preview"]);
    assert_eq!(resolve_webview(&h, "main").ok(), Some("main".to_string()));
}

#[test]
fn split_topology_resolves_to_child_label() {
    let h = host(&[], &["main"], &["preview"]);
    assert_eq!(resolve_webview(&h, "main").ok(), Some("preview".to_string()));
    // and again, unchanged
    assert_eq!(resolve_webview(&h, "main").ok(), Some("preview".to_string()));
    // resolving the effective label gives it back
    assert_eq!(resolve_webview(&h, "preview").ok(), Some("preview".to_string()));
}

#[test]
fn direct_surface_and_missing_surface() {
    let h = host(&[], &[], &["tools"]);
    assert_eq!(resolve_webview(&h, "tools").ok(), Some("tools".to_string()));
    let err = resolve_webview(&h, "main").err().unwrap();
    assert_eq!(err.label, "main");
    assert_eq!(err.message(), "Surface not found: main");
    assert_eq!(get_webview_for_eval(&h, "nothing"), None);
}

#[test]
fn main_without_window_is_not_split() {
    let h = host(&[], &[], &["preview"]);
    assert!(resolve_webview(&h, "main").is_err());
}

#[test]
fn window_handles_prefer_combined_windows() {
    let h = host(&["a"], &["a", "b"], &[]);
    let w = get_window_handle(&h, "a").unwrap();
    assert!(w.kind == WindowKind::WebviewWindow);
    let w = get_window_handle(&h, "b").unwrap();
    assert!(w.kind == WindowKind::Window);
    assert_eq!(w.label, "b");
    assert!(get_window_handle(&h, "c").is_none());
    assert!(has_label(&h.windows, "b"));
    assert!(!has_label(&h.windows, "B"));
}
