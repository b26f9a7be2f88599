use vstd::prelude::*;

use crate::text::{join_text, same_text};

verus! {

/// The window that may host a separately addressable child surface.
pub const MAIN_LABEL: &'static str = "main";

/// The label of the child surface hosted by the main window.
pub const CHILD_SURFACE_LABEL: &'static str = "preview";

pub open spec fn main_label() -> Seq<char> {
    "main"@
}

pub open spec fn child_label() -> Seq<char> {
    "preview"@
}

/// The labels under which the host currently holds each kind of object.
pub struct HostSurfaces {
    /// Combined window and surface objects.
    pub webview_windows: Vec<String>,
    /// Windows without a surface of their own.
    pub windows: Vec<String>,
    /// Surfaces, including those hosted by a window as a child.
    pub webviews: Vec<String>,
}

/// A window, in either topology, addressed by its label.
#[derive(PartialEq, Eq, Structural)]
pub enum WindowKind {
    WebviewWindow,
    Window,
}

/// A resolved window: which kind of host object it is, and its label.
pub struct WindowHandle {
    pub kind: WindowKind,
    pub label: String,
}

/// Some entry of `labels` reads `l`.
pub open spec fn label_in(labels: Seq<String>, l: Seq<char>) -> bool {
    exists|i: int| 0 <= i < labels.len() && labels[i]@ == l
}

/// The effective label that `label` resolves to, if any.
pub open spec fn resolve_spec(h: HostSurfaces, label: Seq<char>) -> Option<Seq<char>> {
    if label_in(h.webview_windows@, label) {
        Some(label)
    } else if label == main_label() && label_in(h.windows@, label) && label_in(
        h.webviews@,
        child_label(),
    ) {
        Some(child_label())
    } else if label_in(h.webviews@, label) {
        Some(label)
    } else {
        None
    }
}

/// Whether `labels` holds `l`.
pub fn has_label(labels: &Vec<String>, l: &str) -> (r: bool)
    ensures
        r == label_in(labels@, l@),
{
    let mut i: usize = 0;
    while i < labels.len()
        invariant
            i <= labels.len(),
            forall|k: int| 0 <= k < i ==> labels@[k]@ != l@,
        decreases labels.len() - i,
    {
        if same_text(&labels[i], l) {
            return true;
        }
        i = i + 1;
    }
    false
}

/// No surface exists under any fallback of the label.
pub struct SurfaceNotFound {
    pub label: String,
}

impl SurfaceNotFound {
    pub open spec fn message_spec(&self) -> Seq<char> {
        "Surface not found: "@ + self.label@
    }

    pub fn message(&self) -> (r: String)
        ensures
            r@ == self.message_spec(),
    {
        join_text("Surface not found: ", &self.label)
    }
}

/// Resolves a logical label to the label of a concrete surface: a combined window
/// and surface under `label`; else, for the main window of the split topology, its
/// child surface; else a surface under `label` itself.
pub fn resolve_webview(h: &HostSurfaces, label: &str) -> (r: Result<String, SurfaceNotFound>)
    ensures
        match r {
            Ok(e) => resolve_spec(*h, label@) == Some(e@),
            Err(err) => resolve_spec(*h, label@) is None && err.label@ == label@,
        },
{
    if has_label(&h.webview_windows, label) {
        return Ok(label.to_owned());
    }
    if same_text(label, MAIN_LABEL) && has_label(&h.windows, label) && has_label(
        &h.webviews,
        CHILD_SURFACE_LABEL,
    ) {
        return Ok(CHILD_SURFACE_LABEL.to_owned());
    }
    if has_label(&h.webviews, label) {
        return Ok(label.to_owned());
    }
    Err(SurfaceNotFound { label: label.to_owned() })
}

/// The surface to run script content in, as `resolve_webview`, or `None`.
pub fn get_webview_for_eval(h: &HostSurfaces, label: &str) -> (r: Option<String>)
    ensures
        match r {
            Some(e) => resolve_spec(*h, label@) == Some(e@),
            None => resolve_spec(*h, label@) is None,
        },
{
    match resolve_webview(h, label) {
        Ok(e) => Some(e),
        Err(_) => None,
    }
}

/// The window under `label`: a combined window first, then a bare window.
pub fn get_window_handle(h: &HostSurfaces, label: &str) -> (r: Option<WindowHandle>)
    ensures
        match r {
            Some(w) => w.label@ == label@ && if label_in(h.webview_windows@, label@) {
                w.kind == WindowKind::WebviewWindow
            } else {
                label_in(h.windows@, label@) && w.kind == WindowKind::Window
            },
            None => !label_in(h.webview_windows@, label@) && !label_in(h.windows@, label@),
        },
{
    if has_label(&h.webview_windows, label) {
        Some(WindowHandle { kind: WindowKind::WebviewWindow, label: label.to_owned() })
    } else if has_label(&h.windows, label) {
        Some(WindowHandle { kind: WindowKind::Window, label: label.to_owned() })
    } else {
        None
    }
}

/// Where the split topology applies to `label`, the effective label is the child
/// surface's own, never the parent window's.
pub proof fn lemma_split_resolves_to_child(h: HostSurfaces, label: Seq<char>)
    requires
        !label_in(h.webview_windows@, label),
        label == main_label(),
        label_in(h.windows@, label),
        label_in(h.webviews@, child_label()),
    ensures
        resolve_spec(h, label) == Some(child_label()),
        resolve_spec(h, label) != Some(label),
{
    assert(child_label() != main_label()) by {
        reveal_strlit("preview");
        reveal_strlit("main");
        assert(child_label()[0] != main_label()[0]);
    }
}

/// Resolving the same label twice against the same host gives the same effective
/// label, and resolving that effective label again gives it back.
pub proof fn lemma_resolve_stable(h: HostSurfaces, label: Seq<char>, e1: Seq<char>, e2: Seq<char>)
    requires
        resolve_spec(h, label) == Some(e1),
        resolve_spec(h, label) == Some(e2),
    ensures
        e1 == e2,
        resolve_spec(h, e1) == Some(e1),
{
    if e1 == child_label() && !label_in(h.webview_windows@, label) && label == main_label() {
        assert(child_label() != main_label()) by {
            reveal_strlit("preview");
            reveal_strlit("main");
            assert(child_label()[0] != main_label()[0]);
        }
    }
}

} // verus!
