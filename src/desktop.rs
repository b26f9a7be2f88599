use vstd::prelude::*;

use crate::resolver::{get_window_handle, label_in, HostSurfaces, WindowHandle};
use crate::text::{chars_of, join_text, push_char, same_text};

verus! {

// ----- window management -----
/// A window operation as the client asks for it.
pub struct WindowManagerRequest {
    pub window_label: Option<String>,
    pub operation: String,
    pub x: Option<i32>,
    pub y: Option<i32>,
    pub width: Option<u32>,
    pub height: Option<u32>,
}

/// The single call to make on the window's capability.
#[derive(PartialEq, Eq, Structural)]
pub enum WindowCommand {
    Minimize,
    Maximize,
    Unmaximize,
    Close,
    Show,
    Hide,
    Focus,
    SetPosition { x: i32, y: i32 },
    SetSize { width: u32, height: u32 },
    Center,
    /// Read whether the window is full-screen, then set the opposite.
    ToggleFullscreen,
}

/// The command that operation `op` names, with its parameters, or the error text.
pub open spec fn command_spec(op: Seq<char>, req: WindowManagerRequest) -> Result<WindowCommand, Seq<char>> {
    if op == "minimize"@ {
        Ok(WindowCommand::Minimize)
    } else if op == "maximize"@ {
        Ok(WindowCommand::Maximize)
    } else if op == "unmaximize"@ {
        Ok(WindowCommand::Unmaximize)
    } else if op == "close"@ {
        Ok(WindowCommand::Close)
    } else if op == "show"@ {
        Ok(WindowCommand::Show)
    } else if op == "hide"@ {
        Ok(WindowCommand::Hide)
    } else if op == "setPosition"@ {
        match (req.x, req.y) {
            (Some(x), Some(y)) => Ok(WindowCommand::SetPosition { x, y }),
            _ => Err("setPosition requires x and y coordinates"@),
        }
    } else if op == "setSize"@ {
        match (req.width, req.height) {
            (Some(width), Some(height)) => Ok(WindowCommand::SetSize { width, height }),
            _ => Err("setSize requires width and height parameters"@),
        }
    } else if op == "center"@ {
        Ok(WindowCommand::Center)
    } else if op == "toggleFullscreen"@ {
        Ok(WindowCommand::ToggleFullscreen)
    } else if op == "focus"@ {
        Ok(WindowCommand::Focus)
    } else {
        Err("Unknown window operation: "@ + op)
    }
}

/// The command that the request's operation names, checked for its parameters.
pub fn window_command(req: &WindowManagerRequest) -> (r: Result<WindowCommand, String>)
    ensures
        match r {
            Ok(c) => command_spec(req.operation@, *req) == Ok::<WindowCommand, Seq<char>>(c),
            Err(m) => command_spec(req.operation@, *req) == Err::<WindowCommand, Seq<char>>(m@),
        },
{
    let op = req.operation.as_str();
    if same_text(op, "minimize") {
        Ok(WindowCommand::Minimize)
    } else if same_text(op, "maximize") {
        Ok(WindowCommand::Maximize)
    } else if same_text(op, "unmaximize") {
        Ok(WindowCommand::Unmaximize)
    } else if same_text(op, "close") {
        Ok(WindowCommand::Close)
    } else if same_text(op, "show") {
        Ok(WindowCommand::Show)
    } else if same_text(op, "hide") {
        Ok(WindowCommand::Hide)
    } else if same_text(op, "setPosition") {
        match (req.x, req.y) {
            (Some(x), Some(y)) => Ok(WindowCommand::SetPosition { x, y }),
            _ => Err("setPosition requires x and y coordinates".to_owned()),
        }
    } else if same_text(op, "setSize") {
        match (req.width, req.height) {
            (Some(width), Some(height)) => Ok(WindowCommand::SetSize { width, height }),
            _ => Err("setSize requires width and height parameters".to_owned()),
        }
    } else if same_text(op, "center") {
        Ok(WindowCommand::Center)
    } else if same_text(op, "toggleFullscreen") {
        Ok(WindowCommand::ToggleFullscreen)
    } else if same_text(op, "focus") {
        Ok(WindowCommand::Focus)
    } else {
        Err(join_text("Unknown window operation: ", op))
    }
}

/// The label a window request names, `main` where it names none.
pub open spec fn request_label(req: WindowManagerRequest) -> Seq<char> {
    match req.window_label {
        Some(l) => l@,
        None => "main"@,
    }
}

/// The window and the single call to make on it for a window-management request;
/// a missing window is reported before the operation is looked at.
pub fn plan_window_operation(h: &HostSurfaces, req: &WindowManagerRequest) -> (r: Result<
    (WindowHandle, WindowCommand),
    String,
>)
    ensures
        match r {
            Ok((w, c)) => {
                &&& w.label@ == request_label(*req)
                &&& (label_in(h.webview_windows@, w.label@) || label_in(h.windows@, w.label@))
                &&& command_spec(req.operation@, *req) == Ok::<WindowCommand, Seq<char>>(c)
            },
            Err(m) => if !label_in(h.webview_windows@, request_label(*req)) && !label_in(
                h.windows@,
                request_label(*req),
            ) {
                m@ == "Window not found: "@ + request_label(*req)
            } else {
                command_spec(req.operation@, *req) == Err::<WindowCommand, Seq<char>>(m@)
            },
        },
{
    let label = match &req.window_label {
        Some(l) => l.clone(),
        None => "main".to_owned(),
    };
    let w = match get_window_handle(h, &label) {
        Some(w) => w,
        None => {
            return Err(join_text("Window not found: ", &label));
        },
    };
    let c = window_command(req)?;
    Ok((w, c))
}

// ----- text input -----
/// A request to type text through simulated key presses.
pub struct TextInputRequest {
    pub text: String,
    pub delay_ms: Option<u64>,
    pub initial_delay_ms: Option<u64>,
}

/// How to type a text: wait, then inject each chunk in turn with a pause after
/// each one.
pub struct TextInputPlan {
    pub initial_delay_ms: u64,
    pub chunks: Vec<String>,
    pub pause_ms: u64,
}

/// The pause between characters where a request names none.
pub open spec fn default_char_delay() -> u64 {
    20
}

/// The wait before typing where a request names none.
pub open spec fn default_initial_delay() -> u64 {
    500
}

/// The typing plan: with no pause between characters the whole text goes in one
/// injection; otherwise one injection per character, each followed by the pause.
pub fn plan_text_input(req: &TextInputRequest) -> (r: TextInputPlan)
    ensures
        r.initial_delay_ms == match req.initial_delay_ms {
            Some(d) => d,
            None => default_initial_delay(),
        },
        r.pause_ms == match req.delay_ms {
            Some(d) => d,
            None => default_char_delay(),
        },
        r.pause_ms == 0 ==> r.chunks.len() == 1 && r.chunks@[0]@ == req.text@,
        r.pause_ms != 0 ==> r.chunks.len() == req.text@.len() && forall|i: int|
            0 <= i < r.chunks.len() ==> #[trigger] r.chunks@[i]@ == seq![req.text@[i]],
{
    let pause_ms: u64 = match req.delay_ms {
        Some(d) => d,
        None => 20,
    };
    let initial_delay_ms: u64 = match req.initial_delay_ms {
        Some(d) => d,
        None => 500,
    };
    let mut chunks: Vec<String> = Vec::new();
    if pause_ms == 0 {
        chunks.push(req.text.clone());
    } else {
        let cs = chars_of(&req.text);
        let mut i: usize = 0;
        while i < cs.len()
            invariant
                cs@ == req.text@,
                i <= cs.len(),
                chunks.len() == i,
                forall|k: int| 0 <= k < i ==> #[trigger] chunks@[k]@ == seq![cs@[k]],
            decreases cs.len() - i,
        {
            let mut one = String::new();
            push_char(&mut one, cs[i]);
            assert(one@ =~= seq![cs@[i as int]]);
            chunks.push(one);
            i = i + 1;
        }
    }
    TextInputPlan { initial_delay_ms, chunks, pause_ms }
}

/// What typing reports back.
pub struct TextInputResponse {
    pub chars_typed: u32,
    pub duration_ms: u64,
}

/// The report for typing `text` in `duration_ms`: the number of characters typed.
pub fn text_input_response(text: &str, duration_ms: u64) -> (r: TextInputResponse)
    ensures
        r.chars_typed == text@.len() as u32,
        r.duration_ms == duration_ms,
{
    let n: usize = chars_of(text).len();
    TextInputResponse { chars_typed: n as u32, duration_ms }
}

} // verus!
