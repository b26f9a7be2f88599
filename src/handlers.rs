use vstd::prelude::*;

use crate::bridge::{BridgeCall, BridgeError, BridgePhase, OperationKind};
use crate::json::{json_null, json_string, parse_action_reply, parsed_action_reply};
use crate::resolver::{resolve_spec, resolve_webview, HostSurfaces};
use crate::rpc::timed_out_text;
use crate::text::{join_text, starts_with};

verus! {

/// The uniform envelope handed back to the outer dispatcher.
pub struct SocketResponse {
    pub success: bool,
    pub data: Option<serde_json::Value>,
    pub error: Option<String>,
}

impl SocketResponse {
    /// A success carrying `data`.
    pub fn success_with(data: serde_json::Value) -> (r: SocketResponse)
        ensures
            r.success && r.data == Some(data) && r.error is None,
    {
        SocketResponse { success: true, data: Some(data), error: None }
    }

    /// A failure carrying `message`.
    pub fn failure(message: String) -> (r: SocketResponse)
        ensures
            !r.success && r.data is None && r.error == Some(message),
    {
        SocketResponse { success: false, data: None, error: Some(message) }
    }
}

/// The result of a native capture.
pub struct ScreenshotResponse {
    pub data: Option<String>,
    pub success: bool,
    pub error: Option<String>,
}

/// A successful capture carrying the encoded image.
pub fn create_success_response(data_url: String) -> (r: ScreenshotResponse)
    ensures
        r.success && r.data == Some(data_url) && r.error is None,
{
    ScreenshotResponse { data: Some(data_url), success: true, error: None }
}

/// A failed capture carrying its reason.
pub fn create_error_response(error_msg: String) -> (r: ScreenshotResponse)
    ensures
        !r.success && r.data is None && r.error == Some(error_msg),
{
    ScreenshotResponse { data: None, success: false, error: Some(error_msg) }
}

// ----- DOM text -----
/// Why fetching a surface's DOM text failed.
pub enum GetDomError {
    WebviewOperation(String),
    JavaScriptError(String),
    DomIsEmpty,
}

impl GetDomError {
    pub open spec fn message_spec(&self) -> Seq<char> {
        match self {
            GetDomError::WebviewOperation(s) => "Webview operation error: "@ + s@,
            GetDomError::JavaScriptError(s) => "JavaScript execution error: "@ + s@,
            GetDomError::DomIsEmpty => "Retrieved DOM string is empty"@,
        }
    }

    /// The text reported to the caller.
    pub fn message(&self) -> (r: String)
        ensures
            r@ == self.message_spec(),
    {
        match self {
            GetDomError::WebviewOperation(s) => join_text("Webview operation error: ", s),
            GetDomError::JavaScriptError(s) => join_text("JavaScript execution error: ", s),
            GetDomError::DomIsEmpty => "Retrieved DOM string is empty".to_owned(),
        }
    }
}

/// What a DOM fetch from the surface `label` comes to, given how its bridged call
/// ended.
pub open spec fn dom_outcome_spec(
    label: Seq<char>,
    outcome: Result<String, BridgeError>,
    r: Result<String, GetDomError>,
) -> bool {
    match outcome {
        Ok(dom) => if dom@.len() == 0 {
            r matches Err(GetDomError::DomIsEmpty)
        } else {
            r == Ok::<String, GetDomError>(dom)
        },
        Err(BridgeError::Timeout) => r matches Err(GetDomError::WebviewOperation(s)) && s@
            == "Timeout waiting for DOM: "@ + timed_out_text(),
        Err(BridgeError::Unavailable(m)) => r matches Err(GetDomError::WebviewOperation(s))
            && s@ == "Failed to emit to "@ + label + ": "@ + m@,
    }
}

/// The DOM text that a fetch from the surface `label` returns; an empty text is
/// an error.
pub fn get_dom_text_for_label(label: &str, outcome: Result<String, BridgeError>) -> (r: Result<
    String,
    GetDomError,
>)
    ensures
        dom_outcome_spec(label@, outcome, r),
{
    match outcome {
        Ok(dom) => if dom.as_str().is_empty() {
            Err(GetDomError::DomIsEmpty)
        } else {
            Ok(dom)
        },
        Err(BridgeError::Timeout) => Err(
            GetDomError::WebviewOperation(
                join_text("Timeout waiting for DOM: ", "timed out waiting on channel"),
            ),
        ),
        Err(BridgeError::Unavailable(m)) => {
            let head = join_text("Failed to emit to ", label);
            let head = join_text(&head, ": ");
            Err(GetDomError::WebviewOperation(join_text(&head, &m)))
        },
    }
}

/// The shape of a DOM fetch request.
pub enum DomRequest {
    /// The request is a bare string: the window's label.
    Label(String),
    /// The request is an object; its `window_label` member, where present.
    Object(Option<String>),
    /// The request is an object whose `window_label` member is no string.
    BadLabel,
    /// Any other request, as its JSON text.
    Other(String),
}

/// The window label that a DOM fetch request names: the bare string, or the
/// object's `window_label` (`main` where it has none).
pub fn dom_request_label(req: DomRequest) -> (r: Result<String, String>)
    ensures
        match req {
            DomRequest::Label(s) => r == Ok::<String, String>(s),
            DomRequest::Object(Some(l)) => r == Ok::<String, String>(l),
            DomRequest::Object(None) => r matches Ok(l) && l@ == "main"@,
            DomRequest::BadLabel => r matches Err(m) && m@
                == "Missing or invalid window_label in payload object"@,
            DomRequest::Other(t) => r matches Err(m) && m@
                == "Invalid payload format for getDom: expected string or object with window_label, got "@
                + t@,
        },
{
    match req {
        DomRequest::Label(s) => Ok(s),
        DomRequest::Object(Some(l)) => Ok(l),
        DomRequest::Object(None) => Ok("main".to_owned()),
        DomRequest::BadLabel => Err("Missing or invalid window_label in payload object".to_owned()),
        DomRequest::Other(t) => Err(
            join_text(
                "Invalid payload format for getDom: expected string or object with window_label, got ",
                &t,
            ),
        ),
    }
}

/// Sets up a bridged call of `kind` to the surface that `label` resolves to.
pub fn prepare_call(h: &HostSurfaces, label: &str, kind: OperationKind) -> (r: Result<
    BridgeCall,
    String,
>)
    ensures
        match r {
            Ok(c) => {
                &&& c.wf()
                &&& c.phase == BridgePhase::Ready
                &&& c.kind == kind
                &&& c.timeout_ms == kind.default_timeout_spec()
                &&& resolve_spec(*h, label@) == Some(c.target@)
            },
            Err(m) => resolve_spec(*h, label@) is None && m@ == "Surface not found: "@ + label@,
        },
{
    match resolve_webview(h, label) {
        Ok(target) => Ok(BridgeCall::new(kind, target, None)),
        Err(e) => Err(e.message()),
    }
}

/// The failure text of a DOM fetch from `label` that ended with `outcome`, or
/// `None` where it gave a non-empty text.
pub open spec fn dom_failure_text(label: Seq<char>, outcome: Result<String, BridgeError>) -> Option<
    Seq<char>,
> {
    match outcome {
        Ok(dom) => if dom@.len() == 0 {
            Some("Retrieved DOM string is empty"@)
        } else {
            None
        },
        Err(BridgeError::Timeout) => Some(
            "Webview operation error: "@ + ("Timeout waiting for DOM: "@ + timed_out_text()),
        ),
        Err(BridgeError::Unavailable(m)) => Some(
            "Webview operation error: "@ + ("Failed to emit to "@ + label + ": "@ + m@),
        ),
    }
}

/// The envelope for a finished DOM fetch: the text as a JSON string, or a failure
/// carrying the error's message.
pub fn get_dom_response(label: &str, outcome: Result<String, BridgeError>) -> (r: SocketResponse)
    ensures
        match dom_failure_text(label@, outcome) {
            Some(t) => !r.success && r.data is None && (r.error matches Some(m) && m@ == t),
            None => r.success && r.data is Some && r.error is None,
        },
{
    match get_dom_text_for_label(label, outcome) {
        Ok(dom) => SocketResponse::success_with(json_string(dom)),
        Err(e) => SocketResponse::failure(e.message()),
    }
}

// ----- element actions and script-side screenshots -----
/// A request to locate (and possibly click) an element.
pub struct GetElementPositionPayload {
    /// The window, `main` where not given.
    pub window_label: Option<String>,
    pub selector_type: String,
    pub selector_value: String,
    pub should_click: bool,
    pub raw_coordinates: bool,
}

/// A request to type text into an element.
pub struct SendTextToElementPayload {
    /// The window, `main` where not given.
    pub window_label: Option<String>,
    pub selector_type: String,
    pub selector_value: String,
    pub text: String,
    pub delay_ms: u32,
}

/// The pause between typed characters where a request names none.
pub fn default_delay_ms() -> (r: u32)
    ensures
        r == 20,
{
    20
}

/// The envelope for a script-side reply whose `success` member is `success` and
/// whose `error` member is `error`.
pub open spec fn action_envelope_spec(
    success: Option<bool>,
    error: Option<Seq<char>>,
    fallback: Seq<char>,
    r: SocketResponse,
) -> bool {
    &&& r.success == (success == Some(true))
    &&& r.success ==> r.error is None && r.data is Some
    &&& !r.success ==> r.data is None && (r.error matches Some(m) && m@ == match error {
        Some(e) => e,
        None => fallback,
    })
}

/// The envelope for a script-side reply with members `success`, `data` and
/// `error`: a success carrying `data` (JSON null where absent) when `success` is
/// `true`, else a failure carrying `error`, or `fallback` where it is no string.
pub fn action_response(
    success: Option<bool>,
    data: Option<serde_json::Value>,
    error: Option<String>,
    fallback: &str,
) -> (r: SocketResponse)
    ensures
        action_envelope_spec(
            success,
            match error {
                Some(e) => Some(e@),
                None => None,
            },
            fallback@,
            r,
        ),
        r.success ==> (data matches Some(d) ==> r.data == Some(d)),
{
    let ok = match success {
        Some(b) => b,
        None => false,
    };
    if ok {
        let d = match data {
            Some(d) => d,
            None => json_null(),
        };
        SocketResponse::success_with(d)
    } else {
        let m = match error {
            Some(e) => e,
            None => fallback.to_owned(),
        };
        SocketResponse::failure(m)
    }
}

/// Reads a script-side reply and builds its envelope as `action_response` does;
/// a reply that is no JSON is an error.
pub fn interpret_action_reply(payload: &str, fallback: &str) -> (r: Result<SocketResponse, String>)
    ensures
        match parsed_action_reply(payload@) {
            None => r matches Err(m) && starts_with(m@, "Failed to parse result: "@),
            Some((s, e)) => r matches Ok(resp) && action_envelope_spec(s, e, fallback@, resp),
        },
{
    match parse_action_reply(payload) {
        Err(e) => {
            let m = join_text("Failed to parse result: ", &e);
            assert(m@.subrange(0, "Failed to parse result: "@.len() as int) =~= "Failed to parse result: "@);
            Err(m)
        },
        Ok((success, data, error)) => Ok(action_response(success, data, error, fallback)),
    }
}

/// The failure envelope for a script-side action that got no reply: the timeout
/// prefix or the emission prefix, followed by the reason.
pub fn action_failure(timeout_prefix: &str, emit_prefix: &str, e: BridgeError) -> (r: SocketResponse)
    ensures
        !r.success && r.data is None,
        r.error matches Some(m) && m@ == match e {
            BridgeError::Timeout => timeout_prefix@ + timed_out_text(),
            BridgeError::Unavailable(s) => emit_prefix@ + s@,
        },
{
    match e {
        BridgeError::Timeout => SocketResponse::failure(
            join_text(timeout_prefix, "timed out waiting on channel"),
        ),
        BridgeError::Unavailable(s) => SocketResponse::failure(join_text(emit_prefix, &s)),
    }
}

/// A request for a script-side screenshot; every member may be left out.
pub struct CaptureScreenshotPayload {
    pub window_label: Option<String>,
    pub quality: Option<u8>,
    pub max_width: Option<u32>,
}

/// The settings of a script-side screenshot with the defaults filled in.
pub struct ScreenshotSettings {
    pub window_label: String,
    pub quality: u8,
    pub max_width: u32,
}

impl CaptureScreenshotPayload {
    /// A request that names only the window, or nothing.
    pub fn from_label(window_label: Option<String>) -> (r: CaptureScreenshotPayload)
        ensures
            r.window_label == window_label && r.quality is None && r.max_width is None,
    {
        CaptureScreenshotPayload { window_label, quality: None, max_width: None }
    }

    /// The settings, with window `main`, quality 85 and width 1920 where not given.
    pub fn settings(&self) -> (r: ScreenshotSettings)
        ensures
            r.window_label@ == match self.window_label {
                Some(l) => l@,
                None => "main"@,
            },
            r.quality == match self.quality {
                Some(q) => q,
                None => 85u8,
            },
            r.max_width == match self.max_width {
                Some(w) => w,
                None => 1920u32,
            },
    {
        let window_label = match &self.window_label {
            Some(l) => l.clone(),
            None => "main".to_owned(),
        };
        let quality: u8 = match self.quality {
            Some(q) => q,
            None => 85,
        };
        let max_width: u32 = match self.max_width {
            Some(w) => w,
            None => 1920,
        };
        ScreenshotSettings { window_label, quality, max_width }
    }
}

} // verus!
