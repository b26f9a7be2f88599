use vstd::prelude::*;

use crate::bridge::{BridgeCall, BridgeError, BridgePhase, OperationKind};
use crate::json::{parse_rpc_reply, parsed_error_field};
use crate::resolver::{resolve_spec, resolve_webview, HostSurfaces, SurfaceNotFound};
use crate::text::{join_text, starts_with};

verus! {

/// The `error` member of a script-side reply, as far as interpreting it goes.
pub enum ErrorField {
    Absent,
    Null,
    Bool(bool),
    Text(String),
    /// Any other JSON value, as its JSON text.
    Other(String),
}

/// What an `ErrorField` holds, with texts as character sequences.
pub enum ErrorFieldView {
    Absent,
    Null,
    Bool(bool),
    Text(Seq<char>),
    Other(Seq<char>),
}

impl View for ErrorField {
    type V = ErrorFieldView;

    open spec fn view(&self) -> ErrorFieldView {
        match self {
            ErrorField::Absent => ErrorFieldView::Absent,
            ErrorField::Null => ErrorFieldView::Null,
            ErrorField::Bool(b) => ErrorFieldView::Bool(*b),
            ErrorField::Text(s) => ErrorFieldView::Text(s@),
            ErrorField::Other(j) => ErrorFieldView::Other(j@),
        }
    }
}

/// The error text that a reply's `error` member stands for, if it is a real error:
/// absent, null, `false` and the empty string mean "no error".
pub open spec fn reported_error_spec(f: ErrorFieldView) -> Option<Seq<char>> {
    match f {
        ErrorFieldView::Absent => None,
        ErrorFieldView::Null => None,
        ErrorFieldView::Bool(b) => if b { Some("true"@) } else { None },
        ErrorFieldView::Text(s) => if s.len() == 0 { None } else { Some(s) },
        ErrorFieldView::Other(j) => Some(j),
    }
}

/// The error that a reply's `error` member reports, if any.
pub fn reported_error(f: &ErrorField) -> (r: Option<String>)
    ensures
        match r {
            Some(s) => reported_error_spec(f@) == Some(s@),
            None => reported_error_spec(f@) is None,
        },
{
    match f {
        ErrorField::Absent => None,
        ErrorField::Null => None,
        ErrorField::Bool(b) => if *b {
            Some("true".to_owned())
        } else {
            None
        },
        ErrorField::Text(s) => if s.as_str().is_empty() {
            None
        } else {
            Some(s.clone())
        },
        ErrorField::Other(j) => Some(j.clone()),
    }
}

/// The envelope of a bridged call's result.
pub struct IframeRpcResponse {
    pub success: bool,
    pub result: Option<serde_json::Value>,
    pub error: Option<String>,
}

/// The envelope for a reply whose `error` member is `field` and whose `result`
/// member is `result`: a failure carrying the error's text where it is a real
/// error, else a success carrying the result.
pub fn rpc_response(field: ErrorField, result: Option<serde_json::Value>) -> (r: IframeRpcResponse)
    ensures
        match reported_error_spec(field@) {
            Some(t) => !r.success && r.result is None && (r.error matches Some(e) && e@ == t),
            None => r.success && r.result == result && r.error is None,
        },
{
    match reported_error(&field) {
        Some(t) => IframeRpcResponse { success: false, result: None, error: Some(t) },
        None => IframeRpcResponse { success: true, result, error: None },
    }
}

/// Why a bridged call failed.
pub enum IframeRpcError {
    WebviewOperation(String),
    RpcError(String),
    Timeout(String),
}

impl IframeRpcError {
    pub open spec fn message_spec(&self) -> Seq<char> {
        match self {
            IframeRpcError::WebviewOperation(s) => "Iframe RPC error: "@ + s@,
            IframeRpcError::RpcError(s) => "RPC error: "@ + s@,
            IframeRpcError::Timeout(s) => "Operation timed out: "@ + s@,
        }
    }

    /// The text reported to the caller.
    pub fn message(&self) -> (r: String)
        ensures
            r@ == self.message_spec(),
    {
        match self {
            IframeRpcError::WebviewOperation(s) => join_text("Iframe RPC error: ", s),
            IframeRpcError::RpcError(s) => join_text("RPC error: ", s),
            IframeRpcError::Timeout(s) => join_text("Operation timed out: ", s),
        }
    }
}

/// What a receive that gave up reports.
pub open spec fn timed_out_text() -> Seq<char> {
    "timed out waiting on channel"@
}

/// The error that a call ending with `e` reports.
pub open spec fn rpc_failure_spec(e: BridgeError, r: IframeRpcError) -> bool {
    match e {
        BridgeError::Timeout => r matches IframeRpcError::Timeout(s) && s@
            == "Timeout waiting for iframe RPC response: "@ + timed_out_text(),
        BridgeError::Unavailable(m) => r matches IframeRpcError::WebviewOperation(s) && s@
            == "Failed to emit iframe-rpc event: "@ + m@,
    }
}

/// The error of a bridged call that ended without a reply.
pub fn rpc_failure(e: BridgeError) -> (r: IframeRpcError)
    ensures
        rpc_failure_spec(e, r),
{
    match e {
        BridgeError::Timeout => IframeRpcError::Timeout(
            join_text("Timeout waiting for iframe RPC response: ", "timed out waiting on channel"),
        ),
        BridgeError::Unavailable(m) => IframeRpcError::WebviewOperation(
            join_text("Failed to emit iframe-rpc event: ", &m),
        ),
    }
}

/// The envelope that a reply whose `error` member is `f` gives.
pub open spec fn rpc_envelope_spec(f: ErrorFieldView, resp: IframeRpcResponse) -> bool {
    match reported_error_spec(f) {
        Some(t) => !resp.success && resp.result is None && (resp.error matches Some(e) && e@ == t),
        None => resp.success && resp.error is None,
    }
}

/// Interprets a reply payload: a text that is no JSON is an `RpcError`; otherwise
/// the envelope follows the reply's `error` member as `rpc_response` does.
pub fn interpret_rpc_reply(payload: &str) -> (r: Result<IframeRpcResponse, IframeRpcError>)
    ensures
        match parsed_error_field(payload@) {
            None => r matches Err(IframeRpcError::RpcError(m)) && starts_with(
                m@,
                "Failed to parse response: "@,
            ),
            Some(f) => r matches Ok(resp) && rpc_envelope_spec(f, resp),
        },
{
    match parse_rpc_reply(payload) {
        Err(e) => {
            let m = join_text("Failed to parse response: ", &e);
            assert(m@.subrange(0, "Failed to parse response: "@.len() as int) =~= "Failed to parse response: "@);
            Err(IframeRpcError::RpcError(m))
        },
        Ok((field, result)) => Ok(rpc_response(field, result)),
    }
}

/// A generic bridged call as the client asks for it.
pub struct IframeRpcRequest {
    pub method: String,
    pub args: Vec<serde_json::Value>,
    pub window_label: Option<String>,
    pub timeout_ms: Option<u64>,
}

/// The label of the request's window, `main` where none is given.
pub open spec fn label_or_main(l: Option<String>) -> Seq<char> {
    match l {
        Some(s) => s@,
        None => "main"@,
    }
}

/// The label given, or `main`.
pub fn window_label_or_main(l: &Option<String>) -> (r: String)
    ensures
        r@ == label_or_main(*l),
{
    match l {
        Some(s) => s.clone(),
        None => "main".to_owned(),
    }
}

/// Resolves the request's window and sets up the bridged call to its surface.
pub fn prepare_iframe_rpc(h: &HostSurfaces, req: &IframeRpcRequest) -> (r: Result<BridgeCall, SurfaceNotFound>)
    ensures
        match r {
            Ok(c) => {
                &&& c.wf()
                &&& c.phase == BridgePhase::Ready
                &&& c.kind == OperationKind::Rpc
                &&& resolve_spec(*h, label_or_main(req.window_label)) == Some(c.target@)
                &&& c.timeout_ms == match req.timeout_ms {
                    Some(t) => t,
                    None => 10000,
                }
            },
            Err(e) => resolve_spec(*h, label_or_main(req.window_label)) is None,
        },
{
    let label = window_label_or_main(&req.window_label);
    let target = resolve_webview(h, &label)?;
    Ok(BridgeCall::new(OperationKind::Rpc, target, req.timeout_ms))
}

} // verus!
