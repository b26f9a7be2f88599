use vstd::prelude::*;

verus! {

/// The kinds of bridged operation; each has its own request event, response event
/// and default timeout.
#[derive(PartialEq, Eq, Structural, Clone, Copy)]
pub enum OperationKind {
    Rpc,
    DomFetch,
    ElementLocate,
    ElementType,
    Screenshot,
}

impl OperationKind {
    pub open spec fn request_event_spec(self) -> Seq<char> {
        match self {
            OperationKind::Rpc => "iframe-rpc"@,
            OperationKind::DomFetch => "got-dom-content"@,
            OperationKind::ElementLocate => "get-element-position"@,
            OperationKind::ElementType => "send-text-to-element"@,
            OperationKind::Screenshot => "capture-screenshot"@,
        }
    }

    pub open spec fn response_event_spec(self) -> Seq<char> {
        match self {
            OperationKind::Rpc => "iframe-rpc-response"@,
            OperationKind::DomFetch => "got-dom-content-response"@,
            OperationKind::ElementLocate => "get-element-position-response"@,
            OperationKind::ElementType => "send-text-to-element-response"@,
            OperationKind::Screenshot => "capture-screenshot-response"@,
        }
    }

    pub open spec fn default_timeout_spec(self) -> u64 {
        match self {
            OperationKind::Rpc => 10000,
            OperationKind::DomFetch => 5000,
            OperationKind::ElementLocate => 5000,
            OperationKind::ElementType => 30000,
            OperationKind::Screenshot => 30000,
        }
    }

    /// The event that carries a request of this kind to the surface.
    pub fn request_event(&self) -> (r: &'static str)
        ensures
            r@ == self.request_event_spec(),
    {
        match self {
            OperationKind::Rpc => "iframe-rpc",
            OperationKind::DomFetch => "got-dom-content",
            OperationKind::ElementLocate => "get-element-position",
            OperationKind::ElementType => "send-text-to-element",
            OperationKind::Screenshot => "capture-screenshot",
        }
    }

    /// The fixed event name on which the surface replies.
    pub fn response_event(&self) -> (r: &'static str)
        ensures
            r@ == self.response_event_spec(),
    {
        match self {
            OperationKind::Rpc => "iframe-rpc-response",
            OperationKind::DomFetch => "got-dom-content-response",
            OperationKind::ElementLocate => "get-element-position-response",
            OperationKind::ElementType => "send-text-to-element-response",
            OperationKind::Screenshot => "capture-screenshot-response",
        }
    }

    /// How long, in milliseconds, a call of this kind waits for its reply by default.
    pub fn default_timeout_ms(&self) -> (r: u64)
        ensures
            r == self.default_timeout_spec(),
    {
        match self {
            OperationKind::Rpc => 10000,
            OperationKind::DomFetch => 5000,
            OperationKind::ElementLocate => 5000,
            OperationKind::ElementType => 30000,
            OperationKind::Screenshot => 30000,
        }
    }
}

/// Where a bridged call stands.
#[derive(PartialEq, Eq, Structural, Clone, Copy)]
pub enum BridgePhase {
    /// Nothing done yet.
    Ready,
    /// The response listener has been asked for.
    Registering,
    /// The listener is active and the request is being emitted.
    Emitting,
    /// The request went out; waiting for the reply or the timer.
    Waiting,
    /// Delivered, failed or timed out; later events change nothing.
    Finished,
}

/// What the host reports to a bridged call.
pub enum BridgeEvent {
    Start,
    ListenerRegistered,
    Emitted,
    EmitFailed(String),
    Reply(String),
    TimedOut,
}

/// Why a bridged call produced no reply.
pub enum BridgeError {
    /// No reply within the call's timeout.
    Timeout,
    /// Emitting the request failed, with the host's reason.
    Unavailable(String),
}

/// What the host is to do next for a bridged call.
pub enum BridgeAction {
    /// Register the one-shot listener on this response event.
    RegisterListener(String),
    /// Emit the request event to the surface with this label.
    Emit { target: String, event: String },
    /// Wait this many milliseconds for the reply.
    Wait(u64),
    /// The call is over with this reply payload.
    Deliver(String),
    /// The call is over without a reply.
    Fail(BridgeError),
    /// Nothing to do.
    Nothing,
}

/// One bridged call: one listener and one reply slot, used at most once.
pub struct BridgeCall {
    pub kind: OperationKind,
    pub target: String,
    pub timeout_ms: u64,
    pub phase: BridgePhase,
    pub listener_active: bool,
    /// A reply that came while the request was still being emitted.
    pub early_reply: Option<String>,
}

impl BridgeCall {
    /// The listener is active exactly while emitting and waiting, and only a reply
    /// that came during emission is held.
    pub open spec fn wf(&self) -> bool {
        &&& self.listener_active <==> (self.phase == BridgePhase::Emitting || self.phase
            == BridgePhase::Waiting)
        &&& self.early_reply is Some ==> self.phase == BridgePhase::Emitting
    }

    /// A call of `kind` to the surface `target`, waiting `timeout_ms` or the kind's
    /// default.
    pub fn new(kind: OperationKind, target: String, timeout_ms: Option<u64>) -> (r: BridgeCall)
        ensures
            r.wf(),
            r.phase == BridgePhase::Ready,
            r.kind == kind,
            r.target == target,
            r.timeout_ms == match timeout_ms {
                Some(t) => t,
                None => kind.default_timeout_spec(),
            },
    {
        let t: u64 = match timeout_ms {
            Some(t) => t,
            None => kind.default_timeout_ms(),
        };
        BridgeCall {
            kind,
            target,
            timeout_ms: t,
            phase: BridgePhase::Ready,
            listener_active: false,
            early_reply: None,
        }
    }

    /// `t` and `a` are the state and action that follow event `e` in state `self`.
    pub open spec fn step_spec(&self, e: BridgeEvent, t: BridgeCall, a: BridgeAction) -> bool {
        let same = t.kind == self.kind && t.target == self.target && t.timeout_ms
            == self.timeout_ms;
        let unchanged = t == *self && a is Nothing;
        let finished = t.phase == BridgePhase::Finished && !t.listener_active
            && t.early_reply is None;
        same && match (self.phase, e) {
            (BridgePhase::Ready, BridgeEvent::Start) => {
                &&& t.phase == BridgePhase::Registering
                &&& !t.listener_active
                &&& t.early_reply is None
                &&& a matches BridgeAction::RegisterListener(ev) && ev@
                    == self.kind.response_event_spec()
            },
            (BridgePhase::Registering, BridgeEvent::ListenerRegistered) => {
                &&& t.phase == BridgePhase::Emitting
                &&& t.listener_active
                &&& t.early_reply is None
                &&& a matches BridgeAction::Emit { target, event } && target@ == self.target@
                    && event@ == self.kind.request_event_spec()
            },
            (BridgePhase::Emitting, BridgeEvent::Reply(p)) => {
                &&& t.phase == BridgePhase::Emitting
                &&& t.listener_active
                &&& t.early_reply == match self.early_reply {
                    Some(q) => Some(q),
                    None => Some(p),
                }
                &&& a is Nothing
            },
            (BridgePhase::Emitting, BridgeEvent::Emitted) => match self.early_reply {
                Some(p) => finished && a == BridgeAction::Deliver(p),
                None => {
                    &&& t.phase == BridgePhase::Waiting
                    &&& t.listener_active
                    &&& t.early_reply is None
                    &&& a == BridgeAction::Wait(self.timeout_ms)
                },
            },
            (BridgePhase::Emitting, BridgeEvent::EmitFailed(m)) => finished && a
                == BridgeAction::Fail(BridgeError::Unavailable(m)),
            (BridgePhase::Waiting, BridgeEvent::Reply(p)) => finished && a == BridgeAction::Deliver(
                p,
            ),
            (BridgePhase::Waiting, BridgeEvent::TimedOut) => finished && a == BridgeAction::Fail(
                BridgeError::Timeout,
            ),
            _ => unchanged,
        }
    }

    /// Takes the next event of the call and says what the host is to do.
    pub fn step(&mut self, e: BridgeEvent) -> (a: BridgeAction)
        requires
            old(self).wf(),
        ensures
            final(self).wf(),
            old(self).step_spec(e, *final(self), a),
    {
        match self.phase {
            BridgePhase::Ready => match e {
                BridgeEvent::Start => {
                    self.phase = BridgePhase::Registering;
                    BridgeAction::RegisterListener(self.kind.response_event().to_owned())
                },
                _ => BridgeAction::Nothing,
            },
            BridgePhase::Registering => match e {
                BridgeEvent::ListenerRegistered => {
                    self.phase = BridgePhase::Emitting;
                    self.listener_active = true;
                    BridgeAction::Emit {
                        target: self.target.clone(),
                        event: self.kind.request_event().to_owned(),
                    }
                },
                _ => BridgeAction::Nothing,
            },
            BridgePhase::Emitting => match e {
                BridgeEvent::Reply(p) => {
                    if self.early_reply.is_none() {
                        self.early_reply = Some(p);
                    }
                    BridgeAction::Nothing
                },
                BridgeEvent::Emitted => {
                    let early = self.early_reply.take();
                    match early {
                        Some(p) => {
                            self.phase = BridgePhase::Finished;
                            self.listener_active = false;
                            BridgeAction::Deliver(p)
                        },
                        None => {
                            self.phase = BridgePhase::Waiting;
                            BridgeAction::Wait(self.timeout_ms)
                        },
                    }
                },
                BridgeEvent::EmitFailed(m) => {
                    self.phase = BridgePhase::Finished;
                    self.listener_active = false;
                    self.early_reply = None;
                    BridgeAction::Fail(BridgeError::Unavailable(m))
                },
                _ => BridgeAction::Nothing,
            },
            BridgePhase::Waiting => match e {
                BridgeEvent::Reply(p) => {
                    self.phase = BridgePhase::Finished;
                    self.listener_active = false;
                    BridgeAction::Deliver(p)
                },
                BridgeEvent::TimedOut => {
                    self.phase = BridgePhase::Finished;
                    self.listener_active = false;
                    BridgeAction::Fail(BridgeError::Timeout)
                },
                _ => BridgeAction::Nothing,
            },
            BridgePhase::Finished => BridgeAction::Nothing,
        }
    }
}

impl BridgeAction {
    /// How the call ended, where this action ends it.
    pub fn outcome(self) -> (r: Option<Result<String, BridgeError>>)
        ensures
            match self {
                BridgeAction::Deliver(p) => r == Some(Ok::<String, BridgeError>(p)),
                BridgeAction::Fail(e) => r == Some(Err::<String, BridgeError>(e)),
                _ => r is None,
            },
    {
        match self {
            BridgeAction::Deliver(p) => Some(Ok(p)),
            BridgeAction::Fail(e) => Some(Err(e)),
            _ => None,
        }
    }
}

/// The request is emitted only once the response listener is registered and
/// active: no reply can be lost to a registration race.
pub proof fn lemma_emit_after_listener(s: BridgeCall, e: BridgeEvent, t: BridgeCall, a: BridgeAction)
    requires
        s.wf(),
        s.step_spec(e, t, a),
        a is Emit,
    ensures
        s.phase == BridgePhase::Registering,
        e is ListenerRegistered,
        t.listener_active,
        t.phase == BridgePhase::Emitting,
{
}

/// A reply that arrives while the request is still being emitted is delivered once
/// the emission completes.
pub proof fn lemma_reply_during_emit_delivered(
    s: BridgeCall,
    p: String,
    t1: BridgeCall,
    a1: BridgeAction,
    t2: BridgeCall,
    a2: BridgeAction,
)
    requires
        s.wf(),
        s.phase == BridgePhase::Emitting,
        s.early_reply is None,
        s.step_spec(BridgeEvent::Reply(p), t1, a1),
        t1.step_spec(BridgeEvent::Emitted, t2, a2),
    ensures
        a1 is Nothing,
        a2 == BridgeAction::Deliver(p),
        t2.phase == BridgePhase::Finished,
{
}

/// Once a call is over, no event has any effect: no second delivery, nothing done
/// after a timeout.
pub proof fn lemma_finished_is_inert(s: BridgeCall, e: BridgeEvent, t: BridgeCall, a: BridgeAction)
    requires
        s.phase == BridgePhase::Finished,
        s.step_spec(e, t, a),
    ensures
        t == s,
        a is Nothing,
{
}

} // verus!
