//! The transport session state machine.
//!
//! The machine decides; a driver performs. Every transport-level happening —
//! connect results, welcome and keepalive frames, decoded events, malformed
//! frames, close requests, reconnect directives — is fed in as a
//! [`SessionInput`], and each step returns at most one [`SessionAction`] for
//! the driver to carry out. The whole transition function is stated by
//! [`spec_next`], and `step` is proved to implement it exactly.
//!
//! The machine tolerates server-directed reconnects without losing
//! subscription state: the set of topics to maintain is never changed by a
//! transition, reconnection re-requests all of them before the session
//! becomes active again, and events are delivered only while the session is
//! active — never from a stale or closed session.

use vstd::prelude::*;
use crate::dispatcher::{Event, ResponseType};
use crate::errors::TransportError;
use crate::subscribe::Topic;

verus! {

/// What the machine remembers of a welcomed transport: the server-assigned
/// session identifier, the keepalive interval the server advertised, and
/// when the last frame arrived (milliseconds, driver-supplied clock).
pub struct ActiveSnapshot {
    pub session_id: String,
    pub keepalive_interval_ms: u64,
    pub last_frame_at: u64,
}

/// The session states. `Reconnecting` is reachable from `Active` or
/// `Closing` on unexpected transport failure and re-establishes both the
/// transport and the subscriptions before the session is active again.
pub enum SessionState {
    /// Establishing the low-level transport; `attempts` failures so far.
    Connecting { attempts: u32 },
    /// Transport is up; waiting for the welcome frame.
    Handshaking { attempts: u32 },
    /// Welcomed and serving frames.
    Active(ActiveSnapshot),
    /// Tearing the transport down; when `migrate` is set the session will
    /// reconnect to a new endpoint instead of ending.
    Closing { migrate: bool },
    /// Re-establishing transport and subscriptions after a failure;
    /// `restored` holds the new welcome once it has arrived, and `cause`
    /// the transport fault that forced the reconnect — none when the
    /// session is migrating on a server directive.
    Reconnecting { attempts: u32, restored: Option<ActiveSnapshot>, cause: Option<TransportError> },
    /// Ended by request; terminal.
    Closed,
    /// Ended by exhausting the retry budget or an unrecoverable transport
    /// fault; terminal.
    Failed(TransportError),
}

/// One happening, fed to the machine by the driver. Timestamps are
/// milliseconds on the driver's monotonic clock.
pub enum SessionInput {
    /// The low-level connect finished.
    TransportConnected,
    /// The low-level connect failed, or the connection was reset.
    TransportFailed,
    /// The welcome frame, carrying the session identifier and the keepalive
    /// interval the server promises to honour.
    Welcome { session_id: String, keepalive_interval_ms: u64, now: u64 },
    /// No welcome frame arrived within the handshake bound.
    HandshakeTimedOut,
    /// A keepalive frame.
    Keepalive { now: u64 },
    /// A decoded event frame.
    EventFrame { event: Event, now: u64 },
    /// A well-framed message this layer does not understand.
    UnknownFrame { now: u64 },
    /// A frame that could not be decoded at all.
    MalformedFrame { now: u64 },
    /// The driver's clock tick; lets the machine notice keepalive loss.
    TimeElapsed { now: u64 },
    /// A server-pushed directive to migrate to a new endpoint without losing
    /// logical session continuity.
    ReconnectDirective { endpoint: String },
    /// A local request to end the session.
    CloseRequested,
    /// The transport reported an orderly close.
    TransportClosed,
    /// The driver re-ran the negotiator and every maintained topic was
    /// accepted again.
    SubscriptionsRestored,
    /// The driver re-ran the negotiator and it failed.
    ResubscribeFailed,
}

/// What the driver must do after a step.
pub enum SessionAction {
    /// (Re-)establish the transport to the machine's current endpoint.
    StartConnect,
    /// Run the subscription negotiator for all maintained topics.
    RequestSubscriptions,
    /// Hand this response to the event dispatcher.
    Deliver(ResponseType),
    /// Tear the transport down.
    CloseTransport,
    /// The session is dead; surface this error to the caller.
    ReportFatal(TransportError),
}

/// The session state machine: current state, current endpoint, the topics
/// the session maintains, and the reconnect budget.
pub struct SessionMachine {
    pub state: SessionState,
    pub endpoint: String,
    pub topics: Vec<Topic>,
    pub max_retries: u32,
}

/// The recovery delay before retry number `attempts`: half a second,
/// doubled per consecutive failure, capped at thirty seconds.
pub open spec fn spec_backoff_ms(attempts: u32) -> u64 {
    if attempts == 0 {
        500
    } else if attempts == 1 {
        1_000
    } else if attempts == 2 {
        2_000
    } else if attempts == 3 {
        4_000
    } else if attempts == 4 {
        8_000
    } else if attempts == 5 {
        16_000
    } else {
        30_000
    }
}

/// How long the driver should wait before carrying a `StartConnect` out:
/// the bounded exponential backoff of [`spec_backoff_ms`].
pub fn backoff_ms(attempts: u32) -> (ms: u64)
    ensures
        ms == spec_backoff_ms(attempts),
        500 <= ms <= 30_000,
{
    if attempts == 0 {
        500
    } else if attempts == 1 {
        1_000
    } else if attempts == 2 {
        2_000
    } else if attempts == 3 {
        4_000
    } else if attempts == 4 {
        8_000
    } else if attempts == 5 {
        16_000
    } else {
        30_000
    }
}

/// Keepalive loss: more than one advertised interval has passed since the
/// last frame.
pub open spec fn keepalive_lost(snap: ActiveSnapshot, now: u64) -> bool {
    now > snap.last_frame_at + snap.keepalive_interval_ms
}

/// The full transition function: next machine and the action the driver
/// must carry out. Inputs that make no sense in the current state are
/// ignored: the state is unchanged and no action is requested.
pub open spec fn spec_next(m: SessionMachine, input: SessionInput) -> (SessionMachine, Option<
    SessionAction,
>) {
    let keep = (m, Option::<SessionAction>::None);
    match m.state {
        SessionState::Connecting { attempts } => match input {
            SessionInput::TransportConnected => (
                SessionMachine { state: SessionState::Handshaking { attempts }, ..m },
                None,
            ),
            SessionInput::TransportFailed => if attempts < m.max_retries {
                (
                    SessionMachine {
                        state: SessionState::Connecting { attempts: (attempts + 1) as u32 },
                        ..m
                    },
                    Some(SessionAction::StartConnect),
                )
            } else {
                (
                    SessionMachine {
                        state: SessionState::Failed(TransportError::ConnectionReset),
                        ..m
                    },
                    Some(SessionAction::ReportFatal(TransportError::ConnectionReset)),
                )
            },
            SessionInput::CloseRequested => (
                SessionMachine { state: SessionState::Closed, ..m },
                None,
            ),
            _ => keep,
        },
        SessionState::Handshaking { attempts } => match input {
            SessionInput::Welcome { session_id, keepalive_interval_ms, now } => (
                SessionMachine {
                    state: SessionState::Active(
                        ActiveSnapshot { session_id, keepalive_interval_ms, last_frame_at: now },
                    ),
                    ..m
                },
                Some(SessionAction::RequestSubscriptions),
            ),
            SessionInput::HandshakeTimedOut => if attempts < m.max_retries {
                (
                    SessionMachine {
                        state: SessionState::Connecting { attempts: (attempts + 1) as u32 },
                        ..m
                    },
                    Some(SessionAction::StartConnect),
                )
            } else {
                (
                    SessionMachine {
                        state: SessionState::Failed(TransportError::HandshakeTimeout),
                        ..m
                    },
                    Some(SessionAction::ReportFatal(TransportError::HandshakeTimeout)),
                )
            },
            SessionInput::TransportFailed => if attempts < m.max_retries {
                (
                    SessionMachine {
                        state: SessionState::Connecting { attempts: (attempts + 1) as u32 },
                        ..m
                    },
                    Some(SessionAction::StartConnect),
                )
            } else {
                (
                    SessionMachine {
                        state: SessionState::Failed(TransportError::ConnectionReset),
                        ..m
                    },
                    Some(SessionAction::ReportFatal(TransportError::ConnectionReset)),
                )
            },
            SessionInput::CloseRequested => (
                SessionMachine { state: SessionState::Closing { migrate: false }, ..m },
                Some(SessionAction::CloseTransport),
            ),
            _ => keep,
        },
        SessionState::Active(snap) => match input {
            SessionInput::Keepalive { now } => (
                SessionMachine {
                    state: SessionState::Active(ActiveSnapshot { last_frame_at: now, ..snap }),
                    ..m
                },
                None,
            ),
            SessionInput::EventFrame { event, now } => (
                SessionMachine {
                    state: SessionState::Active(ActiveSnapshot { last_frame_at: now, ..snap }),
                    ..m
                },
                Some(SessionAction::Deliver(ResponseType::Event(event))),
            ),
            SessionInput::UnknownFrame { now } => (
                SessionMachine {
                    state: SessionState::Active(ActiveSnapshot { last_frame_at: now, ..snap }),
                    ..m
                },
                Some(SessionAction::Deliver(ResponseType::Unknown)),
            ),
            SessionInput::MalformedFrame { .. } => (
                SessionMachine {
                    state: SessionState::Reconnecting {
                        attempts: 0,
                        restored: None,
                        cause: Some(TransportError::ConnectionReset),
                    },
                    ..m
                },
                Some(SessionAction::StartConnect),
            ),
            SessionInput::TimeElapsed { now } => if keepalive_lost(snap, now) {
                (
                    SessionMachine {
                        state: SessionState::Reconnecting {
                            attempts: 0,
                            restored: None,
                            cause: Some(TransportError::KeepaliveLost),
                        },
                        ..m
                    },
                    Some(SessionAction::StartConnect),
                )
            } else {
                (SessionMachine { state: SessionState::Active(snap), ..m }, None)
            },
            SessionInput::ReconnectDirective { endpoint } => (
                SessionMachine { state: SessionState::Closing { migrate: true }, endpoint, ..m },
                Some(SessionAction::CloseTransport),
            ),
            SessionInput::CloseRequested => (
                SessionMachine { state: SessionState::Closing { migrate: false }, ..m },
                Some(SessionAction::CloseTransport),
            ),
            SessionInput::TransportFailed | SessionInput::TransportClosed => (
                SessionMachine {
                    state: SessionState::Reconnecting {
                        attempts: 0,
                        restored: None,
                        cause: Some(TransportError::ConnectionReset),
                    },
                    ..m
                },
                Some(SessionAction::StartConnect),
            ),
            _ => keep,
        },
        SessionState::Closing { migrate } => match input {
            SessionInput::TransportClosed | SessionInput::TransportFailed => if migrate {
                (
                    SessionMachine {
                        state: SessionState::Reconnecting { attempts: 0, restored: None, cause: None },
                        ..m
                    },
                    Some(SessionAction::StartConnect),
                )
            } else {
                (SessionMachine { state: SessionState::Closed, ..m }, None)
            },
            _ => keep,
        },
        SessionState::Reconnecting { attempts, restored, cause } => match input {
            SessionInput::TransportConnected => (
                SessionMachine {
                    state: SessionState::Reconnecting { attempts, restored: None, cause },
                    ..m
                },
                None,
            ),
            SessionInput::Welcome { session_id, keepalive_interval_ms, now } => (
                SessionMachine {
                    state: SessionState::Reconnecting {
                        attempts,
                        restored: Some(
                            ActiveSnapshot {
                                session_id,
                                keepalive_interval_ms,
                                last_frame_at: now,
                            },
                        ),
                        cause,
                    },
                    ..m
                },
                Some(SessionAction::RequestSubscriptions),
            ),
            SessionInput::SubscriptionsRestored => match restored {
                Some(snap) => (
                    SessionMachine { state: SessionState::Active(snap), ..m },
                    None,
                ),
                None => keep,
            },
            SessionInput::TransportFailed
            | SessionInput::HandshakeTimedOut
            | SessionInput::ResubscribeFailed => if attempts < m.max_retries {
                (
                    SessionMachine {
                        state: SessionState::Reconnecting {
                            attempts: (attempts + 1) as u32,
                            restored: None,
                            cause,
                        },
                        ..m
                    },
                    Some(SessionAction::StartConnect),
                )
            } else {
                (
                    SessionMachine {
                        state: SessionState::Failed(TransportError::RetriesExhausted),
                        ..m
                    },
                    Some(SessionAction::ReportFatal(TransportError::RetriesExhausted)),
                )
            },
            SessionInput::CloseRequested => (
                SessionMachine { state: SessionState::Closed, ..m },
                Some(SessionAction::CloseTransport),
            ),
            _ => keep,
        },
        SessionState::Closed => keep,
        SessionState::Failed(_) => keep,
    }
}

impl SessionMachine {
    /// Retry counters never exceed the budget.
    pub open spec fn wf(&self) -> bool {
        match self.state {
            SessionState::Connecting { attempts } => attempts <= self.max_retries,
            SessionState::Handshaking { attempts } => attempts <= self.max_retries,
            SessionState::Reconnecting { attempts, .. } => attempts <= self.max_retries,
            _ => true,
        }
    }

    /// A fresh machine, about to connect to `endpoint` and maintain
    /// `topics`, allowed `max_retries` consecutive recovery attempts.
    pub fn new(endpoint: String, topics: Vec<Topic>, max_retries: u32) -> (m: SessionMachine)
        ensures
            m.state == (SessionState::Connecting { attempts: 0u32 }),
            m.endpoint@ == endpoint@,
            m.topics@ == topics@,
            m.max_retries == max_retries,
            m.wf(),
    {
        SessionMachine { state: SessionState::Connecting { attempts: 0 }, endpoint, topics, max_retries }
    }

    /// The topics this session maintains; reconnection re-requests all of
    /// them.
    pub fn maintained_topics(&self) -> (t: &Vec<Topic>)
        ensures
            t@ == self.topics@,
    {
        &self.topics
    }

    /// Whether the session is currently active (welcomed, subscribed, and
    /// serving frames).
    pub fn is_active(&self) -> (b: bool)
        ensures
            b == (self.state matches SessionState::Active(_)),
    {
        match self.state {
            SessionState::Active(_) => true,
            _ => false,
        }
    }

    /// Advances the machine by one input, exactly as [`spec_next`] states,
    /// and returns the action the driver must carry out.
    pub fn step(&mut self, input: SessionInput) -> (a: Option<SessionAction>)
        requires
            old(self).wf(),
        ensures
            *final(self) == spec_next(*old(self), input).0,
            a == spec_next(*old(self), input).1,
            final(self).wf(),
            final(self).topics@ == old(self).topics@,
    {
        proof {
            lemma_step_preserves_wf(*old(self), input);
        }
        let mut taken = SessionState::Closed;
        core::mem::swap(&mut taken, &mut self.state);
        match taken {
            SessionState::Connecting { attempts } => match input {
                SessionInput::TransportConnected => {
                    self.state = SessionState::Handshaking { attempts };
                    None
                },
                SessionInput::TransportFailed => {
                    if attempts < self.max_retries {
                        self.state = SessionState::Connecting { attempts: attempts + 1 };
                        Some(SessionAction::StartConnect)
                    } else {
                        self.state = SessionState::Failed(TransportError::ConnectionReset);
                        Some(SessionAction::ReportFatal(TransportError::ConnectionReset))
                    }
                },
                SessionInput::CloseRequested => {
                    self.state = SessionState::Closed;
                    None
                },
                _ => {
                    self.state = SessionState::Connecting { attempts };
                    None
                },
            },
            SessionState::Handshaking { attempts } => match input {
                SessionInput::Welcome { session_id, keepalive_interval_ms, now } => {
                    self.state = SessionState::Active(
                        ActiveSnapshot { session_id, keepalive_interval_ms, last_frame_at: now },
                    );
                    Some(SessionAction::RequestSubscriptions)
                },
                SessionInput::HandshakeTimedOut => {
                    if attempts < self.max_retries {
                        self.state = SessionState::Connecting { attempts: attempts + 1 };
                        Some(SessionAction::StartConnect)
                    } else {
                        self.state = SessionState::Failed(TransportError::HandshakeTimeout);
                        Some(SessionAction::ReportFatal(TransportError::HandshakeTimeout))
                    }
                },
                SessionInput::TransportFailed => {
                    if attempts < self.max_retries {
                        self.state = SessionState::Connecting { attempts: attempts + 1 };
                        Some(SessionAction::StartConnect)
                    } else {
                        self.state = SessionState::Failed(TransportError::ConnectionReset);
                        Some(SessionAction::ReportFatal(TransportError::ConnectionReset))
                    }
                },
                SessionInput::CloseRequested => {
                    self.state = SessionState::Closing { migrate: false };
                    Some(SessionAction::CloseTransport)
                },
                _ => {
                    self.state = SessionState::Handshaking { attempts };
                    None
                },
            },
            SessionState::Active(snap) => match input {
                SessionInput::Keepalive { now } => {
                    self.state = SessionState::Active(ActiveSnapshot { last_frame_at: now, ..snap });
                    None
                },
                SessionInput::EventFrame { event, now } => {
                    self.state = SessionState::Active(ActiveSnapshot { last_frame_at: now, ..snap });
                    Some(SessionAction::Deliver(ResponseType::Event(event)))
                },
                SessionInput::UnknownFrame { now } => {
                    self.state = SessionState::Active(ActiveSnapshot { last_frame_at: now, ..snap });
                    Some(SessionAction::Deliver(ResponseType::Unknown))
                },
                SessionInput::MalformedFrame { .. } => {
                    self.state = SessionState::Reconnecting {
                        attempts: 0,
                        restored: None,
                        cause: Some(TransportError::ConnectionReset),
                    };
                    Some(SessionAction::StartConnect)
                },
                SessionInput::TimeElapsed { now } => {
                    let lost = if snap.keepalive_interval_ms <= u64::MAX - snap.last_frame_at {
                        now > snap.last_frame_at + snap.keepalive_interval_ms
                    } else {
                        false
                    };
                    if lost {
                        self.state = SessionState::Reconnecting {
                            attempts: 0,
                            restored: None,
                            cause: Some(TransportError::KeepaliveLost),
                        };
                        Some(SessionAction::StartConnect)
                    } else {
                        self.state = SessionState::Active(snap);
                        None
                    }
                },
                SessionInput::ReconnectDirective { endpoint } => {
                    self.state = SessionState::Closing { migrate: true };
                    self.endpoint = endpoint;
                    Some(SessionAction::CloseTransport)
                },
                SessionInput::CloseRequested => {
                    self.state = SessionState::Closing { migrate: false };
                    Some(SessionAction::CloseTransport)
                },
                SessionInput::TransportFailed | SessionInput::TransportClosed => {
                    self.state = SessionState::Reconnecting {
                        attempts: 0,
                        restored: None,
                        cause: Some(TransportError::ConnectionReset),
                    };
                    Some(SessionAction::StartConnect)
                },
                _ => {
                    self.state = SessionState::Active(snap);
                    None
                },
            },
            SessionState::Closing { migrate } => match input {
                SessionInput::TransportClosed | SessionInput::TransportFailed => {
                    if migrate {
                        self.state = SessionState::Reconnecting {
                            attempts: 0,
                            restored: None,
                            cause: None,
                        };
                        Some(SessionAction::StartConnect)
                    } else {
                        self.state = SessionState::Closed;
                        None
                    }
                },
                _ => {
                    self.state = SessionState::Closing { migrate };
                    None
                },
            },
            SessionState::Reconnecting { attempts, restored, cause } => match input {
                SessionInput::TransportConnected => {
                    self.state = SessionState::Reconnecting { attempts, restored: None, cause };
                    None
                },
                SessionInput::Welcome { session_id, keepalive_interval_ms, now } => {
                    self.state = SessionState::Reconnecting {
                        attempts,
                        restored: Some(
                            ActiveSnapshot {
                                session_id,
                                keepalive_interval_ms,
                                last_frame_at: now,
                            },
                        ),
                        cause,
                    };
                    Some(SessionAction::RequestSubscriptions)
                },
                SessionInput::SubscriptionsRestored => match restored {
                    Some(snap) => {
                        self.state = SessionState::Active(snap);
                        None
                    },
                    None => {
                        self.state = SessionState::Reconnecting { attempts, restored: None, cause };
                        None
                    },
                },
                SessionInput::TransportFailed
                | SessionInput::HandshakeTimedOut
                | SessionInput::ResubscribeFailed => {
                    if attempts < self.max_retries {
                        self.state = SessionState::Reconnecting {
                            attempts: attempts + 1,
                            restored: None,
                            cause,
                        };
                        Some(SessionAction::StartConnect)
                    } else {
                        self.state = SessionState::Failed(TransportError::RetriesExhausted);
                        Some(SessionAction::ReportFatal(TransportError::RetriesExhausted))
                    }
                },
                SessionInput::CloseRequested => {
                    self.state = SessionState::Closed;
                    Some(SessionAction::CloseTransport)
                },
                _ => {
                    self.state = SessionState::Reconnecting { attempts, restored, cause };
                    None
                },
            },
            SessionState::Closed => {
                self.state = SessionState::Closed;
                None
            },
            SessionState::Failed(e) => {
                self.state = SessionState::Failed(e);
                None
            },
        }
    }
}

/// A step from a well-formed machine leaves a well-formed machine.
pub proof fn lemma_step_preserves_wf(m: SessionMachine, input: SessionInput)
    requires
        m.wf(),
    ensures
        spec_next(m, input).0.wf(),
{
}

/// No transition changes the set of maintained topics: a session never
/// forgets what it subscribed to, whatever happens to the transport.
pub proof fn lemma_topics_preserved(m: SessionMachine, input: SessionInput)
    ensures
        spec_next(m, input).0.topics == m.topics,
{
}

/// The machine after a whole sequence of inputs, first input first.
pub open spec fn spec_run(m: SessionMachine, inputs: Seq<SessionInput>) -> SessionMachine
    decreases inputs.len(),
{
    if inputs.len() == 0 {
        m
    } else {
        spec_run(spec_next(m, inputs.first()).0, inputs.drop_first())
    }
}

/// Over any trace at all — disconnects, server-directed migrations, failed
/// retries, whatever order they come in — a well-formed session stays
/// well-formed and keeps exactly the topics it set out to maintain: no
/// history of transport trouble loses subscription state.
pub proof fn lemma_run_preserves_topics(m: SessionMachine, inputs: Seq<SessionInput>)
    requires
        m.wf(),
    ensures
        spec_run(m, inputs).wf(),
        spec_run(m, inputs).topics == m.topics,
    decreases inputs.len(),
{
    if inputs.len() > 0 {
        lemma_step_preserves_wf(m, inputs.first());
        lemma_run_preserves_topics(spec_next(m, inputs.first()).0, inputs.drop_first());
    }
}

/// Events are delivered only by an active session, and the session is still
/// active after the delivering step: a stale, closing or closed session
/// never hands anything to the dispatcher.
pub proof fn lemma_deliver_only_when_active(m: SessionMachine, input: SessionInput)
    ensures
        (spec_next(m, input).1 matches Some(a) && a matches SessionAction::Deliver(_)) ==> (m.state
            matches SessionState::Active(_) && spec_next(m, input).0.state
            matches SessionState::Active(_)),
{
}

/// A malformed frame received while active never closes the session
/// directly: the machine moves to `Reconnecting` with a fresh retry budget,
/// keeps every maintained topic, and asks the driver to re-establish the
/// transport.
pub proof fn lemma_malformed_frame_recovers(m: SessionMachine, now: u64)
    requires
        m.state matches SessionState::Active(_),
    ensures
        spec_next(m, SessionInput::MalformedFrame { now }).0.state == (SessionState::Reconnecting {
            attempts: 0u32,
            restored: None,
            cause: Some(TransportError::ConnectionReset),
        }),
        spec_next(m, SessionInput::MalformedFrame { now }).0.topics == m.topics,
        spec_next(m, SessionInput::MalformedFrame { now }).1 == Some(SessionAction::StartConnect),
        !(spec_next(m, SessionInput::MalformedFrame { now }).0.state
            matches SessionState::Closed),
        !(spec_next(m, SessionInput::MalformedFrame { now }).0.state
            matches SessionState::Closing { .. }),
{
}

/// While reconnecting, the session becomes active again only after the
/// negotiator has restored the subscriptions: the one transition out of
/// `Reconnecting` into `Active` is `SubscriptionsRestored` after a new
/// welcome, and every other step either stays in `Reconnecting` with the
/// same topics, gives up fatally when the retry budget is exhausted, or
/// obeys a local close request. The welcome itself asks the driver to
/// re-request all maintained topics.
pub proof fn lemma_reconnecting_resubscribes_before_active(m: SessionMachine, input: SessionInput)
    requires
        m.state matches SessionState::Reconnecting { .. },
    ensures
        spec_next(m, input).0.topics == m.topics,
        (spec_next(m, input).0.state matches SessionState::Active(_)) ==> (input
            matches SessionInput::SubscriptionsRestored && (m.state
            matches SessionState::Reconnecting { restored, .. } && restored is Some)),
        (input matches SessionInput::Welcome { .. }) ==> spec_next(m, input).1 == Some(
            SessionAction::RequestSubscriptions,
        ),
        (spec_next(m, input).0.state matches SessionState::Reconnecting { restored, .. }
            && restored is Some) ==> ((input matches SessionInput::Welcome { .. }) || (m.state
            matches SessionState::Reconnecting { restored: before, .. } && before is Some)),
        spec_next(m, input).0.state matches SessionState::Failed(e) ==> (e
            == TransportError::RetriesExhausted && spec_next(m, input).1 == Some(
            SessionAction::ReportFatal(TransportError::RetriesExhausted),
        )),
{
}

} // verus!
