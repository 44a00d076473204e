use eventsub_core::client::SessionBuilder;
use eventsub_core::credentials::Credentials;
use eventsub_core::dispatcher::{Event, ResponseType};
use eventsub_core::errors::TransportError;
use eventsub_core::session::{
    backoff_ms, SessionAction, SessionInput, SessionMachine, SessionState,
};
use eventsub_core::subscribe::Topic;

fn demo_credentials() -> Credentials {
    Credentials {
        access_token: "a".to_string(),
        refresh_token: "r".to_string(),
        expires_at: 10_000,
        scopes: vec!["user:read:chat".to_string()],
    }
}

fn fresh_machine() -> SessionMachine {
    SessionMachine::new(
        "wss://example.invalid/ws".to_string(),
        vec![Topic::ChatMessage, Topic::Follow],
        3,
    )
}

fn bring_to_active(m: &mut SessionMachine) {
    let a = m.step(SessionInput::TransportConnected);
    assert!(a.is_none());
    let a = m.step(SessionInput::Welcome {
        session_id: "sess-1".to_string(),
        keepalive_interval_ms: 10_000,
        now: 1_000,
    });
    assert!(matches!(a, Some(SessionAction::RequestSubscriptions)));
    assert!(m.is_active());
}

#[test]
fn connect_handshake_welcome_reaches_active() {
    let mut m = fresh_machine();
    assert!(!m.is_active());
    bring_to_active(&mut m);
    match &m.state {
        SessionState::Active(snap) => {
            assert_eq!(snap.session_id, "sess-1");
            assert_eq!(snap.keepalive_interval_ms, 10_000);
            assert_eq!(snap.last_frame_at, 1_000);
        }
        _ => panic!("expected an active session"),
    }
}

#[test]
fn malformed_frame_goes_through_reconnecting_not_closed() {
    let mut m = fresh_machine();
    bring_to_active(&mut m);
    let a = m.step(SessionInput::MalformedFrame { now: 2_000 });
    assert!(matches!(a, Some(SessionAction::StartConnect)));
    match &m.state {
        SessionState::Reconnecting { attempts, restored, cause } => {
            assert_eq!(*attempts, 0);
            assert!(restored.is_none());
            assert_eq!(*cause, Some(TransportError::ConnectionReset));
        }
        _ => panic!("a malformed frame must lead to Reconnecting"),
    }
    // All previously maintained topics are re-requested before Active.
    assert_eq!(m.maintained_topics(), &vec![Topic::ChatMessage, Topic::Follow]);
    let a = m.step(SessionInput::Welcome {
        session_id: "sess-2".to_string(),
        keepalive_interval_ms: 10_000,
        now: 3_000,
    });
    assert!(matches!(a, Some(SessionAction::RequestSubscriptions)));
    assert!(!m.is_active());
    let a = m.step(SessionInput::SubscriptionsRestored);
    assert!(a.is_none());
    assert!(m.is_active());
    assert_eq!(m.maintained_topics(), &vec![Topic::ChatMessage, Topic::Follow]);
}

#[test]
fn subscriptions_restored_without_welcome_does_not_activate() {
    let mut m = fresh_machine();
    bring_to_active(&mut m);
    m.step(SessionInput::MalformedFrame { now: 2_000 });
    let a = m.step(SessionInput::SubscriptionsRestored);
    assert!(a.is_none());
    assert!(!m.is_active());
}

#[test]
fn keepalive_loss_triggers_reconnect() {
    let mut m = fresh_machine();
    bring_to_active(&mut m);
    // Within one interval: nothing happens.
    let a = m.step(SessionInput::TimeElapsed { now: 11_000 });
    assert!(a.is_none());
    assert!(m.is_active());
    // Beyond one interval since the last frame: fatal for the transport.
    let a = m.step(SessionInput::TimeElapsed { now: 11_001 });
    assert!(matches!(a, Some(SessionAction::StartConnect)));
    assert!(matches!(
        m.state,
        SessionState::Reconnecting { cause: Some(TransportError::KeepaliveLost), .. }
    ));
}

#[test]
fn keepalive_frames_keep_the_session_alive() {
    let mut m = fresh_machine();
    bring_to_active(&mut m);
    let a = m.step(SessionInput::Keepalive { now: 9_000 });
    assert!(a.is_none());
    let a = m.step(SessionInput::TimeElapsed { now: 19_000 });
    assert!(a.is_none());
    assert!(m.is_active());
}

#[test]
fn reconnect_budget_exhaustion_is_fatal_and_reported() {
    let mut m = fresh_machine();
    bring_to_active(&mut m);
    m.step(SessionInput::MalformedFrame { now: 2_000 });
    for _ in 0..3 {
        let a = m.step(SessionInput::TransportFailed);
        assert!(matches!(a, Some(SessionAction::StartConnect)));
    }
    let a = m.step(SessionInput::TransportFailed);
    assert!(matches!(
        a,
        Some(SessionAction::ReportFatal(TransportError::RetriesExhausted))
    ));
    assert!(matches!(
        m.state,
        SessionState::Failed(TransportError::RetriesExhausted)
    ));
}

#[test]
fn reconnect_directive_migrates_endpoint_without_losing_topics() {
    let mut m = fresh_machine();
    bring_to_active(&mut m);
    let a = m.step(SessionInput::ReconnectDirective {
        endpoint: "wss://example.invalid/ws2".to_string(),
    });
    assert!(matches!(a, Some(SessionAction::CloseTransport)));
    assert!(matches!(m.state, SessionState::Closing { migrate: true }));
    assert_eq!(m.endpoint, "wss://example.invalid/ws2");
    let a = m.step(SessionInput::TransportClosed);
    assert!(matches!(a, Some(SessionAction::StartConnect)));
    // A directed migration is no transport fault: no cause is recorded.
    assert!(matches!(m.state, SessionState::Reconnecting { cause: None, .. }));
    assert_eq!(m.maintained_topics(), &vec![Topic::ChatMessage, Topic::Follow]);
}

#[test]
fn local_close_ends_in_closed() {
    let mut m = fresh_machine();
    bring_to_active(&mut m);
    let a = m.step(SessionInput::CloseRequested);
    assert!(matches!(a, Some(SessionAction::CloseTransport)));
    let a = m.step(SessionInput::TransportClosed);
    assert!(a.is_none());
    assert!(matches!(m.state, SessionState::Closed));
    // A closed session ignores everything and delivers nothing.
    let a = m.step(SessionInput::EventFrame {
        event: Event::StreamOnline,
        now: 5_000,
    });
    assert!(a.is_none());
    assert!(matches!(m.state, SessionState::Closed));
}

#[test]
fn connect_failures_exhaust_into_connection_reset() {
    let mut m = fresh_machine();
    for _ in 0..3 {
        let a = m.step(SessionInput::TransportFailed);
        assert!(matches!(a, Some(SessionAction::StartConnect)));
    }
    let a = m.step(SessionInput::TransportFailed);
    assert!(matches!(
        a,
        Some(SessionAction::ReportFatal(TransportError::ConnectionReset))
    ));
    assert!(matches!(
        m.state,
        SessionState::Failed(TransportError::ConnectionReset)
    ));
}

#[test]
fn backoff_is_exponential_and_bounded() {
    assert_eq!(backoff_ms(0), 500);
    assert_eq!(backoff_ms(1), 1_000);
    assert_eq!(backoff_ms(5), 16_000);
    assert_eq!(backoff_ms(6), 30_000);
    assert_eq!(backoff_ms(u32::MAX), 30_000);
}

#[test]
fn handshake_timeout_returns_to_connecting() {
    let mut m = fresh_machine();
    let a = m.step(SessionInput::TransportConnected);
    assert!(a.is_none());
    let a = m.step(SessionInput::HandshakeTimedOut);
    assert!(matches!(a, Some(SessionAction::StartConnect)));
    assert!(matches!(m.state, SessionState::Connecting { attempts: 1 }));
}

#[test]
fn events_flow_into_the_core_queue_only_while_active() {
    let pending = SessionBuilder::new()
        .endpoint("wss://example.invalid/ws".to_string())
        .add_topics(vec![Topic::ChatMessage])
        .build()
        .unwrap();
    let mut core = pending.activate(demo_credentials());
    // Not yet active: a frame is ignored, nothing is queued.
    let a = core.handle(SessionInput::EventFrame {
        event: Event::StreamOnline,
        now: 500,
    });
    assert!(a.is_none());
    assert!(core.drain(1).is_empty());
    core.handle(SessionInput::TransportConnected);
    core.handle(SessionInput::Welcome {
        session_id: "s".to_string(),
        keepalive_interval_ms: 10_000,
        now: 1_000,
    });
    let a = core.handle(SessionInput::EventFrame {
        event: Event::ChatMessage {
            chatter: "ada".to_string(),
            text: "hi".to_string(),
        },
        now: 1_100,
    });
    assert!(a.is_none());
    let drained = core.drain(1);
    assert_eq!(drained.len(), 1);
    match &drained[0] {
        ResponseType::Event(Event::ChatMessage { chatter, text }) => {
            assert_eq!(chatter, "ada");
            assert_eq!(text, "hi");
        }
        _ => panic!("expected the chat message back"),
    }
}
