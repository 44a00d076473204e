use std::time::Instant;

use eventsub_core::client::{finish_send, Ack, SendOutcome, SessionBuilder};
use eventsub_core::credentials::Credentials;
use eventsub_core::dispatcher::{Event, EventQueue, ResponseType};
use eventsub_core::errors::{BuildError, ConfigError, SendError};
use eventsub_core::session::SessionInput;
use eventsub_core::subscribe::Topic;

fn demo_credentials() -> Credentials {
    Credentials {
        access_token: "a".to_string(),
        refresh_token: "r".to_string(),
        expires_at: 10_000,
        scopes: vec![],
    }
}

fn active_core() -> eventsub_core::client::SessionCore {
    let pending = SessionBuilder::new()
        .endpoint("wss://example.invalid/ws".to_string())
        .add_topics(vec![Topic::ChatMessage])
        .build()
        .unwrap();
    let mut core = pending.activate(demo_credentials());
    core.handle(SessionInput::TransportConnected);
    core.handle(SessionInput::Welcome {
        session_id: "sess-9".to_string(),
        keepalive_interval_ms: 10_000,
        now: 1_000,
    });
    core
}

#[test]
fn drain_with_nothing_queued_returns_empty_at_once() {
    let mut core = active_core();
    let started = Instant::now();
    let drained = core.drain(1);
    assert!(drained.is_empty());
    // Non-blocking: nowhere near the test harness bound, let alone forever.
    assert!(started.elapsed().as_millis() < 1_000);
}

#[test]
fn drain_preserves_delivery_order_and_empties_the_queue() {
    let mut q = EventQueue::new(8);
    q.push(ResponseType::Event(Event::StreamOnline));
    q.push(ResponseType::Unknown);
    q.push(ResponseType::Close);
    assert_eq!(q.len(), 3);
    let drained = q.drain(1);
    assert!(matches!(drained[0], ResponseType::Event(Event::StreamOnline)));
    assert!(matches!(drained[1], ResponseType::Unknown));
    assert!(matches!(drained[2], ResponseType::Close));
    assert_eq!(q.len(), 0);
    assert!(q.drain(1).is_empty());
}

#[test]
fn full_queue_drops_the_oldest_response() {
    let mut q = EventQueue::new(2);
    q.push(ResponseType::Event(Event::StreamOnline));
    q.push(ResponseType::Event(Event::StreamOffline));
    q.push(ResponseType::Close);
    let drained = q.drain(1);
    assert_eq!(drained.len(), 2);
    assert!(matches!(drained[0], ResponseType::Event(Event::StreamOffline)));
    assert!(matches!(drained[1], ResponseType::Close));
}

#[test]
fn sending_requires_an_active_session() {
    let pending = SessionBuilder::new()
        .add_topics(vec![Topic::ChatMessage])
        .build()
        .unwrap();
    let core = pending.activate(demo_credentials());
    assert_eq!(
        core.plan_send("hello".to_string()).unwrap_err(),
        SendError::NotAuthenticated
    );
}

#[test]
fn sending_on_an_active_session_is_correlated_to_it() {
    let core = active_core();
    let cmd = core.plan_send("Join the discord!".to_string()).unwrap();
    assert_eq!(cmd.session_id, "sess-9");
    assert_eq!(cmd.text, "Join the discord!");
}

#[test]
fn sending_while_closing_is_cancelled() {
    let mut core = active_core();
    core.handle(SessionInput::CloseRequested);
    assert_eq!(
        core.plan_send("late".to_string()).unwrap_err(),
        SendError::Cancelled
    );
}

#[test]
fn remote_answers_become_acks_or_typed_rejections() {
    assert_eq!(
        finish_send(SendOutcome::Accepted { message_id: 99 }),
        Ok(Ack { message_id: 99 })
    );
    assert_eq!(
        finish_send(SendOutcome::Rejected { code: 429 }),
        Err(SendError::RemoteRejected(429))
    );
}

#[test]
fn building_without_topics_aborts_construction() {
    let r = SessionBuilder::new().build();
    assert!(matches!(
        r,
        Err(BuildError::Config(ConfigError::NoSubscriptionsRequested))
    ));
}
