use daneel_dashboard::client::{ClientAction, ClientPhase, StreamClient, StreamEvent, RETRY_DELAY_MS};
use daneel_dashboard::fmt::format_duration;
use daneel_dashboard::metrics::{DashboardMetrics, IdentityMetrics, ThoughtSummary};
use daneel_dashboard::store::MetricsStore;
use daneel_dashboard::view::status_text;

fn sample_snapshot(name: &str, uptime: u64) -> DashboardMetrics {
    let mut s = DashboardMetrics::default();
    s.timestamp = Some(1700000000);
    s.identity = IdentityMetrics {
        name: name.to_string(),
        uptime_seconds: uptime,
        lifetime_thoughts: 1234567,
        session_thoughts: 42,
        restart_count: 3,
    };
    s.emotional.connection_drive = 7300;
    s.recent_thoughts = vec![ThoughtSummary {
        id: "t1".to_string(),
        content_preview: "first light".to_string(),
        salience: 9100,
        timestamp: None,
    }];
    s
}

#[test]
fn store_starts_empty_and_disconnected() {
    let store = MetricsStore::new();
    assert!(!store.connected());
    assert!(store.snapshot().timestamp.is_none());
    assert_eq!(store.snapshot().identity.name, "");
    assert_eq!(store.snapshot().identity.uptime_seconds, 0);
    assert_eq!(store.snapshot().recent_thoughts.len(), 0);
    assert_eq!(store.snapshot_notifications(), 0);
    assert_eq!(store.connected_notifications(), 0);
}

#[test]
fn well_formed_frame_replaces_snapshot_with_one_notification() {
    let mut client = StreamClient::new();
    let mut store = MetricsStore::new();
    client.step(&mut store, StreamEvent::OpenSucceeded);
    let before = store.snapshot_notifications();
    let action = client.step(
        &mut store,
        StreamEvent::TextFrame(Some(sample_snapshot("Timmy", 3725))),
    );
    assert_eq!(action, ClientAction::AwaitFrame);
    assert_eq!(store.snapshot().identity.name, "Timmy");
    assert_eq!(store.snapshot().identity.uptime_seconds, 3725);
    assert_eq!(store.snapshot().identity.lifetime_thoughts, 1234567);
    assert_eq!(store.snapshot().recent_thoughts.len(), 1);
    assert_eq!(store.snapshot().recent_thoughts[0].id, "t1");
    assert_eq!(store.snapshot_notifications(), before + 1);
    // the connectivity binding saw nothing new
    assert_eq!(store.connected_notifications(), 1);
    assert!(store.connected());
}

#[test]
fn malformed_frame_changes_nothing() {
    let mut client = StreamClient::new();
    let mut store = MetricsStore::new();
    client.step(&mut store, StreamEvent::OpenSucceeded);
    client.step(
        &mut store,
        StreamEvent::TextFrame(Some(sample_snapshot("Timmy", 65))),
    );
    let snap_notifs = store.snapshot_notifications();
    let conn_notifs = store.connected_notifications();
    let action = client.step(&mut store, StreamEvent::TextFrame(None));
    assert_eq!(action, ClientAction::AwaitFrame);
    assert_eq!(client.phase(), ClientPhase::Connected);
    // snapshot and connection state are exactly as they were
    assert_eq!(store.snapshot().identity.name, "Timmy");
    assert_eq!(store.snapshot().identity.uptime_seconds, 65);
    assert!(store.connected());
    assert_eq!(store.snapshot_notifications(), snap_notifs);
    assert_eq!(store.connected_notifications(), conn_notifs);
}

#[test]
fn binary_frame_is_ignored() {
    let mut client = StreamClient::new();
    let mut store = MetricsStore::new();
    client.step(&mut store, StreamEvent::OpenSucceeded);
    let snap_notifs = store.snapshot_notifications();
    let action = client.step(&mut store, StreamEvent::BinaryFrame);
    assert_eq!(action, ClientAction::AwaitFrame);
    assert_eq!(client.phase(), ClientPhase::Connected);
    assert!(store.connected());
    assert_eq!(store.snapshot_notifications(), snap_notifs);
}

#[test]
fn stream_end_disconnects_and_waits_fixed_delay() {
    let mut client = StreamClient::new();
    let mut store = MetricsStore::new();
    client.step(&mut store, StreamEvent::OpenSucceeded);
    client.step(
        &mut store,
        StreamEvent::TextFrame(Some(sample_snapshot("Timmy", 9))),
    );
    let action = client.step(&mut store, StreamEvent::StreamEnded);
    assert_eq!(action, ClientAction::Wait(RETRY_DELAY_MS));
    assert_eq!(action, ClientAction::Wait(2000));
    assert_eq!(client.phase(), ClientPhase::WaitingToRetry);
    assert!(!store.connected());
    // the snapshot survives the disconnection
    assert_eq!(store.snapshot().identity.name, "Timmy");
}

#[test]
fn failed_open_retries_after_fixed_delay() {
    let mut client = StreamClient::new();
    let mut store = MetricsStore::new();
    let action = client.step(&mut store, StreamEvent::OpenFailed);
    assert_eq!(action, ClientAction::Wait(2000));
    assert_eq!(client.phase(), ClientPhase::WaitingToRetry);
    assert!(!store.connected());
    assert_eq!(store.connected_notifications(), 0);
    let action = client.step(&mut store, StreamEvent::RetryDelayElapsed);
    assert_eq!(action, ClientAction::OpenConnection);
    assert_eq!(client.phase(), ClientPhase::Connecting);
}

#[test]
fn end_to_end_scenario() {
    let mut client = StreamClient::new();
    let mut store = MetricsStore::new();
    assert_eq!(client.phase(), ClientPhase::Connecting);

    // the connection opens
    let action = client.step(&mut store, StreamEvent::OpenSucceeded);
    assert_eq!(action, ClientAction::AwaitFrame);
    assert_eq!(status_text(store.connected()), "Connected");

    // a frame arrives: identity Timmy, uptime 3725 seconds
    let action = client.step(
        &mut store,
        StreamEvent::TextFrame(Some(sample_snapshot("Timmy", 3725))),
    );
    assert_eq!(action, ClientAction::AwaitFrame);
    assert_eq!(store.snapshot().identity.name, "Timmy");
    assert_eq!(
        format_duration(store.snapshot().identity.uptime_seconds),
        "1h 2m 5s"
    );

    // the connection drops
    let action = client.step(&mut store, StreamEvent::StreamEnded);
    assert_eq!(status_text(store.connected()), "Disconnected");
    assert_eq!(action, ClientAction::Wait(2000));

    // only after the delay has elapsed is a new attempt issued
    let action = client.step(&mut store, StreamEvent::RetryDelayElapsed);
    assert_eq!(action, ClientAction::OpenConnection);
    assert_eq!(client.phase(), ClientPhase::Connecting);
}
