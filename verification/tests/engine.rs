use simsync::clock::SimulationClock;
use simsync::paths::check_static_path;
use simsync::session::{ConnectionSession, InboundEvent, SessionState};
use simsync::snapshot::{Body, Snapshot};
use simsync::store::StateStore;

fn body(index: u32, gen: u32, x: &str, y: &str, z: &str) -> Body {
    Body::checked_new(index, gen, x.to_string(), y.to_string(), z.to_string()).unwrap()
}

fn cold_store() -> StateStore {
    let bodies = vec![
        body(0, 0, "0", "10", "0"),
        body(1, 0, "-5", "5", "0"),
        body(2, 0, "5", "15", "0"),
    ];
    StateStore::new(Snapshot::initial(60, bodies))
}

#[test]
fn cold_start_snapshot() {
    let store = cold_store();
    let snap = store.latest();
    assert_eq!(snap.step, 0);
    assert_eq!(snap.ticks_per_sec, 60);
    assert_eq!(snap.bodies.len(), 3);
    assert_eq!(snap.bodies[0].index, 0);
    assert_eq!(snap.bodies[1].x, "-5");
    assert_eq!(snap.bodies[2].y, "15");
    assert_eq!(
        snap.to_json(),
        "{\"step\":0,\"time\":0.000000,\"bodies\":[\
         {\"id\":\"0-0\",\"pos\":[0,10,0]},\
         {\"id\":\"1-0\",\"pos\":[-5,5,0]},\
         {\"id\":\"2-0\",\"pos\":[5,15,0]}]}"
    );
}

#[test]
fn empty_snapshot_json() {
    let store = StateStore::new(Snapshot::initial(60, Vec::new()));
    assert_eq!(
        store.latest().to_json(),
        "{\"step\":0,\"time\":0.000000,\"bodies\":[]}"
    );
}

#[test]
fn snapshot_json_is_valid_json() {
    let store = cold_store();
    let text = store.latest().to_json();
    let v: serde_json::Value = serde_json::from_str(&text).unwrap();
    assert_eq!(v["step"].as_u64(), Some(0));
    assert_eq!(v["time"].as_f64(), Some(0.0));
    let bodies = v["bodies"].as_array().unwrap();
    assert_eq!(bodies.len(), 3);
    assert_eq!(bodies[0]["id"].as_str(), Some("0-0"));
    assert_eq!(bodies[1]["pos"][0].as_f64(), Some(-5.0));
    assert_eq!(bodies[2]["pos"][1].as_f64(), Some(15.0));
}

#[test]
fn steady_tick_sixty_steps() {
    let mut store = StateStore::new(Snapshot::initial(60, Vec::new()));
    let clock = SimulationClock::new(60);
    for _ in 0..60 {
        clock.tick(&mut store, Vec::new());
    }
    let snap = store.latest();
    assert_eq!(snap.step, 60);
    assert_eq!(snap.sim_time_micros(), 1_000_000);
    let text = snap.to_json();
    assert!(text.starts_with("{\"step\":60,\"time\":1.000000,"));
}

#[test]
fn tick_advances_step_by_one() {
    let mut store = StateStore::new(Snapshot::initial(60, Vec::new()));
    let clock = SimulationClock::new(60);
    for expected in 1u64..=5 {
        clock.tick(&mut store, Vec::new());
        assert_eq!(store.latest().step, expected);
    }
}

#[test]
fn tick_period_millis() {
    assert_eq!(SimulationClock::new(60).period_millis(), 16);
    assert_eq!(SimulationClock::new(1000).period_millis(), 1);
}

#[test]
fn fractional_time_rendering() {
    let mut store = StateStore::new(Snapshot::initial(60, Vec::new()));
    let clock = SimulationClock::new(60);
    clock.tick(&mut store, Vec::new());
    // one tick at 60 per second: 1/60 s, floored to microseconds
    assert_eq!(store.latest().sim_time_micros(), 16_666);
    assert_eq!(
        store.latest().to_json(),
        "{\"step\":1,\"time\":0.016666,\"bodies\":[]}"
    );
}

#[test]
fn upd_returns_current_snapshot() {
    let mut store = cold_store();
    let mut session = ConnectionSession::open(&mut store);
    let reply = session.on_text(&store, b"UPD:whatever");
    assert_eq!(reply.unwrap(), store.latest().to_json());
}

#[test]
fn upd_twice_without_tick_is_idempotent() {
    let mut store = cold_store();
    let mut session = ConnectionSession::open(&mut store);
    let first = session.on_text(&store, b"UPD:1").unwrap();
    let second = session.on_text(&store, b"UPD:2").unwrap();
    assert_eq!(first, second);
}

#[test]
fn upd_after_tick_sees_new_step() {
    let mut store = cold_store();
    let clock = SimulationClock::new(60);
    let mut session = ConnectionSession::open(&mut store);
    let before = session.on_text(&store, b"UPD:").unwrap();
    clock.tick(&mut store, Vec::new());
    let after = session.on_text(&store, b"UPD:").unwrap();
    assert_ne!(before, after);
    assert!(after.starts_with("{\"step\":1,"));
}

#[test]
fn unknown_command_is_silently_ignored() {
    let mut store = cold_store();
    let mut session = ConnectionSession::open(&mut store);
    let count_before = store.viewer_count();
    assert!(session.on_text(&store, b"FOO:bar").is_none());
    assert!(session.on_text(&store, b"no delimiter").is_none());
    assert!(session.on_text(&store, b"UPD").is_none());
    assert!(session.on_text(&store, b"UPDX:1").is_none());
    assert!(session.on_text(&store, b"xUPD:1").is_none());
    assert!(session.on_text(&store, b":UPD").is_none());
    assert!(session.on_text(&store, b"").is_none());
    assert_eq!(store.viewer_count(), count_before);
    assert!(matches!(session.state, SessionState::Connected));
}

#[test]
fn join_leave_bookkeeping() {
    let mut store = cold_store();
    let mut viewer_a = ConnectionSession::open(&mut store);
    assert_eq!(store.viewer_count(), 1);
    let mut viewer_b = ConnectionSession::open(&mut store);
    assert_eq!(store.viewer_count(), 2);
    let reply = viewer_b.on_text(&store, b"UPD:");
    assert!(reply.is_some());
    viewer_a.on_close(&mut store);
    assert_eq!(store.viewer_count(), 1);
    let reply = viewer_b.on_text(&store, b"UPD:");
    assert_eq!(reply.unwrap(), store.latest().to_json());
}

#[test]
fn disconnect_runs_exactly_once() {
    let mut store = cold_store();
    let mut session = ConnectionSession::open(&mut store);
    assert_eq!(store.viewer_count(), 1);
    session.on_close(&mut store);
    assert_eq!(store.viewer_count(), 0);
    session.on_close(&mut store);
    assert_eq!(store.viewer_count(), 0);
    assert!(session.on_text(&store, b"UPD:").is_none());
}

#[test]
fn viewer_count_never_negative() {
    let mut store = cold_store();
    assert_eq!(store.disconnect(), 0);
    assert_eq!(store.connect(), 1);
    assert_eq!(store.connect(), 2);
    assert_eq!(store.disconnect(), 1);
    assert_eq!(store.disconnect(), 0);
    assert_eq!(store.disconnect(), 0);
}

#[test]
fn net_count_equals_connects_minus_disconnects() {
    let mut store = cold_store();
    // 5 connects, 3 disconnects, arbitrarily interleaved but each
    // disconnect after a matching connect
    store.connect();
    store.connect();
    store.disconnect();
    store.connect();
    store.connect();
    store.disconnect();
    store.disconnect();
    store.connect();
    assert_eq!(store.viewer_count(), 2);
}

#[test]
fn handle_event_dispatch() {
    let mut store = cold_store();
    let mut session = ConnectionSession::open(&mut store);
    let reply = session.handle_event(&mut store, &InboundEvent::Text(b"UPD:x".to_vec()));
    assert_eq!(reply.unwrap(), store.latest().to_json());
    let reply = session.handle_event(&mut store, &InboundEvent::Text(b"FOO:x".to_vec()));
    assert!(reply.is_none());
    assert_eq!(store.viewer_count(), 1);
    let reply = session.handle_event(&mut store, &InboundEvent::Close);
    assert!(reply.is_none());
    assert_eq!(store.viewer_count(), 0);
    assert!(matches!(session.state, SessionState::Terminated));
}

#[test]
fn transport_fault_terminates_session() {
    let mut store = cold_store();
    let mut session = ConnectionSession::open(&mut store);
    session.handle_event(&mut store, &InboundEvent::Fault);
    assert_eq!(store.viewer_count(), 0);
    assert!(session.on_text(&store, b"UPD:").is_none());
}

#[test]
fn body_coordinates_must_be_decimal() {
    assert!(Body::checked_new(0, 0, "0".into(), "10.25".into(), "-0.5".into()).is_some());
    assert!(Body::checked_new(0, 0, "NaN".into(), "0".into(), "0".into()).is_none());
    assert!(Body::checked_new(0, 0, "inf".into(), "0".into(), "0".into()).is_none());
    assert!(Body::checked_new(0, 0, "1e5".into(), "0".into(), "0".into()).is_none());
    assert!(Body::checked_new(0, 0, "00.5".into(), "0".into(), "0".into()).is_none());
    assert!(Body::checked_new(0, 0, "1.".into(), "0".into(), "0".into()).is_none());
    assert!(Body::checked_new(0, 0, ".5".into(), "0".into(), "0".into()).is_none());
    assert!(Body::checked_new(0, 0, "-".into(), "0".into(), "0".into()).is_none());
    assert!(Body::checked_new(0, 0, "".into(), "0".into(), "0".into()).is_none());
    assert!(Body::checked_new(0, 0, "3.1415".into(), "0".into(), "0".into()).is_some());
}

#[test]
fn static_path_containment() {
    assert!(check_static_path(b"index.html"));
    assert!(check_static_path(b"css/style.css"));
    assert!(check_static_path(b"a/..b/c"));
    assert!(check_static_path(b"notes..txt"));
    assert!(!check_static_path(b""));
    assert!(!check_static_path(b"/etc/passwd"));
    assert!(!check_static_path(b".."));
    assert!(!check_static_path(b"../secret"));
    assert!(!check_static_path(b"a/../secret"));
    assert!(!check_static_path(b"a/b/.."));
    assert!(!check_static_path(b"a\\b"));
    assert!(!check_static_path(b"a\0b"));
}
