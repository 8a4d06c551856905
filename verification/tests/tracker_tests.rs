use activity_tracker::session::{complete_session, ActivitySession};
use activity_tracker::snapshot::NativeActivity;
use activity_tracker::tracker::ActivityTracker;

fn snap(app: &str, title: &str, idle: u64, t: i64) -> NativeActivity {
    NativeActivity {
        app_name: app.to_string(),
        window_title: title.to_string(),
        bundle_id: None,
        is_browser: false,
        idle_seconds: idle,
        timestamp: t,
    }
}

fn session(app: &str, title: &str, start: i64, heartbeat: i64) -> ActivitySession {
    ActivitySession {
        app_name: app.to_string(),
        window_title: title.to_string(),
        bundle_id: None,
        is_browser: false,
        start_time: start,
        last_heartbeat: heartbeat,
    }
}

#[test]
fn test_activity_state_default() {
    let state = activity_tracker::tracker::ActivityState::default();
    assert!(state.is_tracking);
    assert!(!state.is_idle);
    assert_eq!(state.idle_threshold_seconds, 300);
}

#[test]
fn test_new_tracker_initial_state() {
    let t = ActivityTracker::new();
    assert!(t.event_state.current_session.is_none());
    assert!(t.event_state.is_tracking);
    assert!(!t.event_state.is_idle);
    assert_eq!(t.event_state.idle_threshold_seconds, 300);
    assert_eq!(t.event_state.sessions_sent, 0);
    assert!(t.event_state.last_send_error.is_none());
}

#[test]
fn test_scenario_editor_title_change() {
    // Editor stays frontmost; a title change after ten seconds ends the first
    // session and starts a new one.
    let mut t = ActivityTracker::new();
    let r1 = t.on_tick(&snap("Editor", "main.go", 0, 0));
    assert!(r1.is_none());
    let s = t.event_state.current_session.as_ref().unwrap();
    assert_eq!(s.app_name, "Editor");
    assert_eq!(s.window_title, "main.go");
    assert_eq!(s.start_time, 0);

    let r2 = t.on_tick(&snap("Editor", "main.go", 0, 3));
    assert!(r2.is_none());
    let s = t.event_state.current_session.as_ref().unwrap();
    assert_eq!(s.start_time, 0);
    assert_eq!(s.last_heartbeat, 3);

    let r3 = t.on_tick(&snap("Editor", "README.md", 0, 10));
    let c = r3.expect("title change must finalize the session");
    assert_eq!(c.app_name, "Editor");
    assert_eq!(c.window_title, "main.go");
    assert_eq!(c.duration, 10);
    assert_eq!(c.start_time, 0);
    assert_eq!(c.end_time, 10);
    assert_eq!(c.source, "native_event");
    assert!(c.url.is_none());
    let s = t.event_state.current_session.as_ref().unwrap();
    assert_eq!(s.window_title, "README.md");
    assert_eq!(s.start_time, 10);
}

#[test]
fn test_scenario_idle_finalizes_once() {
    // A session runs from t=0; crossing the idle threshold finalizes it with
    // duration 400, and staying idle produces nothing further.
    let mut t = ActivityTracker::new();
    assert!(t.on_tick(&snap("Editor", "main.go", 0, 0)).is_none());

    let r = t.on_tick(&snap("Editor", "main.go", 400, 400));
    let c = r.expect("crossing the idle threshold must finalize");
    assert_eq!(c.duration, 400);
    assert!(t.event_state.is_idle);
    assert!(t.event_state.current_session.is_none());
    t.record_send_success();
    assert_eq!(t.event_state.sessions_sent, 1);

    let r = t.on_tick(&snap("Editor", "main.go", 410, 410));
    assert!(r.is_none());
    assert!(t.event_state.is_idle);
    assert!(t.event_state.current_session.is_none());
    assert_eq!(t.event_state.sessions_sent, 1);
}

#[test]
fn test_scenario_heartbeat_only() {
    // Same app and title two seconds later: no completed session, only the
    // heartbeat moves.
    let mut t = ActivityTracker::new();
    assert!(t.on_tick(&snap("Editor", "main.go", 0, 0)).is_none());
    let r = t.on_tick(&snap("Editor", "main.go", 0, 2));
    assert!(r.is_none());
    let s = t.event_state.current_session.as_ref().unwrap();
    assert_eq!(s.last_heartbeat, 2);
    assert_eq!(s.start_time, 0);
}

#[test]
fn test_same_second_session_discarded() {
    let r = complete_session(session("Editor", "main.go", 5, 5), 5);
    assert!(r.is_none());
}

#[test]
fn test_clock_running_backwards_discards() {
    let r = complete_session(session("Editor", "main.go", 10, 10), 7);
    assert!(r.is_none());
}

#[test]
fn test_completed_session_fields() {
    let c = complete_session(session("Terminal", "~", 100, 230), 250).unwrap();
    assert_eq!(c.app_name, "Terminal");
    assert_eq!(c.window_title, "~");
    assert_eq!(c.start_time, 100);
    assert_eq!(c.end_time, 250);
    assert_eq!(c.duration, 150);
    assert_eq!(c.source, "native_event");
    assert!(c.url.is_none());
}

#[test]
fn test_idle_after_resume_starts_fresh_session() {
    // Going idle ends the session; becoming active again starts a fresh one
    // rather than resurrecting the old one.
    let mut t = ActivityTracker::new();
    assert!(t.on_tick(&snap("Editor", "main.go", 0, 0)).is_none());
    assert!(t.on_tick(&snap("Editor", "main.go", 300, 400)).is_some());
    assert!(t.event_state.is_idle);

    let r = t.on_tick(&snap("Editor", "main.go", 0, 500));
    assert!(r.is_none());
    assert!(!t.event_state.is_idle);
    let s = t.event_state.current_session.as_ref().unwrap();
    assert_eq!(s.start_time, 500);
}

#[test]
fn test_idle_exactly_at_threshold() {
    let mut t = ActivityTracker::new();
    assert!(t.on_tick(&snap("Editor", "main.go", 0, 0)).is_none());
    let r = t.on_tick(&snap("Editor", "main.go", 300, 300));
    assert!(r.is_some(), "idle_seconds equal to the threshold counts as idle");
    assert!(t.event_state.is_idle);
}

#[test]
fn test_threshold_change_applies_to_next_tick() {
    let mut t = ActivityTracker::new();
    assert!(t.on_tick(&snap("Editor", "main.go", 0, 0)).is_none());
    t.set_idle_threshold(60);
    assert_eq!(t.event_state.idle_threshold_seconds, 60);
    assert_eq!(t.state.idle_threshold_seconds, 60);
    let r = t.on_tick(&snap("Editor", "main.go", 90, 120));
    assert!(r.is_some(), "the lowered threshold takes effect on the next tick");
    assert!(t.event_state.is_idle);
}

#[test]
fn test_has_activity_changed() {
    let mut t = ActivityTracker::new();
    assert!(t.has_activity_changed(&snap("Editor", "main.go", 0, 0)));
    assert!(t.on_tick(&snap("Editor", "main.go", 0, 0)).is_none());
    assert!(!t.has_activity_changed(&snap("Editor", "main.go", 0, 5)));
    assert!(t.has_activity_changed(&snap("Editor", "README.md", 0, 5)));
    assert!(t.has_activity_changed(&snap("Browser", "main.go", 0, 5)));
    // Metadata-only differences are not a change.
    let mut meta = snap("Editor", "main.go", 0, 5);
    meta.bundle_id = Some("com.example.editor".to_string());
    meta.is_browser = true;
    assert!(!t.has_activity_changed(&meta));
}

#[test]
fn test_empty_window_title_is_valid() {
    // A snapshot with an empty title can both start and continue a session.
    let mut t = ActivityTracker::new();
    assert!(t.on_tick(&snap("Player", "", 0, 0)).is_none());
    let r = t.on_tick(&snap("Player", "", 0, 4));
    assert!(r.is_none());
    let s = t.event_state.current_session.as_ref().unwrap();
    assert_eq!(s.window_title, "");
    assert_eq!(s.last_heartbeat, 4);
}

#[test]
fn test_finalize_session_clears_and_reports() {
    let mut t = ActivityTracker::new();
    assert!(t.on_tick(&snap("Editor", "main.go", 0, 0)).is_none());
    let c = t.finalize_session(42).expect("42 seconds is long enough");
    assert_eq!(c.duration, 42);
    assert!(t.event_state.current_session.is_none());
    assert!(t.finalize_session(50).is_none());
}

#[test]
fn test_handle_idle_is_idempotent() {
    let mut t = ActivityTracker::new();
    assert!(t.on_tick(&snap("Editor", "main.go", 0, 0)).is_none());
    let first = t.handle_idle(10);
    assert!(first.is_some());
    assert!(t.event_state.is_idle);
    let second = t.handle_idle(20);
    assert!(second.is_none());
    assert!(t.event_state.is_idle);
}

#[test]
fn test_handle_active_only_after_idle() {
    let mut t = ActivityTracker::new();
    t.handle_active(&snap("Editor", "main.go", 0, 7));
    assert!(t.event_state.current_session.is_none(), "not idle: nothing starts");
    let _ = t.handle_idle(10);
    t.handle_active(&snap("Editor", "main.go", 0, 12));
    assert!(!t.event_state.is_idle);
    let s = t.event_state.current_session.as_ref().unwrap();
    assert_eq!(s.start_time, 12);
}

#[test]
fn test_set_tracking_touches_both_states() {
    let mut t = ActivityTracker::new();
    t.set_tracking(false);
    assert!(!t.state.is_tracking);
    assert!(!t.event_state.is_tracking);
    t.set_tracking(true);
    assert!(t.state.is_tracking);
    assert!(t.event_state.is_tracking);
}

#[test]
fn test_update_activity_sets_view() {
    let mut t = ActivityTracker::new();
    t.update_activity(snap("Editor", "main.go", 400, 77));
    assert!(t.state.is_idle, "400 seconds idle crosses the default threshold");
    assert_eq!(t.state.last_update, Some(77));
    let a = t.state.current_activity.as_ref().unwrap();
    assert_eq!(a.app_name, "Editor");
    t.update_activity(snap("Editor", "main.go", 0, 90));
    assert!(!t.state.is_idle);
}

#[test]
fn test_delivery_bookkeeping() {
    let mut t = ActivityTracker::new();
    t.record_send_error("connection refused".to_string());
    assert_eq!(t.event_state.last_send_error.as_deref(), Some("connection refused"));
    assert_eq!(t.event_state.sessions_sent, 0);
    t.record_send_success();
    assert_eq!(t.event_state.sessions_sent, 1);
    assert!(t.event_state.last_send_error.is_none());
    t.record_send_success();
    assert_eq!(t.event_state.sessions_sent, 2);
}

#[test]
fn test_get_state_copies() {
    let mut t = ActivityTracker::new();
    t.update_activity(snap("Editor", "main.go", 0, 5));
    let view = t.get_state();
    assert_eq!(view.last_update, Some(5));
    assert_eq!(view.current_activity.unwrap().app_name, "Editor");
    let _ = t.on_tick(&snap("Editor", "main.go", 0, 5));
    let ev = t.get_event_state();
    assert_eq!(ev.current_session.unwrap().app_name, "Editor");
    assert_eq!(ev.sessions_sent, 0);
}
