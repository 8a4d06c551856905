use activity_tracker::appstate::AppStateWrapper;
use activity_tracker::appstate::{
    focus_remaining, get_tracking_status, pause_tracking, resume_tracking, toggle_tracking,
    TrayStatus,
};
use activity_tracker::blocking::{
    check_distraction, warning_body, warning_title, DistractionBlockingConfig,
};
use activity_tracker::driver::{
    is_aw_server_running, poll_step, server_slot_clears, ServerPoll,
};
use activity_tracker::snapshot::{
    is_browser_app, parse_decimal_digits, parse_hid_idle_line, parse_probe_output, ActivityPayload,
    NativeActivity, NativeActivityResponse,
};
use activity_tracker::tracker::ActivityTracker;
use activity_tracker::wire::{activity_record, session_record};

fn snap(app: &str, title: &str, idle: u64, t: i64) -> NativeActivity {
    NativeActivity {
        app_name: app.to_string(),
        window_title: title.to_string(),
        bundle_id: None,
        is_browser: false,
        idle_seconds: idle,
        timestamp: t,
    }
}

#[test]
fn test_is_browser() {
    assert!(is_browser_app("Google Chrome", &None));
    assert!(is_browser_app("Safari", &None));
    assert!(!is_browser_app("VS Code", &None));
    assert!(is_browser_app("Unknown", &Some("com.google.Chrome".to_string())));
}

#[test]
fn test_is_browser_more_cases() {
    assert!(is_browser_app("Firefox Developer Edition", &None));
    assert!(!is_browser_app("Terminal", &Some("com.apple.Terminal".to_string())));
    assert!(is_browser_app("Unknown", &Some("org.mozilla.firefox".to_string())));
}

#[test]
fn test_parse_probe_output() {
    let (app, bundle) = parse_probe_output("Google Chrome|com.google.Chrome");
    assert_eq!(app, "Google Chrome");
    assert_eq!(bundle.as_deref(), Some("com.google.Chrome"));

    let (app, bundle) = parse_probe_output("Finder|missing value");
    assert_eq!(app, "Finder");
    assert!(bundle.is_none());

    let (app, bundle) = parse_probe_output("Terminal|");
    assert_eq!(app, "Terminal");
    assert!(bundle.is_none());

    let (app, bundle) = parse_probe_output("BareName");
    assert_eq!(app, "BareName");
    assert!(bundle.is_none());

    let (app, bundle) = parse_probe_output("Odd|com.odd.app|extra");
    assert_eq!(app, "Odd");
    assert_eq!(bundle.as_deref(), Some("com.odd.app"));
}

#[test]
fn test_parse_decimal_digits() {
    assert_eq!(parse_decimal_digits("12345"), Some(12345));
    assert_eq!(parse_decimal_digits(" \"HIDIdleTime\" = 7000000000"), Some(7000000000));
    assert_eq!(parse_decimal_digits("no digits here"), None);
    assert_eq!(parse_decimal_digits(""), None);
    assert_eq!(parse_decimal_digits("18446744073709551615"), Some(u64::MAX));
    assert_eq!(parse_decimal_digits("18446744073709551616"), None);
    assert_eq!(parse_decimal_digits("a1b2c3"), Some(123));
}

#[test]
fn test_parse_hid_idle_line() {
    assert_eq!(parse_hid_idle_line("  \"HIDIdleTime\" = 7000000000"), Some(7));
    assert_eq!(parse_hid_idle_line("  \"HIDIdleTime\" = 999999999"), Some(0));
    assert_eq!(parse_hid_idle_line("  \"SomethingElse\" = 7000000000"), None);
    assert_eq!(parse_hid_idle_line("  \"HIDIdleTime\" missing sign"), None);
    assert_eq!(parse_hid_idle_line("  \"HIDIdleTime\" = no digits"), None);
}

#[test]
fn test_activity_payload_from() {
    let p = ActivityPayload::from(snap("Editor", "main.go", 12, 34));
    assert_eq!(p.app_name, "Editor");
    assert_eq!(p.window_title, "main.go");
    assert!(p.url.is_none());
    assert!(!p.is_idle);
    assert_eq!(p.idle_seconds, 12);
    assert_eq!(p.timestamp, 34);
    assert_eq!(p.source, "native");
}

#[test]
fn test_native_activity_response_from() {
    let mut s = snap("Editor", "main.go", 12, 34);
    s.bundle_id = Some("com.example.editor".to_string());
    let r = NativeActivityResponse::from(s);
    assert_eq!(r.app_name, "Editor");
    assert_eq!(r.bundle_id.as_deref(), Some("com.example.editor"));
    assert_eq!(r.idle_seconds, 12);
    assert_eq!(r.timestamp, 34);
}

#[test]
fn test_session_record_renders_rfc3339() {
    let c = activity_tracker::session::CompletedSession {
        app_name: "Editor".to_string(),
        window_title: "main.go".to_string(),
        url: None,
        start_time: 10,
        end_time: 1431648000,
        duration: 1431647990,
        source: "native_event".to_string(),
    };
    let rec = session_record(&c);
    assert_eq!(rec.start_time, "1970-01-01T00:00:10+00:00");
    assert_eq!(rec.end_time, "2015-05-15T00:00:00+00:00");
    let chrono_start = chrono::DateTime::<chrono::Utc>::from_timestamp(10, 0)
        .unwrap()
        .to_rfc3339();
    assert_eq!(rec.start_time, chrono_start);
    assert_eq!(rec.duration, 1431647990);
    assert_eq!(rec.app_name, "Editor");
    assert_eq!(rec.source, "native_event");
}

#[test]
fn test_activity_record_renders_rfc3339() {
    let mut p = ActivityPayload::from(snap("Editor", "main.go", 3, 60));
    p.is_idle = true;
    let rec = activity_record(&p);
    assert_eq!(rec.timestamp, "1970-01-01T00:01:00+00:00");
    assert!(rec.is_idle);
    assert_eq!(rec.idle_seconds, 3);
    assert_eq!(rec.source, "native");
}

#[test]
fn test_default_blocking_config() {
    let c = DistractionBlockingConfig::default();
    assert!(!c.enabled);
    assert_eq!(c.blocking_mode, "soft");
    assert_eq!(
        c.blocked_apps,
        vec!["Slack", "Discord", "Messages", "Mail", "Twitter"]
    );
    assert_eq!(
        c.blocked_websites,
        vec![
            "twitter.com",
            "x.com",
            "facebook.com",
            "instagram.com",
            "reddit.com",
            "youtube.com"
        ]
    );
    assert!(c.allowed_apps.is_empty());
    assert!(c.allowed_websites.is_empty());
}

#[test]
fn test_check_distraction_outside_focus() {
    let mut c = DistractionBlockingConfig::default();
    c.enabled = true;
    let r = check_distraction(&c, false, &Some("Slack".to_string()), &None);
    assert!(!r.is_blocked);
    assert_eq!(r.blocking_mode, "soft");
    assert!(r.can_bypass);
    assert!(r.block_type.is_none());
}

#[test]
fn test_check_distraction_disabled_config() {
    let c = DistractionBlockingConfig::default();
    let r = check_distraction(&c, true, &Some("Slack".to_string()), &None);
    assert!(!r.is_blocked, "the default policy is disabled");
    assert_eq!(r.blocking_mode, "soft");
}

#[test]
fn test_check_distraction_blocks_app_case_insensitively() {
    // The match is case-insensitive in both directions: an upper-case entry
    // still blocks a lower-case name.
    let c = DistractionBlockingConfig::enabled_with(
        vec!["SLACK".to_string()],
        vec![],
        "hard".to_string(),
    );
    let r = check_distraction(&c, true, &Some("slack messenger".to_string()), &None);
    assert!(r.is_blocked);
    assert_eq!(r.block_type.as_deref(), Some("app"));
    assert_eq!(r.blocked_item.as_deref(), Some("slack messenger"));
    assert_eq!(r.blocking_mode, "hard");
    assert!(r.can_bypass);
}

#[test]
fn test_check_distraction_strict_forbids_bypass() {
    let c = DistractionBlockingConfig::enabled_with(
        vec!["Slack".to_string()],
        vec![],
        "strict".to_string(),
    );
    let r = check_distraction(&c, true, &Some("Slack".to_string()), &None);
    assert!(r.is_blocked);
    assert!(!r.can_bypass);
}

#[test]
fn test_check_distraction_allowed_list_exempts() {
    let mut c = DistractionBlockingConfig::enabled_with(
        vec!["Slack".to_string()],
        vec![],
        "soft".to_string(),
    );
    c.allowed_apps.push("slack".to_string());
    let r = check_distraction(&c, true, &Some("Slack".to_string()), &None);
    assert!(!r.is_blocked);
}

#[test]
fn test_check_distraction_blocks_website() {
    let c = DistractionBlockingConfig::enabled_with(
        vec![],
        vec!["reddit.com".to_string()],
        "soft".to_string(),
    );
    let r = check_distraction(
        &c,
        true,
        &Some("Browser".to_string()),
        &Some("https://www.reddit.com/r/rust".to_string()),
    );
    assert!(r.is_blocked);
    assert_eq!(r.block_type.as_deref(), Some("website"));
    assert_eq!(r.blocked_item.as_deref(), Some("https://www.reddit.com/r/rust"));
}

#[test]
fn test_check_distraction_app_rule_first() {
    let c = DistractionBlockingConfig::enabled_with(
        vec!["Browser".to_string()],
        vec!["reddit.com".to_string()],
        "soft".to_string(),
    );
    let r = check_distraction(
        &c,
        true,
        &Some("Browser".to_string()),
        &Some("reddit.com".to_string()),
    );
    assert!(r.is_blocked);
    assert_eq!(r.block_type.as_deref(), Some("app"));
}

#[test]
fn test_set_enabled() {
    let mut c = DistractionBlockingConfig::enabled_with(vec![], vec![], "soft".to_string());
    assert!(c.enabled);
    c.set_enabled(false);
    assert!(!c.enabled);
    assert_eq!(c.blocking_mode, "soft");
}

#[test]
fn test_warning_texts() {
    assert_eq!(warning_title("strict"), "Distraction Blocked");
    assert_eq!(warning_title("hard"), "Distraction Warning");
    assert_eq!(warning_title("soft"), "Focus Mode Reminder");
    assert_eq!(
        warning_body("Slack"),
        "Slack is blocked during focus mode"
    );
}

#[test]
fn test_poll_step_stop_drains_session() {
    let mut t = ActivityTracker::new();
    assert!(t.on_tick(&snap("Editor", "main.go", 0, 0)).is_none());
    t.set_tracking(false);
    let out = poll_step(&mut t, Some(snap("Editor", "main.go", 0, 9)), 9);
    assert!(out.stop);
    assert!(out.realtime.is_none());
    let c = out.completed.expect("shutdown drains the live session");
    assert_eq!(c.duration, 9);
    assert!(t.event_state.current_session.is_none());
}

#[test]
fn test_poll_step_skips_failed_acquisition() {
    let mut t = ActivityTracker::new();
    assert!(t.on_tick(&snap("Editor", "main.go", 0, 0)).is_none());
    let out = poll_step(&mut t, None, 5);
    assert!(!out.stop);
    assert!(out.completed.is_none());
    assert!(out.realtime.is_none());
    let s = t.event_state.current_session.as_ref().unwrap();
    assert_eq!(s.last_heartbeat, 0, "a skipped tick changes nothing");
}

#[test]
fn test_poll_step_forwards_realtime_payload() {
    let mut t = ActivityTracker::new();
    let out = poll_step(&mut t, Some(snap("Editor", "main.go", 400, 50)), 50);
    assert!(!out.stop);
    assert!(out.completed.is_none());
    let p = out.realtime.expect("every applied snapshot is forwarded");
    assert_eq!(p.app_name, "Editor");
    assert!(p.is_idle, "400 seconds idle crosses the default threshold");
    assert_eq!(p.idle_seconds, 400);
    assert_eq!(p.timestamp, 50);
    assert_eq!(p.source, "native");
    assert!(t.event_state.is_idle);
    assert_eq!(t.state.last_update, Some(50));
}

#[test]
fn test_server_poll_decisions() {
    assert!(is_aw_server_running(&ServerPoll::Running));
    assert!(!is_aw_server_running(&ServerPoll::NotStarted));
    assert!(!is_aw_server_running(&ServerPoll::Exited));
    assert!(!is_aw_server_running(&ServerPoll::PollFailed));
    assert!(!server_slot_clears(&ServerPoll::Running));
    assert!(!server_slot_clears(&ServerPoll::NotStarted));
    assert!(server_slot_clears(&ServerPoll::Exited));
    assert!(server_slot_clears(&ServerPoll::PollFailed));
}

#[test]
fn test_app_state_defaults_and_toggle() {
    let mut w = AppStateWrapper::new();
    let s = w.get_state();
    assert!(s.tracking_active);
    assert!(!s.paused);
    assert!(!s.focus_mode);
    let paused = w.toggle_pause();
    assert!(paused);
    assert!(!w.state.tracking_active);
    let paused = w.toggle_pause();
    assert!(!paused);
    assert!(w.state.tracking_active);
}

#[test]
fn test_tracking_status_responses() {
    let mut w = AppStateWrapper::new();
    let r = get_tracking_status(&w);
    assert!(r.active);
    assert!(!r.paused);
    let r = pause_tracking(&mut w);
    assert!(!r.active);
    assert!(r.paused);
    let r = resume_tracking(&mut w);
    assert!(r.active);
    assert!(!r.paused);
    let r = toggle_tracking(&mut w);
    assert!(!r.active);
    assert!(r.paused);
}

#[test]
fn test_focus_mode_lifecycle() {
    let mut w = AppStateWrapper::new();
    w.set_focus_mode(true, 1500, Some("Deep Work".to_string()));
    assert!(w.state.focus_mode);
    assert_eq!(w.state.focus_duration, 1500);
    assert_eq!(w.state.focus_elapsed, 0);
    w.update_focus_elapsed(600);
    assert_eq!(focus_remaining(&w.state), 900);
    w.update_focus_elapsed(2000);
    assert_eq!(focus_remaining(&w.state), 0, "remaining never goes negative");
    w.end_focus_mode();
    assert!(!w.state.focus_mode);
    assert_eq!(w.state.focus_duration, 0);
    assert!(w.state.focus_session_name.is_none());
}

#[test]
fn test_tray_status_precedence() {
    let mut w = AppStateWrapper::new();
    assert_eq!(w.get_tray_status(), TrayStatus::Active);
    let _ = w.toggle_pause();
    assert_eq!(w.get_tray_status(), TrayStatus::Paused);
    w.set_focus_mode(true, 60, None);
    assert_eq!(w.get_tray_status(), TrayStatus::Focus);
}

#[test]
fn test_update_from_native_activity() {
    let mut w = AppStateWrapper::new();
    w.update_from_native_activity("Editor".to_string(), "main.go".to_string(), 350, 300);
    assert_eq!(w.state.current_app.as_deref(), Some("Editor"));
    assert_eq!(w.state.current_window_title.as_deref(), Some("main.go"));
    assert_eq!(w.state.idle_seconds, 350);
    assert!(w.state.is_idle);
    w.update_from_native_activity("Editor".to_string(), "main.go".to_string(), 10, 300);
    assert!(!w.state.is_idle);
}

#[test]
fn test_set_current_activity() {
    let mut w = AppStateWrapper::new();
    w.set_current_activity(Some("Editor".to_string()), Some("Development".to_string()));
    assert_eq!(w.state.current_app.as_deref(), Some("Editor"));
    assert_eq!(w.state.current_category.as_deref(), Some("Development"));
}
