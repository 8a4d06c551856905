//! The host application's shared state around the tracker: tracking and
//! pause flags, focus-mode bookkeeping, the current-activity labels shown in
//! the UI, and the status shapes the command surface answers with.

use vstd::prelude::*;

use crate::tracker::ActivityTracker;

verus! {

/// The application state every command surface reads and writes.
pub struct AppState {
    pub tracking_active: bool,
    pub focus_mode: bool,
    /// Focus session length, in seconds.
    pub focus_duration: u32,
    /// Seconds of the focus session already elapsed.
    pub focus_elapsed: u32,
    pub focus_session_name: Option<String>,
    pub current_app: Option<String>,
    pub current_window_title: Option<String>,
    pub current_category: Option<String>,
    pub paused: bool,
    pub idle_seconds: u64,
    pub is_idle: bool,
}

impl Default for AppState {
    /// Tracking on, nothing paused, no focus session, no activity seen yet.
    fn default() -> (r: Self)
        ensures
            r.tracking_active == true,
            r.focus_mode == false,
            r.focus_duration == 0,
            r.focus_elapsed == 0,
            r.focus_session_name is None,
            r.current_app is None,
            r.current_window_title is None,
            r.current_category is None,
            r.paused == false,
            r.idle_seconds == 0,
            r.is_idle == false,
    {
        AppState {
            tracking_active: true,
            focus_mode: false,
            focus_duration: 0,
            focus_elapsed: 0,
            focus_session_name: None,
            current_app: None,
            current_window_title: None,
            current_category: None,
            paused: false,
            idle_seconds: 0,
            is_idle: false,
        }
    }
}

/// What the tray icon should show.
#[derive(Clone, Copy, Debug, PartialEq, Eq, Structural)]
pub enum TrayStatus {
    /// Tracking runs normally.
    Active,
    /// A focus session is under way.
    Focus,
    /// Tracking is paused.
    Paused,
}

/// The answer to a tracking-status query.
pub struct TrackingStatusResponse {
    pub active: bool,
    pub paused: bool,
    pub focus_mode: bool,
    pub current_app: Option<String>,
    pub current_category: Option<String>,
}

/// The request that starts a focus session.
pub struct StartFocusRequest {
    /// Focus session length, in seconds.
    pub duration: u32,
    pub session_name: Option<String>,
}

/// The request that updates the current-activity labels.
pub struct UpdateActivityRequest {
    pub app_name: Option<String>,
    pub category: Option<String>,
}

/// The application state together with the session tracker, owned by the
/// host's composition root and handed by reference to the poll driver and to
/// the command handlers.
pub struct AppStateWrapper {
    pub state: AppState,
    pub activity_tracker: ActivityTracker,
}

/// Copies an optional string field by value.
fn dup_opt_string(v: &Option<String>) -> (r: Option<String>)
    ensures
        r == *v,
{
    match v {
        Some(s) => Some(s.clone()),
        None => None,
    }
}

impl AppStateWrapper {
    pub open spec fn wf(self) -> bool {
        self.activity_tracker.wf()
    }

    /// A fresh wrapper around a fresh tracker.
    pub fn new() -> (r: Self)
        ensures
            r.wf(),
            r.state.tracking_active == true,
            r.state.paused == false,
            r.state.focus_mode == false,
            r.state.focus_duration == 0,
            r.state.focus_elapsed == 0,
            r.state.focus_session_name is None,
            r.state.current_app is None,
            r.state.current_window_title is None,
            r.state.current_category is None,
            r.state.idle_seconds == 0,
            r.state.is_idle == false,
            r.activity_tracker.event_state.current_session is None,
            r.activity_tracker.event_state.is_tracking == true,
    {
        AppStateWrapper { state: AppState::default(), activity_tracker: ActivityTracker::new() }
    }

    /// A copy of the application state.
    pub fn get_state(&self) -> (r: AppState)
        ensures
            r == self.state,
    {
        AppState {
            tracking_active: self.state.tracking_active,
            focus_mode: self.state.focus_mode,
            focus_duration: self.state.focus_duration,
            focus_elapsed: self.state.focus_elapsed,
            focus_session_name: dup_opt_string(&self.state.focus_session_name),
            current_app: dup_opt_string(&self.state.current_app),
            current_window_title: dup_opt_string(&self.state.current_window_title),
            current_category: dup_opt_string(&self.state.current_category),
            paused: self.state.paused,
            idle_seconds: self.state.idle_seconds,
            is_idle: self.state.is_idle,
        }
    }

    /// Turns tracking on or off; the pause flag always mirrors it.
    pub fn set_tracking(&mut self, active: bool)
        ensures
            final(self).state == (AppState {
                tracking_active: active,
                paused: !active,
                ..old(self).state
            }),
            final(self).activity_tracker == old(self).activity_tracker,
    {
        self.state.tracking_active = active;
        self.state.paused = !active;
    }

    /// Begins or ends a focus session with the given length and name; the
    /// elapsed time restarts from zero either way.
    pub fn set_focus_mode(&mut self, active: bool, duration: u32, session_name: Option<String>)
        ensures
            final(self).state == (AppState {
                focus_mode: active,
                focus_duration: duration,
                focus_elapsed: 0,
                focus_session_name: session_name,
                ..old(self).state
            }),
            final(self).activity_tracker == old(self).activity_tracker,
    {
        self.state.focus_mode = active;
        self.state.focus_duration = duration;
        self.state.focus_elapsed = 0;
        self.state.focus_session_name = session_name;
    }

    /// Records how much of the focus session has elapsed.
    pub fn update_focus_elapsed(&mut self, elapsed: u32)
        ensures
            final(self).state == (AppState { focus_elapsed: elapsed, ..old(self).state }),
            final(self).activity_tracker == old(self).activity_tracker,
    {
        self.state.focus_elapsed = elapsed;
    }

    /// Ends the focus session and clears its bookkeeping.
    pub fn end_focus_mode(&mut self)
        ensures
            final(self).state == (AppState {
                focus_mode: false,
                focus_duration: 0,
                focus_elapsed: 0,
                focus_session_name: None,
                ..old(self).state
            }),
            final(self).activity_tracker == old(self).activity_tracker,
    {
        self.state.focus_mode = false;
        self.state.focus_duration = 0;
        self.state.focus_elapsed = 0;
        self.state.focus_session_name = None;
    }

    /// Sets the current-activity labels shown in the UI.
    pub fn set_current_activity(&mut self, app: Option<String>, category: Option<String>)
        ensures
            final(self).state == (AppState {
                current_app: app,
                current_category: category,
                ..old(self).state
            }),
            final(self).activity_tracker == old(self).activity_tracker,
    {
        self.state.current_app = app;
        self.state.current_category = category;
    }

    /// Records what the probe saw: the labels, the idle time, and the idle
    /// flag derived against the given threshold.
    pub fn update_from_native_activity(
        &mut self,
        app: String,
        window_title: String,
        idle_seconds: u64,
        idle_threshold: u64,
    )
        ensures
            final(self).state == (AppState {
                current_app: Some(app),
                current_window_title: Some(window_title),
                idle_seconds,
                is_idle: idle_seconds >= idle_threshold,
                ..old(self).state
            }),
            final(self).activity_tracker == old(self).activity_tracker,
    {
        self.state.is_idle = idle_seconds >= idle_threshold;
        self.state.idle_seconds = idle_seconds;
        self.state.current_app = Some(app);
        self.state.current_window_title = Some(window_title);
    }

    /// Flips the pause flag; tracking always mirrors its negation. Returns
    /// whether the tracker is now paused.
    pub fn toggle_pause(&mut self) -> (r: bool)
        ensures
            r == !old(self).state.paused,
            final(self).state == (AppState {
                paused: !old(self).state.paused,
                tracking_active: old(self).state.paused,
                ..old(self).state
            }),
            final(self).activity_tracker == old(self).activity_tracker,
    {
        self.state.paused = !self.state.paused;
        self.state.tracking_active = !self.state.paused;
        self.state.paused
    }

    /// What the tray icon should show: a focus session outranks the pause
    /// flag, and anything else counts as active tracking.
    pub fn get_tray_status(&self) -> (r: TrayStatus)
        ensures
            self.state.focus_mode ==> r == TrayStatus::Focus,
            !self.state.focus_mode && self.state.paused ==> r == TrayStatus::Paused,
            !self.state.focus_mode && !self.state.paused ==> r == TrayStatus::Active,
    {
        if self.state.focus_mode {
            TrayStatus::Focus
        } else if self.state.paused {
            TrayStatus::Paused
        } else {
            TrayStatus::Active
        }
    }
}

/// The tracking-status answer: active mirrors the tracking flag, and the
/// current labels carry over.
pub fn get_tracking_status(state: &AppStateWrapper) -> (r: TrackingStatusResponse)
    ensures
        r.active == state.state.tracking_active,
        r.paused == state.state.paused,
        r.focus_mode == state.state.focus_mode,
        r.current_app == state.state.current_app,
        r.current_category == state.state.current_category,
{
    TrackingStatusResponse {
        active: state.state.tracking_active,
        paused: state.state.paused,
        focus_mode: state.state.focus_mode,
        current_app: dup_opt_string(&state.state.current_app),
        current_category: dup_opt_string(&state.state.current_category),
    }
}

/// Flips the pause flag and answers with the resulting status; `active` is
/// the negation of the new pause flag.
pub fn toggle_tracking(state: &mut AppStateWrapper) -> (r: TrackingStatusResponse)
    ensures
        final(state).state == (AppState {
            paused: !old(state).state.paused,
            tracking_active: old(state).state.paused,
            ..old(state).state
        }),
        final(state).activity_tracker == old(state).activity_tracker,
        r.active == old(state).state.paused,
        r.paused == !old(state).state.paused,
        r.focus_mode == old(state).state.focus_mode,
{
    let paused = state.toggle_pause();
    TrackingStatusResponse {
        active: !paused,
        paused,
        focus_mode: state.state.focus_mode,
        current_app: dup_opt_string(&state.state.current_app),
        current_category: dup_opt_string(&state.state.current_category),
    }
}

/// Disables tracking and answers with the resulting status.
pub fn pause_tracking(state: &mut AppStateWrapper) -> (r: TrackingStatusResponse)
    ensures
        final(state).state == (AppState {
            tracking_active: false,
            paused: true,
            ..old(state).state
        }),
        final(state).activity_tracker == old(state).activity_tracker,
        r.active == false,
        r.paused == true,
{
    state.set_tracking(false);
    get_tracking_status(state)
}

/// Enables tracking and answers with the resulting status.
pub fn resume_tracking(state: &mut AppStateWrapper) -> (r: TrackingStatusResponse)
    ensures
        final(state).state == (AppState {
            tracking_active: true,
            paused: false,
            ..old(state).state
        }),
        final(state).activity_tracker == old(state).activity_tracker,
        r.active == true,
        r.paused == false,
{
    state.set_tracking(true);
    get_tracking_status(state)
}

/// Seconds of the focus session still to run: the length less the elapsed
/// time, and never below zero.
pub fn focus_remaining(state: &AppState) -> (r: u32)
    ensures
        r == if state.focus_duration > state.focus_elapsed {
            state.focus_duration - state.focus_elapsed
        } else {
            0
        },
{
    if state.focus_duration > state.focus_elapsed {
        state.focus_duration - state.focus_elapsed
    } else {
        0
    }
}

} // verus!
