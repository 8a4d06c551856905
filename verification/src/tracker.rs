//! The session state machine. It owns the (at most one) live session and the
//! idle flag, applies one snapshot per tick, and decides when a session
//! starts, survives as a heartbeat, or ends into a completed record.

use vstd::prelude::*;

use crate::session::{
    complete_session, completed_from, valid_time, ActivitySession, CompletedSession,
    MIN_SESSION_SECONDS,
};
use crate::snapshot::NativeActivity;
use crate::text::str_eq;

verus! {

/// Threshold, in seconds of inactivity, at which a user counts as idle when
/// no other value is configured.
pub const DEFAULT_IDLE_THRESHOLD_SECONDS: u64 = 300;

/// The per-tick view of current activity, kept for status queries.
pub struct ActivityState {
    pub current_activity: Option<NativeActivity>,
    pub is_tracking: bool,
    pub is_idle: bool,
    pub idle_threshold_seconds: u64,
    /// Observation instant of the last applied snapshot, in Unix seconds.
    pub last_update: Option<i64>,
}

impl Default for ActivityState {
    /// Tracking on, not idle, no activity seen yet, default idle threshold.
    fn default() -> (r: Self)
        ensures
            r.current_activity is None,
            r.is_tracking == true,
            r.is_idle == false,
            r.idle_threshold_seconds == DEFAULT_IDLE_THRESHOLD_SECONDS,
            r.last_update is None,
    {
        ActivityState {
            current_activity: None,
            is_tracking: true,
            is_idle: false,
            idle_threshold_seconds: DEFAULT_IDLE_THRESHOLD_SECONDS,
            last_update: None,
        }
    }
}

/// The session machine's own state: the live session, the idle flag, and the
/// delivery bookkeeping.
pub struct EventTrackerState {
    pub current_session: Option<ActivitySession>,
    pub is_tracking: bool,
    pub is_idle: bool,
    pub idle_threshold_seconds: u64,
    /// Completed sessions delivered so far; grows monotonically.
    pub sessions_sent: u64,
    /// Outcome of the last delivery attempt: `None` after a success, the
    /// message after a failure.
    pub last_send_error: Option<String>,
}

impl EventTrackerState {
    /// The machine's invariant: a live session is well formed, and while the
    /// user counts as idle no session is live (going idle always ends it).
    pub open spec fn wf(self) -> bool {
        &&& (self.current_session matches Some(s) ==> s.wf())
        &&& (self.is_idle ==> self.current_session is None)
    }
}

/// The session a snapshot starts: both clock fields begin at the snapshot's
/// observation instant.
pub open spec fn session_of(snap: NativeActivity) -> ActivitySession {
    ActivitySession {
        app_name: snap.app_name,
        window_title: snap.window_title,
        bundle_id: snap.bundle_id,
        is_browser: snap.is_browser,
        start_time: snap.timestamp,
        last_heartbeat: snap.timestamp,
    }
}

/// The live session after a heartbeat at instant `now`: only the heartbeat
/// field moves, and never to before the session's start.
pub open spec fn heartbeat_of(s: ActivitySession, now: i64) -> ActivitySession {
    ActivitySession {
        last_heartbeat: if now >= s.start_time {
            now
        } else {
            s.start_time
        },
        ..s
    }
}

/// A snapshot differs from the live session exactly when the application name
/// or the window title differs; identity and browser flags do not count.
pub open spec fn session_differs(s: ActivitySession, snap: NativeActivity) -> bool {
    s.app_name@ != snap.app_name@ || s.window_title@ != snap.window_title@
}

/// A snapshot counts as a change when no session is live or when it differs
/// from the live one.
pub open spec fn spec_changed(cur: Option<ActivitySession>, snap: NativeActivity) -> bool {
    match cur {
        Some(s) => session_differs(s, snap),
        None => true,
    }
}

/// What finalizing `cur` at instant `end` may return: nothing when no session
/// was live; otherwise a completed record exactly when the session spanned at
/// least the minimum duration.
pub open spec fn finalize_result(
    cur: Option<ActivitySession>,
    end: i64,
    r: Option<CompletedSession>,
) -> bool {
    match cur {
        None => r is None,
        Some(s) => {
            &&& (r is Some <==> end - s.start_time >= MIN_SESSION_SECONDS)
            &&& (r matches Some(c) ==> completed_from(s, end, c))
        },
    }
}

/// The complete transition one snapshot makes on the machine's state.
///
/// An idle snapshot (idle time at or over the threshold) marks the user idle
/// and finalizes the live session; while already idle it is a no-op. An
/// active snapshot clears the idle flag and either starts a session (none was
/// live, or the activity changed — finalizing the old one) or heartbeats the
/// live session. Configuration and delivery bookkeeping never move on a tick.
pub open spec fn tick_rel(
    pre: EventTrackerState,
    snap: NativeActivity,
    post: EventTrackerState,
    r: Option<CompletedSession>,
) -> bool {
    &&& post.is_tracking == pre.is_tracking
    &&& post.idle_threshold_seconds == pre.idle_threshold_seconds
    &&& post.sessions_sent == pre.sessions_sent
    &&& post.last_send_error == pre.last_send_error
    &&& if snap.idle_seconds >= pre.idle_threshold_seconds {
        if pre.is_idle {
            post == pre && r is None
        } else {
            &&& post.is_idle == true
            &&& post.current_session is None
            &&& finalize_result(pre.current_session, snap.timestamp, r)
        }
    } else {
        &&& post.is_idle == false
        &&& if spec_changed(pre.current_session, snap) {
            &&& post.current_session == Some(session_of(snap))
            &&& finalize_result(pre.current_session, snap.timestamp, r)
        } else {
            &&& r is None
            &&& post.current_session == Some(
                heartbeat_of(pre.current_session->Some_0, snap.timestamp),
            )
        }
    }
}

/// The tracker: the per-tick activity view and the session machine's state,
/// owned by the host's composition root and driven through these operations.
pub struct ActivityTracker {
    pub state: ActivityState,
    pub event_state: EventTrackerState,
}

impl ActivityTracker {
    pub open spec fn wf(self) -> bool {
        self.event_state.wf()
    }

    /// A fresh tracker: tracking on, not idle, no session, default threshold.
    pub fn new() -> (r: Self)
        ensures
            r.wf(),
            r.state.current_activity is None,
            r.state.is_tracking == true,
            r.state.is_idle == false,
            r.state.idle_threshold_seconds == DEFAULT_IDLE_THRESHOLD_SECONDS,
            r.state.last_update is None,
            r.event_state.current_session is None,
            r.event_state.is_tracking == true,
            r.event_state.is_idle == false,
            r.event_state.idle_threshold_seconds == DEFAULT_IDLE_THRESHOLD_SECONDS,
            r.event_state.sessions_sent == 0,
            r.event_state.last_send_error is None,
    {
        ActivityTracker {
            state: ActivityState::default(),
            event_state: EventTrackerState {
                current_session: None,
                is_tracking: true,
                is_idle: false,
                idle_threshold_seconds: DEFAULT_IDLE_THRESHOLD_SECONDS,
                sessions_sent: 0,
                last_send_error: None,
            },
        }
    }

    /// A copy of the per-tick activity view.
    pub fn get_state(&self) -> (r: ActivityState)
        ensures
            r == self.state,
    {
        ActivityState {
            current_activity: match &self.state.current_activity {
                Some(a) => Some(a.duplicate()),
                None => None,
            },
            is_tracking: self.state.is_tracking,
            is_idle: self.state.is_idle,
            idle_threshold_seconds: self.state.idle_threshold_seconds,
            last_update: self.state.last_update,
        }
    }

    /// A copy of the session machine's state.
    pub fn get_event_state(&self) -> (r: EventTrackerState)
        ensures
            r == self.event_state,
    {
        EventTrackerState {
            current_session: match &self.event_state.current_session {
                Some(s) => Some(s.duplicate()),
                None => None,
            },
            is_tracking: self.event_state.is_tracking,
            is_idle: self.event_state.is_idle,
            idle_threshold_seconds: self.event_state.idle_threshold_seconds,
            sessions_sent: self.event_state.sessions_sent,
            last_send_error: match &self.event_state.last_send_error {
                Some(e) => Some(e.clone()),
                None => None,
            },
        }
    }

    /// Turns tick processing on or off. Disabling does not finalize the live
    /// session; flushing it is the poll driver's explicit step on shutdown.
    pub fn set_tracking(&mut self, enabled: bool)
        ensures
            final(self).state == (ActivityState { is_tracking: enabled, ..old(self).state }),
            final(self).event_state == (EventTrackerState {
                is_tracking: enabled,
                ..old(self).event_state
            }),
    {
        self.state.is_tracking = enabled;
        self.event_state.is_tracking = enabled;
    }

    /// Updates the idle threshold for subsequent ticks only; the current
    /// session is not re-evaluated.
    pub fn set_idle_threshold(&mut self, seconds: u64)
        ensures
            final(self).state == (ActivityState {
                idle_threshold_seconds: seconds,
                ..old(self).state
            }),
            final(self).event_state == (EventTrackerState {
                idle_threshold_seconds: seconds,
                ..old(self).event_state
            }),
    {
        self.state.idle_threshold_seconds = seconds;
        self.event_state.idle_threshold_seconds = seconds;
    }

    /// Records a snapshot in the per-tick activity view: the idle flag is
    /// derived from the snapshot against the view's threshold, and the last
    /// update instant is the snapshot's observation instant.
    pub fn update_activity(&mut self, activity: NativeActivity)
        ensures
            final(self).state == (ActivityState {
                current_activity: Some(activity),
                is_idle: activity.idle_seconds >= old(self).state.idle_threshold_seconds,
                last_update: Some(activity.timestamp),
                ..old(self).state
            }),
            final(self).event_state == old(self).event_state,
    {
        self.state.is_idle = activity.idle_seconds >= self.state.idle_threshold_seconds;
        self.state.last_update = Some(activity.timestamp);
        self.state.current_activity = Some(activity);
    }

    /// Whether the snapshot counts as a change against the live session:
    /// true when no session is live or when the application name or window
    /// title differs.
    pub fn has_activity_changed(&self, new_activity: &NativeActivity) -> (r: bool)
        ensures
            r == spec_changed(self.event_state.current_session, *new_activity),
    {
        match &self.event_state.current_session {
            Some(session) => {
                !str_eq(session.app_name.as_str(), new_activity.app_name.as_str()) || !str_eq(
                    session.window_title.as_str(),
                    new_activity.window_title.as_str(),
                )
            },
            None => true,
        }
    }

    /// Starts a fresh session from the snapshot, replacing whatever was live,
    /// and clears the idle flag.
    pub fn start_session(&mut self, activity: &NativeActivity)
        requires
            activity.wf(),
        ensures
            final(self).event_state == (EventTrackerState {
                current_session: Some(session_of(*activity)),
                is_idle: false,
                ..old(self).event_state
            }),
            final(self).state == old(self).state,
            final(self).wf(),
    {
        let fresh = activity.duplicate();
        self.event_state.current_session = Some(ActivitySession {
            app_name: fresh.app_name,
            window_title: fresh.window_title,
            bundle_id: fresh.bundle_id,
            is_browser: fresh.is_browser,
            start_time: fresh.timestamp,
            last_heartbeat: fresh.timestamp,
        });
        self.event_state.is_idle = false;
    }

    /// Marks the live session as still alive at instant `now`; without a live
    /// session this is a no-op. The heartbeat never moves before the start.
    pub fn update_heartbeat(&mut self, now: i64)
        requires
            old(self).wf(),
            valid_time(now),
        ensures
            final(self).event_state == (EventTrackerState {
                current_session: match old(self).event_state.current_session {
                    Some(s) => Some(heartbeat_of(s, now)),
                    None => None,
                },
                ..old(self).event_state
            }),
            final(self).state == old(self).state,
            final(self).wf(),
    {
        if let Some(session) = &mut self.event_state.current_session {
            if now >= session.start_time {
                session.last_heartbeat = now;
            } else {
                session.last_heartbeat = session.start_time;
            }
        }
    }

    /// Ends the live session at instant `end_time` unconditionally, clearing
    /// it, and returns the completed record exactly when the session spanned
    /// at least the minimum duration.
    pub fn finalize_session(&mut self, end_time: i64) -> (r: Option<CompletedSession>)
        requires
            old(self).event_state.current_session matches Some(s) ==> s.wf(),
            valid_time(end_time),
        ensures
            final(self).event_state == (EventTrackerState {
                current_session: None,
                ..old(self).event_state
            }),
            final(self).state == old(self).state,
            final(self).wf(),
            finalize_result(old(self).event_state.current_session, end_time, r),
    {
        match self.event_state.current_session.take() {
            Some(session) => complete_session(session, end_time),
            None => None,
        }
    }

    /// Handles the user going idle at instant `end_time`: on the first idle
    /// tick marks the user idle and finalizes the live session; while already
    /// idle does nothing.
    pub fn handle_idle(&mut self, end_time: i64) -> (r: Option<CompletedSession>)
        requires
            old(self).wf(),
            valid_time(end_time),
        ensures
            old(self).event_state.is_idle ==> *final(self) == *old(self) && r is None,
            !old(self).event_state.is_idle ==> final(self).event_state == (EventTrackerState {
                current_session: None,
                is_idle: true,
                ..old(self).event_state
            }) && finalize_result(old(self).event_state.current_session, end_time, r),
            final(self).state == old(self).state,
            final(self).wf(),
    {
        if !self.event_state.is_idle {
            self.event_state.is_idle = true;
            self.finalize_session(end_time)
        } else {
            None
        }
    }

    /// Handles the user becoming active again: when the idle flag is set, a
    /// fresh session starts from the snapshot (the old one is never
    /// resurrected); otherwise nothing happens.
    pub fn handle_active(&mut self, activity: &NativeActivity)
        requires
            old(self).wf(),
            activity.wf(),
        ensures
            old(self).event_state.is_idle ==> final(self).event_state == (EventTrackerState {
                current_session: Some(session_of(*activity)),
                is_idle: false,
                ..old(self).event_state
            }),
            !old(self).event_state.is_idle ==> *final(self) == *old(self),
            final(self).state == old(self).state,
            final(self).wf(),
    {
        if self.event_state.is_idle {
            self.start_session(activity);
        }
    }

    /// Records one successful delivery: the count grows by one and the error
    /// slot clears.
    pub fn record_send_success(&mut self)
        requires
            old(self).event_state.sessions_sent < u64::MAX,
        ensures
            final(self).event_state == (EventTrackerState {
                sessions_sent: (old(self).event_state.sessions_sent + 1) as u64,
                last_send_error: None,
                ..old(self).event_state
            }),
            final(self).state == old(self).state,
    {
        self.event_state.sessions_sent = self.event_state.sessions_sent + 1;
        self.event_state.last_send_error = None;
    }

    /// Records one failed delivery: the error slot is overwritten with the
    /// message; the count does not move.
    pub fn record_send_error(&mut self, error: String)
        ensures
            final(self).event_state == (EventTrackerState {
                last_send_error: Some(error),
                ..old(self).event_state
            }),
            final(self).state == old(self).state,
    {
        self.event_state.last_send_error = Some(error);
    }

    /// The core transition: applies one snapshot to the session machine and
    /// returns the completed record of any session that ended on this tick.
    pub fn on_tick(&mut self, snapshot: &NativeActivity) -> (r: Option<CompletedSession>)
        requires
            old(self).wf(),
            snapshot.wf(),
        ensures
            final(self).wf(),
            tick_rel(old(self).event_state, *snapshot, final(self).event_state, r),
            final(self).state == old(self).state,
    {
        if snapshot.idle_seconds >= self.event_state.idle_threshold_seconds {
            self.handle_idle(snapshot.timestamp)
        } else {
            let completed = if self.has_activity_changed(snapshot) {
                let ended = self.finalize_session(snapshot.timestamp);
                self.start_session(snapshot);
                ended
            } else {
                self.update_heartbeat(snapshot.timestamp);
                None
            };
            self.handle_active(snapshot);
            completed
        }
    }
}

} // verus!
