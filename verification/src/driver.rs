//! The poll driver's per-tick decisions. The host runs the timer loop,
//! queries the probe and performs the network work; everything decided on a
//! tick — skip, transition, what to deliver, when to stop — is decided here.

use vstd::prelude::*;

use crate::session::{valid_time, CompletedSession};
use crate::snapshot::{ActivityPayload, NativeActivity};
use crate::tracker::{finalize_result, tick_rel, ActivityState, ActivityTracker};

verus! {

/// The caller-supplied configuration of one polling run.
pub struct PollingConfig {
    pub backend_url: String,
    pub auth_token: String,
    pub poll_interval_ms: u64,
    pub idle_threshold_seconds: u64,
}

/// What the host must do after one tick of the poll loop.
pub struct TickOutcome {
    /// A session that ended on this tick: deliver it to the collector once
    /// and record the outcome on the tracker.
    pub completed: Option<CompletedSession>,
    /// The per-tick record for the best-effort real-time feed; forwarding it
    /// may fail silently and never perturbs session state.
    pub realtime: Option<ActivityPayload>,
    /// Tracking is off: deliver `completed` if present, then stop the loop.
    pub stop: bool,
}

/// The realtime record `poll_step` forwards for a snapshot: the snapshot's
/// own fields, the idle flag derived against the threshold in force when the
/// tick began, and no URL (that belongs to the browser extension).
pub open spec fn realtime_payload_of(
    snap: NativeActivity,
    threshold: u64,
    p: ActivityPayload,
) -> bool {
    &&& p.app_name == snap.app_name
    &&& p.window_title == snap.window_title
    &&& p.url is None
    &&& p.is_idle == (snap.idle_seconds >= threshold)
    &&& p.idle_seconds == snap.idle_seconds
    &&& p.timestamp == snap.timestamp
    &&& p.source@ == "native"@
}

/// One tick of the poll driver.
///
/// With tracking disabled the live session is drained at instant `now` and
/// the loop is told to stop. A failed acquisition (`snapshot` empty) skips
/// the tick entirely: no state change, no error. Otherwise the snapshot runs
/// through the session machine, the per-tick activity view is updated, and
/// the snapshot is forwarded to the real-time feed.
pub fn poll_step(
    tracker: &mut ActivityTracker,
    snapshot: Option<NativeActivity>,
    now: i64,
) -> (r: TickOutcome)
    requires
        old(tracker).wf(),
        snapshot matches Some(s) ==> s.wf(),
        valid_time(now),
    ensures
        final(tracker).wf(),
        !old(tracker).event_state.is_tracking ==> r.stop && r.realtime is None && finalize_result(
            old(tracker).event_state.current_session,
            now,
            r.completed,
        ) && final(tracker).event_state == (crate::tracker::EventTrackerState {
            current_session: None,
            ..old(tracker).event_state
        }) && final(tracker).state == old(tracker).state,
        old(tracker).event_state.is_tracking && snapshot is None ==> *final(tracker) == *old(
            tracker,
        ) && !r.stop && r.completed is None && r.realtime is None,
        old(tracker).event_state.is_tracking ==> (snapshot matches Some(snap) ==> !r.stop && tick_rel(
            old(tracker).event_state,
            snap,
            final(tracker).event_state,
            r.completed,
        ) && (r.realtime matches Some(p) && realtime_payload_of(
            snap,
            old(tracker).event_state.idle_threshold_seconds,
            p,
        )) && final(tracker).state == (ActivityState {
            current_activity: Some(snap),
            is_idle: snap.idle_seconds >= old(tracker).state.idle_threshold_seconds,
            last_update: Some(snap.timestamp),
            ..old(tracker).state
        })),
{
    if !tracker.event_state.is_tracking {
        let completed = tracker.finalize_session(now);
        return TickOutcome { completed, realtime: None, stop: true };
    }
    match snapshot {
        None => TickOutcome { completed: None, realtime: None, stop: false },
        Some(snap) => {
            let threshold = tracker.event_state.idle_threshold_seconds;
            let completed = tracker.on_tick(&snap);
            let mut payload = ActivityPayload::from(snap.duplicate());
            payload.is_idle = snap.idle_seconds >= threshold;
            tracker.update_activity(snap);
            TickOutcome { completed, realtime: Some(payload), stop: false }
        },
    }
}

/// The observed state of the collector server's child-process slot, as the
/// host reports it after polling the slot once.
pub enum ServerPoll {
    /// No server process is registered in the slot.
    NotStarted,
    /// The registered process is still running.
    Running,
    /// The registered process has exited.
    Exited,
    /// The slot could not be polled.
    PollFailed,
}

/// Whether the collector server counts as running, given one poll of its
/// process slot.
pub fn is_aw_server_running(poll: &ServerPoll) -> (r: bool)
    ensures
        r == (poll is Running),
{
    matches!(poll, ServerPoll::Running)
}

/// Whether the host should clear the process slot after this poll: an exited
/// or unpollable process is forgotten so that a fresh server can be started.
pub fn server_slot_clears(poll: &ServerPoll) -> (r: bool)
    ensures
        r == (poll is Exited || poll is PollFailed),
{
    matches!(poll, ServerPoll::Exited | ServerPoll::PollFailed)
}

} // verus!
