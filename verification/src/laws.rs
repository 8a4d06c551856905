//! The guarantees the session machine gives across its operations, stated and
//! proved once over the tick transition relation and the finalize rule.

use vstd::prelude::*;

use crate::session::{completed_from, ActivitySession, CompletedSession, MIN_SESSION_SECONDS};
use crate::snapshot::NativeActivity;
use crate::tracker::{
    finalize_result, heartbeat_of, session_differs, session_of, tick_rel, EventTrackerState,
};

verus! {

/// At most one live session, never silently replaced: whenever a tick drops
/// or replaces the live session — the state after the tick neither keeps it
/// nor merely heartbeats it — the tick's own result accounts for that exact
/// session: it is its completed record, or the session spanned less than the
/// minimum duration and was discarded.
pub proof fn lemma_no_silent_replacement(
    pre: EventTrackerState,
    snap: NativeActivity,
    post: EventTrackerState,
    r: Option<CompletedSession>,
    s: ActivitySession,
)
    requires
        pre.wf(),
        snap.wf(),
        tick_rel(pre, snap, post, r),
        pre.current_session == Some(s),
        post.current_session != Some(s),
        post.current_session != Some(heartbeat_of(s, snap.timestamp)),
    ensures
        r is Some <==> snap.timestamp - s.start_time >= MIN_SESSION_SECONDS,
        r matches Some(c) ==> completed_from(s, snap.timestamp, c),
{
}

/// Idle ticks are idempotent: once the machine is idle, a further snapshot at
/// or over the threshold changes nothing — no completed record, and in
/// particular no heartbeat moves.
pub proof fn lemma_idle_is_idempotent(
    pre: EventTrackerState,
    snap: NativeActivity,
    post: EventTrackerState,
    r: Option<CompletedSession>,
)
    requires
        pre.wf(),
        snap.wf(),
        tick_rel(pre, snap, post, r),
        pre.is_idle,
        snap.idle_seconds >= pre.idle_threshold_seconds,
    ensures
        post == pre,
        r is None,
{
}

/// Change detection is title-sensitive: an active snapshot with the live
/// session's application name but another window title ends that session
/// (producing its record exactly when it spanned the minimum duration) and
/// starts a fresh one from the snapshot.
pub proof fn lemma_title_change_splits_session(
    pre: EventTrackerState,
    snap: NativeActivity,
    post: EventTrackerState,
    r: Option<CompletedSession>,
    s: ActivitySession,
)
    requires
        pre.wf(),
        snap.wf(),
        tick_rel(pre, snap, post, r),
        pre.current_session == Some(s),
        snap.idle_seconds < pre.idle_threshold_seconds,
        s.app_name@ == snap.app_name@,
        s.window_title@ != snap.window_title@,
    ensures
        post.current_session == Some(session_of(snap)),
        post.is_idle == false,
        r is Some <==> snap.timestamp - s.start_time >= MIN_SESSION_SECONDS,
        r matches Some(c) ==> completed_from(s, snap.timestamp, c),
{
    assert(session_differs(s, snap));
}

/// Minimum-duration discard: finalizing a session within the same second it
/// started (or any span under the minimum) yields no completed record.
pub proof fn lemma_short_session_discarded(
    s: ActivitySession,
    end: i64,
    r: Option<CompletedSession>,
)
    requires
        finalize_result(Some(s), end, r),
        end - s.start_time < MIN_SESSION_SECONDS,
    ensures
        r is None,
{
}

/// Duration correctness: every completed record a finalize produces carries
/// `duration == end_time - start_time` in whole seconds, and that duration is
/// at least the minimum — in particular never negative.
pub proof fn lemma_duration_correct(s: ActivitySession, end: i64, r: Option<CompletedSession>)
    requires
        finalize_result(Some(s), end, r),
    ensures
        r matches Some(c) ==> c.duration == end - s.start_time && c.duration
            >= MIN_SESSION_SECONDS && c.start_time == s.start_time && c.end_time == end,
{
}

} // verus!
