//! Sessions: the live record the state machine mutates and the immutable
//! completed record it hands to delivery, with the finalize rule between them.

use vstd::prelude::*;

verus! {

/// Latest Unix second a timestamp of this library may hold
/// (9999-12-31T23:59:59 UTC), so that every time fits the wire's date format
/// and differences of two timestamps never overflow.
pub const MAX_UNIX_SECONDS: i64 = 253402300799;

/// A timestamp: whole Unix seconds, non-negative and within the wire's range.
pub open spec fn valid_time(t: i64) -> bool {
    0 <= t <= MAX_UNIX_SECONDS
}

/// The executable test of `valid_time`, for callers outside the library that
/// must check a timestamp before handing it in.
pub fn valid_time_check(t: i64) -> (r: bool)
    ensures
        r == valid_time(t),
{
    0 <= t && t <= MAX_UNIX_SECONDS
}

/// Shortest elapsed time, in seconds, that a session must span to be reported.
pub const MIN_SESSION_SECONDS: i64 = 1;

/// A live tracking session for one application/window pair.
pub struct ActivitySession {
    pub app_name: String,
    pub window_title: String,
    pub bundle_id: Option<String>,
    pub is_browser: bool,
    pub start_time: i64,
    pub last_heartbeat: i64,
}

impl ActivitySession {
    /// Both timestamps are in range and the heartbeat never precedes the start.
    pub open spec fn wf(self) -> bool {
        &&& valid_time(self.start_time)
        &&& valid_time(self.last_heartbeat)
        &&& self.start_time <= self.last_heartbeat
    }

    /// A field-for-field copy of the session.
    pub fn duplicate(&self) -> (r: Self)
        ensures
            r == *self,
    {
        ActivitySession {
            app_name: self.app_name.clone(),
            window_title: self.window_title.clone(),
            bundle_id: match &self.bundle_id {
                Some(b) => Some(b.clone()),
                None => None,
            },
            is_browser: self.is_browser,
            start_time: self.start_time,
            last_heartbeat: self.last_heartbeat,
        }
    }
}

/// An ended session, ready for delivery. `url` is never filled at this layer;
/// it belongs to a separate browser-extension collaborator.
pub struct CompletedSession {
    pub app_name: String,
    pub window_title: String,
    pub url: Option<String>,
    pub start_time: i64,
    pub end_time: i64,
    /// Whole seconds between `start_time` and `end_time`.
    pub duration: i64,
    pub source: String,
}

/// What `complete_session` returns when it returns a record at all.
pub open spec fn completed_from(session: ActivitySession, end_time: i64, c: CompletedSession) -> bool {
    &&& c.app_name == session.app_name
    &&& c.window_title == session.window_title
    &&& c.url is None
    &&& c.start_time == session.start_time
    &&& c.end_time == end_time
    &&& c.duration == end_time - session.start_time
    &&& c.source@ == "native_event"@
}

/// The finalize rule: a just-ended session becomes a completed record exactly
/// when at least `MIN_SESSION_SECONDS` elapsed between its start and
/// `end_time`; anything shorter (or a clock that ran backwards) is discarded.
pub fn complete_session(session: ActivitySession, end_time: i64) -> (r: Option<CompletedSession>)
    requires
        session.wf(),
        valid_time(end_time),
    ensures
        r is Some <==> end_time - session.start_time >= MIN_SESSION_SECONDS,
        r matches Some(c) ==> completed_from(session, end_time, c) && c.duration >= MIN_SESSION_SECONDS,
{
    let duration = end_time - session.start_time;
    if duration >= MIN_SESSION_SECONDS {
        Some(CompletedSession {
            app_name: session.app_name,
            window_title: session.window_title,
            url: None,
            start_time: session.start_time,
            end_time,
            duration,
            source: "native_event".to_owned(),
        })
    } else {
        None
    }
}

} // verus!
