//! The outward shapes of the records the core produces: timestamps rendered
//! as RFC 3339 text, ready for the host to serialize and send.

use vstd::prelude::*;

use crate::session::{valid_time, CompletedSession};
use crate::snapshot::ActivityPayload;

verus! {

/// The RFC 3339 text that chrono renders for an instant given in whole Unix
/// seconds, in UTC; a function of the seconds value alone.
pub uninterp spec fn rfc3339_of(secs: int) -> Seq<char>;

/// Relies on chrono's `DateTime::<Utc>::from_timestamp`, which accepts every
/// number of seconds this library's timestamps span and refuses only
/// out-of-range ones, and on `DateTime::to_rfc3339`, whose text depends on
/// the instant alone.
#[verifier::external_body]
fn format_rfc3339(secs: i64) -> (r: Option<String>)
    ensures
        valid_time(secs) ==> r is Some,
        r matches Some(s) ==> s@ == rfc3339_of(secs as int),
{
    match chrono::DateTime::<chrono::Utc>::from_timestamp(secs, 0) {
        Some(d) => Some(d.to_rfc3339()),
        None => None,
    }
}

/// One completed-session record as the collector receives it.
pub struct SessionRecord {
    pub app_name: String,
    pub window_title: String,
    pub url: Option<String>,
    pub start_time: String,
    pub end_time: String,
    pub duration: i64,
    pub source: String,
}

/// Renders a completed session for the wire: the fields carry over and both
/// instants become their RFC 3339 text.
pub fn session_record(c: &CompletedSession) -> (r: SessionRecord)
    requires
        valid_time(c.start_time),
        valid_time(c.end_time),
    ensures
        r.app_name == c.app_name,
        r.window_title == c.window_title,
        r.url == c.url,
        r.start_time@ == rfc3339_of(c.start_time as int),
        r.end_time@ == rfc3339_of(c.end_time as int),
        r.duration == c.duration,
        r.source == c.source,
{
    let start_time = match format_rfc3339(c.start_time) {
        Some(s) => s,
        None => vstd::pervasive::unreached(),
    };
    let end_time = match format_rfc3339(c.end_time) {
        Some(s) => s,
        None => vstd::pervasive::unreached(),
    };
    SessionRecord {
        app_name: c.app_name.clone(),
        window_title: c.window_title.clone(),
        url: match &c.url {
            Some(u) => Some(u.clone()),
            None => None,
        },
        start_time,
        end_time,
        duration: c.duration,
        source: c.source.clone(),
    }
}

/// One real-time activity record as the collector receives it.
pub struct ActivityRecord {
    pub app_name: String,
    pub window_title: String,
    pub url: Option<String>,
    pub is_idle: bool,
    pub idle_seconds: u64,
    pub timestamp: String,
    pub source: String,
}

/// Renders a per-tick payload for the wire: the fields carry over and the
/// observation instant becomes its RFC 3339 text.
pub fn activity_record(p: &ActivityPayload) -> (r: ActivityRecord)
    requires
        valid_time(p.timestamp),
    ensures
        r.app_name == p.app_name,
        r.window_title == p.window_title,
        r.url == p.url,
        r.is_idle == p.is_idle,
        r.idle_seconds == p.idle_seconds,
        r.timestamp@ == rfc3339_of(p.timestamp as int),
        r.source == p.source,
{
    let timestamp = match format_rfc3339(p.timestamp) {
        Some(s) => s,
        None => vstd::pervasive::unreached(),
    };
    ActivityRecord {
        app_name: p.app_name.clone(),
        window_title: p.window_title.clone(),
        url: match &p.url {
            Some(u) => Some(u.clone()),
            None => None,
        },
        is_idle: p.is_idle,
        idle_seconds: p.idle_seconds,
        timestamp,
        source: p.source.clone(),
    }
}

} // verus!
