//! Activity snapshots: one observation of the frontmost application, window
//! title and idle time, as the platform probe hands it to the core, together
//! with the browser classification and the outward shapes built from it.

use vstd::prelude::*;

use crate::session::valid_time;
use crate::text::{contains_str, find_char, index_of_first, is_substring, lemma_index_of_first, str_eq};

verus! {

/// A decimal digit.
pub open spec fn is_decimal_digit(c: char) -> bool {
    '0' <= c && c <= '9'
}

/// The decimal digits of `s`, in order, with every other character dropped.
pub open spec fn digits_of(s: Seq<char>) -> Seq<char> {
    s.filter(|c: char| is_decimal_digit(c))
}

/// The number a sequence of decimal digits denotes.
pub open spec fn dec_value(s: Seq<char>) -> int
    decreases s.len(),
{
    if s.len() == 0 {
        0
    } else {
        10 * dec_value(s.drop_last()) + (s.last() as int - '0' as int)
    }
}

proof fn lemma_dec_value_nonneg(s: Seq<char>)
    requires
        forall|i: int| 0 <= i < s.len() ==> is_decimal_digit(#[trigger] s[i]),
    ensures
        dec_value(s) >= 0,
    decreases s.len(),
{
    if s.len() > 0 {
        lemma_dec_value_nonneg(s.drop_last());
    }
}

/// Appending further digits never shrinks the denoted number.
proof fn lemma_dec_value_extend(x: Seq<char>, y: Seq<char>)
    requires
        forall|i: int| 0 <= i < x.len() ==> is_decimal_digit(#[trigger] x[i]),
        forall|i: int| 0 <= i < y.len() ==> is_decimal_digit(#[trigger] y[i]),
    ensures
        dec_value(x + y) >= dec_value(x),
    decreases y.len(),
{
    if y.len() == 0 {
        assert(x + y =~= x);
    } else {
        lemma_dec_value_extend(x, y.drop_last());
        assert((x + y).drop_last() =~= x + y.drop_last());
        assert(forall|i: int|
            0 <= i < (x + y.drop_last()).len() ==> is_decimal_digit(#[trigger] (x
                + y.drop_last())[i]));
        lemma_dec_value_nonneg(x + y.drop_last());
        assert((x + y).last() == y.last());
    }
}

/// Reads the number written by the decimal digits scattered through `s`:
/// every non-digit is skipped, the digits are taken in order. Nothing comes
/// back when no digit occurs or the number does not fit.
pub fn parse_decimal_digits(s: &str) -> (r: Option<u64>)
    ensures
        r is Some <==> digits_of(s@).len() > 0 && dec_value(digits_of(s@)) <= u64::MAX,
        r matches Some(v) ==> v as int == dec_value(digits_of(s@)),
{
    broadcast use vstd::seq_lib::group_filter_ensures;

    let len = s.unicode_len();
    let mut i: usize = 0;
    let mut acc: u64 = 0;
    let mut seen: bool = false;
    while i < len
        invariant
            len == s@.len(),
            0 <= i <= len,
            seen <==> digits_of(s@.subrange(0, i as int)).len() > 0,
            acc as int == dec_value(digits_of(s@.subrange(0, i as int))),
        decreases len - i,
    {
        let ghost pre = s@.subrange(0, i as int);
        let ghost post = s@.subrange(0, i + 1);
        let c = s.get_char(i);
        proof {
            reveal(Seq::filter);
            assert(post =~= pre.push(s@[i as int]));
            assert(post.drop_last() =~= pre);
        }
        if '0' <= c && c <= '9' {
            proof {
                assert(digits_of(post) =~= digits_of(pre).push(c));
                assert(digits_of(pre).push(c).drop_last() =~= digits_of(pre));
                assert(dec_value(digits_of(post)) == 10 * dec_value(digits_of(pre)) + (
                c as int - '0' as int));
            }
            let d = (c as u32 - '0' as u32) as u64;
            let next = match acc.checked_mul(10) {
                Some(m) => m.checked_add(d),
                None => None,
            };
            match next {
                Some(n) => {
                    acc = n;
                    seen = true;
                },
                None => {
                    proof {
                        let ghost rest = s@.subrange(i + 1, s@.len() as int);
                        assert(dec_value(digits_of(post)) > u64::MAX);
                        assert(s@ =~= post + rest);
                        assert(digits_of(s@) == digits_of(post) + digits_of(rest)) by {
                            Seq::filter_distributes_over_add(
                                post,
                                rest,
                                |x: char| is_decimal_digit(x),
                            );
                        }
                        lemma_dec_value_extend(digits_of(post), digits_of(rest));
                    }
                    return None;
                },
            }
        } else {
            assert(digits_of(post) =~= digits_of(pre));
        }
        i += 1;
    }
    proof {
        assert(s@.subrange(0, len as int) =~= s@);
    }
    if seen {
        Some(acc)
    } else {
        None
    }
}

/// The idle time, in whole seconds, that one line of the HID system's report
/// carries: the line must name the idle-time property, and the digits after
/// its equals sign give the idle time in nanoseconds.
pub open spec fn hid_line_idle_seconds(line: Seq<char>) -> Option<int> {
    if !is_substring("HIDIdleTime"@, line) {
        None
    } else {
        let i = index_of_first(line, '=');
        if i == line.len() {
            None
        } else {
            let ds = digits_of(line.subrange(i + 1, line.len() as int));
            if ds.len() == 0 || dec_value(ds) > u64::MAX {
                None
            } else {
                Some(dec_value(ds) / 1000000000)
            }
        }
    }
}

/// Reads one line of the HID system's report and, when it is the idle-time
/// line, converts its nanoseconds to whole seconds.
pub fn parse_hid_idle_line(line: &str) -> (r: Option<u64>)
    ensures
        r matches Some(v) ==> hid_line_idle_seconds(line@) == Some(v as int),
        r is None ==> hid_line_idle_seconds(line@) is None,
{
    if !contains_str(line, "HIDIdleTime") {
        return None;
    }
    let len = line.unicode_len();
    match find_char(line, '=') {
        None => None,
        Some(i) => {
            let rest = line.substring_char(i + 1, len);
            match parse_decimal_digits(rest) {
                Some(nanoseconds) => Some(nanoseconds / 1000000000),
                None => None,
            }
        },
    }
}

/// The application-name field of the probe's raw answer: everything before
/// the first bar (the whole answer when no bar occurs).
pub open spec fn probe_app_part(s: Seq<char>) -> Seq<char> {
    s.subrange(0, index_of_first(s, '|'))
}

/// The bundle-identifier field of the probe's raw answer: everything between
/// the first bar and the next one (or the end), kept only when it is
/// non-empty and not AppleScript's text for a missing value.
pub open spec fn probe_bundle_part(s: Seq<char>) -> Option<Seq<char>> {
    let i = index_of_first(s, '|');
    if i == s.len() {
        None
    } else {
        let rest = s.subrange(i + 1, s.len() as int);
        let b = rest.subrange(0, index_of_first(rest, '|'));
        if b.len() == 0 || b == "missing value"@ {
            None
        } else {
            Some(b)
        }
    }
}

/// Splits the probe's raw `name|bundle` answer into the application name and
/// the optional bundle identifier.
pub fn parse_probe_output(s: &str) -> (r: (String, Option<String>))
    ensures
        r.0@ == probe_app_part(s@),
        match r.1 {
            Some(b) => probe_bundle_part(s@) == Some(b@),
            None => probe_bundle_part(s@) is None,
        },
{
    proof {
        lemma_index_of_first(s@, '|');
    }
    let len = s.unicode_len();
    match find_char(s, '|') {
        None => {
            let app = s.to_owned();
            proof {
                assert(probe_app_part(s@) =~= s@);
            }
            (app, None)
        },
        Some(i) => {
            let app = s.substring_char(0, i).to_owned();
            let rest = s.substring_char(i + 1, len);
            proof {
                lemma_index_of_first(rest@, '|');
            }
            let b_end = match find_char(rest, '|') {
                Some(j) => j,
                None => rest.unicode_len(),
            };
            let b = rest.substring_char(0, b_end);
            proof {
                assert(rest@.subrange(0, rest@.len() as int) =~= rest@);
            }
            if b.unicode_len() == 0 || str_eq(b, "missing value") {
                (app, None)
            } else {
                (app, Some(b.to_owned()))
            }
        },
    }
}

/// One observation of foreground activity, produced externally by the probe.
/// `timestamp` is the observation instant in whole Unix seconds; the state
/// machine takes all of its clock readings from this field.
pub struct NativeActivity {
    pub app_name: String,
    pub window_title: String,
    pub bundle_id: Option<String>,
    pub is_browser: bool,
    pub idle_seconds: u64,
    pub timestamp: i64,
}

impl NativeActivity {
    /// The observation instant is a timestamp the library accepts.
    pub open spec fn wf(self) -> bool {
        valid_time(self.timestamp)
    }

    /// A field-for-field copy of the snapshot.
    pub fn duplicate(&self) -> (r: Self)
        ensures
            r == *self,
    {
        NativeActivity {
            app_name: self.app_name.clone(),
            window_title: self.window_title.clone(),
            bundle_id: match &self.bundle_id {
                Some(b) => Some(b.clone()),
                None => None,
            },
            is_browser: self.is_browser,
            idle_seconds: self.idle_seconds,
            timestamp: self.timestamp,
        }
    }
}

/// The application names that mark a browser when they occur in the
/// frontmost application's name.
pub open spec fn browser_name_hit(app_name: Seq<char>) -> bool {
    ||| is_substring("Google Chrome"@, app_name)
    ||| is_substring("Chrome"@, app_name)
    ||| is_substring("Safari"@, app_name)
    ||| is_substring("Firefox"@, app_name)
    ||| is_substring("Microsoft Edge"@, app_name)
    ||| is_substring("Brave Browser"@, app_name)
    ||| is_substring("Arc"@, app_name)
    ||| is_substring("Opera"@, app_name)
    ||| is_substring("Vivaldi"@, app_name)
    ||| is_substring("Chromium"@, app_name)
}

/// The bundle identifiers that mark a browser when they occur in the
/// frontmost application's bundle id.
pub open spec fn browser_bundle_hit(bundle: Seq<char>) -> bool {
    ||| is_substring("com.google.Chrome"@, bundle)
    ||| is_substring("com.apple.Safari"@, bundle)
    ||| is_substring("org.mozilla.firefox"@, bundle)
    ||| is_substring("com.microsoft.edgemac"@, bundle)
    ||| is_substring("com.brave.Browser"@, bundle)
    ||| is_substring("company.thebrowser.Browser"@, bundle)
    ||| is_substring("com.operasoftware.Opera"@, bundle)
    ||| is_substring("com.vivaldi.Vivaldi"@, bundle)
}

/// Whether an application name and optional bundle id belong to a browser.
pub open spec fn spec_is_browser(app_name: Seq<char>, bundle_id: Option<Seq<char>>) -> bool {
    browser_name_hit(app_name) || (bundle_id matches Some(b) && browser_bundle_hit(b))
}

/// Classifies the frontmost application as a browser by its name or bundle id.
pub fn is_browser_app(app_name: &str, bundle_id: &Option<String>) -> (r: bool)
    ensures
        r == spec_is_browser(
            app_name@,
            match *bundle_id {
                Some(b) => Some(b@),
                None => None,
            },
        ),
{
    if contains_str(app_name, "Google Chrome") || contains_str(app_name, "Chrome")
        || contains_str(app_name, "Safari") || contains_str(app_name, "Firefox")
        || contains_str(app_name, "Microsoft Edge") || contains_str(app_name, "Brave Browser")
        || contains_str(app_name, "Arc") || contains_str(app_name, "Opera")
        || contains_str(app_name, "Vivaldi") || contains_str(app_name, "Chromium") {
        return true;
    }
    match bundle_id {
        Some(bundle) => {
            contains_str(bundle.as_str(), "com.google.Chrome") || contains_str(
                bundle.as_str(),
                "com.apple.Safari",
            ) || contains_str(bundle.as_str(), "org.mozilla.firefox") || contains_str(
                bundle.as_str(),
                "com.microsoft.edgemac",
            ) || contains_str(bundle.as_str(), "com.brave.Browser") || contains_str(
                bundle.as_str(),
                "company.thebrowser.Browser",
            ) || contains_str(bundle.as_str(), "com.operasoftware.Opera") || contains_str(
                bundle.as_str(),
                "com.vivaldi.Vivaldi",
            )
        },
        None => false,
    }
}

/// The snapshot's shape as query callers receive it.
pub struct NativeActivityResponse {
    pub app_name: String,
    pub window_title: String,
    pub bundle_id: Option<String>,
    pub is_browser: bool,
    pub idle_seconds: u64,
    pub timestamp: i64,
}

impl From<NativeActivity> for NativeActivityResponse {
    fn from(activity: NativeActivity) -> (r: Self) {
        NativeActivityResponse {
            app_name: activity.app_name,
            window_title: activity.window_title,
            bundle_id: activity.bundle_id,
            is_browser: activity.is_browser,
            idle_seconds: activity.idle_seconds,
            timestamp: activity.timestamp,
        }
    }
}

impl vstd::std_specs::convert::FromSpecImpl<NativeActivity> for NativeActivityResponse {
    open spec fn obeys_from_spec() -> bool {
        true
    }

    open spec fn from_spec(activity: NativeActivity) -> Self {
        NativeActivityResponse {
            app_name: activity.app_name,
            window_title: activity.window_title,
            bundle_id: activity.bundle_id,
            is_browser: activity.is_browser,
            idle_seconds: activity.idle_seconds,
            timestamp: activity.timestamp,
        }
    }
}

/// One per-tick record for the best-effort real-time feed. `is_idle` and
/// `url` start out unset here; the poll driver fills `is_idle` before
/// forwarding, and `url` belongs to the browser extension.
pub struct ActivityPayload {
    pub app_name: String,
    pub window_title: String,
    pub url: Option<String>,
    pub is_idle: bool,
    pub idle_seconds: u64,
    pub timestamp: i64,
    pub source: String,
}

impl From<NativeActivity> for ActivityPayload {
    fn from(activity: NativeActivity) -> (r: Self)
        ensures
            r.app_name == activity.app_name,
            r.window_title == activity.window_title,
            r.url is None,
            r.is_idle == false,
            r.idle_seconds == activity.idle_seconds,
            r.timestamp == activity.timestamp,
            r.source@ == "native"@,
    {
        ActivityPayload {
            app_name: activity.app_name,
            window_title: activity.window_title,
            url: None,
            is_idle: false,
            idle_seconds: activity.idle_seconds,
            timestamp: activity.timestamp,
            source: "native".to_owned(),
        }
    }
}

impl vstd::std_specs::convert::FromSpecImpl<NativeActivity> for ActivityPayload {
    /// The `source` field is a freshly built `String`, which a spec function
    /// cannot pin down as a value; the `ensures` on `from` above carries the
    /// exact contract instead.
    open spec fn obeys_from_spec() -> bool {
        false
    }

    open spec fn from_spec(activity: NativeActivity) -> Self {
        ActivityPayload {
            app_name: activity.app_name,
            window_title: activity.window_title,
            url: None,
            is_idle: false,
            idle_seconds: activity.idle_seconds,
            timestamp: activity.timestamp,
            source: activity.app_name,
        }
    }
}

} // verus!
