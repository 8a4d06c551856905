//! Distraction blocking for focus sessions: the configuration of blocked and
//! allowed applications and websites, and the rule that decides whether the
//! current activity is blocked.

use vstd::prelude::*;

use crate::text::{contains_str, is_substring, lower_of, str_eq, to_lowercase};

verus! {

/// The blocking policy a focus session runs under. Matching is
/// case-insensitive and by substring; an entry on an allowed list exempts a
/// name from the corresponding blocked list.
pub struct DistractionBlockingConfig {
    pub enabled: bool,
    /// One of "soft", "hard" or "strict"; only "strict" forbids bypassing.
    pub blocking_mode: String,
    pub blocked_apps: Vec<String>,
    pub blocked_websites: Vec<String>,
    pub allowed_apps: Vec<String>,
    pub allowed_websites: Vec<String>,
}

/// What one check of the current activity against the policy decided.
pub struct BlockCheckResult {
    pub is_blocked: bool,
    /// Which rule fired: "app" or "website"; unset when nothing is blocked.
    pub block_type: Option<String>,
    /// The name or URL that was blocked; unset when nothing is blocked.
    pub blocked_item: Option<String>,
    pub blocking_mode: String,
    pub can_bypass: bool,
}

impl Default for DistractionBlockingConfig {
    /// The policy before any configuration: disabled, "soft" mode, a stock
    /// list of blocked applications and websites, nothing explicitly allowed.
    fn default() -> (r: Self)
        ensures
            r.enabled == false,
            r.blocking_mode@ == "soft"@,
            r.blocked_apps@.len() == 5,
            r.blocked_apps@[0]@ == "Slack"@,
            r.blocked_apps@[1]@ == "Discord"@,
            r.blocked_apps@[2]@ == "Messages"@,
            r.blocked_apps@[3]@ == "Mail"@,
            r.blocked_apps@[4]@ == "Twitter"@,
            r.blocked_websites@.len() == 6,
            r.blocked_websites@[0]@ == "twitter.com"@,
            r.blocked_websites@[1]@ == "x.com"@,
            r.blocked_websites@[2]@ == "facebook.com"@,
            r.blocked_websites@[3]@ == "instagram.com"@,
            r.blocked_websites@[4]@ == "reddit.com"@,
            r.blocked_websites@[5]@ == "youtube.com"@,
            r.allowed_apps@.len() == 0,
            r.allowed_websites@.len() == 0,
    {
        let mut blocked_apps: Vec<String> = Vec::new();
        blocked_apps.push("Slack".to_owned());
        blocked_apps.push("Discord".to_owned());
        blocked_apps.push("Messages".to_owned());
        blocked_apps.push("Mail".to_owned());
        blocked_apps.push("Twitter".to_owned());
        let mut blocked_websites: Vec<String> = Vec::new();
        blocked_websites.push("twitter.com".to_owned());
        blocked_websites.push("x.com".to_owned());
        blocked_websites.push("facebook.com".to_owned());
        blocked_websites.push("instagram.com".to_owned());
        blocked_websites.push("reddit.com".to_owned());
        blocked_websites.push("youtube.com".to_owned());
        DistractionBlockingConfig {
            enabled: false,
            blocking_mode: "soft".to_owned(),
            blocked_apps,
            blocked_websites,
            allowed_apps: Vec::new(),
            allowed_websites: Vec::new(),
        }
    }
}

impl DistractionBlockingConfig {
    /// The policy one focus session enables: the given lists and mode, with
    /// blocking on and nothing explicitly allowed.
    pub fn enabled_with(
        blocked_apps: Vec<String>,
        blocked_websites: Vec<String>,
        blocking_mode: String,
    ) -> (r: Self)
        ensures
            r.enabled == true,
            r.blocking_mode == blocking_mode,
            r.blocked_apps == blocked_apps,
            r.blocked_websites == blocked_websites,
            r.allowed_apps@.len() == 0,
            r.allowed_websites@.len() == 0,
    {
        DistractionBlockingConfig {
            enabled: true,
            blocking_mode,
            blocked_apps,
            blocked_websites,
            allowed_apps: Vec::new(),
            allowed_websites: Vec::new(),
        }
    }

    /// Turns the policy off or on, keeping every list and the mode.
    pub fn set_enabled(&mut self, enabled: bool)
        ensures
            *final(self) == (DistractionBlockingConfig { enabled, ..*old(self) }),
    {
        self.enabled = enabled;
    }
}

/// The notification title a blocked distraction is announced under, by mode.
pub fn warning_title(blocking_mode: &str) -> (r: &'static str)
    ensures
        blocking_mode@ == "strict"@ ==> r@ == "Distraction Blocked"@,
        blocking_mode@ != "strict"@ && blocking_mode@ == "hard"@ ==> r@ == "Distraction Warning"@,
        blocking_mode@ != "strict"@ && blocking_mode@ != "hard"@ ==> r@ == "Focus Mode Reminder"@,
{
    if str_eq(blocking_mode, "strict") {
        "Distraction Blocked"
    } else if str_eq(blocking_mode, "hard") {
        "Distraction Warning"
    } else {
        "Focus Mode Reminder"
    }
}

/// The notification body naming the blocked item.
pub fn warning_body(blocked_item: &str) -> (r: String)
    ensures
        r@ == blocked_item@ + " is blocked during focus mode"@,
{
    let body = blocked_item.to_owned();
    body.concat(" is blocked during focus mode")
}

/// Some entry of `list`, lower-cased, occurs inside the lower-cased `name`.
pub open spec fn any_entry_in(name: Seq<char>, list: Seq<String>) -> bool {
    exists|i: int| 0 <= i < list.len() && is_substring(lower_of(#[trigger] list[i]@), lower_of(name))
}

/// Whether some entry of `list`, lower-cased, occurs inside the lower-cased
/// `name`.
pub fn list_matches(name: &str, list: &Vec<String>) -> (r: bool)
    ensures
        r == any_entry_in(name@, list@),
{
    let name_lower = to_lowercase(name);
    let mut i: usize = 0;
    while i < list.len()
        invariant
            0 <= i <= list@.len(),
            name_lower@ == lower_of(name@),
            forall|j: int|
                0 <= j < i ==> !is_substring(lower_of(#[trigger] list@[j]@), lower_of(name@)),
        decreases list@.len() - i,
    {
        let entry_lower = to_lowercase(list[i].as_str());
        if contains_str(name_lower.as_str(), entry_lower.as_str()) {
            return true;
        }
        i += 1;
    }
    false
}

/// An application name is blocked: it is exempt on no allowed entry and some
/// blocked entry matches it.
pub open spec fn app_block_hit(config: DistractionBlockingConfig, name: Seq<char>) -> bool {
    !any_entry_in(name, config.allowed_apps@) && any_entry_in(name, config.blocked_apps@)
}

/// A URL is blocked: it is exempt on no allowed entry and some blocked entry
/// matches it.
pub open spec fn site_block_hit(config: DistractionBlockingConfig, url: Seq<char>) -> bool {
    !any_entry_in(url, config.allowed_websites@) && any_entry_in(url, config.blocked_websites@)
}

/// The application rule fires for this check's inputs.
pub open spec fn check_blocks_app(
    config: DistractionBlockingConfig,
    focus_mode: bool,
    app_name: Option<String>,
) -> bool {
    focus_mode && config.enabled && (app_name matches Some(n) && app_block_hit(config, n@))
}

/// The website rule fires for this check's inputs.
pub open spec fn check_blocks_site(
    config: DistractionBlockingConfig,
    focus_mode: bool,
    url: Option<String>,
) -> bool {
    focus_mode && config.enabled && (url matches Some(u) && site_block_hit(config, u@))
}

/// Decides whether the current activity is blocked under the policy.
///
/// Outside focus mode, or with the policy disabled, nothing is blocked. The
/// application rule is tried first, then the website rule. A blocked result
/// names the rule and the item; bypassing is allowed in every mode but
/// "strict". Outside focus mode the result reports the "soft" mode.
pub fn check_distraction(
    config: &DistractionBlockingConfig,
    focus_mode: bool,
    app_name: &Option<String>,
    url: &Option<String>,
) -> (r: BlockCheckResult)
    ensures
        r.is_blocked == (check_blocks_app(*config, focus_mode, *app_name) || check_blocks_site(
            *config,
            focus_mode,
            *url,
        )),
        r.block_type is Some <==> r.is_blocked,
        r.blocked_item is Some <==> r.is_blocked,
        check_blocks_app(*config, focus_mode, *app_name) ==> (r.block_type matches Some(t)
            && t@ == "app"@) && (r.blocked_item matches Some(x) && x == app_name->Some_0),
        (r.is_blocked && !check_blocks_app(*config, focus_mode, *app_name)) ==> (
        r.block_type matches Some(t) && t@ == "website"@) && (r.blocked_item matches Some(x)
            && x == url->Some_0),
        focus_mode ==> r.blocking_mode == config.blocking_mode,
        !focus_mode ==> r.blocking_mode@ == "soft"@,
        r.can_bypass == !(r.is_blocked && config.blocking_mode@ == "strict"@),
{
    if !focus_mode {
        return BlockCheckResult {
            is_blocked: false,
            block_type: None,
            blocked_item: None,
            blocking_mode: "soft".to_owned(),
            can_bypass: true,
        };
    }
    if !config.enabled {
        return BlockCheckResult {
            is_blocked: false,
            block_type: None,
            blocked_item: None,
            blocking_mode: config.blocking_mode.clone(),
            can_bypass: true,
        };
    }
    if let Some(name) = app_name {
        let is_allowed = list_matches(name.as_str(), &config.allowed_apps);
        if !is_allowed && list_matches(name.as_str(), &config.blocked_apps) {
            return BlockCheckResult {
                is_blocked: true,
                block_type: Some("app".to_owned()),
                blocked_item: Some(name.clone()),
                blocking_mode: config.blocking_mode.clone(),
                can_bypass: !str_eq(config.blocking_mode.as_str(), "strict"),
            };
        }
    }
    if let Some(site_url) = url {
        let is_allowed = list_matches(site_url.as_str(), &config.allowed_websites);
        if !is_allowed && list_matches(site_url.as_str(), &config.blocked_websites) {
            return BlockCheckResult {
                is_blocked: true,
                block_type: Some("website".to_owned()),
                blocked_item: Some(site_url.clone()),
                blocking_mode: config.blocking_mode.clone(),
                can_bypass: !str_eq(config.blocking_mode.as_str(), "strict"),
            };
        }
    }
    BlockCheckResult {
        is_blocked: false,
        block_type: None,
        blocked_item: None,
        blocking_mode: config.blocking_mode.clone(),
        can_bypass: true,
    }
}

} // verus!
