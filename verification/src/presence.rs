//! Microsoft Teams presence parser.
//!
//! Reads presence out of the lines of `MSTeams_*.log` files.
//!
//! Different operating systems write presence to the log in different formats,
//! so the parser depends on the [`Platform`].

use crate::models::{names_are_distinct, Presence};
use crate::pattern::{regex_compiles, regex_first_group, regex_matches, LinePattern};
use crate::platform::Platform;
use crate::text::{contains_text, occurs_in, same_text};
use vstd::prelude::*;
use vstd::string::*;

verus! {

/// A presence event read from the log.
#[derive(Debug)]
pub struct PresenceEvent {
    pub presence: Presence,
    /// Raw matched value as it appeared in the log (e.g. "Busy" on mac, "busy" on windows).
    pub raw: String,
    /// True only for TeamsCallTracker events.
    pub is_call_event: bool,
}

/// The values of a [`PresenceEvent`].
#[verifier::ext_equal]
pub struct PresenceEventModel {
    pub presence: Presence,
    pub raw: Seq<char>,
    pub is_call_event: bool,
}

impl View for PresenceEvent {
    type V = PresenceEventModel;

    open spec fn view(&self) -> PresenceEventModel {
        PresenceEventModel {
            presence: self.presence,
            raw: self.raw@,
            is_call_event: self.is_call_event,
        }
    }
}

impl Clone for PresenceEvent {
    fn clone(&self) -> (r: Self)
        ensures
            r@ == self@,
    {
        PresenceEvent {
            presence: self.presence,
            raw: self.raw.clone(),
            is_call_event: self.is_call_event,
        }
    }
}

/// The values of an optional event.
pub open spec fn event_model(e: Option<PresenceEvent>) -> Option<PresenceEventModel> {
    match e {
        Some(ev) => Some(ev@),
        None => None,
    }
}

// ---------------------------------------------------------------------------
// Line patterns
// ---------------------------------------------------------------------------

/// `TeamsCallTracker: Call became active: <uuid> (total: N)`.
///
/// The call tracker is a direct call counter that fires for every call on
/// every profile, regardless of whether that profile is foreground in the Teams
/// UI. This is the primary signal for multi-account setups, because the taskbar
/// badge only reflects one profile at a time.
pub const CALL_ACTIVE_PATTERN: &'static str = "TeamsCallTracker: Call became active:";

/// `TeamsCallTracker: Call ended: <uuid> (remaining: 0)`: the last of the
/// concurrent calls has ended.
pub const CALL_ENDED_PATTERN: &'static str = r"TeamsCallTracker: Call ended:.*\(remaining:\s*0\s*\)";

/// `TaskbarBadgeServiceLegacy: ... GlyphBadge{"..."}`: the availability-state
/// marker. It catches manual Busy / DoNotDisturb transitions, and Available /
/// Away / BeRightBack / Offline, which the call tracker doesn't know about.
pub const BADGE_PATTERN: &'static str = r#"GlyphBadge\{"(\w+)"\}"#;

/// macOS: `... native_modules::UserDataCrossCloudModule: ... { availability: Available, ... }`.
pub const MAC_PATTERN: &'static str = r"UserDataCrossCloudModule.*availability:\s*(\w+)";

/// The text that every macOS presence line contains, besides the marker.
pub const MAC_MODULE: &'static str = "UserDataCrossCloudModule";

/// The text before the presence in a macOS line.
pub const MAC_MARKER: &'static str = "availability:";

/// One of the line patterns is not a valid regular expression.
#[derive(Debug, Clone, Copy, PartialEq, Eq, Structural)]
pub struct PatternError;

/// The compiled line patterns. They are compiled once and used for every line.
pub struct LinePatterns {
    call_active: LinePattern,
    call_ended: LinePattern,
    badge: LinePattern,
    mac: LinePattern,
}

impl LinePatterns {
    #[verifier::type_invariant]
    spec fn inv(self) -> bool {
        &&& self.call_active@ == CALL_ACTIVE_PATTERN@
        &&& self.call_ended@ == CALL_ENDED_PATTERN@
        &&& self.badge@ == BADGE_PATTERN@
        &&& self.mac@ == MAC_PATTERN@
    }

    /// Compiles the line patterns.
    pub fn new() -> (r: Result<LinePatterns, PatternError>)
        ensures
            r is Ok <==> {
                &&& regex_compiles(CALL_ACTIVE_PATTERN@)
                &&& regex_compiles(CALL_ENDED_PATTERN@)
                &&& regex_compiles(BADGE_PATTERN@)
                &&& regex_compiles(MAC_PATTERN@)
            },
    {
        match (
            LinePattern::compile(CALL_ACTIVE_PATTERN),
            LinePattern::compile(CALL_ENDED_PATTERN),
            LinePattern::compile(BADGE_PATTERN),
            LinePattern::compile(MAC_PATTERN),
        ) {
            (Ok(call_active), Ok(call_ended), Ok(badge), Ok(mac)) => Ok(
                LinePatterns { call_active, call_ended, badge, mac },
            ),
            _ => Err(PatternError),
        }
    }
}

// ---------------------------------------------------------------------------
// macOS lines
// ---------------------------------------------------------------------------

/// The presence that a word of a macOS line stands for.
pub open spec fn mac_presence(raw: Seq<char>) -> Presence {
    if raw == "Available"@ {
        Presence::Available
    } else if raw == "Away"@ {
        Presence::Away
    } else if raw == "Busy"@ {
        Presence::Busy
    } else if raw == "DoNotDisturb"@ {
        Presence::DoNotDisturb
    } else if raw == "Offline"@ {
        Presence::Offline
    } else if raw == "BeRightBack"@ {
        Presence::BeRightBack
    } else {
        Presence::Unknown
    }
}

/// The event of a macOS line with the given captured word.
pub open spec fn mac_event_spec(word: Option<Seq<char>>) -> Option<PresenceEventModel> {
    match word {
        Some(raw) => Some(
            PresenceEventModel { presence: mac_presence(raw), raw, is_call_event: false },
        ),
        None => None,
    }
}

/// The event of a macOS line.
pub open spec fn mac_line_event(line: Seq<char>) -> Option<PresenceEventModel> {
    if occurs_in(MAC_MODULE@, line) && occurs_in(MAC_MARKER@, line) {
        mac_event_spec(regex_first_group(MAC_PATTERN@, line))
    } else {
        None
    }
}

/// The presence that a word of a macOS line stands for.
pub fn mac_raw_to_presence(raw: &str) -> (r: Presence)
    ensures
        r == mac_presence(raw@),
{
    if same_text(raw, "Available") {
        Presence::Available
    } else if same_text(raw, "Away") {
        Presence::Away
    } else if same_text(raw, "Busy") {
        Presence::Busy
    } else if same_text(raw, "DoNotDisturb") {
        Presence::DoNotDisturb
    } else if same_text(raw, "Offline") {
        Presence::Offline
    } else if same_text(raw, "BeRightBack") {
        Presence::BeRightBack
    } else {
        Presence::Unknown
    }
}

/// The event of a macOS line, given the word that the pattern captured.
pub fn mac_event(word: Option<String>) -> (r: Option<PresenceEvent>)
    ensures
        event_model(r) == mac_event_spec(
            match word {
                Some(w) => Some(w@),
                None => None,
            },
        ),
{
    match word {
        Some(raw) => {
            let presence: Presence = mac_raw_to_presence(raw.as_str());
            Some(PresenceEvent { presence, raw, is_call_event: false })
        },
        None => None,
    }
}

/// Parses a macOS line.
pub fn parse_line_mac(patterns: &LinePatterns, line: &str) -> (r: Option<PresenceEvent>)
    ensures
        event_model(r) == mac_line_event(line@),
        r matches Some(ev) ==> occurs_in(ev.raw@, line@),
{
    if !contains_text(line, MAC_MODULE) || !contains_text(line, MAC_MARKER) {
        return None;
    }
    proof {
        use_type_invariant(patterns);
    }
    mac_event(patterns.mac.first_group(line))
}

// ---------------------------------------------------------------------------
// Windows / Linux lines
// ---------------------------------------------------------------------------

/// The presence that a badge word stands for.
pub open spec fn windows_presence(raw: Seq<char>) -> Presence {
    if raw == "available"@ {
        Presence::Available
    } else if raw == "busy"@ {
        Presence::Busy
    } else if raw == "away"@ {
        Presence::Away
    } else if raw == "berightback"@ {
        Presence::BeRightBack
    } else if raw == "donotdisturb"@ {
        Presence::DoNotDisturb
    } else if raw == "offline"@ {
        Presence::Offline
    } else {
        Presence::Unknown
    }
}

/// The event of a Windows line: the call tracker comes first, then the badge.
pub open spec fn windows_event_spec(
    call_active: bool,
    call_ended: bool,
    badge: Option<Seq<char>>,
) -> Option<PresenceEventModel> {
    if call_active {
        Some(
            PresenceEventModel {
                presence: Presence::Busy,
                raw: "call-active"@,
                is_call_event: true,
            },
        )
    } else if call_ended {
        Some(
            PresenceEventModel {
                presence: Presence::Available,
                raw: "call-ended"@,
                is_call_event: true,
            },
        )
    } else {
        match badge {
            Some(raw) => Some(
                PresenceEventModel { presence: windows_presence(raw), raw, is_call_event: false },
            ),
            None => None,
        }
    }
}

/// The event of a Windows line.
pub open spec fn windows_line_event(line: Seq<char>) -> Option<PresenceEventModel> {
    windows_event_spec(
        regex_matches(CALL_ACTIVE_PATTERN@, line),
        regex_matches(CALL_ENDED_PATTERN@, line),
        regex_first_group(BADGE_PATTERN@, line),
    )
}

/// The presence that a badge word stands for.
pub fn win_raw_to_presence(raw: &str) -> (r: Presence)
    ensures
        r == windows_presence(raw@),
{
    if same_text(raw, "available") {
        Presence::Available
    } else if same_text(raw, "busy") {
        Presence::Busy
    } else if same_text(raw, "away") {
        Presence::Away
    } else if same_text(raw, "berightback") {
        Presence::BeRightBack
    } else if same_text(raw, "donotdisturb") {
        Presence::DoNotDisturb
    } else if same_text(raw, "offline") {
        Presence::Offline
    } else {
        Presence::Unknown
    }
}

/// The event of a Windows line, given what its patterns found.
pub fn windows_event(call_active: bool, call_ended: bool, badge: Option<String>) -> (r: Option<
    PresenceEvent,
>)
    ensures
        event_model(r) == windows_event_spec(
            call_active,
            call_ended,
            match badge {
                Some(w) => Some(w@),
                None => None,
            },
        ),
{
    if call_active {
        return Some(
            PresenceEvent {
                presence: Presence::Busy,
                raw: "call-active".to_owned(),
                is_call_event: true,
            },
        );
    }
    if call_ended {
        return Some(
            PresenceEvent {
                presence: Presence::Available,
                raw: "call-ended".to_owned(),
                is_call_event: true,
            },
        );
    }
    match badge {
        Some(raw) => {
            let presence: Presence = win_raw_to_presence(raw.as_str());
            Some(PresenceEvent { presence, raw, is_call_event: false })
        },
        None => None,
    }
}

/// True for the event of an active call.
pub open spec fn is_active_call(ev: Option<PresenceEvent>) -> bool {
    ev matches Some(ev) && ev.is_call_event && ev.presence == Presence::Busy
}

/// Parses a Windows or Linux line. The lines in which the call tracker reports an
/// active call, and no others, are Busy call events, whatever else they contain; a
/// badge event has its raw value from the line.
pub fn parse_line_windows(patterns: &LinePatterns, line: &str) -> (r: Option<PresenceEvent>)
    ensures
        event_model(r) == windows_line_event(line@),
        regex_matches(CALL_ACTIVE_PATTERN@, line@) == occurs_in(CALL_ACTIVE_PATTERN@, line@),
        is_active_call(r) <==> occurs_in(CALL_ACTIVE_PATTERN@, line@),
        r matches Some(ev) ==> ev.is_call_event || occurs_in(ev.raw@, line@),
{
    proof {
        use_type_invariant(patterns);
        reveal_strlit("TeamsCallTracker: Call became active:");
    }
    // Primary: TeamsCallTracker (fires for all profiles, foreground or not).
    if patterns.call_active.is_match(line) {
        return windows_event(true, false, None);
    }
    if patterns.call_ended.is_match(line) {
        return windows_event(false, true, None);
    }
    // Secondary: GlyphBadge (foreground profile only, but catches manual
    // Busy/DoNotDisturb and the other availability states).
    windows_event(false, false, patterns.badge.first_group(line))
}

// ---------------------------------------------------------------------------
// Any line
// ---------------------------------------------------------------------------

/// The event of a log line. Teams on Linux is uncommon; its lines are read like
/// those of Windows.
pub open spec fn line_event(p: Platform, line: Seq<char>) -> Option<PresenceEventModel> {
    if p == Platform::MacOs {
        mac_line_event(line)
    } else {
        windows_line_event(line)
    }
}

/// Try to parse a single log line into a [`PresenceEvent`].
/// Returns `None` if the line doesn't contain a presence marker. Active calls are
/// reported by the lines with the call tracker's words, and not on macOS.
pub fn parse_line(p: Platform, patterns: &LinePatterns, line: &str) -> (r: Option<PresenceEvent>)
    ensures
        event_model(r) == line_event(p, line@),
        p != Platform::MacOs ==> regex_matches(CALL_ACTIVE_PATTERN@, line@) == occurs_in(
            CALL_ACTIVE_PATTERN@,
            line@,
        ),
        is_active_call(r) <==> p != Platform::MacOs && occurs_in(CALL_ACTIVE_PATTERN@, line@),
        r matches Some(ev) ==> ev.is_call_event || occurs_in(ev.raw@, line@),
{
    match p {
        Platform::MacOs => parse_line_mac(patterns, line),
        _ => parse_line_windows(patterns, line),
    }
}

/// Only the Windows call tracker gives call events: an active call is Busy, the
/// end of the last one is Available.
pub proof fn call_events_come_from_the_tracker(p: Platform, line: Seq<char>)
    ensures
        line_event(p, line) matches Some(ev) ==> (ev.is_call_event ==> {
            &&& p != Platform::MacOs
            &&& ev.presence == Presence::Busy || ev.presence == Presence::Available
            &&& (ev.presence == Presence::Busy <==> regex_matches(CALL_ACTIVE_PATTERN@, line))
        }),
{
}

// ---------------------------------------------------------------------------
// Laws
// ---------------------------------------------------------------------------

/// The words of the log are the names of the presences: on macOS as they are, in
/// badges in small letters, as the status shows them. Every presence is read from
/// its own word and from no other.
pub proof fn words_stand_for_their_presence(presence: Presence, raw: Seq<char>)
    ensures
        mac_presence(presence.name_spec()) == presence,
        windows_presence(presence.status_spec()) == presence,
        mac_presence(raw) == presence && presence != Presence::Unknown ==> raw
            == presence.name_spec(),
        windows_presence(raw) == presence && presence != Presence::Unknown ==> raw
            == presence.status_spec(),
{
    names_are_distinct(presence, Presence::Available);
    names_are_distinct(presence, Presence::Busy);
    names_are_distinct(presence, Presence::Away);
    names_are_distinct(presence, Presence::BeRightBack);
    names_are_distinct(presence, Presence::DoNotDisturb);
    names_are_distinct(presence, Presence::Offline);
}

/// Each presence has one word in the logs of macOS and one in badges; any other
/// word is unknown.
pub proof fn words_of_the_log(raw: Seq<char>)
    ensures
        raw == "Available"@ <==> mac_presence(raw) == Presence::Available,
        raw == "Busy"@ <==> mac_presence(raw) == Presence::Busy,
        raw == "Away"@ <==> mac_presence(raw) == Presence::Away,
        raw == "BeRightBack"@ <==> mac_presence(raw) == Presence::BeRightBack,
        raw == "DoNotDisturb"@ <==> mac_presence(raw) == Presence::DoNotDisturb,
        raw == "Offline"@ <==> mac_presence(raw) == Presence::Offline,
        raw == "available"@ <==> windows_presence(raw) == Presence::Available,
        raw == "busy"@ <==> windows_presence(raw) == Presence::Busy,
        raw == "away"@ <==> windows_presence(raw) == Presence::Away,
        raw == "berightback"@ <==> windows_presence(raw) == Presence::BeRightBack,
        raw == "donotdisturb"@ <==> windows_presence(raw) == Presence::DoNotDisturb,
        raw == "offline"@ <==> windows_presence(raw) == Presence::Offline,
{
    words_stand_for_their_presence(Presence::Available, raw);
    words_stand_for_their_presence(Presence::Busy, raw);
    words_stand_for_their_presence(Presence::Away, raw);
    words_stand_for_their_presence(Presence::BeRightBack, raw);
    words_stand_for_their_presence(Presence::DoNotDisturb, raw);
    words_stand_for_their_presence(Presence::Offline, raw);
}

/// Off macOS the call tracker is heard before the badge, its active calls before
/// ended ones; a badge gives its word as it stands, and no line else is an event.
pub proof fn tracker_is_heard_before_the_badge(p: Platform, line: Seq<char>)
    requires
        p != Platform::MacOs,
    ensures
        ({
            let active = regex_matches("TeamsCallTracker: Call became active:"@, line);
            let ended = regex_matches(r"TeamsCallTracker: Call ended:.*\(remaining:\s*0\s*\)"@, line);
            let badge = regex_first_group(r#"GlyphBadge\{"(\w+)"\}"#@, line);
            let event = line_event(p, line);
            &&& active ==> (event matches Some(ev) && ev.presence == Presence::Busy
                && ev.is_call_event && ev.raw == "call-active"@)
            &&& !active && ended ==> (event matches Some(ev) && ev.presence == Presence::Available
                && ev.is_call_event && ev.raw == "call-ended"@)
            &&& !active && !ended ==> match badge {
                Some(word) => event matches Some(ev) && ev.raw == word && !ev.is_call_event
                    && ev.presence == windows_presence(word),
                None => event is None,
            }
        }),
{
}

/// On macOS a line is an event if it speaks of the module and of an availability,
/// and the pattern finds a word; the event has that word.
pub proof fn mac_lines_need_the_module(line: Seq<char>)
    ensures
        ({
            let event = line_event(Platform::MacOs, line);
            let word = regex_first_group(r"UserDataCrossCloudModule.*availability:\s*(\w+)"@, line);
            let spoken = occurs_in("UserDataCrossCloudModule"@, line) && occurs_in(
                "availability:"@,
                line,
            );
            &&& event is Some <==> spoken && word is Some
            &&& event matches Some(ev) ==> Some(ev.raw) == word && ev.presence == mac_presence(
                ev.raw,
            ) && !ev.is_call_event
        }),
{
}

} // verus!
