use onair::models::Presence;
use onair::platform::Platform;
use onair::presence::{
    mac_raw_to_presence, parse_line, win_raw_to_presence, windows_event, LinePatterns,
    PresenceEvent, CALL_ACTIVE_PATTERN, CALL_ENDED_PATTERN,
};
use regex::Regex;

fn parse(p: Platform, line: &str) -> Option<PresenceEvent> {
    let patterns = LinePatterns::new().expect("patterns compile");
    parse_line(p, &patterns, line)
}

#[test]
fn parses_mac_available_line() {
    let line = "2026-01-09T08:29:33.642191+05:30 0x00000001f8037100 <INFO> native_modules::UserDataCrossCloudModule: CloudStateChanged: New Cloud State Event: UserDataCloudState total number of users: 1 { availability: Available, unread notification count: 0 }";
    let ev = parse(Platform::MacOs, line).expect("should match");
    assert_eq!(ev.presence, Presence::Available);
    assert_eq!(ev.raw, "Available");
    assert!(!ev.is_call_event);
}

#[test]
fn parses_mac_busy_line() {
    let line = "2026-04-14T08:29:33.638503+05:30 0x00000001f8037100 <INFO> native_modules::UserDataCrossCloudModule: CloudStateChanged: New Cloud State Event: UserDataCloudState total number of users: 1 { availability: Busy, unread notification count: 0 }";
    let ev = parse(Platform::MacOs, line).expect("should match");
    assert_eq!(ev.presence, Presence::Busy);
    assert!(ev.presence.is_in_call());
}

#[test]
fn parses_mac_unknown_line() {
    let line = "2026-04-14T08:29:33.638503+05:30 0x00000001f8037100 <INFO> native_modules::UserDataCrossCloudModule: CloudStateChanged: New Cloud State Event: UserDataCloudState total number of users: 1 { availability: PresenceUnknown, unread notification count: 0 }";
    let ev = parse(Platform::MacOs, line).expect("should match");
    assert_eq!(ev.presence, Presence::Unknown);
    assert_eq!(ev.raw, "PresenceUnknown");
}

#[test]
fn ignores_unrelated_mac_line() {
    let line = "2026-01-09T05:58:32 some random log line with no presence";
    assert!(parse(Platform::MacOs, line).is_none());
}

#[test]
fn parses_windows_busy_line() {
    let line = r#"2026-04-13T13:25:43.691087+05:30 0x00003d98 <DBG>  TaskbarBadgeServiceLegacy:Work: SetBadge Setting badge: GlyphBadge{"busy"}, overlay: No items, status Busy"#;
    let ev = parse(Platform::Windows, line).expect("should match");
    assert_eq!(ev.presence, Presence::Busy);
    assert_eq!(ev.raw, "busy");
    assert!(!ev.is_call_event);
}

#[test]
fn parses_windows_call_tracker_active() {
    // Fires even when the call is on a background profile that never
    // updates the taskbar badge: this is what multi-profile setups need.
    let line = "2026-04-14T14:12:06.817968+05:30 0x00002134 <INFO> TeamsCallTracker: Call became active: fcd632d4-112d-4e9c-9b2f-3f9467b19641 (total: 1)";
    let ev = parse(Platform::Windows, line).expect("should match");
    assert_eq!(ev.presence, Presence::Busy);
    assert_eq!(ev.raw, "call-active");
    assert!(ev.is_call_event);
}

#[test]
fn parses_windows_call_tracker_ended_zero_remaining() {
    let line = "2026-04-14T14:12:26.604803+05:30 0x00002134 <INFO> TeamsCallTracker: Call ended: fcd632d4-112d-4e9c-9b2f-3f9467b19641 (remaining: 0)";
    let ev = parse(Platform::Windows, line).expect("should match");
    assert_eq!(ev.presence, Presence::Available);
    assert_eq!(ev.raw, "call-ended");
    assert!(ev.is_call_event);
}

#[test]
fn ignores_call_ended_when_other_calls_still_active() {
    // User is in two concurrent calls and ends one: we should stay
    // Busy, not flicker to Available. The regex requires `remaining: 0`
    // so this line must NOT match.
    let line = "2026-04-14T14:12:26.604803+05:30 0x00002134 <INFO> TeamsCallTracker: Call ended: fcd632d4-... (remaining: 1)";
    assert!(parse(Platform::Windows, line).is_none());
}

#[test]
fn windows_call_tracker_regexes_compile_and_match() {
    let active = Regex::new(r"TeamsCallTracker: Call became active:")
        .expect("active regex must compile");
    let ended = Regex::new(r"TeamsCallTracker: Call ended:.*\(remaining:\s*0\s*\)")
        .expect("ended regex must compile");

    let call_active = "2026-04-14T14:12:06.817968+05:30 0x00002134 <INFO> TeamsCallTracker: Call became active: fcd632d4-112d-4e9c-9b2f-3f9467b19641 (total: 1)";
    let call_ended_zero = "2026-04-14T14:12:26.604803+05:30 0x00002134 <INFO> TeamsCallTracker: Call ended: fcd632d4-... (remaining: 0)";
    let call_ended_one = "2026-04-14T14:12:26.604803+05:30 0x00002134 <INFO> TeamsCallTracker: Call ended: fcd632d4-... (remaining: 1)";

    assert!(active.is_match(call_active));
    assert!(!active.is_match(call_ended_zero));
    assert!(ended.is_match(call_ended_zero));
    assert!(!ended.is_match(call_ended_one));

    assert_eq!(CALL_ACTIVE_PATTERN, r"TeamsCallTracker: Call became active:");
    assert_eq!(CALL_ENDED_PATTERN, r"TeamsCallTracker: Call ended:.*\(remaining:\s*0\s*\)");
}

#[test]
fn linux_reads_the_windows_format() {
    let line = r#"x GlyphBadge{"donotdisturb"} y"#;
    let ev = parse(Platform::Linux, line).expect("should match");
    assert_eq!(ev.presence, Presence::DoNotDisturb);
    assert!(parse(Platform::MacOs, line).is_none());
}

#[test]
fn mac_lines_need_both_markers() {
    assert!(parse(Platform::MacOs, "UserDataCrossCloudModule: Busy").is_none());
    assert!(parse(Platform::MacOs, "availability: Busy").is_none());
    // The marker has to come after the module.
    assert!(parse(Platform::MacOs, "availability: Busy UserDataCrossCloudModule").is_none());
    let ev = parse(Platform::MacOs, "UserDataCrossCloudModule availability:BeRightBack").unwrap();
    assert_eq!(ev.presence, Presence::BeRightBack);
}

#[test]
fn call_tracker_comes_before_the_badge() {
    let ev = windows_event(true, true, Some("away".to_string())).unwrap();
    assert_eq!((ev.presence, ev.raw.as_str()), (Presence::Busy, "call-active"));
    let ev = windows_event(false, true, Some("away".to_string())).unwrap();
    assert_eq!((ev.presence, ev.raw.as_str()), (Presence::Available, "call-ended"));
    let ev = windows_event(false, false, Some("away".to_string())).unwrap();
    assert_eq!((ev.presence, ev.raw.as_str()), (Presence::Away, "away"));
    assert!(windows_event(false, false, None).is_none());
}

#[test]
fn presence_words() {
    assert_eq!(mac_raw_to_presence("Available"), Presence::Available);
    assert_eq!(mac_raw_to_presence("Away"), Presence::Away);
    assert_eq!(mac_raw_to_presence("Busy"), Presence::Busy);
    assert_eq!(mac_raw_to_presence("DoNotDisturb"), Presence::DoNotDisturb);
    assert_eq!(mac_raw_to_presence("Offline"), Presence::Offline);
    assert_eq!(mac_raw_to_presence("BeRightBack"), Presence::BeRightBack);
    assert_eq!(mac_raw_to_presence("busy"), Presence::Unknown);
    assert_eq!(win_raw_to_presence("available"), Presence::Available);
    assert_eq!(win_raw_to_presence("busy"), Presence::Busy);
    assert_eq!(win_raw_to_presence("away"), Presence::Away);
    assert_eq!(win_raw_to_presence("berightback"), Presence::BeRightBack);
    assert_eq!(win_raw_to_presence("donotdisturb"), Presence::DoNotDisturb);
    assert_eq!(win_raw_to_presence("offline"), Presence::Offline);
    assert_eq!(win_raw_to_presence("Busy"), Presence::Unknown);
}

#[test]
fn presence_names() {
    assert_eq!(Presence::BeRightBack.name(), "BeRightBack");
    assert_eq!(Presence::BeRightBack.status_text(), "berightback");
    assert!(Presence::Away.is_engaged());
    assert!(!Presence::Away.is_in_call());
    assert!(!Presence::Unknown.is_engaged());
}

#[test]
fn active_calls_need_the_words_of_the_tracker() {
    let words = "TeamsCallTracker: Call became active:";
    for line in [words.to_string(), format!("x {} 1 GlyphBadge{{\"away\"}}", words)] {
        let ev = parse(Platform::Linux, &line).unwrap();
        assert_eq!(ev.presence, Presence::Busy);
        assert!(ev.is_call_event);
        assert!(!parse(Platform::MacOs, &line).is_some_and(|ev| ev.is_call_event));
    }
    for line in [
        "TeamsCallTracker: Call became active",
        "teamscalltracker: call became active:",
        "TeamsCallTracker Call became active:",
        "GlyphBadge{\"busy\"}",
    ] {
        assert!(!parse(Platform::Linux, line).is_some_and(|ev| ev.is_call_event));
    }
}
