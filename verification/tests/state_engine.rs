use onair::bulb::{BulbError, BulbState, DiscoveredBulb};
use onair::clock::{LocalTime, Moment};
use onair::commands::Scene;
use onair::config::{BulbMode, Config};
use onair::events::{EventLevel, EVENT_BUFFER_CAP};
use onair::models::{Presence, Rgb, TriggerMode};
use onair::monitor::{CycleStart, EndedCall, GraceEffect, Order, PresenceEffect};
use onair::net::Ipv4;
use onair::platform::Platform;
use onair::presence::PresenceEvent;
use onair::search::SearchStep;
use onair::state::{AppState, DayStats, DisplayState, OverrideMode};

const SECOND: u64 = 1_000_000_000;

fn at(secs: i64) -> Moment {
    Moment { secs, nanos: 0 }
}

fn local(secs: i64, day: i32, hour: u8) -> LocalTime {
    LocalTime { at: at(secs), offset: 0, day, hour }
}

fn ip(d: u8) -> Ipv4 {
    Ipv4 { a: 10, b: 0, c: 0, d }
}

fn state_on(platform: Platform) -> AppState {
    AppState::new(Config::defaults(), platform, at(0))
}

fn presence(presence: Presence) -> PresenceEvent {
    PresenceEvent { presence, raw: "raw".to_string(), is_call_event: false }
}

fn call(active: bool) -> PresenceEvent {
    PresenceEvent {
        presence: if active { Presence::Busy } else { Presence::Available },
        raw: if active { "call-active" } else { "call-ended" }.to_string(),
        is_call_event: true,
    }
}

fn bulb(mac: &str, d: u8) -> DiscoveredBulb {
    DiscoveredBulb { mac: mac.to_string(), ip: ip(d), module: None }
}

fn last_message(s: &AppState) -> String {
    s.get_events(1, 0)[0].message.clone()
}

fn last_level(s: &AppState) -> EventLevel {
    s.get_events(1, 0)[0].level
}

#[test]
fn fresh_state() {
    let s = state_on(Platform::Linux);
    assert_eq!(s.current_presence, Presence::Unknown);
    assert_eq!(s.display, DisplayState::Off);
    assert_eq!(s.override_mode, OverrideMode::Auto);
    assert_eq!(s.total_events(), 0);
    assert_eq!(s.stats, DayStats::default());
    assert!(s.can_log(4));
    assert!(s.can_begin_call(local(0, 1, 9)) && s.can_end_call(local(0, 1, 9)));
    assert!(s.notices.is_empty());
}

#[test]
fn events_are_numbered_from_one() {
    let mut s = state_on(Platform::Linux);
    s.log_event(EventLevel::Inf, "a".to_string(), at(1));
    s.log_event(EventLevel::Wrn, "b".to_string(), at(2));
    let all = s.get_events(10, 0);
    assert_eq!(all.iter().map(|e| e.id).collect::<Vec<u64>>(), vec![1, 2]);
    assert_eq!(all[1].message, "b");
    assert_eq!(all[1].ts, at(2));
    assert_eq!(all[1].level, EventLevel::Wrn);
}

#[test]
fn full_buffer_drops_the_oldest() {
    let mut s = state_on(Platform::Linux);
    for i in 0..EVENT_BUFFER_CAP + 5 {
        s.log_event(EventLevel::Inf, format!("{}", i), at(0));
    }
    assert_eq!(s.total_events(), EVENT_BUFFER_CAP);
    let all = s.get_events(EVENT_BUFFER_CAP, 0);
    assert_eq!(all[0].id, 6);
    assert_eq!(all[0].message, "5");
    assert_eq!(all[EVENT_BUFFER_CAP - 1].id, 1005);
}

#[test]
fn pages_of_events() {
    let mut s = state_on(Platform::Linux);
    for i in 0..5 {
        s.log_event(EventLevel::Inf, format!("{}", i), at(0));
    }
    let ids = |limit: usize, offset: usize| -> Vec<u64> {
        s.get_events(limit, offset).iter().map(|e| e.id).collect()
    };
    assert_eq!(ids(2, 0), vec![4, 5]);
    assert_eq!(ids(2, 1), vec![3, 4]);
    assert_eq!(ids(10, 3), vec![1, 2]);
    assert_eq!(ids(2, 5), Vec::<u64>::new());
    assert_eq!(ids(2, 99), Vec::<u64>::new());
    assert_eq!(ids(0, 0), Vec::<u64>::new());
    // Adjacent pages make up one page.
    assert_eq!(ids(3, 1), [ids(1, 3), ids(2, 1)].concat());
}

#[test]
fn debug_events_need_the_debug_level() {
    let mut s = state_on(Platform::Linux);
    s.log_debug("quiet".to_string(), at(0));
    assert_eq!(s.total_events(), 0);
    s.config.log_level = "debug".to_string();
    s.log_debug("loud".to_string(), at(0));
    assert_eq!(s.total_events(), 1);
    assert_eq!(last_level(&s), EventLevel::Dbg);
}

#[test]
fn every_message_is_emitted() {
    let mut s = state_on(Platform::Linux);
    s.log_debug("quiet".to_string(), at(0));
    s.log_event(EventLevel::Okay, "done".to_string(), at(1));
    assert_eq!(s.total_events(), 1);
    let notices: Vec<(EventLevel, String)> =
        s.take_notices().into_iter().map(|n| (n.level, n.message)).collect();
    assert_eq!(
        notices,
        vec![(EventLevel::Dbg, "quiet".to_string()), (EventLevel::Okay, "done".to_string())]
    );
    assert!(s.take_notices().is_empty());
    assert_eq!(s.total_events(), 1);
}

#[test]
fn level_labels() {
    assert_eq!(EventLevel::Dbg.label(), "DBG");
    assert_eq!(EventLevel::Inf.label(), "INF");
    assert_eq!(EventLevel::Okay.label(), "OK");
    assert_eq!(EventLevel::Wrn.label(), "WRN");
    assert_eq!(EventLevel::Error.label(), "ERR");
}

#[test]
fn day_stats_reset() {
    let mut stats = DayStats { date: Some(1), calls_today: 3, total_time_today_secs: 9 };
    stats.ensure_today(1);
    assert_eq!(stats, DayStats { date: Some(1), calls_today: 3, total_time_today_secs: 9 });
    stats.ensure_today(2);
    assert_eq!(stats, DayStats { date: Some(2), calls_today: 0, total_time_today_secs: 0 });
}

#[test]
fn work_hours() {
    let mut s = state_on(Platform::Linux);
    let hours = |s: &AppState| -> Vec<u8> { (0..24).filter(|h| s.within_work_hours(*h)).collect() };
    assert_eq!(hours(&s), (6..18).collect::<Vec<u8>>());
    s.config.work_start = 22;
    s.config.work_end = 6;
    assert_eq!(hours(&s), vec![0, 1, 2, 3, 4, 5, 22, 23]);
    s.config.work_end = 22;
    assert_eq!(hours(&s).len(), 24);
}

#[test]
fn trigger_modes() {
    let mut s = state_on(Platform::Windows);
    assert!(s.event_triggers(Presence::Busy, false));
    assert!(!s.event_triggers(Presence::Away, false));
    s.config.trigger_mode = TriggerMode::AnyNonAvailable;
    assert!(s.event_triggers(Presence::Away, false));
    assert!(!s.event_triggers(Presence::Offline, false));
    s.config.trigger_mode = TriggerMode::CallOnly;
    assert!(!s.event_triggers(Presence::Busy, false));
    assert!(s.event_triggers(Presence::Busy, true));
    assert!(!s.event_triggers(Presence::Available, true));
    s.platform = Platform::MacOs;
    assert!(s.event_triggers(Presence::Busy, false));
}

#[test]
fn a_call_from_start_to_end() {
    let mut s = state_on(Platform::Windows);
    s.take_presence(&presence(Presence::Available), local(90, 5, 9), 0);
    let begins = s.take_presence(&presence(Presence::Busy), local(100, 5, 9), 0);
    assert_eq!(begins, PresenceEffect::CallBegins);
    assert_eq!(s.call_start, Some(at(100)));
    assert_eq!(s.stats.calls_today, 1);
    assert_eq!(last_message(&s), "Teams presence: Available -> Busy");
    s.call_recorded(77);

    let grace = s.take_presence(&presence(Presence::Available), local(160, 5, 9), 60 * SECOND);
    assert_eq!(grace, PresenceEffect::GraceBegins);
    assert_eq!(last_message(&s), "grace period started (10s)");
    assert_eq!(s.call_start, Some(at(100)));
    assert_eq!(s.grace_step(local(169, 5, 9), 70 * SECOND - 1), GraceEffect::Waits);
    assert_eq!(
        s.grace_step(local(170, 5, 9), 70 * SECOND),
        GraceEffect::CallEnds(Some(EndedCall { id: 77, duration_secs: 70 }))
    );
    assert_eq!(s.call_start, None);
    assert_eq!(s.grace_until, None);
    assert_eq!(s.current_call_id, None);
    assert_eq!(s.stats.total_time_today_secs, 70);
    assert_eq!(s.stats.calls_today, 1);
}

#[test]
fn a_call_over_midnight_counts_for_the_new_day() {
    let mut s = state_on(Platform::Windows);
    s.config.work_start = 0;
    s.config.work_end = 0;
    s.take_presence(&presence(Presence::Busy), local(0, 5, 23), 0);
    s.take_presence(&presence(Presence::Away), local(50, 6, 0), 0);
    assert_eq!(s.grace_step(local(60, 6, 0), 10 * SECOND), GraceEffect::CallEnds(None));
    assert_eq!(s.stats, DayStats { date: Some(6), calls_today: 0, total_time_today_secs: 60 });
}

#[test]
fn back_to_back_calls() {
    let mut s = state_on(Platform::Windows);
    s.take_presence(&presence(Presence::Busy), local(100, 5, 9), 0);
    s.take_presence(&presence(Presence::Available), local(110, 5, 9), 10 * SECOND);
    let again = s.take_presence(&presence(Presence::DoNotDisturb), local(115, 5, 9), 15 * SECOND);
    assert_eq!(again, PresenceEffect::Stays);
    assert_eq!(s.grace_step(local(120, 5, 9), 20 * SECOND), GraceEffect::Cancelled);
    assert_eq!(last_message(&s), "grace cancelled — back-to-back call");
    assert_eq!(last_level(&s), EventLevel::Wrn);
    assert_eq!(s.call_start, Some(at(100)));
    assert_eq!(s.grace_until, None);
    assert_eq!(s.stats.calls_today, 1);
}

#[test]
fn outside_work_hours_nothing_begins() {
    let mut s = state_on(Platform::Windows);
    let effect = s.take_presence(&presence(Presence::Busy), local(0, 5, 18), 0);
    assert_eq!(effect, PresenceEffect::OutsideHours);
    assert_eq!(s.call_start, None);
    assert_eq!(s.stats.calls_today, 0);
    assert_eq!(last_message(&s), "outside work hours — ignoring busy transition");
    assert_eq!(s.current_presence, Presence::Busy);
}

#[test]
fn repeated_presence_is_passed_over() {
    let mut s = state_on(Platform::Windows);
    s.config.log_level = "debug".to_string();
    s.take_presence(&presence(Presence::Away), local(0, 5, 9), 0);
    let effect = s.take_presence(&presence(Presence::Away), local(1, 5, 9), 0);
    assert_eq!(effect, PresenceEffect::Unchanged);
    assert_eq!(last_message(&s), "presence unchanged (Away), no call-tracker event, skipping");
}

#[test]
fn tracker_call_begins_while_busy() {
    let mut s = state_on(Platform::Windows);
    s.config.trigger_mode = TriggerMode::CallOnly;
    s.config.log_level = "debug".to_string();
    assert_eq!(
        s.take_presence(&presence(Presence::Busy), local(0, 5, 9), 0),
        PresenceEffect::Stays
    );
    assert_eq!(
        s.take_presence(&call(true), local(1, 5, 9), 0),
        PresenceEffect::CallBegins
    );
    assert!(s.call_tracker_active);
    assert!(s.currently_triggered());
    let messages: Vec<String> = s.get_events(2, 0).into_iter().map(|e| e.message).collect();
    assert_eq!(
        messages,
        vec![
            "TeamsCallTracker: call_tracker_active → true (raw=call-active)".to_string(),
            "trigger check: mode=CallOnly now_triggered=true call_was_active=false (raw=call-active is_call_event=true)".to_string(),
        ]
    );
    assert_eq!(
        s.take_presence(&call(false), local(2, 5, 9), 0),
        PresenceEffect::GraceBegins
    );
    assert!(!s.call_tracker_active);
    s.grace_step(local(60, 5, 9), 11 * SECOND);
    assert_eq!(
        last_message(&s),
        "grace expired — still_triggered=false (presence=Available call_tracker_active=false)"
    );
}

#[test]
fn polls_are_noted_at_debug_level() {
    let mut s = state_on(Platform::Windows);
    s.config.log_level = "debug".to_string();
    s.note_poll(0, at(0));
    assert_eq!(
        last_message(&s),
        "presence poll: no new events (presence=Unknown call_tracker_active=false triggered=false)"
    );
    s.note_poll(3, at(0));
    assert_eq!(last_message(&s), "presence poll: 3 new event(s)");
}

#[test]
fn cap_reverts_to_idle() {
    let mut s = state_on(Platform::Windows);
    s.take_presence(&presence(Presence::Busy), local(0, 5, 9), 0);
    assert!(!s.cap_step(at(4 * 3600 - 1)));
    assert_eq!(s.call_start, Some(at(0)));
    assert!(s.cap_step(at(4 * 3600)));
    assert_eq!(s.call_start, None);
    assert_eq!(last_message(&s), "call duration exceeded 4h cap — reverting to idle");
    assert!(!s.cap_step(at(4 * 3600)));
}

#[test]
fn huge_caps_are_not_reached() {
    let mut s = state_on(Platform::Windows);
    s.config.max_call_hours = u64::MAX;
    s.take_presence(&presence(Presence::Busy), local(0, 5, 9), 0);
    assert!(!s.cap_step(at(1)));
    assert!(!s.cap_step(at(i64::MAX)));
    assert_eq!(s.call_start, Some(at(0)));
}

#[test]
fn overrides_hold() {
    let mut s = state_on(Platform::Windows);
    assert_eq!(s.override_step(), CycleStart::Poll);
    s.override_mode = OverrideMode::ForceRed;
    assert_eq!(s.override_step(), CycleStart::Hold(Some(Order::ShowCall)));
    s.display = DisplayState::Call;
    assert_eq!(s.override_step(), CycleStart::Hold(None));
    s.override_mode = OverrideMode::ForceOff;
    assert_eq!(s.override_step(), CycleStart::Hold(Some(Order::SwitchOff)));
    s.note_forced_off(false);
    assert_eq!(s.display, DisplayState::Call);
    s.note_forced_off(true);
    assert_eq!(s.override_step(), CycleStart::Hold(None));
}

#[test]
fn reconciling() {
    let mut s = state_on(Platform::Windows);
    assert_eq!(s.reconcile_display(9), Order::ShowIdle);
    s.take_presence(&presence(Presence::Busy), local(0, 5, 9), 0);
    assert_eq!(s.reconcile_display(9), Order::ShowCall);
    assert_eq!(s.call_start, Some(at(0)));
    // After hours the remembered call is forgotten.
    assert_eq!(s.reconcile_display(20), Order::ShowIdle);
    assert_eq!(s.call_start, None);
    s.override_mode = OverrideMode::ForceRed;
    assert_eq!(s.reconcile_display(20), Order::ShowCall);
    s.override_mode = OverrideMode::ForceOff;
    assert_eq!(s.reconcile_display(9), Order::SwitchOff);
}

#[test]
fn commands_are_mirrored() {
    let mut s = state_on(Platform::Windows);
    assert!(s.apply_call().is_none());
    assert!(s.force_off().is_none());
    s.bulb_ip = Some(ip(3));
    s.note_pilot(
        Some(BulbState {
            state: false,
            r: 1,
            g: 2,
            b: 3,
            dimming: 4,
            temp: 5,
            rssi: -6,
            scene_id: 7,
        }),
        at(1),
    );
    let c = s.apply_call().unwrap();
    assert_eq!(c, s.force_red().unwrap());
    assert_eq!(c.ip, ip(3));
    assert_eq!(
        c.request(),
        r#"{"method":"setPilot","params":{"state":true,"r":255,"g":0,"b":0,"dimming":100}}"#
    );
    s.note_command(&c, Ok(()), at(2));
    assert_eq!(s.display, DisplayState::Call);
    assert_eq!(
        s.bulb_live,
        Some(BulbState {
            state: true,
            r: 255,
            g: 0,
            b: 0,
            dimming: 100,
            temp: 5,
            rssi: -6,
            scene_id: 7,
        })
    );
    assert_eq!(s.bulb_last_polled, Some(at(2)));
    assert_eq!(last_message(&s), "bulb -> CALL #FF0000 brightness 100");

    let c = s.apply_idle().unwrap();
    assert_eq!(c.request(), r#"{"method":"setPilot","params":{"state":false}}"#);
    s.note_command(&c, Ok(()), at(3));
    assert_eq!(s.display, DisplayState::Idle);
    assert_eq!(last_message(&s), "bulb -> IDLE OFF");
    let live = s.bulb_live.unwrap();
    assert_eq!((live.state, live.r, live.dimming), (false, 255, 100));
}

#[test]
fn failed_command_is_retried() {
    let mut s = state_on(Platform::Windows);
    s.bulb_ip = Some(ip(3));
    s.bulb_reachable = true;
    let c = s.command(Scene::Call).unwrap();
    s.note_command(&c, Err(BulbError::Timeout), at(2));
    assert_eq!(s.display, DisplayState::Off);
    assert!(!s.bulb_reachable);
    assert!(s.bulb_live.is_none());
    assert_eq!(
        last_message(&s),
        "bulb command failed: timeout waiting for bulb response (will retry next cycle)"
    );
    assert_eq!(last_level(&s), EventLevel::Error);
}

#[test]
fn first_mirror_starts_from_nothing() {
    let mut s = state_on(Platform::Windows);
    s.bulb_ip = Some(ip(3));
    s.config.idle_state = BulbMode::On;
    s.config.idle_color = Rgb::new(1, 2, 3);
    s.config.idle_brightness = 5;
    let c = s.apply_idle().unwrap();
    s.note_command(&c, Ok(()), at(2));
    // The mirrored brightness is the one that the bulb was told.
    assert_eq!(s.bulb_live.unwrap().dimming, 10);
    assert!(c.request().contains(r#""dimming":10"#));
    assert_eq!(s.bulb_live.unwrap().rssi, 0);
    assert_eq!(last_message(&s), "bulb -> IDLE #010203 brightness 5");
}

#[test]
fn failed_poll_keeps_the_snapshot() {
    let mut s = state_on(Platform::Windows);
    let live =
        BulbState { state: true, r: 0, g: 0, b: 0, dimming: 50, temp: 0, rssi: -50, scene_id: 0 };
    s.note_pilot(Some(live), at(1));
    assert!(s.bulb_reachable);
    s.note_pilot(None, at(2));
    assert!(!s.bulb_reachable);
    assert_eq!(s.bulb_live, Some(live));
    assert_eq!(s.bulb_last_polled, Some(at(1)));
}

#[test]
fn search_without_a_bulb() {
    let mut s = state_on(Platform::Windows);
    s.bulb_ip = Some(ip(1));
    let (mac, step) = s.begin_search(at(0));
    assert_eq!(mac, "");
    assert_eq!(step, SearchStep::Finished);
    assert_eq!(s.bulb_ip, None);
    assert_eq!(last_message(&s), "no bulb MAC configured — open Settings to select one");
}

#[test]
fn search_asks_the_cached_address_first() {
    let mut s = state_on(Platform::Windows);
    s.config.bulb_mac = "aabb".to_string();
    s.config.bulb_last_ip = "10.0.0.9".to_string();
    let (mac, step) = s.begin_search(at(0));
    assert_eq!(step, SearchStep::AskCached(ip(9)));
    assert_eq!(
        s.cached_answered(&mac, ip(9), Some(BulbError::Timeout), at(1)),
        SearchStep::Discover(1)
    );
    assert_eq!(
        last_message(&s),
        "cached IP 10.0.0.9 unreachable (timeout waiting for bulb response), falling back to discovery"
    );
    assert_eq!(s.cached_answered(&mac, ip(9), None, at(1)), SearchStep::Finished);
    assert_eq!(s.bulb_ip, Some(ip(9)));
    assert!(s.bulb_reachable);
    assert_eq!(last_message(&s), "reconnected to cached bulb aabb at 10.0.0.9");
}

#[test]
fn search_discovers_and_caches() {
    let mut s = state_on(Platform::Windows);
    s.config.bulb_mac = "AABB".to_string();
    s.config.bulb_last_ip = "nonsense".to_string();
    let (mac, step) = s.begin_search(at(0));
    assert_eq!(step, SearchStep::Discover(1));
    let bulbs = vec![bulb("ccdd", 1), bulb("aabb", 2)];
    assert_eq!(s.discovery_answered(&mac, 1, Ok(bulbs), at(1)), SearchStep::Found);
    assert_eq!(s.bulb_ip, Some(ip(2)));
    assert_eq!(s.config.bulb_last_ip, "10.0.0.2");
    assert_eq!(s.last_discovery.len(), 2);
    assert_eq!(last_message(&s), "found bulb aabb at 10.0.0.2");
    let (_, step) = s.begin_search(at(2));
    assert_eq!(step, SearchStep::AskCached(ip(2)));
}

#[test]
fn search_gives_up() {
    let mut s = state_on(Platform::Windows);
    s.config.bulb_mac = "aabb".to_string();
    s.bulb_reachable = true;
    let (mac, _) = s.begin_search(at(0));
    assert_eq!(s.discovery_answered(&mac, 1, Ok(vec![bulb("ccdd", 1)]), at(1)), SearchStep::Retry(2));
    assert_eq!(
        last_message(&s),
        "configured bulb aabb not found (attempt 1/3), 1 other bulb(s) on LAN"
    );
    assert_eq!(
        s.discovery_answered(&mac, 2, Err(BulbError::Timeout), at(2)),
        SearchStep::Retry(3)
    );
    assert_eq!(
        last_message(&s),
        "discovery failed (attempt 2): timeout waiting for bulb response"
    );
    assert_eq!(s.discovery_answered(&mac, 3, Ok(vec![]), at(3)), SearchStep::GiveUp);
    s.give_up(&mac, at(4));
    assert_eq!(s.bulb_ip, None);
    assert!(!s.bulb_reachable);
    assert_eq!(last_message(&s), "could not find bulb aabb after 3 attempts");
    assert_eq!(last_level(&s), EventLevel::Error);
}

#[test]
fn first_run_picks_the_only_bulb() {
    let mut s = state_on(Platform::Windows);
    assert!(s.begin_first_run(at(0)));
    assert_eq!(last_message(&s), "no bulb configured — scanning network for first-run setup");
    assert!(s.first_scan_done(Ok(vec![bulb("aabb", 4)]), at(1)));
    assert_eq!(s.config.bulb_mac, "aabb");
    assert_eq!(last_message(&s), "auto-selected only bulb on LAN: aabb at 10.0.0.4");
    assert!(!s.begin_first_run(at(2)));
}

#[test]
fn first_run_leaves_the_choice_to_the_user() {
    let mut s = state_on(Platform::Windows);
    assert!(!s.first_scan_done(Ok(vec![bulb("aa", 1), bulb("bb", 2)]), at(1)));
    assert_eq!(s.config.bulb_mac, "");
    assert_eq!(last_message(&s), "2 bulbs found — open http://localhost:9876 to pick one");
    assert!(!s.first_scan_done(Ok(vec![]), at(1)));
    assert!(last_message(&s).starts_with("no bulbs responded to broadcast discovery"));
    assert_eq!(last_level(&s), EventLevel::Wrn);
    assert!(!s.first_scan_done(Err(BulbError::Io("x".to_string())), at(1)));
    assert_eq!(last_message(&s), "first-run discovery failed: io error: x");
}

#[test]
fn dashboard_opens_once() {
    let mut s = state_on(Platform::Windows);
    assert_eq!(s.dashboard_to_open(false), None);
    let url = s.dashboard_to_open(true).unwrap();
    assert_eq!(url, "http://127.0.0.1:9876");
    s.dashboard_opening(&url, at(0));
    assert_eq!(last_message(&s), "opening dashboard in your browser: http://127.0.0.1:9876");
    s.dashboard_opened();
    assert_eq!(s.dashboard_to_open(true), None);
}

#[test]
fn watching_needs_a_directory() {
    let mut s = state_on(Platform::Windows);
    assert!(s.begin_watching(None, at(0)).is_none());
    assert_eq!(
        last_message(&s),
        "could not determine Teams log directory for this OS — set it in Settings"
    );
    let w = s.begin_watching(Some("/default".to_string()), at(0)).unwrap();
    assert_eq!(w.log_dir(), "/default");
    s.config.teams_log_dir = Some("/mine".to_string());
    let w = s.begin_watching(Some("/default".to_string()), at(0)).unwrap();
    assert_eq!(w.log_dir(), "/mine");
    assert_eq!(last_message(&s), "watching Teams log at /mine");
}
