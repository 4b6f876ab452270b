use onair::bulb::{BulbError, BulbState, DiscoveredBulb};
use onair::clock::{LocalTime, Moment};
use onair::config::{BulbMode, Config};
use onair::events::EventLevel;
use onair::json::Json;
use onair::models::{Presence, Rgb};
use onair::monitor::Order;
use onair::net::Ipv4;
use onair::platform::Platform;
use onair::presence::PresenceEvent;
use onair::settings::{apply_update, override_from_str, override_to_str};
use onair::state::{AppState, DisplayState, OverrideMode};
use onair::web::{
    discovery_failure, display_to_str, logs_page, probe_address, revert_to, signal_quality,
    test_failure,
};

fn at(secs: i64) -> Moment {
    Moment { secs, nanos: 0 }
}

fn noon(secs: i64) -> LocalTime {
    LocalTime { at: at(secs), offset: 0, day: 1, hour: 12 }
}

fn ip(d: u8) -> Ipv4 {
    Ipv4 { a: 10, b: 0, c: 0, d }
}

fn state() -> AppState {
    AppState::new(Config::defaults(), Platform::Linux, at(0))
}

fn object(members: Vec<(&str, Json)>) -> Json {
    Json::Object(members.into_iter().map(|(k, v)| (k.to_string(), v)).collect())
}

fn text(s: &str) -> Json {
    Json::Text(s.to_string())
}

fn last_message(s: &AppState) -> String {
    s.get_events(1, 0)[0].message.clone()
}

fn bulb(mac: &str, d: u8) -> DiscoveredBulb {
    DiscoveredBulb { mac: mac.to_string(), ip: ip(d), module: Some("m".to_string()) }
}

#[test]
fn update_of_every_field() {
    let mut cfg = Config::defaults();
    let body = object(vec![
        ("work_start", Json::Unsigned(7)),
        ("work_end", Json::Unsigned(256 + 19)),
        ("poll_interval_secs", Json::Unsigned(4)),
        ("grace_period_secs", Json::Unsigned(11)),
        ("max_call_hours", Json::Unsigned(5)),
        ("teams_offline_mins", Json::Unsigned(6)),
        ("call_state", text("off")),
        ("call_color", text("#00ff10")),
        ("call_brightness", Json::Unsigned(20)),
        ("idle_state", text("on")),
        ("idle_color", text("0A0B0C")),
        ("idle_brightness", Json::Unsigned(30)),
        ("ui_port", Json::Unsigned(65536 + 80)),
        ("log_level", text("debug")),
        ("bulb_mac", text("aabb")),
        ("teams_log_dir", text("/logs")),
        ("bulb_port", Json::Unsigned(1)),
        ("trigger_mode", text("call_only")),
    ]);
    assert!(apply_update(&mut cfg, &body).is_ok());
    assert_eq!((cfg.work_start, cfg.work_end), (7, 19));
    assert_eq!((cfg.poll_interval_secs, cfg.grace_period_secs), (4, 11));
    assert_eq!((cfg.max_call_hours, cfg.teams_offline_mins), (5, 6));
    assert_eq!(cfg.call_state, BulbMode::Off);
    assert_eq!(cfg.call_color, Rgb::new(0, 255, 16));
    assert_eq!(cfg.call_brightness, 20);
    assert_eq!(cfg.idle_state, BulbMode::On);
    assert_eq!(cfg.idle_color, Rgb::new(10, 11, 12));
    assert_eq!(cfg.idle_brightness, 30);
    assert_eq!(cfg.ui_port, 80);
    assert_eq!(cfg.log_level, "debug");
    assert_eq!(cfg.bulb_mac, "aabb");
    assert_eq!(cfg.teams_log_dir.as_deref(), Some("/logs"));
    // There is no setting for these.
    assert_eq!(cfg.bulb_port, 38899);
    assert_eq!(cfg.trigger_mode, Config::defaults().trigger_mode);
}

#[test]
fn update_errors_change_nothing() {
    let cases = vec![
        (Json::Array, "expected JSON object"),
        (object(vec![("call_color", text("red"))]), "invalid hex color for call_color: red"),
        (object(vec![("idle_color", text("12345"))]), "invalid hex color for idle_color: 12345"),
        (object(vec![("call_state", text("ON"))]), "invalid bulb mode for call_state: ON"),
        (object(vec![("idle_state", text(""))]), "invalid bulb mode for idle_state: "),
        (
            object(vec![
                ("idle_state", text("x")),
                ("call_state", text("y")),
                ("idle_color", text("z")),
                ("work_start", Json::Unsigned(1)),
            ]),
            "invalid hex color for idle_color: z",
        ),
    ];
    for (body, expected) in cases {
        let mut s = state();
        let before = format!("{:?}", s.config);
            assert_eq!(s.update_config(&body, noon(0)).unwrap_err(), expected);
        assert_eq!(format!("{:?}", s.config), before);
        assert_eq!(s.total_events(), 0);
    }
}

#[test]
fn values_of_other_types_are_passed_over() {
    let mut cfg = Config::defaults();
    let before = format!("{:?}", cfg);
    let body = object(vec![
        ("work_start", text("7")),
        ("work_end", Json::Negative(-1)),
        ("call_color", Json::Unsigned(1)),
        ("call_state", Json::Bool(true)),
        ("log_level", Json::Null),
        ("teams_log_dir", Json::Unsigned(3)),
    ]);
    assert!(apply_update(&mut cfg, &body).is_ok());
    assert_eq!(format!("{:?}", cfg), before);
    assert!(apply_update(&mut cfg, &object(vec![])).is_ok());
    assert_eq!(format!("{:?}", cfg), before);
}

#[test]
fn log_dir_is_cleared_by_null() {
    let mut cfg = Config::defaults();
    cfg.teams_log_dir = Some("/logs".to_string());
    assert!(apply_update(&mut cfg, &object(vec![])).is_ok());
    assert_eq!(cfg.teams_log_dir.as_deref(), Some("/logs"));
    assert!(apply_update(&mut cfg, &object(vec![("teams_log_dir", Json::Null)])).is_ok());
    assert_eq!(cfg.teams_log_dir, None);
}

#[test]
fn texts_that_are_no_colors() {
    for bad in ["aéaaa", "€€", "##FF0000", "+1+2+3"] {
        let mut cfg = Config::defaults();
        assert_eq!(
            apply_update(&mut cfg, &object(vec![("call_color", text(bad))])),
            Err(format!("invalid hex color for call_color: {}", bad))
        );
    }
}

#[test]
fn update_is_followed_by_a_new_display() {
    let mut s = state();
    let busy =
        PresenceEvent { presence: Presence::Busy, raw: "busy".to_string(), is_call_event: false };
    s.take_presence(&busy, noon(5), 0);
    let order = s.update_config(&object(vec![("work_end", Json::Unsigned(10))]), noon(6));
    assert_eq!(order, Ok(Order::ShowIdle));
    assert_eq!(s.call_start, None);
    assert_eq!(last_message(&s), "config updated");
    let order = s.update_config(&object(vec![("work_end", Json::Unsigned(18))]), noon(7));
    assert_eq!(order, Ok(Order::ShowCall));
}

#[test]
fn override_words() {
    for mode in [OverrideMode::Auto, OverrideMode::ForceRed, OverrideMode::ForceOff] {
        assert_eq!(override_from_str(override_to_str(mode)), Some(mode));
    }
    let mut s = state();
    assert_eq!(s.set_override("force_red", noon(0)), Ok(Order::ShowCall));
    assert_eq!(last_message(&s), "override mode set to ForceRed");
    assert_eq!(s.set_override("force_off", noon(0)), Ok(Order::SwitchOff));
    assert_eq!(s.override_mode, OverrideMode::ForceOff);
    assert_eq!(s.set_override("auto", noon(0)), Ok(Order::ShowIdle));
    assert_eq!(
        s.set_override("Auto", noon(0)),
        Err("unknown override mode: Auto".to_string())
    );
    assert_eq!(s.override_mode, OverrideMode::Auto);
}

#[test]
fn signal_buckets() {
    for (rssi, bucket) in [
        (0, "Excellent"),
        (-49, "Excellent"),
        (-50, "Good"),
        (-70, "Good"),
        (-71, "Fair"),
        (-85, "Fair"),
        (-86, "Poor"),
        (i32::MIN, "Poor"),
    ] {
        assert_eq!(signal_quality(rssi), bucket);
    }
}

#[test]
fn status_of_a_fresh_start() {
    let s = state();
    let r = s.status(noon(90), 0);
    assert_eq!(r.status, "unknown");
    assert_eq!(r.uptime_secs, 90);
    assert_eq!(r.call_duration_secs, 0);
    assert!(r.bulb_live.is_none());
    assert_eq!(r.bulb_ip, None);
    assert!(r.work_hours_active);
    assert!(!r.grace_pending);
    assert_eq!(r.grace_remaining_secs, None);
    // The clock was set back.
    assert_eq!(s.status(noon(-5), 0).uptime_secs, 0);
}

#[test]
fn status_during_a_call() {
    let mut s = state();
    let event = |presence: Presence| PresenceEvent {
        presence,
        raw: String::new(),
        is_call_event: false,
    };
    s.take_presence(&event(Presence::DoNotDisturb), noon(10), 0);
    s.take_presence(&event(Presence::Available), noon(70), 5_500_000_000);
    s.bulb_ip = Some(ip(2));
    s.bulb_reachable = true;
    s.bulb_live = Some(BulbState {
        state: true,
        r: 1,
        g: 2,
        b: 3,
        dimming: 50,
        temp: 0,
        rssi: -75,
        scene_id: 0,
    });
    let r = s.status(noon(75), 8_000_000_000);
    assert_eq!(r.status, "available");
    assert_eq!(r.call_start, Some(at(10)));
    assert_eq!(r.call_duration_secs, 65);
    assert_eq!(r.calls_today, 1);
    // The counters are those of the day that is asked about.
    let tomorrow = LocalTime { at: at(75), offset: 0, day: 2, hour: 12 };
    assert_eq!(s.status(tomorrow, 0).calls_today, 0);
    assert_eq!(s.status(tomorrow, 0).total_time_today_secs, 0);
    assert_eq!(s.stats.calls_today, 1);
    assert!(r.grace_pending);
    assert_eq!(r.grace_remaining_secs, Some(7));
    assert_eq!(s.status(noon(75), u64::MAX).grace_remaining_secs, Some(0));
    assert_eq!(r.bulb_ip.as_deref(), Some("10.0.0.2"));
    let live = r.bulb_live.unwrap();
    assert_eq!(live.signal_quality, "Fair");
    assert_eq!(live.bulb.dimming, 50);
    s.bulb_reachable = false;
    assert!(s.status(noon(75), 0).bulb_live.is_none());
    assert!(s.bulb_snapshot().is_none());
}

#[test]
fn display_words() {
    assert_eq!(display_to_str(DisplayState::Off), "off");
    assert_eq!(display_to_str(DisplayState::Call), "call");
    assert_eq!(display_to_str(DisplayState::Idle), "idle");
}

#[test]
fn log_page_defaults() {
    assert_eq!(logs_page(None, None), (100, 0));
    assert_eq!(logs_page(Some(5), Some(2)), (5, 2));
}

#[test]
fn discovered_bulbs_are_listed() {
    let mut s = state();
    s.config.bulb_mac = "AABB".to_string();
    let list = s.list_discovered(vec![bulb("aabb", 1), bulb("ccdd", 2)]);
    assert_eq!(list.len(), 2);
    assert!(list[0].selected);
    assert!(!list[1].selected);
    assert_eq!(list[1].ip, "10.0.0.2");
    assert_eq!(list[1].module.as_deref(), Some("m"));
    assert_eq!(s.last_discovery.len(), 2);
    // Nothing is selected while no bulb is configured.
    s.config.bulb_mac = String::new();
    let list = s.list_discovered(vec![bulb("", 1)]);
    assert!(!list[0].selected);
    assert_eq!(
        discovery_failure(&BulbError::Timeout),
        "discovery failed: timeout waiting for bulb response"
    );
}

#[test]
fn selecting_a_bulb() {
    let mut s = state();
    assert_eq!(s.select_bulb("  ", &None, at(0)), Err("missing mac".to_string()));
    s.last_discovery = vec![bulb("aabb", 5)];
    // An explicit address comes first.
    let r = s.select_bulb(" aabb\n", &Some("10.0.0.9".to_string()), at(0));
    assert_eq!(r, Ok(("aabb".to_string(), Some(ip(9)))));
    assert_eq!(s.config.bulb_mac, "aabb");
    assert_eq!(s.config.bulb_last_ip, "10.0.0.9");
    assert_eq!(last_message(&s), "bulb selected aabb at 10.0.0.9");
    // Then the last discovery.
    let r = s.select_bulb("AABB", &Some("not an address".to_string()), at(0));
    assert_eq!(r, Ok(("AABB".to_string(), Some(ip(5)))));
    assert!(s.bulb_reachable);
    // Else a search.
    let r = s.select_bulb("ccdd", &None, at(0));
    assert_eq!(r, Ok(("ccdd".to_string(), None)));
    assert_eq!(last_message(&s), "bulb ccdd not in last discovery, resolving in background");
    assert_eq!(s.bulb_ip, Some(ip(5)));
    assert_eq!(s.config.bulb_last_ip, "10.0.0.5");
}

#[test]
fn probing_an_address() {
    assert_eq!(probe_address(" 10.0.0.3 "), Ok(ip(3)));
    assert_eq!(probe_address("bulb"), Err("invalid IPv4 address".to_string()));
    let mut s = state();
    let e = s.note_probe(ip(3), Err(BulbError::Timeout), at(0)).unwrap_err();
    assert_eq!(
        e,
        "no bulb responded at 10.0.0.3: timeout waiting for bulb response (check the IP in your router admin or the WiZ app)"
    );
    assert_eq!(
        last_message(&s),
        "manual probe 10.0.0.3 failed: timeout waiting for bulb response"
    );
    assert_eq!(s.bulb_ip, None);
    let found = s.note_probe(ip(3), Ok(bulb("aabb", 3)), at(0)).unwrap();
    assert_eq!(found.mac, "aabb");
    assert_eq!(s.bulb_ip, Some(ip(3)));
    assert_eq!(s.config.bulb_mac, "aabb");
    assert_eq!(s.config.bulb_last_ip, "10.0.0.3");
    assert_eq!(last_message(&s), "manually selected bulb aabb at 10.0.0.3");
}

#[test]
fn testing_a_bulb() {
    let mut s = state();
    assert_eq!(s.test_target(), Err("no bulb selected".to_string()));
    s.bulb_ip = Some(ip(3));
    assert_eq!(s.test_target(), Ok(ip(3)));
    assert_eq!(
        s.begin_test(ip(3), "party", at(0)),
        Err("unknown test mode: party".to_string())
    );
    let c = s.begin_test(ip(3), "call", at(0)).unwrap();
    assert_eq!(c.color, Rgb::new(255, 0, 0));
    assert_eq!(last_message(&s), "bulb test: applying call for 3s");
    let c = s.begin_test(ip(3), "idle", at(0)).unwrap();
    assert_eq!(c.mode, BulbMode::Off);
    assert_eq!(s.display, DisplayState::Off);
    s.note_revert_failure(&BulbError::Timeout, at(0));
    assert_eq!(
        last_message(&s),
        "bulb test revert failed: timeout waiting for bulb response"
    );
    assert_eq!(s.get_events(1, 0)[0].level, EventLevel::Wrn);
    assert_eq!(
        test_failure(&BulbError::Io("x".to_string())),
        "bulb test failed: io error: x"
    );
}

#[test]
fn reverting_a_test() {
    let mut before =
        BulbState { state: true, r: 9, g: 8, b: 7, dimming: 60, temp: 0, rssi: 0, scene_id: 0 };
    assert_eq!(
        revert_to(&before),
        r#"{"method":"setPilot","params":{"state":true,"r":9,"g":8,"b":7,"dimming":60}}"#
    );
    before.state = false;
    assert_eq!(revert_to(&before), r#"{"method":"setPilot","params":{"state":false}}"#);
}

#[test]
fn directory_to_verify() {
    let mut s = state();
    assert_eq!(
        s.dir_to_verify(None, None),
        Err("no path provided and no default Teams log dir for this OS".to_string())
    );
    let default = Some("/default".to_string());
    assert_eq!(s.dir_to_verify(None, default.clone()), Ok("/default".to_string()));
    s.config.teams_log_dir = Some("/mine".to_string());
    assert_eq!(s.dir_to_verify(None, default.clone()), Ok("/mine".to_string()));
    assert_eq!(
        s.dir_to_verify(Some("/given".to_string()), default),
        Ok("/given".to_string())
    );
}

#[test]
fn autostart_changes_are_logged() {
    let mut s = state();
    s.note_autostart(true, None, at(0));
    assert_eq!(last_message(&s), "autostart enabled");
    s.note_autostart(false, None, at(0));
    assert_eq!(last_message(&s), "autostart disabled");
    s.note_autostart(true, Some("no"), at(0));
    assert_eq!(last_message(&s), "autostart change failed: no");
}
