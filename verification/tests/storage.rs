use chrono::{DateTime, FixedOffset, TimeZone};
use onair::calls::{
    call_from_columns, call_rows, days_to_list, durations_fit, list_since, stale_ids, stored_time,
    summarize, CallRow, CallSummary, Cutoff, StoredCall, StoredTime,
};
use onair::clock::{
    cutoff, elapsed_secs, format_dt, hours_between, is_before, parse_dt, seconds_between, LocalTime, Moment,
};
use onair::config::{
    apply_key, config_from_rows, config_to_pairs, mode_from_str, mode_to_str,
    trigger_mode_from_str, trigger_mode_to_str, BulbMode, Config,
};
use onair::models::{Rgb, TriggerMode};
use onair::platform::{
    data_dir_variable, default_data_dir, default_db_path, default_teams_log_dir,
    teams_log_dir_variable, Platform,
};
use onair::text::sorts_before;

fn at(secs: i64, nanos: u32) -> Moment {
    Moment { secs, nanos }
}

fn rows(cfg: &Config) -> Vec<(String, String)> {
    config_to_pairs(cfg).into_iter().map(|(k, v)| (k.to_string(), v)).collect()
}

#[test]
fn default_config_values() {
    let cfg = Config::defaults();
    assert_eq!(cfg.bulb_port, 38899);
    assert_eq!((cfg.work_start, cfg.work_end), (6, 18));
    assert_eq!((cfg.poll_interval_secs, cfg.grace_period_secs), (3, 10));
    assert_eq!((cfg.max_call_hours, cfg.teams_offline_mins), (4, 5));
    assert_eq!(cfg.call_color.to_hex(), "#FF0000");
    assert_eq!(cfg.idle_color.to_hex(), "#22C55E");
    assert_eq!((cfg.call_brightness, cfg.idle_brightness), (100, 50));
    assert_eq!((cfg.call_state, cfg.idle_state), (BulbMode::On, BulbMode::Off));
    assert_eq!(cfg.ui_port, 9876);
    assert_eq!(cfg.log_level, "info");
    assert_eq!(cfg.trigger_mode, TriggerMode::default());
    assert!(!cfg.first_run_completed);
}

#[test]
fn hex_colors() {
    assert_eq!(Rgb::from_hex("#FF8000"), Some(Rgb::new(255, 128, 0)));
    assert_eq!(Rgb::from_hex("ff8000"), Some(Rgb::new(255, 128, 0)));
    for bad in [
        "", "#", "fff", "#FFF", "ff80000", "#FF00000", "gg0000", "GG0000", "0x1234", "#-10000",
        "##ff8000", "+1+2+3", "ff8000#", "aéaaa", "ééé", "€€", "#€€",
    ] {
        assert_eq!(Rgb::from_hex(bad), None);
    }
    for c in [Rgb::new(0, 0, 0), Rgb::new(1, 160, 255)] {
        assert_eq!(Rgb::from_hex(&c.to_hex()), Some(c));
    }
    assert_eq!(Rgb::new(1, 160, 255).to_hex(), "#01A0FF");
}

#[test]
fn stored_config_loads_back() {
    let mut cfg = Config::defaults();
    cfg.bulb_mac = "a8bb50a4f94d".to_string();
    cfg.bulb_last_ip = "10.0.0.7".to_string();
    cfg.teams_log_dir = Some("/var/log/teams".to_string());
    cfg.work_start = 22;
    cfg.max_call_hours = u64::MAX;
    cfg.idle_state = BulbMode::On;
    cfg.call_color = Rgb::new(1, 2, 3);
    cfg.log_level = "debug".to_string();
    cfg.trigger_mode = TriggerMode::AnyNonAvailable;
    cfg.first_run_completed = true;
    let mut stored = rows(&cfg);
    assert_eq!(stored.len(), 20);
    assert_eq!(format!("{:?}", config_from_rows(&stored)), format!("{:?}", cfg));
    // The order of the rows does not matter, nor do unknown keys.
    stored.reverse();
    stored.push(("novelty".to_string(), "7".to_string()));
    assert_eq!(format!("{:?}", config_from_rows(&stored)), format!("{:?}", cfg));
}

#[test]
fn stored_rows_by_name() {
    let stored = rows(&Config::defaults());
    let value = |key: &str| stored.iter().find(|(k, _)| k == key).unwrap().1.clone();
    assert_eq!(value("bulb_port"), "38899");
    assert_eq!(value("teams_log_dir"), "");
    assert_eq!(value("call_color"), "#FF0000");
    assert_eq!(value("idle_state"), "off");
    assert_eq!(value("trigger_mode"), "busy_and_dnd");
    assert_eq!(value("first_run_completed"), "0");
}

#[test]
fn missing_rows_fall_back_to_defaults() {
    let loaded = config_from_rows(&vec![("ui_port".to_string(), "80".to_string())]);
    assert_eq!(loaded.ui_port, 80);
    assert_eq!(loaded.work_end, 18);
}

#[test]
fn unreadable_values_are_ignored() {
    let mut cfg = Config::defaults();
    apply_key(&mut cfg, "ui_port", "65536");
    apply_key(&mut cfg, "work_start", "-1");
    apply_key(&mut cfg, "work_end", " 7");
    apply_key(&mut cfg, "grace_period_secs", "");
    apply_key(&mut cfg, "call_color", "red");
    apply_key(&mut cfg, "idle_color", "aéaaa");
    apply_key(&mut cfg, "idle_color", "##010203");
    apply_key(&mut cfg, "call_state", "maybe");
    apply_key(&mut cfg, "trigger_mode", "sometimes");
    apply_key(&mut cfg, "unknown", "1");
    assert_eq!(format!("{:?}", cfg), format!("{:?}", Config::defaults()));
    apply_key(&mut cfg, "work_end", "+7");
    assert_eq!(cfg.work_end, 7);
    apply_key(&mut cfg, "first_run_completed", "true");
    assert!(cfg.first_run_completed);
    apply_key(&mut cfg, "first_run_completed", "yes");
    assert!(!cfg.first_run_completed);
}

#[test]
fn mode_words() {
    assert_eq!(mode_from_str(mode_to_str(BulbMode::On)), Some(BulbMode::On));
    assert_eq!(mode_from_str("Off"), None);
    assert_eq!(trigger_mode_to_str(TriggerMode::CallOnly), "call_only");
    assert_eq!(trigger_mode_from_str("any_non_available"), Some(TriggerMode::AnyNonAvailable));
    assert_eq!(trigger_mode_from_str(""), None);
    assert_eq!(TriggerMode::BusyAndDnd.name(), "BusyAndDnd");
}

#[test]
fn default_directories() {
    assert_eq!(
        default_db_path(Platform::Linux, Some("/home/u")),
        "/home/u/.config/onair/onair.db"
    );
    assert_eq!(
        default_db_path(Platform::MacOs, Some("/Users/u/")),
        "/Users/u/Library/Application Support/Onair/onair.db"
    );
    assert_eq!(
        default_db_path(Platform::Windows, Some(r"C:\Users\u\AppData\Roaming")),
        r"C:\Users\u\AppData\Roaming\Onair\onair.db"
    );
    assert_eq!(default_data_dir(Platform::Linux, None), ".config/onair");
    assert_eq!(
        default_teams_log_dir(Platform::Linux, Some("/home/u")).unwrap(),
        "/home/u/.config/Microsoft/Microsoft Teams/logs"
    );
    assert_eq!(default_teams_log_dir(Platform::Windows, None), None);
    assert_eq!(teams_log_dir_variable(Platform::Windows), "LOCALAPPDATA");
    assert_eq!(data_dir_variable(Platform::Windows), "APPDATA");
    assert_eq!(data_dir_variable(Platform::MacOs), "HOME");
}

#[test]
fn spans_of_time() {
    assert_eq!(seconds_between(at(10, 0), at(12, 0)), 2);
    assert_eq!(seconds_between(at(10, 500_000_000), at(12, 0)), 1);
    assert_eq!(seconds_between(at(12, 0), at(10, 500_000_000)), -1);
    assert_eq!(hours_between(at(0, 1), at(3600, 0)), 0);
    assert_eq!(hours_between(at(0, 0), at(7200, 0)), 2);
    assert_eq!(elapsed_secs(at(12, 0), at(10, 0)), 0);
    assert_eq!(elapsed_secs(at(i64::MIN, 0), at(i64::MAX, 0)), i64::MAX);
}

#[test]
fn spans_agree_with_chrono() {
    let zone = FixedOffset::east_opt(0).unwrap();
    let moments = [at(0, 0), at(1, 999_999_999), at(3_600, 1), at(86_400, 0), at(-7, 5)];
    for x in moments {
        for y in moments {
            let a: DateTime<FixedOffset> = zone.timestamp_opt(x.secs, x.nanos).unwrap();
            let b: DateTime<FixedOffset> = zone.timestamp_opt(y.secs, y.nanos).unwrap();
            assert_eq!(seconds_between(x, y), (b - a).num_seconds() as i128);
            assert_eq!(hours_between(x, y), (b - a).num_hours() as i128);
        }
    }
}

#[test]
fn times_round_trip_through_their_notation() {
    let s = format_dt(at(1_700_000_000, 250_000_000), 19_800).unwrap();
    assert_eq!(s, "2023-11-15T03:43:20.250+05:30");
    assert_eq!(parse_dt(&s), Some(at(1_700_000_000, 250_000_000)));
    for (secs, nanos, offset) in [
        (-62_135_510_400, 0, -86_340),
        (-62_135_510_400, 0, 86_340),
        (253_402_214_399, 999_999_999, 86_340),
        (253_402_214_399, 999_999_999, -86_340),
        (0, 1, 0),
        (-1, 123_456_000, -3_600),
    ] {
        let s = format_dt(at(secs, nanos), offset).unwrap();
        assert_eq!(parse_dt(&s), Some(at(secs, nanos)));
    }
}

#[test]
fn unreadable_times() {
    assert_eq!(parse_dt("yesterday"), None);
    assert_eq!(parse_dt("2023-11-15 "), None);
    assert_eq!(format_dt(at(i64::MAX, 0), 0), None);
    assert_eq!(format_dt(at(0, 0), 86_400), None);
}

#[test]
fn cutoffs() {
    assert_eq!(cutoff(at(100 * 86_400, 5), 30), Some(at(70 * 86_400, 5)));
    assert_eq!(cutoff(at(0, 0), i64::MAX), None);
    assert_eq!(cutoff(at(0, 0), -1), Some(at(86_400, 0)));
}

#[test]
fn recorded_calls_read_back() {
    let start = LocalTime { at: at(1_700_000_000, 7), offset: 3_600, day: 1, hour: 9 };
    let end = LocalTime { at: at(1_700_000_090, 0), offset: 3_600, day: 1, hour: 9 };
    let stored = StoredCall::read(4, stored_time(start).unwrap(), &stored_time(end), Some(90));
    assert_eq!(
        stored.row(at(0, 0)),
        CallRow {
            id: 4,
            started_at: start.at,
            ended_at: Some(end.at),
            duration_secs: Some(90),
        }
    );
    let odd = StoredCall::read(5, "?".to_string(), &Some("?".to_string()), None).row(at(9, 0));
    assert_eq!(
        odd,
        CallRow { id: 5, started_at: at(9, 0), ended_at: None, duration_secs: None }
    );
    assert_eq!(call_from_columns(5, None, None, None, at(9, 0)), odd);
}

#[test]
fn call_summaries() {
    let row = |duration_secs: Option<i64>| CallRow {
        id: 1,
        started_at: at(0, 0),
        ended_at: None,
        duration_secs,
    };
    let calls = vec![row(Some(100)), row(None), row(Some(51))];
    assert!(durations_fit(&calls));
    assert_eq!(
        summarize(&calls),
        CallSummary { total_calls: 3, total_duration_secs: 151, avg_duration_secs: 50 }
    );
    assert_eq!(
        summarize(&vec![]),
        CallSummary { total_calls: 0, total_duration_secs: 0, avg_duration_secs: 0 }
    );
    assert_eq!(summarize(&vec![row(Some(-3)), row(Some(0))]).avg_duration_secs, -1);
    assert!(!durations_fit(&vec![row(Some(i64::MAX)), row(Some(1)), row(Some(-5))]));
}

#[test]
fn days_of_history() {
    assert_eq!(days_to_list(None), 7);
    assert_eq!(days_to_list(Some(0)), 1);
    assert_eq!(days_to_list(Some(-3)), 1);
    assert_eq!(days_to_list(Some(30)), 30);
}

/// Calls that started at the given notations, with ids from one on.
fn calls_at(started: &[&str]) -> Vec<StoredCall> {
    started
        .iter()
        .enumerate()
        .map(|(i, s)| StoredCall::read(i as i64 + 1, s.to_string(), &None, None))
        .collect()
}

/// The cutoff at a number of seconds and an offset.
fn cutoff_at(notation: &str, offset: i32) -> Cutoff {
    let at = parse_dt(notation).unwrap();
    Cutoff::new(LocalTime { at, offset, day: 0, hour: 0 }).unwrap()
}

fn listed(calls: &Vec<StoredCall>, cutoff: &Cutoff) -> Vec<i64> {
    list_since(calls, cutoff, at(2_000_000_000, 0)).iter().map(|c| c.id).collect()
}

#[test]
fn cutoffs_have_notations() {
    let c = cutoff_at("2026-10-25T00:00:00Z", 7_200);
    assert_eq!(c.text, "2026-10-25T02:00:00+02:00");
    assert_eq!(Some(c.at), parse_dt("2026-10-25T00:00:00Z"));
    let nowhere = LocalTime { at: at(i64::MAX, 0), offset: 0, day: 0, hour: 0 };
    assert!(Cutoff::new(nowhere).is_none());
}

#[test]
fn calls_are_listed_newest_first() {
    // Their order as points in time is not that of their notations.
    let calls = calls_at(&[
        "2026-10-25T02:30:00+02:00",
        "2026-10-25T02:10:00+01:00",
        "2026-10-25T09:00:00+01:00",
        "2026-10-25T00:20:00-08:00",
    ]);
    let start = cutoff_at("2026-10-25T00:00:00Z", 0);
    assert_eq!(listed(&calls, &start), vec![4, 3, 2, 1]);
    let since = cutoff_at("2026-10-25T02:10:00+01:00", 3_600);
    assert_eq!(listed(&calls, &since), vec![4, 3, 2]);
    assert!(listed(&vec![], &since).is_empty());
    // At the same time, by notation and then by id.
    let same = calls_at(&[
        "2026-10-25T03:00:00+01:00",
        "2026-10-25T02:00:00Z",
        "2026-10-25T02:00:00Z",
    ]);
    assert_eq!(listed(&same, &start), vec![1, 3, 2]);
    let rows = call_rows(&list_since(&calls, &since, at(0, 0)), at(0, 0));
    assert_eq!(rows.len(), 3);
    assert_eq!(rows[0].id, 4);
    assert_eq!(Some(rows[0].started_at), parse_dt("2026-10-25T08:20:00Z"));
}

#[test]
fn unreadable_starts_are_compared_as_texts() {
    let calls = calls_at(&["!", "2026-10-25T05:00:00Z", "later", "2026-10-24", "2026-10-26", "z"]);
    let since = cutoff_at("2026-10-25T00:00:00Z", 0);
    // They count as now.
    assert_eq!(listed(&calls, &since), vec![6, 3, 5, 2]);
    let rows = call_rows(&calls, at(7, 0));
    assert_eq!(rows[0].started_at, at(7, 0));
}

#[test]
fn rows_are_pruned_by_their_points_in_time() {
    let since = cutoff_at("2026-10-25T00:45:00Z", 0);
    let rows: Vec<(i64, StoredTime)> = [
        "2026-10-25T02:30:00+02:00",
        "2026-10-25T01:30:00+01:00",
        "2026-10-25T01:45:00+01:00",
        "2026-10-24T17:00:00-08:00",
        "?",
        "!",
        "",
    ]
    .iter()
    .enumerate()
    .map(|(i, s)| (i as i64 + 1, StoredTime::read(s.to_string())))
    .collect();
    assert_eq!(stale_ids(&rows, &since), vec![1, 2, 6, 7]);
    assert!(is_before(at(3, 9), at(4, 0)) && is_before(at(4, 0), at(4, 1)));
    assert!(!is_before(at(4, 1), at(4, 1)) && !is_before(at(4, 2), at(4, 1)));
}

#[test]
fn texts_sort_by_their_characters() {
    for (a, b) in [("", "a"), ("a", "b"), ("a", "aa"), ("Z", "a"), ("z", "\u{e9}"), ("9", "T")] {
        assert!(sorts_before(a, b) && !sorts_before(b, a));
        assert!(!sorts_before(a, a));
    }
}
