//! User configuration and its flat key/value form.
//!
//! The configuration is stored as text rows, one per field. [`config_to_pairs`]
//! writes the rows and [`apply_key`] reads one of them back.

use crate::models::{color_of_hex, hex_of_color, hex_round_trip, Rgb, TriggerMode};
use crate::text::{decimal, decimal_round_trip, decimal_text, optional_text, parse_unsigned, parse_unsigned_spec, same_text};
use vstd::prelude::*;
use vstd::string::*;

verus! {

/// Whether a display shows its color or switches the bulb off.
#[derive(Debug, Clone, Copy, PartialEq, Eq, Structural)]
pub enum BulbMode {
    On,
    Off,
}

/// User-tunable configuration.
#[derive(Debug)]
pub struct Config {
    /// MAC of the selected bulb; empty = no bulb selected.
    pub bulb_mac: String,
    /// Last successfully resolved IP for the configured bulb; empty = unknown.
    /// Used at startup to skip broadcast discovery. Re-resolved if the cached
    /// IP doesn't respond.
    pub bulb_last_ip: String,
    pub bulb_port: u16,
    /// None = auto-detect via platform.
    pub teams_log_dir: Option<String>,
    /// 0..=23
    pub work_start: u8,
    /// 0..=23
    pub work_end: u8,
    pub poll_interval_secs: u64,
    pub grace_period_secs: u64,
    pub max_call_hours: u64,
    pub teams_offline_mins: u64,
    /// On = show color, Off = bulb off.
    pub call_state: BulbMode,
    pub call_color: Rgb,
    /// 10..=100
    pub call_brightness: u8,
    pub idle_state: BulbMode,
    pub idle_color: Rgb,
    pub idle_brightness: u8,
    pub ui_port: u16,
    pub log_level: String,
    /// What presence state(s) should activate the bulb.
    pub trigger_mode: TriggerMode,
    /// Set once the dashboard has been opened on the first run.
    pub first_run_completed: bool,
}

/// The values of a [`Config`], with text as character sequences.
#[verifier::ext_equal]
pub struct ConfigModel {
    pub bulb_mac: Seq<char>,
    pub bulb_last_ip: Seq<char>,
    pub bulb_port: u16,
    pub teams_log_dir: Option<Seq<char>>,
    pub work_start: u8,
    pub work_end: u8,
    pub poll_interval_secs: u64,
    pub grace_period_secs: u64,
    pub max_call_hours: u64,
    pub teams_offline_mins: u64,
    pub call_state: BulbMode,
    pub call_color: Rgb,
    pub call_brightness: u8,
    pub idle_state: BulbMode,
    pub idle_color: Rgb,
    pub idle_brightness: u8,
    pub ui_port: u16,
    pub log_level: Seq<char>,
    pub trigger_mode: TriggerMode,
    pub first_run_completed: bool,
}

impl View for Config {
    type V = ConfigModel;

    open spec fn view(&self) -> ConfigModel {
        ConfigModel {
            bulb_mac: self.bulb_mac@,
            bulb_last_ip: self.bulb_last_ip@,
            bulb_port: self.bulb_port,
            teams_log_dir: optional_text(self.teams_log_dir),
            work_start: self.work_start,
            work_end: self.work_end,
            poll_interval_secs: self.poll_interval_secs,
            grace_period_secs: self.grace_period_secs,
            max_call_hours: self.max_call_hours,
            teams_offline_mins: self.teams_offline_mins,
            call_state: self.call_state,
            call_color: self.call_color,
            call_brightness: self.call_brightness,
            idle_state: self.idle_state,
            idle_color: self.idle_color,
            idle_brightness: self.idle_brightness,
            ui_port: self.ui_port,
            log_level: self.log_level@,
            trigger_mode: self.trigger_mode,
            first_run_completed: self.first_run_completed,
        }
    }
}

/// The configuration of a fresh installation.
pub open spec fn default_config() -> ConfigModel {
    ConfigModel {
        bulb_mac: Seq::empty(),
        bulb_last_ip: Seq::empty(),
        bulb_port: 38899,
        teams_log_dir: None,
        work_start: 6,
        work_end: 18,
        poll_interval_secs: 3,
        grace_period_secs: 10,
        max_call_hours: 4,
        teams_offline_mins: 5,
        call_state: BulbMode::On,
        call_color: Rgb { r: 0xFF, g: 0x00, b: 0x00 },
        call_brightness: 100,
        idle_state: BulbMode::Off,
        idle_color: Rgb { r: 0x22, g: 0xC5, b: 0x5E },
        idle_brightness: 50,
        ui_port: 9876,
        log_level: "info"@,
        trigger_mode: TriggerMode::BusyAndDnd,
        first_run_completed: false,
    }
}

impl Config {
    /// The configuration of a fresh installation.
    pub fn defaults() -> (c: Self)
        ensures
            c@ == default_config(),
    {
        Self {
            bulb_mac: String::new(),
            bulb_last_ip: String::new(),
            bulb_port: 38899,
            teams_log_dir: None,
            work_start: 6,
            work_end: 18,
            poll_interval_secs: 3,
            grace_period_secs: 10,
            max_call_hours: 4,
            teams_offline_mins: 5,
            call_state: BulbMode::On,
            call_color: Rgb::new(0xFF, 0x00, 0x00),
            call_brightness: 100,
            idle_state: BulbMode::Off,
            idle_color: Rgb::new(0x22, 0xC5, 0x5E),
            idle_brightness: 50,
            ui_port: 9876,
            log_level: "info".to_owned(),
            trigger_mode: TriggerMode::BusyAndDnd,
            first_run_completed: false,
        }
    }
}

impl Clone for Config {
    /// A configuration with the same values.
    fn clone(&self) -> (c: Self)
        ensures
            c@ == self@,
    {
        Self {
            bulb_mac: self.bulb_mac.clone(),
            bulb_last_ip: self.bulb_last_ip.clone(),
            bulb_port: self.bulb_port,
            teams_log_dir: match &self.teams_log_dir {
                Some(dir) => Some(dir.clone()),
                None => None,
            },
            work_start: self.work_start,
            work_end: self.work_end,
            poll_interval_secs: self.poll_interval_secs,
            grace_period_secs: self.grace_period_secs,
            max_call_hours: self.max_call_hours,
            teams_offline_mins: self.teams_offline_mins,
            call_state: self.call_state,
            call_color: self.call_color,
            call_brightness: self.call_brightness,
            idle_state: self.idle_state,
            idle_color: self.idle_color,
            idle_brightness: self.idle_brightness,
            ui_port: self.ui_port,
            log_level: self.log_level.clone(),
            trigger_mode: self.trigger_mode,
            first_run_completed: self.first_run_completed,
        }
    }
}

// ---------------------------------------------------------------------------
// Words for the enumerated values
// ---------------------------------------------------------------------------

pub open spec fn mode_word(m: BulbMode) -> Seq<char> {
    match m {
        BulbMode::On => "on"@,
        BulbMode::Off => "off"@,
    }
}

pub open spec fn mode_of_word(s: Seq<char>) -> Option<BulbMode> {
    if s == "on"@ {
        Some(BulbMode::On)
    } else if s == "off"@ {
        Some(BulbMode::Off)
    } else {
        None
    }
}

pub open spec fn trigger_mode_word(m: TriggerMode) -> Seq<char> {
    match m {
        TriggerMode::CallOnly => "call_only"@,
        TriggerMode::BusyAndDnd => "busy_and_dnd"@,
        TriggerMode::AnyNonAvailable => "any_non_available"@,
    }
}

pub open spec fn trigger_mode_of_word(s: Seq<char>) -> Option<TriggerMode> {
    if s == "call_only"@ {
        Some(TriggerMode::CallOnly)
    } else if s == "busy_and_dnd"@ {
        Some(TriggerMode::BusyAndDnd)
    } else if s == "any_non_available"@ {
        Some(TriggerMode::AnyNonAvailable)
    } else {
        None
    }
}

/// The word that stands for a bulb mode.
pub fn mode_to_str(m: BulbMode) -> (r: &'static str)
    ensures
        r@ == mode_word(m),
{
    match m {
        BulbMode::On => "on",
        BulbMode::Off => "off",
    }
}

/// The bulb mode that a word stands for.
pub fn mode_from_str(s: &str) -> (r: Option<BulbMode>)
    ensures
        r == mode_of_word(s@),
{
    if same_text(s, "on") {
        Some(BulbMode::On)
    } else if same_text(s, "off") {
        Some(BulbMode::Off)
    } else {
        None
    }
}

/// The word that stands for a trigger mode.
pub fn trigger_mode_to_str(m: TriggerMode) -> (r: &'static str)
    ensures
        r@ == trigger_mode_word(m),
{
    match m {
        TriggerMode::CallOnly => "call_only",
        TriggerMode::BusyAndDnd => "busy_and_dnd",
        TriggerMode::AnyNonAvailable => "any_non_available",
    }
}

/// The trigger mode that a word stands for.
pub fn trigger_mode_from_str(s: &str) -> (r: Option<TriggerMode>)
    ensures
        r == trigger_mode_of_word(s@),
{
    if same_text(s, "call_only") {
        Some(TriggerMode::CallOnly)
    } else if same_text(s, "busy_and_dnd") {
        Some(TriggerMode::BusyAndDnd)
    } else if same_text(s, "any_non_available") {
        Some(TriggerMode::AnyNonAvailable)
    } else {
        None
    }
}

/// The word written for a bulb mode is read back as that mode.
pub proof fn mode_word_round_trip(m: BulbMode)
    ensures
        mode_of_word(mode_word(m)) == Some(m),
{
    reveal_strlit("on");
    reveal_strlit("off");
    assert("on"@.len() == 2);
    assert("off"@.len() == 3);
}

/// The word written for a trigger mode is read back as that mode.
pub proof fn trigger_mode_word_round_trip(m: TriggerMode)
    ensures
        trigger_mode_of_word(trigger_mode_word(m)) == Some(m),
{
    reveal_strlit("call_only");
    reveal_strlit("busy_and_dnd");
    reveal_strlit("any_non_available");
    assert("call_only"@.len() == 9);
    assert("busy_and_dnd"@.len() == 12);
    assert("any_non_available"@.len() == 17);
}

// ---------------------------------------------------------------------------
// Keys
// ---------------------------------------------------------------------------

/// The stored fields.
#[derive(Debug, Clone, Copy, PartialEq, Eq, Structural)]
pub enum ConfigKey {
    BulbMac,
    BulbLastIp,
    BulbPort,
    TeamsLogDir,
    WorkStart,
    WorkEnd,
    PollIntervalSecs,
    GracePeriodSecs,
    MaxCallHours,
    TeamsOfflineMins,
    CallState,
    CallColor,
    CallBrightness,
    IdleState,
    IdleColor,
    IdleBrightness,
    UiPort,
    LogLevel,
    TriggerMode,
    FirstRunCompleted,
}

/// The name under which a field is stored.
pub open spec fn key_name(k: ConfigKey) -> Seq<char> {
    match k {
        ConfigKey::BulbMac => "bulb_mac"@,
        ConfigKey::BulbLastIp => "bulb_last_ip"@,
        ConfigKey::BulbPort => "bulb_port"@,
        ConfigKey::TeamsLogDir => "teams_log_dir"@,
        ConfigKey::WorkStart => "work_start"@,
        ConfigKey::WorkEnd => "work_end"@,
        ConfigKey::PollIntervalSecs => "poll_interval_secs"@,
        ConfigKey::GracePeriodSecs => "grace_period_secs"@,
        ConfigKey::MaxCallHours => "max_call_hours"@,
        ConfigKey::TeamsOfflineMins => "teams_offline_mins"@,
        ConfigKey::CallState => "call_state"@,
        ConfigKey::CallColor => "call_color"@,
        ConfigKey::CallBrightness => "call_brightness"@,
        ConfigKey::IdleState => "idle_state"@,
        ConfigKey::IdleColor => "idle_color"@,
        ConfigKey::IdleBrightness => "idle_brightness"@,
        ConfigKey::UiPort => "ui_port"@,
        ConfigKey::LogLevel => "log_level"@,
        ConfigKey::TriggerMode => "trigger_mode"@,
        ConfigKey::FirstRunCompleted => "first_run_completed"@,
    }
}

/// The field that is stored under a name.
pub open spec fn key_named(s: Seq<char>) -> Option<ConfigKey> {
    if s == "bulb_mac"@ {
        Some(ConfigKey::BulbMac)
    } else if s == "bulb_last_ip"@ {
        Some(ConfigKey::BulbLastIp)
    } else if s == "bulb_port"@ {
        Some(ConfigKey::BulbPort)
    } else if s == "teams_log_dir"@ {
        Some(ConfigKey::TeamsLogDir)
    } else if s == "work_start"@ {
        Some(ConfigKey::WorkStart)
    } else if s == "work_end"@ {
        Some(ConfigKey::WorkEnd)
    } else if s == "poll_interval_secs"@ {
        Some(ConfigKey::PollIntervalSecs)
    } else if s == "grace_period_secs"@ {
        Some(ConfigKey::GracePeriodSecs)
    } else if s == "max_call_hours"@ {
        Some(ConfigKey::MaxCallHours)
    } else if s == "teams_offline_mins"@ {
        Some(ConfigKey::TeamsOfflineMins)
    } else if s == "call_state"@ {
        Some(ConfigKey::CallState)
    } else if s == "call_color"@ {
        Some(ConfigKey::CallColor)
    } else if s == "call_brightness"@ {
        Some(ConfigKey::CallBrightness)
    } else if s == "idle_state"@ {
        Some(ConfigKey::IdleState)
    } else if s == "idle_color"@ {
        Some(ConfigKey::IdleColor)
    } else if s == "idle_brightness"@ {
        Some(ConfigKey::IdleBrightness)
    } else if s == "ui_port"@ {
        Some(ConfigKey::UiPort)
    } else if s == "log_level"@ {
        Some(ConfigKey::LogLevel)
    } else if s == "trigger_mode"@ {
        Some(ConfigKey::TriggerMode)
    } else if s == "first_run_completed"@ {
        Some(ConfigKey::FirstRunCompleted)
    } else {
        None
    }
}

/// The stored fields in the order in which they are written.
pub open spec fn all_keys() -> Seq<ConfigKey> {
    seq![
        ConfigKey::BulbMac,
        ConfigKey::BulbLastIp,
        ConfigKey::BulbPort,
        ConfigKey::TeamsLogDir,
        ConfigKey::WorkStart,
        ConfigKey::WorkEnd,
        ConfigKey::PollIntervalSecs,
        ConfigKey::GracePeriodSecs,
        ConfigKey::MaxCallHours,
        ConfigKey::TeamsOfflineMins,
        ConfigKey::CallState,
        ConfigKey::CallColor,
        ConfigKey::CallBrightness,
        ConfigKey::IdleState,
        ConfigKey::IdleColor,
        ConfigKey::IdleBrightness,
        ConfigKey::UiPort,
        ConfigKey::LogLevel,
        ConfigKey::TriggerMode,
        ConfigKey::FirstRunCompleted,
    ]
}

/// The name belongs to its field, and to no other one.
proof fn lemma_key_names(k: ConfigKey)
    ensures
        key_named(key_name(k)) == Some(k),
{
    reveal_strlit("bulb_mac");
    reveal_strlit("bulb_last_ip");
    reveal_strlit("bulb_port");
    reveal_strlit("teams_log_dir");
    reveal_strlit("work_start");
    reveal_strlit("work_end");
    reveal_strlit("poll_interval_secs");
    reveal_strlit("grace_period_secs");
    reveal_strlit("max_call_hours");
    reveal_strlit("teams_offline_mins");
    reveal_strlit("call_state");
    reveal_strlit("call_color");
    reveal_strlit("call_brightness");
    reveal_strlit("idle_state");
    reveal_strlit("idle_color");
    reveal_strlit("idle_brightness");
    reveal_strlit("ui_port");
    reveal_strlit("log_level");
    reveal_strlit("trigger_mode");
    reveal_strlit("first_run_completed");
    assert("bulb_mac"@[0] != "work_end"@[0]);
    assert("bulb_last_ip"@[0] != "trigger_mode"@[0]);
    assert("bulb_port"@[0] != "log_level"@[0]);
    assert("work_start"@[0] != "call_state"@[0]);
    assert("work_start"@[0] != "call_color"@[0]);
    assert("work_start"@[0] != "idle_state"@[0]);
    assert("work_start"@[0] != "idle_color"@[0]);
    assert("poll_interval_secs"@[0] != "teams_offline_mins"@[0]);
    assert("call_state"@[5] != "call_color"@[5]);
    assert("call_state"@[0] != "idle_state"@[0]);
    assert("call_state"@[0] != "idle_color"@[0]);
    assert("call_color"@[0] != "idle_state"@[0]);
    assert("call_color"@[0] != "idle_color"@[0]);
    assert("call_brightness"@[0] != "idle_brightness"@[0]);
    assert("idle_state"@[5] != "idle_color"@[5]);
    assert("bulb_mac"@.len() == 8);
    assert("bulb_last_ip"@.len() == 12);
    assert("bulb_port"@.len() == 9);
    assert("teams_log_dir"@.len() == 13);
    assert("work_start"@.len() == 10);
    assert("work_end"@.len() == 8);
    assert("poll_interval_secs"@.len() == 18);
    assert("grace_period_secs"@.len() == 17);
    assert("max_call_hours"@.len() == 14);
    assert("teams_offline_mins"@.len() == 18);
    assert("call_state"@.len() == 10);
    assert("call_color"@.len() == 10);
    assert("call_brightness"@.len() == 15);
    assert("idle_state"@.len() == 10);
    assert("idle_color"@.len() == 10);
    assert("idle_brightness"@.len() == 15);
    assert("ui_port"@.len() == 7);
    assert("log_level"@.len() == 9);
    assert("trigger_mode"@.len() == 12);
    assert("first_run_completed"@.len() == 19);
}

/// A field named by a text has that text as its name.
proof fn lemma_key_named(s: Seq<char>)
    ensures
        key_named(s) matches Some(k) ==> key_name(k) == s,
{
}

/// The field that is stored under `s`, if any.
fn find_key(s: &str) -> (r: Option<ConfigKey>)
    ensures
        r == key_named(s@),
{
    if same_text(s, "bulb_mac") {
        Some(ConfigKey::BulbMac)
    } else if same_text(s, "bulb_last_ip") {
        Some(ConfigKey::BulbLastIp)
    } else if same_text(s, "bulb_port") {
        Some(ConfigKey::BulbPort)
    } else if same_text(s, "teams_log_dir") {
        Some(ConfigKey::TeamsLogDir)
    } else if same_text(s, "work_start") {
        Some(ConfigKey::WorkStart)
    } else if same_text(s, "work_end") {
        Some(ConfigKey::WorkEnd)
    } else if same_text(s, "poll_interval_secs") {
        Some(ConfigKey::PollIntervalSecs)
    } else if same_text(s, "grace_period_secs") {
        Some(ConfigKey::GracePeriodSecs)
    } else if same_text(s, "max_call_hours") {
        Some(ConfigKey::MaxCallHours)
    } else if same_text(s, "teams_offline_mins") {
        Some(ConfigKey::TeamsOfflineMins)
    } else if same_text(s, "call_state") {
        Some(ConfigKey::CallState)
    } else if same_text(s, "call_color") {
        Some(ConfigKey::CallColor)
    } else if same_text(s, "call_brightness") {
        Some(ConfigKey::CallBrightness)
    } else if same_text(s, "idle_state") {
        Some(ConfigKey::IdleState)
    } else if same_text(s, "idle_color") {
        Some(ConfigKey::IdleColor)
    } else if same_text(s, "idle_brightness") {
        Some(ConfigKey::IdleBrightness)
    } else if same_text(s, "ui_port") {
        Some(ConfigKey::UiPort)
    } else if same_text(s, "log_level") {
        Some(ConfigKey::LogLevel)
    } else if same_text(s, "trigger_mode") {
        Some(ConfigKey::TriggerMode)
    } else if same_text(s, "first_run_completed") {
        Some(ConfigKey::FirstRunCompleted)
    } else {
        None
    }
}

// ---------------------------------------------------------------------------
// Writing
// ---------------------------------------------------------------------------

/// The text that is stored for a field.
pub open spec fn stored_text(c: ConfigModel, k: ConfigKey) -> Seq<char> {
    match k {
        ConfigKey::BulbMac => c.bulb_mac,
        ConfigKey::BulbLastIp => c.bulb_last_ip,
        ConfigKey::BulbPort => decimal(c.bulb_port as nat),
        ConfigKey::TeamsLogDir => match c.teams_log_dir {
            Some(dir) => dir,
            None => Seq::empty(),
        },
        ConfigKey::WorkStart => decimal(c.work_start as nat),
        ConfigKey::WorkEnd => decimal(c.work_end as nat),
        ConfigKey::PollIntervalSecs => decimal(c.poll_interval_secs as nat),
        ConfigKey::GracePeriodSecs => decimal(c.grace_period_secs as nat),
        ConfigKey::MaxCallHours => decimal(c.max_call_hours as nat),
        ConfigKey::TeamsOfflineMins => decimal(c.teams_offline_mins as nat),
        ConfigKey::CallState => mode_word(c.call_state),
        ConfigKey::CallColor => hex_of_color(c.call_color),
        ConfigKey::CallBrightness => decimal(c.call_brightness as nat),
        ConfigKey::IdleState => mode_word(c.idle_state),
        ConfigKey::IdleColor => hex_of_color(c.idle_color),
        ConfigKey::IdleBrightness => decimal(c.idle_brightness as nat),
        ConfigKey::UiPort => decimal(c.ui_port as nat),
        ConfigKey::LogLevel => c.log_level,
        ConfigKey::TriggerMode => trigger_mode_word(c.trigger_mode),
        ConfigKey::FirstRunCompleted => if c.first_run_completed {
            "1"@
        } else {
            "0"@
        },
    }
}

/// The rows that are stored for a configuration: name and text of each field.
pub open spec fn stored_rows(c: ConfigModel) -> Seq<(Seq<char>, Seq<char>)> {
    Seq::new(all_keys().len(), |i: int| (key_name(all_keys()[i]), stored_text(c, all_keys()[i])))
}

/// The rows to store for a configuration.
pub fn config_to_pairs(cfg: &Config) -> (r: Vec<(&'static str, String)>)
    ensures
        r@.len() == stored_rows(cfg@).len(),
        forall|i: int|
            0 <= i < r@.len() ==> ((#[trigger] r@[i]).0@, r@[i].1@) == stored_rows(cfg@)[i],
{
    let mut r: Vec<(&'static str, String)> = Vec::new();
    r.push(("bulb_mac", cfg.bulb_mac.clone()));
    r.push(("bulb_last_ip", cfg.bulb_last_ip.clone()));
    r.push(("bulb_port", decimal_text(cfg.bulb_port as u64)));
    let dir: String = match &cfg.teams_log_dir {
        Some(d) => d.clone(),
        None => String::new(),
    };
    r.push(("teams_log_dir", dir));
    r.push(("work_start", decimal_text(cfg.work_start as u64)));
    r.push(("work_end", decimal_text(cfg.work_end as u64)));
    r.push(("poll_interval_secs", decimal_text(cfg.poll_interval_secs)));
    r.push(("grace_period_secs", decimal_text(cfg.grace_period_secs)));
    r.push(("max_call_hours", decimal_text(cfg.max_call_hours)));
    r.push(("teams_offline_mins", decimal_text(cfg.teams_offline_mins)));
    r.push(("call_state", mode_to_str(cfg.call_state).to_owned()));
    r.push(("call_color", cfg.call_color.to_hex()));
    r.push(("call_brightness", decimal_text(cfg.call_brightness as u64)));
    r.push(("idle_state", mode_to_str(cfg.idle_state).to_owned()));
    r.push(("idle_color", cfg.idle_color.to_hex()));
    r.push(("idle_brightness", decimal_text(cfg.idle_brightness as u64)));
    r.push(("ui_port", decimal_text(cfg.ui_port as u64)));
    r.push(("log_level", cfg.log_level.clone()));
    r.push(("trigger_mode", trigger_mode_to_str(cfg.trigger_mode).to_owned()));
    let flag: &'static str = if cfg.first_run_completed { "1" } else { "0" };
    r.push(("first_run_completed", flag.to_owned()));
    r
}

// ---------------------------------------------------------------------------
// Reading
// ---------------------------------------------------------------------------

/// The configuration after a stored text has been read into a field. A text
/// that the field cannot hold leaves the field as it is.
pub open spec fn with_stored_text(c: ConfigModel, k: ConfigKey, text: Seq<char>) -> ConfigModel {
    match k {
        ConfigKey::BulbMac => ConfigModel { bulb_mac: text, ..c },
        ConfigKey::BulbLastIp => ConfigModel { bulb_last_ip: text, ..c },
        ConfigKey::BulbPort => match parse_unsigned_spec(text, u16::MAX as nat) {
            Some(n) => ConfigModel { bulb_port: n as u16, ..c },
            None => c,
        },
        ConfigKey::TeamsLogDir => ConfigModel {
            teams_log_dir: if text.len() == 0 {
                None
            } else {
                Some(text)
            },
            ..c
        },
        ConfigKey::WorkStart => match parse_unsigned_spec(text, u8::MAX as nat) {
            Some(n) => ConfigModel { work_start: n as u8, ..c },
            None => c,
        },
        ConfigKey::WorkEnd => match parse_unsigned_spec(text, u8::MAX as nat) {
            Some(n) => ConfigModel { work_end: n as u8, ..c },
            None => c,
        },
        ConfigKey::PollIntervalSecs => match parse_unsigned_spec(text, u64::MAX as nat) {
            Some(n) => ConfigModel { poll_interval_secs: n as u64, ..c },
            None => c,
        },
        ConfigKey::GracePeriodSecs => match parse_unsigned_spec(text, u64::MAX as nat) {
            Some(n) => ConfigModel { grace_period_secs: n as u64, ..c },
            None => c,
        },
        ConfigKey::MaxCallHours => match parse_unsigned_spec(text, u64::MAX as nat) {
            Some(n) => ConfigModel { max_call_hours: n as u64, ..c },
            None => c,
        },
        ConfigKey::TeamsOfflineMins => match parse_unsigned_spec(text, u64::MAX as nat) {
            Some(n) => ConfigModel { teams_offline_mins: n as u64, ..c },
            None => c,
        },
        ConfigKey::CallState => match mode_of_word(text) {
            Some(m) => ConfigModel { call_state: m, ..c },
            None => c,
        },
        ConfigKey::CallColor => match color_of_hex(text) {
            Some(rgb) => ConfigModel { call_color: rgb, ..c },
            None => c,
        },
        ConfigKey::CallBrightness => match parse_unsigned_spec(text, u8::MAX as nat) {
            Some(n) => ConfigModel { call_brightness: n as u8, ..c },
            None => c,
        },
        ConfigKey::IdleState => match mode_of_word(text) {
            Some(m) => ConfigModel { idle_state: m, ..c },
            None => c,
        },
        ConfigKey::IdleColor => match color_of_hex(text) {
            Some(rgb) => ConfigModel { idle_color: rgb, ..c },
            None => c,
        },
        ConfigKey::IdleBrightness => match parse_unsigned_spec(text, u8::MAX as nat) {
            Some(n) => ConfigModel { idle_brightness: n as u8, ..c },
            None => c,
        },
        ConfigKey::UiPort => match parse_unsigned_spec(text, u16::MAX as nat) {
            Some(n) => ConfigModel { ui_port: n as u16, ..c },
            None => c,
        },
        ConfigKey::LogLevel => ConfigModel { log_level: text, ..c },
        ConfigKey::TriggerMode => match trigger_mode_of_word(text) {
            Some(m) => ConfigModel { trigger_mode: m, ..c },
            None => c,
        },
        ConfigKey::FirstRunCompleted => ConfigModel {
            first_run_completed: text == "1"@ || text == "true"@,
            ..c
        },
    }
}

/// The configuration after one stored row has been read. Rows under unknown
/// names change nothing.
pub open spec fn with_row(c: ConfigModel, key: Seq<char>, value: Seq<char>) -> ConfigModel {
    match key_named(key) {
        Some(k) => with_stored_text(c, k, value),
        None => c,
    }
}

/// Reads one stored row into the configuration. Unknown keys are ignored so
/// old databases stay forward-compatible.
pub fn apply_key(cfg: &mut Config, key: &str, value: &str)
    ensures
        final(cfg)@ == with_row(old(cfg)@, key@, value@),
{
    match find_key(key) {
        Some(ConfigKey::BulbMac) => {
            cfg.bulb_mac = value.to_owned();
        },
        Some(ConfigKey::BulbLastIp) => {
            cfg.bulb_last_ip = value.to_owned();
        },
        Some(ConfigKey::BulbPort) => {
            if let Some(n) = parse_unsigned(value, 0xFFFF) {
                cfg.bulb_port = n as u16;
            }
        },
        Some(ConfigKey::TeamsLogDir) => {
            cfg.teams_log_dir = if value.is_empty() {
                None
            } else {
                Some(value.to_owned())
            };
        },
        Some(ConfigKey::WorkStart) => {
            if let Some(n) = parse_unsigned(value, 0xFF) {
                cfg.work_start = n as u8;
            }
        },
        Some(ConfigKey::WorkEnd) => {
            if let Some(n) = parse_unsigned(value, 0xFF) {
                cfg.work_end = n as u8;
            }
        },
        Some(ConfigKey::PollIntervalSecs) => {
            if let Some(n) = parse_unsigned(value, u64::MAX) {
                cfg.poll_interval_secs = n;
            }
        },
        Some(ConfigKey::GracePeriodSecs) => {
            if let Some(n) = parse_unsigned(value, u64::MAX) {
                cfg.grace_period_secs = n;
            }
        },
        Some(ConfigKey::MaxCallHours) => {
            if let Some(n) = parse_unsigned(value, u64::MAX) {
                cfg.max_call_hours = n;
            }
        },
        Some(ConfigKey::TeamsOfflineMins) => {
            if let Some(n) = parse_unsigned(value, u64::MAX) {
                cfg.teams_offline_mins = n;
            }
        },
        Some(ConfigKey::CallState) => {
            if let Some(m) = mode_from_str(value) {
                cfg.call_state = m;
            }
        },
        Some(ConfigKey::CallColor) => {
            if let Some(rgb) = Rgb::from_hex(value) {
                cfg.call_color = rgb;
            }
        },
        Some(ConfigKey::CallBrightness) => {
            if let Some(n) = parse_unsigned(value, 0xFF) {
                cfg.call_brightness = n as u8;
            }
        },
        Some(ConfigKey::IdleState) => {
            if let Some(m) = mode_from_str(value) {
                cfg.idle_state = m;
            }
        },
        Some(ConfigKey::IdleColor) => {
            if let Some(rgb) = Rgb::from_hex(value) {
                cfg.idle_color = rgb;
            }
        },
        Some(ConfigKey::IdleBrightness) => {
            if let Some(n) = parse_unsigned(value, 0xFF) {
                cfg.idle_brightness = n as u8;
            }
        },
        Some(ConfigKey::UiPort) => {
            if let Some(n) = parse_unsigned(value, 0xFFFF) {
                cfg.ui_port = n as u16;
            }
        },
        Some(ConfigKey::LogLevel) => {
            cfg.log_level = value.to_owned();
        },
        Some(ConfigKey::TriggerMode) => {
            if let Some(m) = trigger_mode_from_str(value) {
                cfg.trigger_mode = m;
            }
        },
        Some(ConfigKey::FirstRunCompleted) => {
            cfg.first_run_completed = same_text(value, "1") || same_text(value, "true");
        },
        None => {},
    }
}

/// The configuration after a sequence of stored rows has been read, in order.
pub open spec fn with_rows(c: ConfigModel, rows: Seq<(Seq<char>, Seq<char>)>) -> ConfigModel
    decreases rows.len(),
{
    if rows.len() == 0 {
        c
    } else {
        let last = rows.last();
        with_row(with_rows(c, rows.drop_last()), last.0, last.1)
    }
}

/// The character sequences of rows of strings.
pub open spec fn row_texts(rows: Seq<(String, String)>) -> Seq<(Seq<char>, Seq<char>)> {
    Seq::new(rows.len(), |i: int| (rows[i].0@, rows[i].1@))
}

/// Reads stored rows over the default configuration: any missing keys keep
/// their defaults.
pub fn config_from_rows(rows: &Vec<(String, String)>) -> (c: Config)
    ensures
        c@ == with_rows(default_config(), row_texts(rows@)),
{
    let mut c: Config = Config::defaults();
    let mut i: usize = 0;
    let ghost texts = row_texts(rows@);
    assert(texts.take(0) == Seq::<(Seq<char>, Seq<char>)>::empty());
    while i < rows.len()
        invariant
            i <= rows@.len(),
            texts == row_texts(rows@),
            c@ == with_rows(default_config(), texts.take(i as int)),
        decreases rows@.len() - i,
    {
        assert(texts.take(i + 1).drop_last() == texts.take(i as int));
        assert(texts.take(i + 1).last() == (rows@[i as int].0@, rows@[i as int].1@));
        apply_key(&mut c, rows[i].0.as_str(), rows[i].1.as_str());
        i = i + 1;
    }
    assert(texts.take(texts.len() as int) == texts);
    c
}

// ---------------------------------------------------------------------------
// Laws
// ---------------------------------------------------------------------------

/// True if both configurations hold the same value in a field.
pub open spec fn same_field(c: ConfigModel, d: ConfigModel, k: ConfigKey) -> bool {
    match k {
        ConfigKey::BulbMac => c.bulb_mac == d.bulb_mac,
        ConfigKey::BulbLastIp => c.bulb_last_ip == d.bulb_last_ip,
        ConfigKey::BulbPort => c.bulb_port == d.bulb_port,
        ConfigKey::TeamsLogDir => c.teams_log_dir == d.teams_log_dir,
        ConfigKey::WorkStart => c.work_start == d.work_start,
        ConfigKey::WorkEnd => c.work_end == d.work_end,
        ConfigKey::PollIntervalSecs => c.poll_interval_secs == d.poll_interval_secs,
        ConfigKey::GracePeriodSecs => c.grace_period_secs == d.grace_period_secs,
        ConfigKey::MaxCallHours => c.max_call_hours == d.max_call_hours,
        ConfigKey::TeamsOfflineMins => c.teams_offline_mins == d.teams_offline_mins,
        ConfigKey::CallState => c.call_state == d.call_state,
        ConfigKey::CallColor => c.call_color == d.call_color,
        ConfigKey::CallBrightness => c.call_brightness == d.call_brightness,
        ConfigKey::IdleState => c.idle_state == d.idle_state,
        ConfigKey::IdleColor => c.idle_color == d.idle_color,
        ConfigKey::IdleBrightness => c.idle_brightness == d.idle_brightness,
        ConfigKey::UiPort => c.ui_port == d.ui_port,
        ConfigKey::LogLevel => c.log_level == d.log_level,
        ConfigKey::TriggerMode => c.trigger_mode == d.trigger_mode,
        ConfigKey::FirstRunCompleted => c.first_run_completed == d.first_run_completed,
    }
}

/// Two configurations that agree in every field are equal.
pub proof fn fields_determine_config(c: ConfigModel, d: ConfigModel)
    requires
        forall|k: ConfigKey| same_field(c, d, k),
    ensures
        c == d,
{
    assert(same_field(c, d, ConfigKey::BulbMac));
    assert(same_field(c, d, ConfigKey::BulbLastIp));
    assert(same_field(c, d, ConfigKey::BulbPort));
    assert(same_field(c, d, ConfigKey::TeamsLogDir));
    assert(same_field(c, d, ConfigKey::WorkStart));
    assert(same_field(c, d, ConfigKey::WorkEnd));
    assert(same_field(c, d, ConfigKey::PollIntervalSecs));
    assert(same_field(c, d, ConfigKey::GracePeriodSecs));
    assert(same_field(c, d, ConfigKey::MaxCallHours));
    assert(same_field(c, d, ConfigKey::TeamsOfflineMins));
    assert(same_field(c, d, ConfigKey::CallState));
    assert(same_field(c, d, ConfigKey::CallColor));
    assert(same_field(c, d, ConfigKey::CallBrightness));
    assert(same_field(c, d, ConfigKey::IdleState));
    assert(same_field(c, d, ConfigKey::IdleColor));
    assert(same_field(c, d, ConfigKey::IdleBrightness));
    assert(same_field(c, d, ConfigKey::UiPort));
    assert(same_field(c, d, ConfigKey::LogLevel));
    assert(same_field(c, d, ConfigKey::TriggerMode));
    assert(same_field(c, d, ConfigKey::FirstRunCompleted));
}

/// Reading the text that is stored for a field of `d` gives that field the
/// value it has in `d`, and leaves every other field alone. An empty log
/// directory is the one value that is not told apart from none.
pub proof fn stored_field_reads_back(c: ConfigModel, d: ConfigModel, k: ConfigKey)
    requires
        k == ConfigKey::TeamsLogDir ==> d.teams_log_dir != Some(Seq::<char>::empty()),
    ensures
        same_field(with_row(c, key_name(k), stored_text(d, k)), d, k),
        forall|other: ConfigKey|
            other != k ==> #[trigger] same_field(
                with_row(c, key_name(k), stored_text(d, k)),
                c,
                other,
            ),
{
    lemma_key_names(k);
    match k {
        ConfigKey::BulbPort => decimal_round_trip(d.bulb_port as nat, u16::MAX as nat),
        ConfigKey::TeamsLogDir => {
            if let Some(dir) = d.teams_log_dir {
                assert(dir.len() == 0 ==> dir == Seq::<char>::empty());
            }
        },
        ConfigKey::WorkStart => decimal_round_trip(d.work_start as nat, u8::MAX as nat),
        ConfigKey::WorkEnd => decimal_round_trip(d.work_end as nat, u8::MAX as nat),
        ConfigKey::PollIntervalSecs => decimal_round_trip(d.poll_interval_secs as nat, u64::MAX as nat),
        ConfigKey::GracePeriodSecs => decimal_round_trip(d.grace_period_secs as nat, u64::MAX as nat),
        ConfigKey::MaxCallHours => decimal_round_trip(d.max_call_hours as nat, u64::MAX as nat),
        ConfigKey::TeamsOfflineMins => decimal_round_trip(d.teams_offline_mins as nat, u64::MAX as nat),
        ConfigKey::CallState => mode_word_round_trip(d.call_state),
        ConfigKey::CallColor => hex_round_trip(d.call_color),
        ConfigKey::CallBrightness => decimal_round_trip(d.call_brightness as nat, u8::MAX as nat),
        ConfigKey::IdleState => mode_word_round_trip(d.idle_state),
        ConfigKey::IdleColor => hex_round_trip(d.idle_color),
        ConfigKey::IdleBrightness => decimal_round_trip(d.idle_brightness as nat, u8::MAX as nat),
        ConfigKey::UiPort => decimal_round_trip(d.ui_port as nat, u16::MAX as nat),
        ConfigKey::TriggerMode => trigger_mode_word_round_trip(d.trigger_mode),
        ConfigKey::FirstRunCompleted => {
            reveal_strlit("0");
            reveal_strlit("1");
            reveal_strlit("true");
        },
        _ => {},
    }
}

/// Every stored field has its place among the stored rows.
proof fn lemma_all_keys(k: ConfigKey)
    ensures
        all_keys().contains(k),
{
    match k {
        ConfigKey::BulbMac => assert(all_keys()[0] == k),
        ConfigKey::BulbLastIp => assert(all_keys()[1] == k),
        ConfigKey::BulbPort => assert(all_keys()[2] == k),
        ConfigKey::TeamsLogDir => assert(all_keys()[3] == k),
        ConfigKey::WorkStart => assert(all_keys()[4] == k),
        ConfigKey::WorkEnd => assert(all_keys()[5] == k),
        ConfigKey::PollIntervalSecs => assert(all_keys()[6] == k),
        ConfigKey::GracePeriodSecs => assert(all_keys()[7] == k),
        ConfigKey::MaxCallHours => assert(all_keys()[8] == k),
        ConfigKey::TeamsOfflineMins => assert(all_keys()[9] == k),
        ConfigKey::CallState => assert(all_keys()[10] == k),
        ConfigKey::CallColor => assert(all_keys()[11] == k),
        ConfigKey::CallBrightness => assert(all_keys()[12] == k),
        ConfigKey::IdleState => assert(all_keys()[13] == k),
        ConfigKey::IdleColor => assert(all_keys()[14] == k),
        ConfigKey::IdleBrightness => assert(all_keys()[15] == k),
        ConfigKey::UiPort => assert(all_keys()[16] == k),
        ConfigKey::LogLevel => assert(all_keys()[17] == k),
        ConfigKey::TriggerMode => assert(all_keys()[18] == k),
        ConfigKey::FirstRunCompleted => assert(all_keys()[19] == k),
    }
}

/// After rows taken from those of `d` and rows under unknown names have been
/// read, each field whose row is among them has its value from `d`.
proof fn lemma_rows_read_back(
    c: ConfigModel,
    d: ConfigModel,
    rows: Seq<(Seq<char>, Seq<char>)>,
    k: ConfigKey,
)
    requires
        d.teams_log_dir != Some(Seq::<char>::empty()),
        forall|i: int|
            0 <= i < rows.len() ==> (key_named((#[trigger] rows[i]).0) is None || stored_rows(
                d,
            ).contains(rows[i])),
        rows.contains((key_name(k), stored_text(d, k))),
    ensures
        same_field(with_rows(c, rows), d, k),
    decreases rows.len(),
{
    let last = rows.last();
    let init = rows.drop_last();
    let before = with_rows(c, init);
    let mine = (key_name(k), stored_text(d, k));
    assert(rows[rows.len() - 1] == last);
    assert forall|i: int| 0 <= i < init.len() implies (key_named((#[trigger] init[i]).0) is None
        || stored_rows(d).contains(init[i])) by {
        assert(init[i] == rows[i]);
    }
    if last != mine {
        let at = choose|i: int| 0 <= i < rows.len() && rows[i] == mine;
        assert(init[at] == mine);
        lemma_rows_read_back(c, d, init, k);
    }
    if key_named(last.0) is Some {
        let at = choose|i: int| 0 <= i < stored_rows(d).len() && stored_rows(d)[i] == last;
        let other = all_keys()[at];
        assert(last == (key_name(other), stored_text(d, other)));
        stored_field_reads_back(before, d, other);
        if other != k {
            lemma_key_names(other);
            lemma_key_names(k);
            assert(same_field(with_row(before, key_name(other), stored_text(d, other)), before, k));
        }
    } else {
        lemma_key_names(k);
    }
}

/// A saved configuration is loaded back unchanged, whatever was there before:
/// in any order of the rows, and with rows under unknown names in between.
/// An empty log directory is stored as none.
pub proof fn saved_config_loads_back(
    before: ConfigModel,
    saved: ConfigModel,
    rows: Seq<(Seq<char>, Seq<char>)>,
)
    requires
        saved.teams_log_dir != Some(Seq::<char>::empty()),
        forall|i: int|
            0 <= i < rows.len() ==> (key_named((#[trigger] rows[i]).0) is None || stored_rows(
                saved,
            ).contains(rows[i])),
        forall|i: int| 0 <= i < stored_rows(saved).len() ==> rows.contains(#[trigger] stored_rows(saved)[i]),
    ensures
        with_rows(before, rows) == saved,
{
    assert forall|k: ConfigKey| same_field(with_rows(before, rows), saved, k) by {
        lemma_all_keys(k);
        let at = choose|i: int| 0 <= i < all_keys().len() && all_keys()[i] == k;
        assert(stored_rows(saved)[at] == (key_name(k), stored_text(saved, k)));
        lemma_rows_read_back(before, saved, rows, k);
    }
    fields_determine_config(with_rows(before, rows), saved);
}

/// A row under a name that no field has changes nothing.
pub proof fn unknown_keys_are_ignored(c: ConfigModel, key: Seq<char>, value: Seq<char>)
    requires
        forall|k: ConfigKey| key != #[trigger] key_name(k),
    ensures
        with_row(c, key, value) == c,
{
    lemma_key_named(key);
}

/// A row changes no field but the one of its name.
pub proof fn rows_leave_other_fields(c: ConfigModel, key: Seq<char>, text: Seq<char>)
    ensures
        key != "bulb_mac"@ ==> with_row(c, key, text).bulb_mac == c.bulb_mac,
        key != "bulb_last_ip"@ ==> with_row(c, key, text).bulb_last_ip == c.bulb_last_ip,
        key != "bulb_port"@ ==> with_row(c, key, text).bulb_port == c.bulb_port,
        key != "teams_log_dir"@ ==> with_row(c, key, text).teams_log_dir == c.teams_log_dir,
        key != "work_start"@ ==> with_row(c, key, text).work_start == c.work_start,
        key != "work_end"@ ==> with_row(c, key, text).work_end == c.work_end,
        key != "poll_interval_secs"@ ==> with_row(c, key, text).poll_interval_secs == c.poll_interval_secs,
        key != "grace_period_secs"@ ==> with_row(c, key, text).grace_period_secs == c.grace_period_secs,
        key != "max_call_hours"@ ==> with_row(c, key, text).max_call_hours == c.max_call_hours,
        key != "teams_offline_mins"@ ==> with_row(c, key, text).teams_offline_mins == c.teams_offline_mins,
        key != "call_state"@ ==> with_row(c, key, text).call_state == c.call_state,
        key != "call_color"@ ==> with_row(c, key, text).call_color == c.call_color,
        key != "call_brightness"@ ==> with_row(c, key, text).call_brightness == c.call_brightness,
        key != "idle_state"@ ==> with_row(c, key, text).idle_state == c.idle_state,
        key != "idle_color"@ ==> with_row(c, key, text).idle_color == c.idle_color,
        key != "idle_brightness"@ ==> with_row(c, key, text).idle_brightness == c.idle_brightness,
        key != "ui_port"@ ==> with_row(c, key, text).ui_port == c.ui_port,
        key != "log_level"@ ==> with_row(c, key, text).log_level == c.log_level,
        key != "trigger_mode"@ ==> with_row(c, key, text).trigger_mode == c.trigger_mode,
        key != "first_run_completed"@ ==> with_row(c, key, text).first_run_completed == c.first_run_completed,
{
}

/// A row sets the field of its name to what its text says: texts as they are,
/// numbers as they are read, colors, modes and trigger modes by their notation. A
/// text that says nothing to the field leaves it.
pub proof fn rows_set_their_field(c: ConfigModel, text: Seq<char>)
    ensures
        with_row(c, "bulb_mac"@, text).bulb_mac == text,
        with_row(c, "bulb_last_ip"@, text).bulb_last_ip == text,
        parse_unsigned_spec(text, 65_535) matches Some(n) ==> with_row(c, "bulb_port"@, text).bulb_port == n,
        parse_unsigned_spec(text, 65_535) is None ==> with_row(c, "bulb_port"@, text).bulb_port == c.bulb_port,
        text.len() > 0 ==> with_row(c, "teams_log_dir"@, text).teams_log_dir == Some(text),
        text.len() == 0 ==> with_row(c, "teams_log_dir"@, text).teams_log_dir is None,
        parse_unsigned_spec(text, 255) matches Some(n) ==> with_row(c, "work_start"@, text).work_start == n,
        parse_unsigned_spec(text, 255) is None ==> with_row(c, "work_start"@, text).work_start == c.work_start,
        parse_unsigned_spec(text, 255) matches Some(n) ==> with_row(c, "work_end"@, text).work_end == n,
        parse_unsigned_spec(text, 255) is None ==> with_row(c, "work_end"@, text).work_end == c.work_end,
        parse_unsigned_spec(text, u64::MAX as nat) matches Some(n) ==> with_row(c, "poll_interval_secs"@, text).poll_interval_secs == n,
        parse_unsigned_spec(text, u64::MAX as nat) is None ==> with_row(c, "poll_interval_secs"@, text).poll_interval_secs == c.poll_interval_secs,
        parse_unsigned_spec(text, u64::MAX as nat) matches Some(n) ==> with_row(c, "grace_period_secs"@, text).grace_period_secs == n,
        parse_unsigned_spec(text, u64::MAX as nat) is None ==> with_row(c, "grace_period_secs"@, text).grace_period_secs == c.grace_period_secs,
        parse_unsigned_spec(text, u64::MAX as nat) matches Some(n) ==> with_row(c, "max_call_hours"@, text).max_call_hours == n,
        parse_unsigned_spec(text, u64::MAX as nat) is None ==> with_row(c, "max_call_hours"@, text).max_call_hours == c.max_call_hours,
        parse_unsigned_spec(text, u64::MAX as nat) matches Some(n) ==> with_row(c, "teams_offline_mins"@, text).teams_offline_mins == n,
        parse_unsigned_spec(text, u64::MAX as nat) is None ==> with_row(c, "teams_offline_mins"@, text).teams_offline_mins == c.teams_offline_mins,
        text == "on"@ ==> with_row(c, "call_state"@, text).call_state == BulbMode::On,
        text == "off"@ ==> with_row(c, "call_state"@, text).call_state == BulbMode::Off,
        text != "on"@ && text != "off"@ ==> with_row(c, "call_state"@, text).call_state == c.call_state,
        color_of_hex(text) matches Some(color) ==> with_row(c, "call_color"@, text).call_color == color,
        color_of_hex(text) is None ==> with_row(c, "call_color"@, text).call_color == c.call_color,
        parse_unsigned_spec(text, 255) matches Some(n) ==> with_row(c, "call_brightness"@, text).call_brightness == n,
        parse_unsigned_spec(text, 255) is None ==> with_row(c, "call_brightness"@, text).call_brightness == c.call_brightness,
        text == "on"@ ==> with_row(c, "idle_state"@, text).idle_state == BulbMode::On,
        text == "off"@ ==> with_row(c, "idle_state"@, text).idle_state == BulbMode::Off,
        text != "on"@ && text != "off"@ ==> with_row(c, "idle_state"@, text).idle_state == c.idle_state,
        color_of_hex(text) matches Some(color) ==> with_row(c, "idle_color"@, text).idle_color == color,
        color_of_hex(text) is None ==> with_row(c, "idle_color"@, text).idle_color == c.idle_color,
        parse_unsigned_spec(text, 255) matches Some(n) ==> with_row(c, "idle_brightness"@, text).idle_brightness == n,
        parse_unsigned_spec(text, 255) is None ==> with_row(c, "idle_brightness"@, text).idle_brightness == c.idle_brightness,
        parse_unsigned_spec(text, 65_535) matches Some(n) ==> with_row(c, "ui_port"@, text).ui_port == n,
        parse_unsigned_spec(text, 65_535) is None ==> with_row(c, "ui_port"@, text).ui_port == c.ui_port,
        with_row(c, "log_level"@, text).log_level == text,
        text == "call_only"@ ==> with_row(c, "trigger_mode"@, text).trigger_mode == TriggerMode::CallOnly,
        text == "busy_and_dnd"@ ==> with_row(c, "trigger_mode"@, text).trigger_mode == TriggerMode::BusyAndDnd,
        text == "any_non_available"@ ==> with_row(c, "trigger_mode"@, text).trigger_mode == TriggerMode::AnyNonAvailable,
        text != "call_only"@ && text != "busy_and_dnd"@ && text != "any_non_available"@ ==> with_row(c, "trigger_mode"@, text).trigger_mode == c.trigger_mode,
        with_row(c, "first_run_completed"@, text).first_run_completed <==> text == "1"@ || text == "true"@,
{
    lemma_key_names(ConfigKey::BulbMac);
    lemma_key_names(ConfigKey::BulbLastIp);
    lemma_key_names(ConfigKey::BulbPort);
    lemma_key_names(ConfigKey::TeamsLogDir);
    lemma_key_names(ConfigKey::WorkStart);
    lemma_key_names(ConfigKey::WorkEnd);
    lemma_key_names(ConfigKey::PollIntervalSecs);
    lemma_key_names(ConfigKey::GracePeriodSecs);
    lemma_key_names(ConfigKey::MaxCallHours);
    lemma_key_names(ConfigKey::TeamsOfflineMins);
    lemma_key_names(ConfigKey::CallState);
    lemma_key_names(ConfigKey::CallColor);
    lemma_key_names(ConfigKey::CallBrightness);
    lemma_key_names(ConfigKey::IdleState);
    lemma_key_names(ConfigKey::IdleColor);
    lemma_key_names(ConfigKey::IdleBrightness);
    lemma_key_names(ConfigKey::UiPort);
    lemma_key_names(ConfigKey::LogLevel);
    lemma_key_names(ConfigKey::TriggerMode);
    lemma_key_names(ConfigKey::FirstRunCompleted);
    words_stand_for_their_mode(text);
}

/// A mode has one word, and a trigger mode has one.
pub proof fn words_stand_for_their_mode(s: Seq<char>)
    ensures
        mode_of_word(s) == Some(BulbMode::On) <==> s == "on"@,
        mode_of_word(s) == Some(BulbMode::Off) <==> s == "off"@,
        trigger_mode_of_word(s) == Some(TriggerMode::CallOnly) <==> s == "call_only"@,
        trigger_mode_of_word(s) == Some(TriggerMode::BusyAndDnd) <==> s == "busy_and_dnd"@,
        trigger_mode_of_word(s) == Some(TriggerMode::AnyNonAvailable) <==> s
            == "any_non_available"@,
{
    mode_word_round_trip(BulbMode::On);
    mode_word_round_trip(BulbMode::Off);
    trigger_mode_word_round_trip(TriggerMode::CallOnly);
    trigger_mode_word_round_trip(TriggerMode::BusyAndDnd);
    trigger_mode_word_round_trip(TriggerMode::AnyNonAvailable);
}

/// Every field is stored under its own name, as a text that says what it holds.
pub proof fn fields_are_stored_under_their_names(c: ConfigModel)
    ensures
        stored_rows(c).len() == 20,
        stored_rows(c).contains(("bulb_mac"@, c.bulb_mac)),
        stored_rows(c).contains(("bulb_last_ip"@, c.bulb_last_ip)),
        stored_rows(c).contains(("bulb_port"@, decimal(c.bulb_port as nat))),
        c.teams_log_dir matches Some(dir) ==> stored_rows(c).contains(("teams_log_dir"@, dir)),
        c.teams_log_dir is None ==> stored_rows(c).contains(("teams_log_dir"@, Seq::empty())),
        stored_rows(c).contains(("work_start"@, decimal(c.work_start as nat))),
        stored_rows(c).contains(("work_end"@, decimal(c.work_end as nat))),
        stored_rows(c).contains(("poll_interval_secs"@, decimal(c.poll_interval_secs as nat))),
        stored_rows(c).contains(("grace_period_secs"@, decimal(c.grace_period_secs as nat))),
        stored_rows(c).contains(("max_call_hours"@, decimal(c.max_call_hours as nat))),
        stored_rows(c).contains(("teams_offline_mins"@, decimal(c.teams_offline_mins as nat))),
        c.call_state == BulbMode::On ==> stored_rows(c).contains(("call_state"@, "on"@)),
        c.call_state == BulbMode::Off ==> stored_rows(c).contains(("call_state"@, "off"@)),
        stored_rows(c).contains(("call_color"@, hex_of_color(c.call_color))),
        stored_rows(c).contains(("call_brightness"@, decimal(c.call_brightness as nat))),
        c.idle_state == BulbMode::On ==> stored_rows(c).contains(("idle_state"@, "on"@)),
        c.idle_state == BulbMode::Off ==> stored_rows(c).contains(("idle_state"@, "off"@)),
        stored_rows(c).contains(("idle_color"@, hex_of_color(c.idle_color))),
        stored_rows(c).contains(("idle_brightness"@, decimal(c.idle_brightness as nat))),
        stored_rows(c).contains(("ui_port"@, decimal(c.ui_port as nat))),
        stored_rows(c).contains(("log_level"@, c.log_level)),
        c.trigger_mode == TriggerMode::CallOnly ==> stored_rows(c).contains(
            ("trigger_mode"@, "call_only"@),
        ),
        c.trigger_mode == TriggerMode::BusyAndDnd ==> stored_rows(c).contains(
            ("trigger_mode"@, "busy_and_dnd"@),
        ),
        c.trigger_mode == TriggerMode::AnyNonAvailable ==> stored_rows(c).contains(
            ("trigger_mode"@, "any_non_available"@),
        ),
        c.first_run_completed ==> stored_rows(c).contains(("first_run_completed"@, "1"@)),
        !c.first_run_completed ==> stored_rows(c).contains(("first_run_completed"@, "0"@)),
{
    assert(stored_rows(c)[0] == (key_name(ConfigKey::BulbMac), stored_text(c, ConfigKey::BulbMac)));
    assert(stored_rows(c)[1] == (key_name(ConfigKey::BulbLastIp), stored_text(c, ConfigKey::BulbLastIp)));
    assert(stored_rows(c)[2] == (key_name(ConfigKey::BulbPort), stored_text(c, ConfigKey::BulbPort)));
    assert(stored_rows(c)[3] == (key_name(ConfigKey::TeamsLogDir), stored_text(c, ConfigKey::TeamsLogDir)));
    assert(stored_rows(c)[4] == (key_name(ConfigKey::WorkStart), stored_text(c, ConfigKey::WorkStart)));
    assert(stored_rows(c)[5] == (key_name(ConfigKey::WorkEnd), stored_text(c, ConfigKey::WorkEnd)));
    assert(stored_rows(c)[6] == (key_name(ConfigKey::PollIntervalSecs), stored_text(c, ConfigKey::PollIntervalSecs)));
    assert(stored_rows(c)[7] == (key_name(ConfigKey::GracePeriodSecs), stored_text(c, ConfigKey::GracePeriodSecs)));
    assert(stored_rows(c)[8] == (key_name(ConfigKey::MaxCallHours), stored_text(c, ConfigKey::MaxCallHours)));
    assert(stored_rows(c)[9] == (key_name(ConfigKey::TeamsOfflineMins), stored_text(c, ConfigKey::TeamsOfflineMins)));
    assert(stored_rows(c)[10] == (key_name(ConfigKey::CallState), stored_text(c, ConfigKey::CallState)));
    assert(stored_rows(c)[11] == (key_name(ConfigKey::CallColor), stored_text(c, ConfigKey::CallColor)));
    assert(stored_rows(c)[12] == (key_name(ConfigKey::CallBrightness), stored_text(c, ConfigKey::CallBrightness)));
    assert(stored_rows(c)[13] == (key_name(ConfigKey::IdleState), stored_text(c, ConfigKey::IdleState)));
    assert(stored_rows(c)[14] == (key_name(ConfigKey::IdleColor), stored_text(c, ConfigKey::IdleColor)));
    assert(stored_rows(c)[15] == (key_name(ConfigKey::IdleBrightness), stored_text(c, ConfigKey::IdleBrightness)));
    assert(stored_rows(c)[16] == (key_name(ConfigKey::UiPort), stored_text(c, ConfigKey::UiPort)));
    assert(stored_rows(c)[17] == (key_name(ConfigKey::LogLevel), stored_text(c, ConfigKey::LogLevel)));
    assert(stored_rows(c)[18] == (key_name(ConfigKey::TriggerMode), stored_text(c, ConfigKey::TriggerMode)));
    assert(stored_rows(c)[19] == (key_name(ConfigKey::FirstRunCompleted), stored_text(c, ConfigKey::FirstRunCompleted)));
}

/// A field without a row keeps what it was, whatever other rows are read.
pub proof fn fields_without_a_row_stay(
    c: ConfigModel,
    rows: Seq<(Seq<char>, Seq<char>)>,
    k: ConfigKey,
)
    requires
        forall|i: int| 0 <= i < rows.len() ==> (#[trigger] rows[i]).0 != key_name(k),
    ensures
        same_field(with_rows(c, rows), c, k),
    decreases rows.len(),
{
    if rows.len() > 0 {
        let init = rows.drop_last();
        let last = rows.last();
        assert(rows[rows.len() - 1] == last);
        assert forall|i: int| 0 <= i < init.len() implies (#[trigger] init[i]).0 != key_name(k) by {
            assert(init[i] == rows[i]);
        }
        fields_without_a_row_stay(c, init, k);
        lemma_row_leaves(with_rows(c, init), last.0, last.1, k);
    }
}

proof fn lemma_row_leaves(c: ConfigModel, key: Seq<char>, text: Seq<char>, k: ConfigKey)
    requires
        key != key_name(k),
    ensures
        same_field(with_row(c, key, text), c, k),
{
    rows_leave_other_fields(c, key, text);
}

/// Of several rows under one name the last one counts.
pub proof fn later_rows_win(
    c: ConfigModel,
    rows: Seq<(Seq<char>, Seq<char>)>,
    key: Seq<char>,
    text: Seq<char>,
)
    ensures
        with_rows(c, rows.push((key, text))) == with_row(with_rows(c, rows), key, text),
        with_rows(c, Seq::empty()) == c,
{
    assert(rows.push((key, text)).drop_last() == rows);
}

/// Rows are read one by one, as they are.
pub proof fn rows_are_read_as_they_are(rows: Seq<(String, String)>, i: int)
    ensures
        row_texts(rows).len() == rows.len(),
        0 <= i < rows.len() ==> row_texts(rows)[i] == (rows[i].0@, rows[i].1@),
{
}

/// A fresh installation knows no bulb and no log directory of its own. It watches
/// for Busy and DoNotDisturb from 6 to 18 o'clock, shows red for calls, and is off
/// otherwise.
pub proof fn defaults_of_a_fresh_installation(c: ConfigModel)
    requires
        c == default_config(),
    ensures
        c.bulb_mac.len() == 0 && c.bulb_last_ip.len() == 0 && c.bulb_port == 38899,
        c.teams_log_dir is None && c.log_level == "info"@ && !c.first_run_completed,
        c.work_start == 6 && c.work_end == 18 && c.trigger_mode == TriggerMode::BusyAndDnd,
        c.poll_interval_secs == 3 && c.grace_period_secs == 10,
        c.max_call_hours == 4 && c.teams_offline_mins == 5 && c.ui_port == 9876,
        c.call_state == BulbMode::On && c.call_brightness == 100,
        c.call_color.r == 255 && c.call_color.g == 0 && c.call_color.b == 0,
        c.idle_state == BulbMode::Off && c.idle_brightness == 50,
        c.idle_color.r == 0x22 && c.idle_color.g == 0xC5 && c.idle_color.b == 0x5E,
{
}

} // verus!
