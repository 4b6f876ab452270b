//! Changes of the configuration and of the override mode that come in through
//! the web interface.

use crate::clock::LocalTime;
use crate::config::{mode_from_str, mode_of_word, mode_word_round_trip, BulbMode, Config, ConfigModel};
use crate::events::{EventLevel, NoticeModel};
use crate::json::Json;
use crate::models::{color_of_hex, Rgb};
use crate::monitor::{after_reconcile, due_order, Order};
use crate::state::{AppModel, AppState, OverrideMode};
use crate::text::same_text;
use vstd::prelude::*;
use vstd::string::*;

verus! {

// ---------------------------------------------------------------------------
// Partial config updates
// ---------------------------------------------------------------------------

/// The complaint about a text that is not a color.
pub open spec fn color_complaint(key: Seq<char>, text: Seq<char>) -> Seq<char> {
    "invalid hex color for "@ + key + ": "@ + text
}

/// The complaint about a text that is not a bulb mode.
pub open spec fn mode_complaint(key: Seq<char>, text: Seq<char>) -> Seq<char> {
    "invalid bulb mode for "@ + key + ": "@ + text
}

/// What is wrong with the color under a key. Values other than strings are
/// passed over.
pub open spec fn color_error(body: Json, key: Seq<char>) -> Option<Seq<char>> {
    match body.text_at(key) {
        Some(s) => if color_of_hex(s) is None {
            Some(color_complaint(key, s))
        } else {
            None
        },
        None => None,
    }
}

/// What is wrong with the bulb mode under a key. Values other than strings are
/// passed over.
pub open spec fn mode_error(body: Json, key: Seq<char>) -> Option<Seq<char>> {
    match body.text_at(key) {
        Some(s) => if mode_of_word(s) is None {
            Some(mode_complaint(key, s))
        } else {
            None
        },
        None => None,
    }
}

/// Why an update is refused: the first thing that is wrong with it.
pub open spec fn update_error(body: Json) -> Option<Seq<char>> {
    if !(body is Object) {
        Some("expected JSON object"@)
    } else if color_error(body, "call_color"@) is Some {
        color_error(body, "call_color"@)
    } else if color_error(body, "idle_color"@) is Some {
        color_error(body, "idle_color"@)
    } else if mode_error(body, "call_state"@) is Some {
        mode_error(body, "call_state"@)
    } else {
        mode_error(body, "idle_state"@)
    }
}

/// The lowest byte of a number, or the current value if there is none.
pub open spec fn byte_or(n: Option<u64>, current: u8) -> u8 {
    match n {
        Some(n) => (n as int % 0x100) as u8,
        None => current,
    }
}

/// The lowest two bytes of a number, or the current value if there is none.
pub open spec fn short_or(n: Option<u64>, current: u16) -> u16 {
    match n {
        Some(n) => (n as int % 0x1_0000) as u16,
        None => current,
    }
}

/// A number, or the current value if there is none.
pub open spec fn number_or(n: Option<u64>, current: u64) -> u64 {
    match n {
        Some(n) => n,
        None => current,
    }
}

/// A text, or the current one if there is none.
pub open spec fn text_or(s: Option<Seq<char>>, current: Seq<char>) -> Seq<char> {
    match s {
        Some(s) => s,
        None => current,
    }
}

/// The color of a text, or the current one if there is none.
pub open spec fn color_or(s: Option<Seq<char>>, current: Rgb) -> Rgb {
    match s {
        Some(s) => match color_of_hex(s) {
            Some(c) => c,
            None => current,
        },
        None => current,
    }
}

/// The bulb mode of a text, or the current one if there is none.
pub open spec fn mode_or(s: Option<Seq<char>>, current: BulbMode) -> BulbMode {
    match s {
        Some(s) => match mode_of_word(s) {
            Some(m) => m,
            None => current,
        },
        None => current,
    }
}

/// The log directory: a string sets it, null clears it, anything else leaves it.
pub open spec fn dir_or(value: Option<Json>, current: Option<Seq<char>>) -> Option<Seq<char>> {
    match value {
        Some(Json::Null) => None,
        Some(Json::Text(s)) => Some(s@),
        _ => current,
    }
}

/// The configuration after an update that is not refused. What is omitted stays
/// as it is.
pub open spec fn updated(c: ConfigModel, body: Json) -> ConfigModel {
    ConfigModel {
        work_start: byte_or(body.u64_at("work_start"@), c.work_start),
        work_end: byte_or(body.u64_at("work_end"@), c.work_end),
        poll_interval_secs: number_or(body.u64_at("poll_interval_secs"@), c.poll_interval_secs),
        grace_period_secs: number_or(body.u64_at("grace_period_secs"@), c.grace_period_secs),
        max_call_hours: number_or(body.u64_at("max_call_hours"@), c.max_call_hours),
        teams_offline_mins: number_or(body.u64_at("teams_offline_mins"@), c.teams_offline_mins),
        call_state: mode_or(body.text_at("call_state"@), c.call_state),
        call_color: color_or(body.text_at("call_color"@), c.call_color),
        call_brightness: byte_or(body.u64_at("call_brightness"@), c.call_brightness),
        idle_state: mode_or(body.text_at("idle_state"@), c.idle_state),
        idle_color: color_or(body.text_at("idle_color"@), c.idle_color),
        idle_brightness: byte_or(body.u64_at("idle_brightness"@), c.idle_brightness),
        ui_port: short_or(body.u64_at("ui_port"@), c.ui_port),
        log_level: text_or(body.text_at("log_level"@), c.log_level),
        bulb_mac: text_or(body.text_at("bulb_mac"@), c.bulb_mac),
        teams_log_dir: dir_or(body.get_spec("teams_log_dir"@), c.teams_log_dir),
        ..c
    }
}

/// An update without members changes nothing.
pub proof fn empty_update_changes_nothing(c: ConfigModel, members: Vec<(String, Json)>)
    requires
        members@.len() == 0,
    ensures
        update_error(Json::Object(members)) is None,
        updated(c, Json::Object(members)) == c,
{
}

/// Making the same update twice is the same as making it once.
pub proof fn updates_are_idempotent(c: ConfigModel, body: Json)
    ensures
        updated(updated(c, body), body) == updated(c, body),
{
}

/// An update leaves alone what the settings page has no field for.
pub proof fn updates_leave_the_rest(c: ConfigModel, body: Json)
    ensures
        updated(c, body).bulb_last_ip == c.bulb_last_ip,
        updated(c, body).bulb_port == c.bulb_port,
        updated(c, body).trigger_mode == c.trigger_mode,
        updated(c, body).first_run_completed == c.first_run_completed,
{
}

/// Reads the color under a key.
fn read_color(body: &Json, key: &str) -> (r: Result<Option<Rgb>, String>)
    ensures
        match r {
            Ok(c) => color_error(*body, key@) is None && c == match body.text_at(key@) {
                Some(s) => color_of_hex(s),
                None => None,
            },
            Err(e) => color_error(*body, key@) == Some(e@),
        },
{
    match body.get_text(key) {
        Some(s) => match Rgb::from_hex(s) {
            Some(c) => Ok(Some(c)),
            None => {
                let mut e: String = "invalid hex color for ".to_owned();
                e.append(key);
                e.append(": ");
                e.append(s);
                Err(e)
            },
        },
        None => Ok(None),
    }
}

/// Reads the bulb mode under a key.
fn read_mode(body: &Json, key: &str) -> (r: Result<Option<BulbMode>, String>)
    ensures
        match r {
            Ok(m) => mode_error(*body, key@) is None && m == match body.text_at(key@) {
                Some(s) => mode_of_word(s),
                None => None,
            },
            Err(e) => mode_error(*body, key@) == Some(e@),
        },
{
    match body.get_text(key) {
        Some(s) => match mode_from_str(s) {
            Some(m) => Ok(Some(m)),
            None => {
                let mut e: String = "invalid bulb mode for ".to_owned();
                e.append(key);
                e.append(": ");
                e.append(s);
                Err(e)
            },
        },
        None => Ok(None),
    }
}

fn low_byte(n: Option<u64>, current: u8) -> (r: u8)
    ensures
        r == byte_or(n, current),
{
    match n {
        Some(n) => (n % 0x100) as u8,
        None => current,
    }
}

fn low_short(n: Option<u64>, current: u16) -> (r: u16)
    ensures
        r == short_or(n, current),
{
    match n {
        Some(n) => (n % 0x1_0000) as u16,
        None => current,
    }
}

/// Makes a partial update of the configuration. Colors and modes are looked at
/// first, so that a refused update changes nothing.
pub fn apply_update(cfg: &mut Config, body: &Json) -> (r: Result<(), String>)
    ensures
        match r {
            Ok(_) => update_error(*body) is None && final(cfg)@ == updated(old(cfg)@, *body),
            Err(e) => update_error(*body) == Some(e@) && final(cfg)@ == old(cfg)@,
        },
{
    if !body.is_object() {
        return Err("expected JSON object".to_owned());
    }
    let call_color: Option<Rgb> = match read_color(body, "call_color") {
        Ok(c) => c,
        Err(e) => {
            return Err(e);
        },
    };
    let idle_color: Option<Rgb> = match read_color(body, "idle_color") {
        Ok(c) => c,
        Err(e) => {
            return Err(e);
        },
    };
    let call_state: Option<BulbMode> = match read_mode(body, "call_state") {
        Ok(m) => m,
        Err(e) => {
            return Err(e);
        },
    };
    let idle_state: Option<BulbMode> = match read_mode(body, "idle_state") {
        Ok(m) => m,
        Err(e) => {
            return Err(e);
        },
    };
    cfg.work_start = low_byte(body.get_u64("work_start"), cfg.work_start);
    cfg.work_end = low_byte(body.get_u64("work_end"), cfg.work_end);
    cfg.poll_interval_secs = body.get_u64("poll_interval_secs").unwrap_or(cfg.poll_interval_secs);
    cfg.grace_period_secs = body.get_u64("grace_period_secs").unwrap_or(cfg.grace_period_secs);
    cfg.max_call_hours = body.get_u64("max_call_hours").unwrap_or(cfg.max_call_hours);
    cfg.teams_offline_mins = body.get_u64("teams_offline_mins").unwrap_or(cfg.teams_offline_mins);
    cfg.call_state = call_state.unwrap_or(cfg.call_state);
    cfg.call_color = call_color.unwrap_or(cfg.call_color);
    cfg.call_brightness = low_byte(body.get_u64("call_brightness"), cfg.call_brightness);
    cfg.idle_state = idle_state.unwrap_or(cfg.idle_state);
    cfg.idle_color = idle_color.unwrap_or(cfg.idle_color);
    cfg.idle_brightness = low_byte(body.get_u64("idle_brightness"), cfg.idle_brightness);
    cfg.ui_port = low_short(body.get_u64("ui_port"), cfg.ui_port);
    if let Some(s) = body.get_text("log_level") {
        cfg.log_level = s.to_owned();
    }
    if let Some(s) = body.get_text("bulb_mac") {
        cfg.bulb_mac = s.to_owned();
    }
    match body.get("teams_log_dir") {
        Some(Json::Null) => {
            cfg.teams_log_dir = None;
        },
        Some(Json::Text(s)) => {
            cfg.teams_log_dir = Some(s.clone());
        },
        _ => {},
    }
    Ok(())
}

/// The state after an update of the configuration.
pub open spec fn after_update(m: AppModel, body: Json, now: LocalTime) -> AppModel {
    AppModel { config: updated(m.config, body), ..m }.logged(
        EventLevel::Inf,
        "config updated"@,
        now.at,
    )
}

impl AppState {
    /// Makes a partial update of the configuration and re-evaluates the display.
    /// After a success the config is to be stored, and the order is to be
    /// carried out.
    pub fn update_config(&mut self, body: &Json, now: LocalTime) -> (r: Result<Order, String>)
        requires
            old(self)@.can_log(1),
        ensures
            match r {
                Ok(order) => {
                    let changed = after_update(old(self)@, *body, now);
                    &&& update_error(*body) is None
                    &&& order == due_order(changed, now.hour)
                    &&& final(self)@ == after_reconcile(changed, now.hour)
                },
                Err(e) => update_error(*body) == Some(e@) && final(self)@ == old(self)@,
            },
    {
        match apply_update(&mut self.config, body) {
            Ok(_) => {
                self.log_event(EventLevel::Inf, "config updated".to_owned(), now.at);
                Ok(self.reconcile_display(now.hour))
            },
            Err(e) => Err(e),
        }
    }
}

// ---------------------------------------------------------------------------
// Override mode
// ---------------------------------------------------------------------------

/// The override mode that a word stands for.
pub open spec fn override_of_word(s: Seq<char>) -> Option<OverrideMode> {
    if s == "auto"@ {
        Some(OverrideMode::Auto)
    } else if s == "force_red"@ {
        Some(OverrideMode::ForceRed)
    } else if s == "force_off"@ {
        Some(OverrideMode::ForceOff)
    } else {
        None
    }
}

/// The word that stands for an override mode.
pub open spec fn override_word(mode: OverrideMode) -> Seq<char> {
    match mode {
        OverrideMode::Auto => "auto"@,
        OverrideMode::ForceRed => "force_red"@,
        OverrideMode::ForceOff => "force_off"@,
    }
}

/// The name of an override mode in event messages.
pub open spec fn override_name(mode: OverrideMode) -> Seq<char> {
    match mode {
        OverrideMode::Auto => "Auto"@,
        OverrideMode::ForceRed => "ForceRed"@,
        OverrideMode::ForceOff => "ForceOff"@,
    }
}

/// The word that stands for an override mode is read back as that mode.
pub proof fn override_word_round_trip(mode: OverrideMode)
    ensures
        override_of_word(override_word(mode)) == Some(mode),
{
    reveal_strlit("auto");
    reveal_strlit("force_red");
    reveal_strlit("force_off");
    assert("auto"@.len() == 4);
    assert("force_red"@.len() == 9);
    assert("force_off"@.len() == 9);
    assert("force_red"@[6] == 'r');
    assert("force_off"@[6] == 'o');
}

/// The override mode that a word stands for.
pub fn override_from_str(s: &str) -> (r: Option<OverrideMode>)
    ensures
        r == override_of_word(s@),
{
    if same_text(s, "auto") {
        Some(OverrideMode::Auto)
    } else if same_text(s, "force_red") {
        Some(OverrideMode::ForceRed)
    } else if same_text(s, "force_off") {
        Some(OverrideMode::ForceOff)
    } else {
        None
    }
}

/// The word that stands for an override mode.
pub fn override_to_str(mode: OverrideMode) -> (r: &'static str)
    ensures
        r@ == override_word(mode),
{
    match mode {
        OverrideMode::Auto => "auto",
        OverrideMode::ForceRed => "force_red",
        OverrideMode::ForceOff => "force_off",
    }
}

/// The state after the override mode has been set.
pub open spec fn after_override(m: AppModel, mode: OverrideMode, now: LocalTime) -> AppModel {
    AppModel { override_mode: mode, ..m }.logged(
        EventLevel::Inf,
        "override mode set to "@ + override_name(mode),
        now.at,
    )
}

impl AppState {
    /// Sets the override mode by its word and re-evaluates the display, so that
    /// the bulb reflects the new mode at once. The order is to be carried out.
    pub fn set_override(&mut self, word: &str, now: LocalTime) -> (r: Result<Order, String>)
        requires
            old(self)@.can_log(1),
        ensures
            match override_of_word(word@) {
                Some(mode) => {
                    let changed = after_override(old(self)@, mode, now);
                    &&& r == Ok::<Order, String>(due_order(changed, now.hour))
                    &&& final(self)@ == after_reconcile(changed, now.hour)
                },
                None => {
                    &&& r matches Err(e) && e@ == "unknown override mode: "@ + word@
                    &&& final(self)@ == old(self)@
                },
            },
    {
        let mode: OverrideMode = match override_from_str(word) {
            Some(mode) => mode,
            None => {
                return Err("unknown override mode: ".to_owned().concat(word));
            },
        };
        self.override_mode = mode;
        let name: &str = match mode {
            OverrideMode::Auto => "Auto",
            OverrideMode::ForceRed => "ForceRed",
            OverrideMode::ForceOff => "ForceOff",
        };
        self.log_event(EventLevel::Inf, "override mode set to ".to_owned().concat(name), now.at);
        Ok(self.reconcile_display(now.hour))
    }
}

/// Setting an override orders what it says, whatever presence says.
pub proof fn overrides_beat_presence(m: AppModel, now: LocalTime)
    ensures
        due_order(after_override(m, OverrideMode::ForceRed, now), now.hour) == Order::ShowCall,
        due_order(after_override(m, OverrideMode::ForceOff, now), now.hour) == Order::SwitchOff,
{
}

// ---------------------------------------------------------------------------
// Laws
// ---------------------------------------------------------------------------

/// A setting whose own member is not in the update keeps its value, whatever else
/// is updated.
pub proof fn omitted_settings_stay(c: ConfigModel, body: Json)
    ensures
        body.get_spec("work_start"@) is None ==> updated(c, body).work_start == c.work_start,
        body.get_spec("work_end"@) is None ==> updated(c, body).work_end == c.work_end,
        body.get_spec("poll_interval_secs"@) is None ==> updated(c, body).poll_interval_secs == c.poll_interval_secs,
        body.get_spec("grace_period_secs"@) is None ==> updated(c, body).grace_period_secs == c.grace_period_secs,
        body.get_spec("max_call_hours"@) is None ==> updated(c, body).max_call_hours == c.max_call_hours,
        body.get_spec("teams_offline_mins"@) is None ==> updated(c, body).teams_offline_mins == c.teams_offline_mins,
        body.get_spec("call_state"@) is None ==> updated(c, body).call_state == c.call_state,
        body.get_spec("call_color"@) is None ==> updated(c, body).call_color == c.call_color,
        body.get_spec("call_brightness"@) is None ==> updated(c, body).call_brightness == c.call_brightness,
        body.get_spec("idle_state"@) is None ==> updated(c, body).idle_state == c.idle_state,
        body.get_spec("idle_color"@) is None ==> updated(c, body).idle_color == c.idle_color,
        body.get_spec("idle_brightness"@) is None ==> updated(c, body).idle_brightness == c.idle_brightness,
        body.get_spec("ui_port"@) is None ==> updated(c, body).ui_port == c.ui_port,
        body.get_spec("log_level"@) is None ==> updated(c, body).log_level == c.log_level,
        body.get_spec("bulb_mac"@) is None ==> updated(c, body).bulb_mac == c.bulb_mac,
        body.get_spec("teams_log_dir"@) is None ==> updated(c, body).teams_log_dir == c.teams_log_dir,
{
}

/// Each setting is updated by its own member alone: updates that agree in that
/// member agree in that setting.
pub proof fn settings_do_not_touch_each_other(c: ConfigModel, body: Json, other: Json)
    ensures
        body.get_spec("work_start"@) == other.get_spec("work_start"@) ==> updated(c, body).work_start == updated(
            c,
            other,
        ).work_start,
        body.get_spec("work_end"@) == other.get_spec("work_end"@) ==> updated(c, body).work_end == updated(
            c,
            other,
        ).work_end,
        body.get_spec("poll_interval_secs"@) == other.get_spec("poll_interval_secs"@) ==> updated(c, body).poll_interval_secs == updated(
            c,
            other,
        ).poll_interval_secs,
        body.get_spec("grace_period_secs"@) == other.get_spec("grace_period_secs"@) ==> updated(c, body).grace_period_secs == updated(
            c,
            other,
        ).grace_period_secs,
        body.get_spec("max_call_hours"@) == other.get_spec("max_call_hours"@) ==> updated(c, body).max_call_hours == updated(
            c,
            other,
        ).max_call_hours,
        body.get_spec("teams_offline_mins"@) == other.get_spec("teams_offline_mins"@) ==> updated(c, body).teams_offline_mins == updated(
            c,
            other,
        ).teams_offline_mins,
        body.get_spec("call_state"@) == other.get_spec("call_state"@) ==> updated(c, body).call_state == updated(
            c,
            other,
        ).call_state,
        body.get_spec("call_color"@) == other.get_spec("call_color"@) ==> updated(c, body).call_color == updated(
            c,
            other,
        ).call_color,
        body.get_spec("call_brightness"@) == other.get_spec("call_brightness"@) ==> updated(c, body).call_brightness == updated(
            c,
            other,
        ).call_brightness,
        body.get_spec("idle_state"@) == other.get_spec("idle_state"@) ==> updated(c, body).idle_state == updated(
            c,
            other,
        ).idle_state,
        body.get_spec("idle_color"@) == other.get_spec("idle_color"@) ==> updated(c, body).idle_color == updated(
            c,
            other,
        ).idle_color,
        body.get_spec("idle_brightness"@) == other.get_spec("idle_brightness"@) ==> updated(c, body).idle_brightness == updated(
            c,
            other,
        ).idle_brightness,
        body.get_spec("ui_port"@) == other.get_spec("ui_port"@) ==> updated(c, body).ui_port == updated(
            c,
            other,
        ).ui_port,
        body.get_spec("log_level"@) == other.get_spec("log_level"@) ==> updated(c, body).log_level == updated(
            c,
            other,
        ).log_level,
        body.get_spec("bulb_mac"@) == other.get_spec("bulb_mac"@) ==> updated(c, body).bulb_mac == updated(
            c,
            other,
        ).bulb_mac,
        body.get_spec("teams_log_dir"@) == other.get_spec("teams_log_dir"@) ==> updated(c, body).teams_log_dir == updated(
            c,
            other,
        ).teams_log_dir,
{
}

/// A number that is given for a setting becomes its value, as far as the setting
/// can hold it: of longer ones the lowest bytes are kept.
pub proof fn given_numbers_are_set(c: ConfigModel, body: Json, n: u64)
    ensures
        body.get_spec("work_start"@) == Some(Json::Unsigned(n)) ==> updated(
            c,
            body,
        ).work_start == n as int % 0x100,
        body.get_spec("work_end"@) == Some(Json::Unsigned(n)) ==> updated(
            c,
            body,
        ).work_end == n as int % 0x100,
        body.get_spec("poll_interval_secs"@) == Some(Json::Unsigned(n)) ==> updated(
            c,
            body,
        ).poll_interval_secs == n,
        body.get_spec("grace_period_secs"@) == Some(Json::Unsigned(n)) ==> updated(
            c,
            body,
        ).grace_period_secs == n,
        body.get_spec("max_call_hours"@) == Some(Json::Unsigned(n)) ==> updated(
            c,
            body,
        ).max_call_hours == n,
        body.get_spec("teams_offline_mins"@) == Some(Json::Unsigned(n)) ==> updated(
            c,
            body,
        ).teams_offline_mins == n,
        body.get_spec("call_brightness"@) == Some(Json::Unsigned(n)) ==> updated(
            c,
            body,
        ).call_brightness == n as int % 0x100,
        body.get_spec("idle_brightness"@) == Some(Json::Unsigned(n)) ==> updated(
            c,
            body,
        ).idle_brightness == n as int % 0x100,
        body.get_spec("ui_port"@) == Some(Json::Unsigned(n)) ==> updated(
            c,
            body,
        ).ui_port == n as int % 0x1_0000,
{
}

/// A text that is given for a setting becomes its value: a text as it is, a color
/// as it denotes one, a mode by its word, and the log directory by its path.
pub proof fn given_texts_are_set(c: ConfigModel, body: Json, s: String)
    ensures
        body.get_spec("call_state"@) == Some(Json::Text(s)) && s@ == "on"@ ==> updated(
            c,
            body,
        ).call_state == BulbMode::On,
        body.get_spec("call_state"@) == Some(Json::Text(s)) && s@ == "off"@ ==> updated(
            c,
            body,
        ).call_state == BulbMode::Off,
        body.get_spec("call_color"@) == Some(Json::Text(s)) && color_of_hex(s@) is Some
            ==> Some(updated(c, body).call_color) == color_of_hex(s@),
        body.get_spec("idle_state"@) == Some(Json::Text(s)) && s@ == "on"@ ==> updated(
            c,
            body,
        ).idle_state == BulbMode::On,
        body.get_spec("idle_state"@) == Some(Json::Text(s)) && s@ == "off"@ ==> updated(
            c,
            body,
        ).idle_state == BulbMode::Off,
        body.get_spec("idle_color"@) == Some(Json::Text(s)) && color_of_hex(s@) is Some
            ==> Some(updated(c, body).idle_color) == color_of_hex(s@),
        body.get_spec("log_level"@) == Some(Json::Text(s)) ==> updated(c, body).log_level == s@,
        body.get_spec("bulb_mac"@) == Some(Json::Text(s)) ==> updated(c, body).bulb_mac == s@,
        body.get_spec("teams_log_dir"@) == Some(Json::Text(s)) ==> updated(c, body).teams_log_dir == Some(s@),
{
    mode_word_round_trip(BulbMode::On);
    mode_word_round_trip(BulbMode::Off);
}

/// The log directory is cleared by null, and left by any value that is neither that
/// nor a text.
pub proof fn log_directory_is_cleared_by_null(c: ConfigModel, body: Json)
    ensures
        body.get_spec("teams_log_dir"@) == Some(Json::Null) ==> updated(
            c,
            body,
        ).teams_log_dir is None,
        (body.get_spec("teams_log_dir"@) matches Some(v) && v !is Null && v !is Text) ==> updated(
            c,
            body,
        ).teams_log_dir == c.teams_log_dir,
{
}

/// True if a member is fit for a color: it is not a text, or denotes one.
pub open spec fn is_fit_color(value: Option<Json>) -> bool {
    value matches Some(Json::Text(s)) ==> color_of_hex(s@) is Some
}

/// True if a member is fit for a bulb mode: it is not a text, or is one of the two
/// words.
pub open spec fn is_fit_mode(value: Option<Json>) -> bool {
    value matches Some(Json::Text(s)) ==> s@ == "on"@ || s@ == "off"@
}

/// An update is refused if and only if it is no object, or a color or a mode in it
/// is not fit; the complaint names the setting and what was given for it.
pub proof fn unfit_updates_are_refused(body: Json, key: Seq<char>, s: String)
    ensures
        update_error(body) is None <==> {
            &&& body is Object
            &&& is_fit_color(body.get_spec("call_color"@))
            &&& is_fit_color(body.get_spec("idle_color"@))
            &&& is_fit_mode(body.get_spec("call_state"@))
            &&& is_fit_mode(body.get_spec("idle_state"@))
        },
        body.get_spec(key) == Some(Json::Text(s)) && color_of_hex(s@) is None ==> color_error(
            body,
            key,
        ) == Some("invalid hex color for "@ + key + ": "@ + s@),
        body.get_spec(key) == Some(Json::Text(s)) && s@ != "on"@ && s@ != "off"@ ==> mode_error(
            body,
            key,
        ) == Some("invalid bulb mode for "@ + key + ": "@ + s@),
{
}

/// Updating the configuration changes nothing else of the state but the log, which
/// says so; setting the override changes the mode alone.
pub proof fn settings_change_only_themselves(
    m: AppModel,
    body: Json,
    mode: OverrideMode,
    now: LocalTime,
)
    ensures
        ({
            let after = after_update(m, body, now);
            &&& after == (AppModel {
                config: updated(m.config, body),
                events: after.events,
                notices: after.notices,
                ..m
            })
            &&& after.notices == m.notices.push(
                NoticeModel { level: EventLevel::Inf, message: "config updated"@ },
            )
        }),
        ({
            let after = after_override(m, mode, now);
            &&& after == (AppModel {
                override_mode: mode,
                events: after.events,
                notices: after.notices,
                ..m
            })
            &&& after.notices == m.notices.push(
                NoticeModel {
                    level: EventLevel::Inf,
                    message: "override mode set to "@ + match mode {
                        OverrideMode::Auto => "Auto"@,
                        OverrideMode::ForceRed => "ForceRed"@,
                        OverrideMode::ForceOff => "ForceOff"@,
                    },
                },
            )
        }),
{
}

/// An override mode is set by its own word and by no other.
pub proof fn words_set_their_override(word: Seq<char>)
    ensures
        override_of_word(word) == Some(OverrideMode::Auto) <==> word == "auto"@,
        override_of_word(word) == Some(OverrideMode::ForceRed) <==> word == "force_red"@,
        override_of_word(word) == Some(OverrideMode::ForceOff) <==> word == "force_off"@,
        override_of_word(word) matches Some(mode) ==> word == override_word(mode),
{
    override_word_round_trip(OverrideMode::Auto);
    override_word_round_trip(OverrideMode::ForceRed);
    override_word_round_trip(OverrideMode::ForceOff);
}

/// After the override has been taken back, the light is what presence, trigger mode
/// and work hours say.
pub proof fn without_override_presence_decides(m: AppModel, now: LocalTime)
    ensures
        ({
            let order = due_order(after_override(m, OverrideMode::Auto, now), now.hour);
            &&& order == Order::ShowCall <==> m.triggered() && m.works_at(now.hour)
            &&& order == Order::ShowIdle <==> !(m.triggered() && m.works_at(now.hour))
        }),
{
}

} // verus!
