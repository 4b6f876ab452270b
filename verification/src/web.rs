//! What the web interface shows, and the requests about the bulb that come in
//! through it.

use crate::bulb::{bulb_models, bulb_with_mac, bulbs_are_told_their_color, bulbs_are_told_to_be_off, clamped_dimming, color_request, find_bulb, lemma_same_mac, off_request, request_text, same_mac, set_pilot_color_request, set_pilot_off_request, BulbError, BulbModel, BulbState, DiscoveredBulb};
use crate::clock::{elapsed_secs, elapsed_secs_spec, LocalTime, Moment};
use crate::commands::{scene_command, BulbCommand, Scene};
use crate::config::{Config, ConfigModel};
use crate::events::{EventLevel, NoticeModel};
use crate::models::Rgb;
use crate::net::{address_of, address_round_trip, dotted, Ipv4};
use crate::search::{bound, first_step, SearchStep};
use crate::state::{AppModel, AppState, DayStats, DisplayState, OverrideMode};
use crate::text::{ascii_lower_text, decimal, optional_text, same_ignoring_case, same_text, trim_spec, trim_text};
use vstd::prelude::*;
use vstd::string::*;

verus! {

// ---------------------------------------------------------------------------
// Status
// ---------------------------------------------------------------------------

/// The coarse signal-quality bucket of an RSSI in dBm.
pub open spec fn signal_quality_spec(rssi: i32) -> Seq<char> {
    if rssi > -50 {
        "Excellent"@
    } else if rssi >= -70 {
        "Good"@
    } else if rssi >= -85 {
        "Fair"@
    } else {
        "Poor"@
    }
}

/// Convert an RSSI in dBm to a coarse signal-quality bucket.
pub fn signal_quality(rssi: i32) -> (r: &'static str)
    ensures
        r@ == signal_quality_spec(rssi),
{
    if rssi > -50 {
        "Excellent"
    } else if rssi >= -70 {
        "Good"
    } else if rssi >= -85 {
        "Fair"
    } else {
        "Poor"
    }
}

/// The last known state of a bulb that can be reached.
#[derive(Debug, Clone, Copy)]
pub struct BulbLive {
    pub bulb: BulbState,
    pub signal_quality: &'static str,
    pub last_polled: Option<Moment>,
}

/// The state that is shown: none while the bulb cannot be reached.
pub open spec fn shown_state(m: AppModel) -> Option<BulbState> {
    if m.bulb_reachable {
        m.bulb_live
    } else {
        None
    }
}

/// Everything that the dashboard shows.
#[derive(Debug)]
pub struct Status {
    pub status: &'static str,
    pub display: DisplayState,
    pub bulb_mac: String,
    pub bulb_ip: Option<String>,
    pub bulb_connected: bool,
    pub bulb_live: Option<BulbLive>,
    pub call_start: Option<Moment>,
    pub call_duration_secs: i64,
    pub calls_today: u32,
    pub total_time_today_secs: u64,
    pub uptime_secs: i64,
    pub work_hours_active: bool,
    pub override_mode: OverrideMode,
    pub grace_pending: bool,
    pub grace_remaining_secs: Option<u64>,
}

/// The values of a [`Status`], but for those of the bulb's last known state.
#[verifier::ext_equal]
pub struct StatusModel {
    pub status: Seq<char>,
    pub display: DisplayState,
    pub bulb_mac: Seq<char>,
    pub bulb_ip: Option<Seq<char>>,
    pub bulb_connected: bool,
    pub bulb_state: Option<BulbState>,
    pub call_start: Option<Moment>,
    pub call_duration_secs: i64,
    pub calls_today: u32,
    pub total_time_today_secs: u64,
    pub uptime_secs: i64,
    pub work_hours_active: bool,
    pub override_mode: OverrideMode,
    pub grace_pending: bool,
    pub grace_remaining_secs: Option<u64>,
}

impl View for Status {
    type V = StatusModel;

    open spec fn view(&self) -> StatusModel {
        StatusModel {
            status: self.status@,
            display: self.display,
            bulb_mac: self.bulb_mac@,
            bulb_ip: optional_text(self.bulb_ip),
            bulb_connected: self.bulb_connected,
            bulb_state: match self.bulb_live {
                Some(live) => Some(live.bulb),
                None => None,
            },
            call_start: self.call_start,
            call_duration_secs: self.call_duration_secs,
            calls_today: self.calls_today,
            total_time_today_secs: self.total_time_today_secs,
            uptime_secs: self.uptime_secs,
            work_hours_active: self.work_hours_active,
            override_mode: self.override_mode,
            grace_pending: self.grace_pending,
            grace_remaining_secs: self.grace_remaining_secs,
        }
    }
}

/// What the dashboard shows of a state.
pub open spec fn status_of(m: AppModel, now: LocalTime, clock: u64) -> StatusModel {
    StatusModel {
        status: m.current_presence.status_spec(),
        display: m.display,
        bulb_mac: m.config.bulb_mac,
        bulb_ip: match m.bulb_ip {
            Some(ip) => Some(dotted(ip)),
            None => None,
        },
        bulb_connected: m.bulb_reachable,
        bulb_state: shown_state(m),
        call_start: m.call_start,
        call_duration_secs: call_duration(m, now.at),
        calls_today: m.stats.on_day(now.day).calls_today,
        total_time_today_secs: m.stats.on_day(now.day).total_time_today_secs,
        uptime_secs: elapsed_secs_spec(m.started_at, now.at),
        work_hours_active: m.works_at(now.hour),
        override_mode: m.override_mode,
        grace_pending: m.grace_until is Some,
        grace_remaining_secs: grace_left(m, clock),
    }
}

/// How long the current call has lasted.
pub open spec fn call_duration(m: AppModel, at: Moment) -> i64 {
    match m.call_start {
        Some(start) => elapsed_secs_spec(start, at),
        None => 0,
    }
}

/// The whole seconds until a reading of the monotonic clock; none if it has
/// passed, and no more than a `u64` can hold.
pub open spec fn secs_until(deadline: u128, clock: u64) -> u64 {
    if deadline <= clock {
        0
    } else if (deadline - clock) / 1_000_000_000 > u64::MAX {
        u64::MAX
    } else {
        ((deadline - clock) / 1_000_000_000) as u64
    }
}

/// The seconds that are left of the grace period.
pub open spec fn grace_left(m: AppModel, clock: u64) -> Option<u64> {
    match m.grace_until {
        Some(t) => Some(secs_until(t, clock)),
        None => None,
    }
}

fn remaining_secs(deadline: u128, clock: u64) -> (r: u64)
    ensures
        r == secs_until(deadline, clock),
{
    if deadline <= clock as u128 {
        return 0;
    }
    let secs: u128 = (deadline - clock as u128) / 1_000_000_000;
    if secs > u64::MAX as u128 {
        u64::MAX
    } else {
        secs as u64
    }
}

impl AppState {
    /// The last known state of the bulb, if it can be reached.
    pub fn bulb_snapshot(&self) -> (r: Option<BulbLive>)
        ensures
            match r {
                Some(live) => {
                    &&& shown_state(self@) == Some(live.bulb)
                    &&& live.signal_quality@ == signal_quality_spec(live.bulb.rssi)
                    &&& live.last_polled == self@.bulb_last_polled
                },
                None => shown_state(self@) is None,
            },
    {
        if !self.bulb_reachable {
            return None;
        }
        match self.bulb_live {
            Some(bulb) => Some(
                BulbLive {
                    bulb,
                    signal_quality: signal_quality(bulb.rssi),
                    last_polled: self.bulb_last_polled,
                },
            ),
            None => None,
        }
    }

    /// Full live state snapshot.
    pub fn status(&self, now: LocalTime, clock: u64) -> (r: Status)
        ensures
            r.status@ == self@.current_presence.status_spec(),
            r.display == self@.display,
            r.bulb_mac@ == self@.config.bulb_mac,
            optional_text(r.bulb_ip) == match self@.bulb_ip {
                Some(ip) => Some(dotted(ip)),
                None => None,
            },
            r.bulb_connected == self@.bulb_reachable,
            match r.bulb_live {
                Some(live) => {
                    &&& shown_state(self@) == Some(live.bulb)
                    &&& live.signal_quality@ == signal_quality_spec(live.bulb.rssi)
                    &&& live.last_polled == self@.bulb_last_polled
                },
                None => shown_state(self@) is None,
            },
            r.call_start == self@.call_start,
            r.call_duration_secs == call_duration(self@, now.at),
            r.calls_today == self@.stats.on_day(now.day).calls_today,
            r.total_time_today_secs == self@.stats.on_day(now.day).total_time_today_secs,
            r.uptime_secs == elapsed_secs_spec(self@.started_at, now.at),
            r.work_hours_active == self@.works_at(now.hour),
            r.override_mode == self@.override_mode,
            r.grace_pending == (self@.grace_until is Some),
            r.grace_remaining_secs == grace_left(self@, clock),
            r@ == status_of(self@, now, clock),
    {
        let mut stats: DayStats = self.stats;
        stats.ensure_today(now.day);
        Status {
            status: self.current_presence.status_text(),
            display: self.display,
            bulb_mac: self.config.bulb_mac.clone(),
            bulb_ip: match self.bulb_ip {
                Some(ip) => Some(ip.to_text()),
                None => None,
            },
            bulb_connected: self.bulb_reachable,
            bulb_live: self.bulb_snapshot(),
            call_start: self.call_start,
            call_duration_secs: match self.call_start {
                Some(start) => elapsed_secs(start, now.at),
                None => 0,
            },
            calls_today: stats.calls_today,
            total_time_today_secs: stats.total_time_today_secs,
            uptime_secs: elapsed_secs(self.started_at, now.at),
            work_hours_active: self.within_work_hours(now.hour),
            override_mode: self.override_mode,
            grace_pending: self.grace_until.is_some(),
            grace_remaining_secs: match self.grace_until {
                Some(t) => Some(remaining_secs(t, clock)),
                None => None,
            },
        }
    }
}

/// The name of a display in the web interface.
pub open spec fn display_word(display: DisplayState) -> Seq<char> {
    match display {
        DisplayState::Off => "off"@,
        DisplayState::Call => "call"@,
        DisplayState::Idle => "idle"@,
    }
}

/// The name of a display in the web interface.
pub fn display_to_str(display: DisplayState) -> (r: &'static str)
    ensures
        r@ == display_word(display),
{
    match display {
        DisplayState::Off => "off",
        DisplayState::Call => "call",
        DisplayState::Idle => "idle",
    }
}

/// The size of the page that a query asks for, and how many of the newest events it
/// skips.
pub open spec fn page_asked_for(limit: Option<usize>, offset: Option<usize>) -> (usize, usize) {
    (
        if limit is Some {
            limit->Some_0
        } else {
            100
        },
        if offset is Some {
            offset->Some_0
        } else {
            0
        },
    )
}

/// The page of the event log that a query asks for: 100 events from the newest
/// one on, unless it says otherwise.
pub fn logs_page(limit: Option<usize>, offset: Option<usize>) -> (r: (usize, usize))
    ensures
        r.0 == match limit {
            Some(n) => n,
            None => 100,
        },
        r.1 == match offset {
            Some(n) => n,
            None => 0,
        },
        r == page_asked_for(limit, offset),
{
    (limit.unwrap_or(100), offset.unwrap_or(0))
}

// ---------------------------------------------------------------------------
// Discovery
// ---------------------------------------------------------------------------

/// A discovered bulb as it is listed.
#[derive(Debug)]
pub struct ListedBulb {
    pub mac: String,
    pub ip: String,
    pub module: Option<String>,
    pub selected: bool,
}

/// The values of a [`ListedBulb`].
#[verifier::ext_equal]
pub struct ListedModel {
    pub mac: Seq<char>,
    pub ip: Seq<char>,
    pub module: Option<Seq<char>>,
    pub selected: bool,
}

impl View for ListedBulb {
    type V = ListedModel;

    open spec fn view(&self) -> ListedModel {
        ListedModel {
            mac: self.mac@,
            ip: self.ip@,
            module: optional_text(self.module),
            selected: self.selected,
        }
    }
}

/// A discovered bulb as it is listed, with the configured one marked.
pub open spec fn listed(b: BulbModel, configured: Seq<char>) -> ListedModel {
    ListedModel {
        mac: b.mac,
        ip: dotted(b.ip),
        module: b.module,
        selected: configured.len() > 0 && ascii_lower_text(b.mac) == ascii_lower_text(configured),
    }
}

impl AppState {
    /// Takes in the bulbs of a discovery and lists them.
    pub fn list_discovered(&mut self, bulbs: Vec<DiscoveredBulb>) -> (r: Vec<ListedBulb>)
        ensures
            final(self)@ == (AppModel { last_discovery: bulb_models(bulbs@), ..old(self)@ }),
            r@.len() == bulbs@.len(),
            forall|i: int|
                0 <= i < r@.len() ==> (#[trigger] r@[i])@ == listed(
                    bulbs@[i]@,
                    old(self)@.config.bulb_mac,
                ),
    {
        let mut r: Vec<ListedBulb> = Vec::new();
        let configured: String = self.config.bulb_mac.clone();
        let mac: &str = configured.as_str();
        let mut i: usize = 0;
        while i < bulbs.len()
            invariant
                i <= bulbs@.len(),
                r@.len() == i,
                mac@ == configured@,
                forall|j: int|
                    0 <= j < i ==> (#[trigger] r@[j])@ == listed(bulbs@[j]@, configured@),
            decreases bulbs@.len() - i,
        {
            let b: DiscoveredBulb = bulbs[i].clone();
            assert(b@ == bulbs@[i as int]@);
            let selected: bool = mac.unicode_len() != 0 && same_ignoring_case(b.mac.as_str(), mac);
            r.push(ListedBulb { ip: b.ip.to_text(), mac: b.mac, module: b.module, selected });
            i = i + 1;
        }
        self.last_discovery = bulbs;
        r
    }
}

/// The complaint about a discovery that failed.
pub fn discovery_failure(e: &BulbError) -> (r: String)
    ensures
        r@ == "discovery failed: "@ + e.message_spec(),
{
    "discovery failed: ".to_owned().concat(e.message().as_str())
}

// ---------------------------------------------------------------------------
// Selection
// ---------------------------------------------------------------------------

/// The address of a bulb that has been selected: an explicit one comes first,
/// then that of the last discovery.
pub open spec fn selected_address(m: AppModel, mac: Seq<char>, ip: Option<Seq<char>>) -> Option<Ipv4> {
    let explicit = match ip {
        Some(s) => address_of(s),
        None => None,
    };
    match explicit {
        Some(ip) => Some(ip),
        None => match bulb_with_mac(m.last_discovery, mac) {
            Some(b) => Some(b.ip),
            None => None,
        },
    }
}

/// The state after a bulb has been selected by its MAC.
pub open spec fn after_selection(
    m: AppModel,
    mac: Seq<char>,
    ip: Option<Seq<char>>,
    now: Moment,
) -> AppModel {
    let chosen = AppModel { config: ConfigModel { bulb_mac: mac, ..m.config }, ..m };
    match selected_address(m, mac, ip) {
        Some(ip) => bound(chosen, ip).logged(
            EventLevel::Okay,
            "bulb selected "@ + mac + " at "@ + dotted(ip),
            now,
        ),
        None => chosen.logged(
            EventLevel::Inf,
            "bulb "@ + mac + " not in last discovery, resolving in background"@,
            now,
        ),
    }
}

impl AppState {
    /// The address of a bulb that is being selected.
    fn address_to_select(&self, mac: &str, ip: &Option<String>) -> (r: Option<Ipv4>)
        ensures
            r == selected_address(self@, mac@, optional_text(*ip)),
    {
        if let Some(s) = ip {
            if let Some(ip) = Ipv4::parse(s.as_str()) {
                return Some(ip);
            }
        }
        match find_bulb(&self.last_discovery, mac) {
            Some(b) => Some(b.ip),
            None => None,
        }
    }

    /// Selects a bulb by its MAC, with an explicit address if broadcast
    /// discovery is unreliable. Returns the MAC, without surrounding white
    /// space, and the address. The config is to be stored; without an address, a
    /// search is to be started.
    pub fn select_bulb(&mut self, mac: &str, ip: &Option<String>, now: Moment) -> (r: Result<
        (String, Option<Ipv4>),
        String,
    >)
        requires
            old(self)@.can_log(1),
        ensures
            match r {
                Ok((m, a)) => {
                    &&& m@ == trim_spec(mac@)
                    &&& m@.len() > 0
                    &&& a == selected_address(old(self)@, m@, optional_text(*ip))
                    &&& final(self)@ == after_selection(old(self)@, m@, optional_text(*ip), now)
                },
                Err(e) => {
                    &&& trim_spec(mac@).len() == 0
                    &&& e@ == "missing mac"@
                    &&& final(self)@ == old(self)@
                },
            },
    {
        let mac: String = trim_text(mac);
        if mac.as_str().unicode_len() == 0 {
            return Err("missing mac".to_owned());
        }
        let address: Option<Ipv4> = self.address_to_select(mac.as_str(), ip);
        self.config.bulb_mac = mac.clone();
        match address {
            Some(a) => {
                self.bind_bulb(a);
                let mut message: String = "bulb selected ".to_owned();
                message.append(mac.as_str());
                message.append(" at ");
                message.append(a.to_text().as_str());
                self.log_event(EventLevel::Okay, message, now);
            },
            None => {
                let mut message: String = "bulb ".to_owned();
                message.append(mac.as_str());
                message.append(" not in last discovery, resolving in background");
                self.log_event(EventLevel::Inf, message, now);
            },
        }
        Ok((mac, address))
    }
}

// ---------------------------------------------------------------------------
// Manual probe
// ---------------------------------------------------------------------------

/// The address that is to be probed.
pub fn probe_address(text: &str) -> (r: Result<Ipv4, String>)
    ensures
        match r {
            Ok(ip) => address_of(trim_spec(text@)) == Some(ip),
            Err(e) => address_of(trim_spec(text@)) is None && e@ == "invalid IPv4 address"@,
        },
{
    match Ipv4::parse(trim_text(text).as_str()) {
        Some(ip) => Ok(ip),
        None => Err("invalid IPv4 address".to_owned()),
    }
}

/// The state after a probe.
pub open spec fn after_probe(
    m: AppModel,
    ip: Ipv4,
    result: Result<DiscoveredBulb, BulbError>,
    now: Moment,
) -> AppModel {
    match result {
        Ok(found) => bound(
            AppModel { config: ConfigModel { bulb_mac: found.mac@, ..m.config }, ..m },
            ip,
        ).logged(
            EventLevel::Okay,
            "manually selected bulb "@ + found.mac@ + " at "@ + dotted(ip),
            now,
        ),
        Err(e) => m.logged(
            EventLevel::Wrn,
            "manual probe "@ + dotted(ip) + " failed: "@ + e.message_spec(),
            now,
        ),
    }
}

impl AppState {
    /// Takes in what a probe of an address gave. A bulb that replied is selected
    /// and goes live at once, and the config is to be stored.
    pub fn note_probe(
        &mut self,
        ip: Ipv4,
        result: Result<DiscoveredBulb, BulbError>,
        now: Moment,
    ) -> (r: Result<DiscoveredBulb, String>)
        requires
            old(self)@.can_log(1),
        ensures
            final(self)@ == after_probe(old(self)@, ip, result, now),
            match result {
                Ok(found) => r == Ok::<DiscoveredBulb, String>(found),
                Err(e) => r matches Err(text) && text@ == "no bulb responded at "@ + dotted(ip)
                    + ": "@ + e.message_spec()
                    + " (check the IP in your router admin or the WiZ app)"@,
            },
    {
        match result {
            Ok(found) => {
                self.config.bulb_mac = found.mac.clone();
                self.bind_bulb(ip);
                let mut message: String = "manually selected bulb ".to_owned();
                message.append(found.mac.as_str());
                message.append(" at ");
                message.append(ip.to_text().as_str());
                self.log_event(EventLevel::Okay, message, now);
                Ok(found)
            },
            Err(e) => {
                let why: String = e.message();
                let address: String = ip.to_text();
                let mut message: String = "manual probe ".to_owned();
                message.append(address.as_str());
                message.append(" failed: ");
                message.append(why.as_str());
                self.log_event(EventLevel::Wrn, message, now);
                let mut text: String = "no bulb responded at ".to_owned();
                text.append(address.as_str());
                text.append(": ");
                text.append(why.as_str());
                text.append(" (check the IP in your router admin or the WiZ app)");
                Err(text)
            },
        }
    }
}

/// A bulb that has been selected with an address, or that replied to a probe, is
/// asked first by the next search.
pub proof fn selected_bulbs_are_cached(
    m: AppModel,
    mac: Seq<char>,
    address: Option<Seq<char>>,
    found: DiscoveredBulb,
    ip: Ipv4,
    now: Moment,
)
    requires
        mac.len() > 0,
        found.mac@.len() > 0,
    ensures
        selected_address(m, mac, address) matches Some(a) ==> first_step(
            after_selection(m, mac, address, now),
        ) == SearchStep::AskCached(a),
        first_step(after_probe(m, ip, Ok(found), now)) == SearchStep::AskCached(ip),
{
    address_round_trip(ip);
    if let Some(a) = selected_address(m, mac, address) {
        address_round_trip(a);
    }
}

// ---------------------------------------------------------------------------
// Test
// ---------------------------------------------------------------------------

/// How long a test shows its scene.
pub const TEST_SECS: u64 = 3;

/// The scene that a word stands for.
pub open spec fn scene_of_word(s: Seq<char>) -> Option<Scene> {
    if s == "call"@ {
        Some(Scene::Call)
    } else if s == "idle"@ {
        Some(Scene::Idle)
    } else {
        None
    }
}

/// The request that brings a bulb back into a state.
pub open spec fn revert_request(before: BulbState) -> Seq<char> {
    if before.state {
        color_request(Rgb { r: before.r, g: before.g, b: before.b }, before.dimming)
    } else {
        off_request()
    }
}

/// Writes the request that brings a bulb back into a state.
pub fn revert_to(before: &BulbState) -> (r: String)
    ensures
        r@ == revert_request(*before),
{
    if before.state {
        set_pilot_color_request(Rgb::new(before.r, before.g, before.b), before.dimming)
    } else {
        set_pilot_off_request()
    }
}

impl AppState {
    /// The bulb that is to be tested.
    pub fn test_target(&self) -> (r: Result<Ipv4, String>)
        ensures
            match r {
                Ok(ip) => self@.bulb_ip == Some(ip),
                Err(e) => self@.bulb_ip is None && e@ == "no bulb selected"@,
            },
    {
        match self.bulb_ip {
            Some(ip) => Ok(ip),
            None => Err("no bulb selected".to_owned()),
        }
    }

    /// Begins a test of a scene on the bulb at an address. Its command is to be
    /// carried out, without being noted, and reverted after a while.
    pub fn begin_test(&mut self, ip: Ipv4, mode: &str, now: Moment) -> (r: Result<
        BulbCommand,
        String,
    >)
        requires
            old(self)@.can_log(1),
        ensures
            match scene_of_word(mode@) {
                Some(scene) => {
                    &&& r == Ok::<BulbCommand, String>(scene_command(old(self)@, ip, scene))
                    &&& r matches Ok(c) && c.ip == ip && c.scene == scene
                    &&& mode@ == "call"@ ==> {
                        &&& r->Ok_0.mode == old(self)@.config.call_state
                        &&& r->Ok_0.color == old(self)@.config.call_color
                        &&& r->Ok_0.brightness == old(self)@.config.call_brightness
                    }
                    &&& mode@ == "idle"@ ==> {
                        &&& r->Ok_0.mode == old(self)@.config.idle_state
                        &&& r->Ok_0.color == old(self)@.config.idle_color
                        &&& r->Ok_0.brightness == old(self)@.config.idle_brightness
                    }
                    &&& final(self)@ == old(self)@.logged(
                        EventLevel::Inf,
                        "bulb test: applying "@ + mode@ + " for 3s"@,
                        now,
                    )
                },
                None => {
                    &&& r matches Err(e) && e@ == "unknown test mode: "@ + mode@
                    &&& final(self)@ == old(self)@
                },
            },
    {
        proof {
            words_choose_their_scene(mode@);
        }
        let cfg: &Config = &self.config;
        let command: BulbCommand = if same_text(mode, "call") {
            BulbCommand {
                ip,
                scene: Scene::Call,
                mode: cfg.call_state,
                color: cfg.call_color,
                brightness: cfg.call_brightness,
            }
        } else if same_text(mode, "idle") {
            BulbCommand {
                ip,
                scene: Scene::Idle,
                mode: cfg.idle_state,
                color: cfg.idle_color,
                brightness: cfg.idle_brightness,
            }
        } else {
            return Err("unknown test mode: ".to_owned().concat(mode));
        };
        let mut message: String = "bulb test: applying ".to_owned();
        message.append(mode);
        message.append(" for 3s");
        self.log_event(EventLevel::Inf, message, now);
        Ok(command)
    }

    /// Takes in that the bulb could not be brought back into its state.
    pub fn note_revert_failure(&mut self, e: &BulbError, now: Moment)
        requires
            old(self)@.can_log(1),
        ensures
            final(self)@ == old(self)@.logged(
                EventLevel::Wrn,
                "bulb test revert failed: "@ + e.message_spec(),
                now,
            ),
    {
        self.log_event(
            EventLevel::Wrn,
            "bulb test revert failed: ".to_owned().concat(e.message().as_str()),
            now,
        );
    }
}

/// The complaint about a test that failed.
pub fn test_failure(e: &BulbError) -> (r: String)
    ensures
        r@ == "bulb test failed: "@ + e.message_spec(),
{
    "bulb test failed: ".to_owned().concat(e.message().as_str())
}

// ---------------------------------------------------------------------------
// Log directory
// ---------------------------------------------------------------------------

/// The log directory that is to be verified: a given one comes first, then the
/// configured one, then the default one.
pub open spec fn dir_to_verify(
    m: AppModel,
    path: Option<Seq<char>>,
    default: Option<Seq<char>>,
) -> Option<Seq<char>> {
    match path {
        Some(p) => Some(p),
        None => match m.config.teams_log_dir {
            Some(dir) => Some(dir),
            None => default,
        },
    }
}

impl AppState {
    /// The log directory that is to be verified.
    pub fn dir_to_verify(&self, path: Option<String>, default: Option<String>) -> (r: Result<
        String,
        String,
    >)
        ensures
            match r {
                Ok(dir) => dir_to_verify(self@, optional_text(path), optional_text(default))
                    == Some(dir@),
                Err(e) => dir_to_verify(self@, optional_text(path), optional_text(default)) is None
                    && e@ == "no path provided and no default Teams log dir for this OS"@,
            },
    {
        if let Some(p) = path {
            return Ok(p);
        }
        if let Some(dir) = &self.config.teams_log_dir {
            return Ok(dir.clone());
        }
        match default {
            Some(dir) => Ok(dir),
            None => Err("no path provided and no default Teams log dir for this OS".to_owned()),
        }
    }
}

// ---------------------------------------------------------------------------
// Laws
// ---------------------------------------------------------------------------

/// The signal is excellent above -50 dBm, good down to -70, fair down to -85, and
/// poor below.
pub proof fn signals_are_judged_by_their_strength(rssi: i32)
    ensures
        -50 < rssi ==> signal_quality_spec(rssi) == "Excellent"@,
        -70 <= rssi <= -50 ==> signal_quality_spec(rssi) == "Good"@,
        -85 <= rssi < -70 ==> signal_quality_spec(rssi) == "Fair"@,
        rssi < -85 ==> signal_quality_spec(rssi) == "Poor"@,
{
}

/// A bulb is shown as it was last heard of while it can be reached, and not at all
/// while it cannot.
pub proof fn unreachable_bulbs_are_not_shown(m: AppModel)
    ensures
        m.bulb_reachable ==> shown_state(m) == m.bulb_live,
        !m.bulb_reachable ==> shown_state(m) is None,
{
}

/// A call has lasted since it started; without one nothing has.
pub proof fn calls_last_since_their_start(m: AppModel, at: Moment)
    ensures
        m.call_start is None ==> call_duration(m, at) == 0,
        m.call_start matches Some(start) ==> call_duration(m, at) == elapsed_secs_spec(start, at),
{
}

/// What is left of the grace period are the whole seconds until its end; at the end
/// nothing is left. Without a timer there is nothing to show.
pub proof fn grace_counts_down(m: AppModel, clock: u64)
    ensures
        m.grace_until is None ==> grace_left(m, clock) is None,
        m.grace_until matches Some(end) ==> {
            let left = grace_left(m, clock);
            &&& left is Some
            &&& end <= clock ==> left == Some(0u64)
            &&& end > clock && left->Some_0 < u64::MAX ==> left->Some_0 * 1_000_000_000 <= end
                - clock < (left->Some_0 + 1) * 1_000_000_000
        },
{
}

/// A discovered bulb is listed as it was found, with its address in dotted notation,
/// and is marked if it is the configured one.
pub proof fn bulbs_are_listed_as_found(b: BulbModel, configured: Seq<char>)
    ensures
        ({
            let row = listed(b, configured);
            &&& row.mac == b.mac && row.module == b.module && row.ip == dotted(b.ip)
            &&& configured.len() == 0 ==> !row.selected
            &&& configured.len() > 0 ==> row.selected == same_mac(b.mac, configured)
        }),
{
    lemma_same_mac(b.mac, configured);
}

/// The address of a selected bulb is the one that is given, if it is one, and else
/// that of the discovered bulb with its MAC.
pub proof fn given_addresses_come_first(
    m: AppModel,
    mac: Seq<char>,
    ip: Option<Seq<char>>,
    given: Ipv4,
)
    ensures
        ip == Some(dotted(given)) ==> selected_address(m, mac, ip) == Some(given),
        (ip is None || address_of(ip->Some_0) is None) ==> selected_address(m, mac, ip)
            == match bulb_with_mac(m.last_discovery, mac) {
            Some(b) => Some(b.ip),
            None => None,
        },
{
    address_round_trip(given);
}

/// A selected bulb is the configured one from then on. With an address it is bound
/// there at once; without one, what is bound stays until a search has found it.
pub proof fn selected_bulbs_are_configured(
    m: AppModel,
    mac: Seq<char>,
    ip: Option<Seq<char>>,
    now: Moment,
)
    ensures
        ({
            let after = after_selection(m, mac, ip, now);
            let address = selected_address(m, mac, ip);
            &&& after.config.bulb_mac == mac
            &&& address is Some ==> after.bulb_ip == address && after.bulb_reachable
                && address_of(after.config.bulb_last_ip) == address
            &&& address is None ==> after.bulb_ip == m.bulb_ip && after.bulb_reachable
                == m.bulb_reachable && after.config.bulb_last_ip == m.config.bulb_last_ip
            &&& after.config == (ConfigModel {
                bulb_mac: mac,
                bulb_last_ip: after.config.bulb_last_ip,
                ..m.config
            })
            &&& after.last_discovery == m.last_discovery && after.display == m.display
            &&& after.call_start == m.call_start && after.override_mode == m.override_mode
        }),
{
    if let Some(a) = selected_address(m, mac, ip) {
        address_round_trip(a);
    }
}

/// A bulb that replies to a probe is selected under its MAC and bound at the probed
/// address; without a reply nothing changes but the log.
pub proof fn probed_bulbs_are_selected(
    m: AppModel,
    ip: Ipv4,
    result: Result<DiscoveredBulb, BulbError>,
    now: Moment,
)
    ensures
        ({
            let after = after_probe(m, ip, result, now);
            &&& result matches Ok(found) ==> {
                &&& after.config.bulb_mac == found.mac@
                &&& after.bulb_ip == Some(ip) && after.bulb_reachable
                &&& address_of(after.config.bulb_last_ip) == Some(ip)
                &&& after.config == (ConfigModel {
                    bulb_mac: found.mac@,
                    bulb_last_ip: after.config.bulb_last_ip,
                    ..m.config
                })
            }
            &&& result is Err ==> after.config == m.config && after.bulb_ip == m.bulb_ip
                && after.bulb_reachable == m.bulb_reachable
            &&& after.last_discovery == m.last_discovery && after.display == m.display
            &&& after.call_start == m.call_start && after.override_mode == m.override_mode
        }),
{
    address_round_trip(ip);
}

/// A scene is tested by its own word and by no other.
pub proof fn words_choose_their_scene(word: Seq<char>)
    ensures
        scene_of_word(word) == Some(Scene::Call) <==> word == "call"@,
        scene_of_word(word) == Some(Scene::Idle) <==> word == "idle"@,
        scene_of_word(word) is Some <==> word == "call"@ || word == "idle"@,
{
    reveal_strlit("call");
    reveal_strlit("idle");
    assert("call"@[0] != "idle"@[0]);
}

/// After a test a bulb is told what it had reported: its color and brightness if it
/// was on, and to be off if it was off.
pub proof fn tests_are_reverted(before: BulbState)
    ensures
        before.state ==> revert_request(before) == request_text(
            "setPilot"@,
            seq![
                ("state"@, "true"@),
                ("r"@, decimal(before.r as nat)),
                ("g"@, decimal(before.g as nat)),
                ("b"@, decimal(before.b as nat)),
                ("dimming"@, decimal(clamped_dimming(before.dimming) as nat)),
            ],
        ),
        !before.state ==> revert_request(before) == request_text(
            "setPilot"@,
            seq![("state"@, "false"@)],
        ),
{
    bulbs_are_told_their_color(Rgb { r: before.r, g: before.g, b: before.b }, before.dimming);
    bulbs_are_told_to_be_off();
}

/// Displays have different words.
pub proof fn displays_have_their_words(display: DisplayState)
    ensures
        display_word(display) == "call"@ <==> display == DisplayState::Call,
        display_word(display) == "idle"@ <==> display == DisplayState::Idle,
        display_word(display) == "off"@ <==> display == DisplayState::Off,
{
    reveal_strlit("call");
    reveal_strlit("idle");
    reveal_strlit("off");
    assert("call"@[0] != "idle"@[0]);
    assert("off"@.len() == 3 && "call"@.len() == 4 && "idle"@.len() == 4);
}

/// The directory that is verified is the given one, or else the configured one, or
/// else the default one.
pub proof fn given_directories_come_first(
    m: AppModel,
    path: Option<Seq<char>>,
    default: Option<Seq<char>>,
)
    ensures
        path is Some ==> dir_to_verify(m, path, default) == path,
        path is None && m.config.teams_log_dir is Some ==> dir_to_verify(m, path, default)
            == m.config.teams_log_dir,
        path is None && m.config.teams_log_dir is None ==> dir_to_verify(m, path, default)
            == default,
{
}

/// What is said of selections and probes.
pub proof fn what_is_said_of_selections(
    m: AppModel,
    mac: Seq<char>,
    ip: Option<Seq<char>>,
    address: Ipv4,
    result: Result<DiscoveredBulb, BulbError>,
    now: Moment,
)
    ensures
        after_selection(m, mac, ip, now).notices == m.notices.push(
            match selected_address(m, mac, ip) {
                Some(a) => NoticeModel {
                    level: EventLevel::Okay,
                    message: "bulb selected "@ + mac + " at "@ + dotted(a),
                },
                None => NoticeModel {
                    level: EventLevel::Inf,
                    message: "bulb "@ + mac
                        + " not in last discovery, resolving in background"@,
                },
            },
        ),
        after_probe(m, address, result, now).notices == m.notices.push(
            match result {
                Ok(found) => NoticeModel {
                    level: EventLevel::Okay,
                    message: "manually selected bulb "@ + found.mac@ + " at "@ + dotted(address),
                },
                Err(e) => NoticeModel {
                    level: EventLevel::Wrn,
                    message: "manual probe "@ + dotted(address) + " failed: "@ + e.message_spec(),
                },
            },
        ),
{
}

/// Selections and probes change only which bulb is configured and where it is.
pub proof fn selections_change_only_the_bulb(
    m: AppModel,
    mac: Seq<char>,
    ip: Option<Seq<char>>,
    address: Ipv4,
    result: Result<DiscoveredBulb, BulbError>,
    now: Moment,
)
    ensures
        ({
            let after = after_selection(m, mac, ip, now);
            after == (AppModel {
                config: after.config,
                bulb_ip: after.bulb_ip,
                bulb_reachable: after.bulb_reachable,
                events: after.events,
                notices: after.notices,
                ..m
            })
        }),
        ({
            let after = after_probe(m, address, result, now);
            after == (AppModel {
                config: after.config,
                bulb_ip: after.bulb_ip,
                bulb_reachable: after.bulb_reachable,
                events: after.events,
                notices: after.notices,
                ..m
            })
        }),
{
}

/// The dashboard shows the state as it is: the presence, the display and the
/// override, the configured bulb with its address and whether it can be reached,
/// the call and since when, what the day has counted, and the time since the start.
pub proof fn the_dashboard_shows_the_state(m: AppModel, now: LocalTime, clock: u64)
    ensures
        ({
            let s = status_of(m, now, clock);
            &&& s.status == m.current_presence.status_spec()
            &&& s.display == m.display && s.override_mode == m.override_mode
            &&& s.bulb_mac == m.config.bulb_mac && s.bulb_connected == m.bulb_reachable
            &&& m.bulb_ip matches Some(ip) ==> s.bulb_ip == Some(dotted(ip))
            &&& m.bulb_ip is None ==> s.bulb_ip is None
            &&& m.bulb_reachable ==> s.bulb_state == m.bulb_live
            &&& !m.bulb_reachable ==> s.bulb_state is None
            &&& s.call_start == m.call_start
            &&& m.call_start is None ==> s.call_duration_secs == 0
            &&& m.call_start matches Some(start) ==> s.call_duration_secs == elapsed_secs_spec(
                start,
                now.at,
            )
            &&& m.stats.date == Some(now.day) ==> s.calls_today == m.stats.calls_today
                && s.total_time_today_secs == m.stats.total_time_today_secs
            &&& m.stats.date != Some(now.day) ==> s.calls_today == 0 && s.total_time_today_secs == 0
            &&& s.uptime_secs == elapsed_secs_spec(m.started_at, now.at)
            &&& s.work_hours_active == m.works_at(now.hour)
            &&& s.grace_pending == (m.grace_until is Some)
            &&& s.grace_remaining_secs is Some <==> s.grace_pending
        }),
{
}

/// A page has a hundred events and begins at the newest one, unless the query says
/// otherwise.
pub proof fn pages_have_a_hundred_events(limit: Option<usize>, offset: Option<usize>, n: usize)
    ensures
        limit == Some(n) ==> page_asked_for(limit, offset).0 == n,
        limit is None ==> page_asked_for(limit, offset).0 == 100,
        offset == Some(n) ==> page_asked_for(limit, offset).1 == n,
        offset is None ==> page_asked_for(limit, offset).1 == 0,
{
}

} // verus!
