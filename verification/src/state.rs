//! Application state engine.
//!
//! Owns all live state shared between the monitor loop, the bulb poller, and
//! the web layer. Holds:
//! - the [`Config`]
//! - resolved bulb IP, latest `getPilot` snapshot
//! - current Teams presence + grace timer
//! - manual override mode
//! - a bounded ring buffer of events
//! - per-day call statistics
//!
//! Each method is one step between two pieces of outside work: it takes in what
//! that work gave, and says what is to be done next. Readings of the clocks are
//! handed in.

use crate::bulb::{bulb_models, BulbModel, BulbState, DiscoveredBulb};
use crate::clock::{elapsed_secs, elapsed_secs_spec, LocalTime, Moment};
use crate::config::{config_to_pairs, stored_rows, Config, ConfigModel};
use crate::events::{logged_event_is_the_newest, logged_models, notice_models, Event, EventLevel, EventLog, EventLogModel, EventModel, Notice, NoticeModel};
use crate::models::{Presence, TriggerMode};
use crate::net::Ipv4;
use crate::platform::Platform;
use crate::text::same_text;
use vstd::prelude::*;
use vstd::string::*;

verus! {

// ---------------------------------------------------------------------------
// Override / Bulb display state
// ---------------------------------------------------------------------------

/// What the user has asked for instead of what presence says.
#[derive(Debug, Clone, Copy, PartialEq, Eq, Structural)]
pub enum OverrideMode {
    Auto,
    ForceRed,
    ForceOff,
}

/// What the application *thinks* it has told the bulb to display. Distinct from
/// the live [`BulbState`] (which is what the bulb actually reports).
#[derive(Debug, Clone, Copy, PartialEq, Eq, Structural)]
pub enum DisplayState {
    Off,
    /// Showing call config.
    Call,
    /// Showing idle config (for "always-on ambient" setups).
    Idle,
}

// ---------------------------------------------------------------------------
// Call statistics
// ---------------------------------------------------------------------------

/// Per-day rolling stats. Resets on date change.
#[derive(Debug, Clone, Copy, PartialEq, Eq, Structural)]
pub struct DayStats {
    /// Number of the calendar day that the stats are of.
    pub date: Option<i32>,
    pub calls_today: u32,
    pub total_time_today_secs: u64,
}

impl DayStats {
    /// The stats as they stand on a day: those of another day count for nothing.
    pub open spec fn on_day(self, day: i32) -> DayStats {
        if self.date == Some(day) {
            self
        } else {
            DayStats { date: Some(day), calls_today: 0, total_time_today_secs: 0 }
        }
    }

    /// Resets the stats if they are of another day.
    pub fn ensure_today(&mut self, day: i32)
        ensures
            *final(self) == old(self).on_day(day),
    {
        let same: bool = match self.date {
            Some(d) => d == day,
            None => false,
        };
        if !same {
            self.date = Some(day);
            self.calls_today = 0;
            self.total_time_today_secs = 0;
        }
    }
}

impl Default for DayStats {
    /// Stats of no day.
    fn default() -> (r: Self)
        ensures
            r == (DayStats { date: None, calls_today: 0, total_time_today_secs: 0 }),
    {
        DayStats { date: None, calls_today: 0, total_time_today_secs: 0 }
    }
}

/// Stats of a day are kept on that day and start from nothing on every other.
pub proof fn stats_reset_on_date_change(stats: DayStats, day: i32)
    ensures
        stats.on_day(day).date == Some(day),
        stats.date == Some(day) ==> stats.on_day(day) == stats,
        stats.date != Some(day) ==> stats.on_day(day).calls_today == 0 && stats.on_day(
            day,
        ).total_time_today_secs == 0,
{
}

// ---------------------------------------------------------------------------
// AppState
// ---------------------------------------------------------------------------

/// All live state.
pub struct AppState {
    pub platform: Platform,
    pub config: Config,
    /// Resolved IP of the configured bulb, if any.
    pub bulb_ip: Option<Ipv4>,
    /// Last successful `getPilot` snapshot.
    pub bulb_live: Option<BulbState>,
    pub bulb_last_polled: Option<Moment>,
    pub bulb_reachable: bool,
    /// What the app last commanded the bulb to display.
    pub display: DisplayState,
    pub current_presence: Presence,
    pub call_start: Option<Moment>,
    /// If set, the reading of the monotonic clock, in nanoseconds, at which the
    /// grace period expires. While set, we are in the busy→available grace
    /// window.
    pub grace_until: Option<u128>,
    pub override_mode: OverrideMode,
    pub started_at: Moment,
    pub stats: DayStats,
    /// Bounded ring buffer of recent events (newest at the back).
    pub events: EventLog,
    /// True while TeamsCallTracker reports an active call (Windows only).
    /// Used by [`TriggerMode::CallOnly`] to distinguish real calls from manual
    /// Busy status changes. Always `false` on macOS (no TeamsCallTracker).
    pub call_tracker_active: bool,
    /// Most recent discovery scan result.
    pub last_discovery: Vec<DiscoveredBulb>,
    /// Active call's row id in the call history, if any.
    pub current_call_id: Option<i64>,
    /// What is still to be emitted to the program's own log, in order.
    pub notices: Vec<Notice>,
}

/// The values of an [`AppState`].
#[verifier::ext_equal]
pub struct AppModel {
    pub platform: Platform,
    pub config: ConfigModel,
    pub bulb_ip: Option<Ipv4>,
    pub bulb_live: Option<BulbState>,
    pub bulb_last_polled: Option<Moment>,
    pub bulb_reachable: bool,
    pub display: DisplayState,
    pub current_presence: Presence,
    pub call_start: Option<Moment>,
    pub grace_until: Option<u128>,
    pub override_mode: OverrideMode,
    pub started_at: Moment,
    pub stats: DayStats,
    pub events: EventLogModel,
    pub call_tracker_active: bool,
    pub last_discovery: Seq<BulbModel>,
    pub current_call_id: Option<i64>,
    pub notices: Seq<NoticeModel>,
}

impl View for AppState {
    type V = AppModel;

    open spec fn view(&self) -> AppModel {
        AppModel {
            platform: self.platform,
            config: self.config@,
            bulb_ip: self.bulb_ip,
            bulb_live: self.bulb_live,
            bulb_last_polled: self.bulb_last_polled,
            bulb_reachable: self.bulb_reachable,
            display: self.display,
            current_presence: self.current_presence,
            call_start: self.call_start,
            grace_until: self.grace_until,
            override_mode: self.override_mode,
            started_at: self.started_at,
            stats: self.stats,
            events: self.events@,
            call_tracker_active: self.call_tracker_active,
            last_discovery: bulb_models(self.last_discovery@),
            current_call_id: self.current_call_id,
            notices: notice_models(self.notices@),
        }
    }
}

/// True if a presence event turns the light on under a trigger mode.
pub open spec fn triggers(
    p: Platform,
    mode: TriggerMode,
    presence: Presence,
    is_call_event: bool,
) -> bool {
    match mode {
        TriggerMode::CallOnly => if p == Platform::MacOs {
            presence.in_call()
        } else {
            is_call_event && presence != Presence::Available
        },
        TriggerMode::BusyAndDnd => presence.in_call(),
        TriggerMode::AnyNonAvailable => presence.engaged(),
    }
}

/// True if an hour lies in the window `[start, end)`, which may wrap midnight.
/// Equal bounds mean the whole day.
pub open spec fn in_window(start: u8, end: u8, hour: u8) -> bool {
    if start == end {
        true
    } else if start < end {
        start <= hour < end
    } else {
        hour >= start || hour < end
    }
}

/// Swapping different bounds gives the hours outside of the window.
pub proof fn swapped_bounds_give_the_other_hours(start: u8, end: u8, hour: u8)
    requires
        start != end,
    ensures
        in_window(end, start, hour) == !in_window(start, end, hour),
{
}

impl AppModel {
    /// The state of a fresh start.
    pub open spec fn initial(config: ConfigModel, platform: Platform, now: Moment) -> AppModel {
        AppModel {
            platform,
            config,
            bulb_ip: None,
            bulb_live: None,
            bulb_last_polled: None,
            bulb_reachable: false,
            display: DisplayState::Off,
            current_presence: Presence::Unknown,
            call_start: None,
            grace_until: None,
            override_mode: OverrideMode::Auto,
            started_at: now,
            stats: DayStats { date: None, calls_today: 0, total_time_today_secs: 0 },
            events: EventLogModel { events: Seq::empty(), next_id: 1 },
            call_tracker_active: false,
            last_discovery: Seq::empty(),
            current_call_id: None,
            notices: Seq::empty(),
        }
    }

    /// The state after a message has been emitted.
    pub open spec fn noticed(self, level: EventLevel, message: Seq<char>) -> AppModel {
        AppModel { notices: self.notices.push(NoticeModel { level, message }), ..self }
    }

    /// The state after an event has been logged and emitted.
    pub open spec fn logged(self, level: EventLevel, message: Seq<char>, ts: Moment) -> AppModel {
        AppModel {
            events: self.events.with_event(level, message, ts),
            ..self.noticed(level, message)
        }
    }

    /// The state after a debug event, which is always emitted but logged only at
    /// log level `debug`.
    pub open spec fn debugged(self, message: Seq<char>, ts: Moment) -> AppModel {
        if self.config.log_level == "debug"@ {
            self.logged(EventLevel::Dbg, message, ts)
        } else {
            self.noticed(EventLevel::Dbg, message)
        }
    }

    /// True if ids are left for a number of events.
    pub open spec fn can_log(self, count: nat) -> bool {
        self.events.next_id + count <= u64::MAX
    }

    /// True if the day's counter can take in another call.
    pub open spec fn can_begin_call(self, now: LocalTime) -> bool {
        self.stats.on_day(now.day).calls_today < u32::MAX
    }

    /// True if the day's total can take in the current call, if any.
    pub open spec fn can_end_call(self, now: LocalTime) -> bool {
        self.call_start is Some ==> self.stats.on_day(now.day).total_time_today_secs
            + elapsed_secs_spec(self.call_start->Some_0, now.at) <= u64::MAX
    }

    /// True if the current state (presence and call tracker) should have the
    /// light on.
    pub open spec fn triggered(self) -> bool {
        match self.config.trigger_mode {
            TriggerMode::CallOnly => if self.platform == Platform::MacOs {
                self.current_presence.in_call()
            } else {
                self.call_tracker_active
            },
            TriggerMode::BusyAndDnd => self.current_presence.in_call(),
            TriggerMode::AnyNonAvailable => self.current_presence.engaged(),
        }
    }

    /// True if an hour is inside the configured work window.
    pub open spec fn works_at(self, hour: u8) -> bool {
        in_window(self.config.work_start, self.config.work_end, hour)
    }
}

/// Whatever is logged is emitted, and a debug message is emitted even where it is
/// not logged.
pub proof fn every_message_is_emitted(
    m: AppModel,
    level: EventLevel,
    message: Seq<char>,
    ts: Moment,
)
    ensures
        m.logged(level, message, ts).notices == m.notices.push(NoticeModel { level, message }),
        m.debugged(message, ts).notices == m.notices.push(
            NoticeModel { level: EventLevel::Dbg, message },
        ),
        m.config.log_level != "debug"@ ==> m.debugged(message, ts).events == m.events,
{
}

impl AppState {
    /// The state of a fresh start.
    pub fn new(config: Config, platform: Platform, now: Moment) -> (r: Self)
        ensures
            r@ == AppModel::initial(config@, platform, now),
    {
        let r = AppState {
            platform,
            config,
            bulb_ip: None,
            bulb_live: None,
            bulb_last_polled: None,
            bulb_reachable: false,
            display: DisplayState::Off,
            current_presence: Presence::Unknown,
            call_start: None,
            grace_until: None,
            override_mode: OverrideMode::Auto,
            started_at: now,
            stats: DayStats::default(),
            events: EventLog::new(),
            call_tracker_active: false,
            last_discovery: Vec::new(),
            current_call_id: None,
            notices: Vec::new(),
        };
        assert(r@.events.events =~= Seq::empty());
        assert(r@.last_discovery =~= Seq::empty());
        assert(r@.notices =~= Seq::empty());
        r
    }

    /// True if ids are left for a number of events. No step takes more than four.
    pub fn can_log(&self, count: u64) -> (r: bool)
        ensures
            r == self@.can_log(count as nat),
    {
        self.events.next_id() <= u64::MAX - count
    }

    /// True if the day's counter can take in another call.
    pub fn can_begin_call(&self, now: LocalTime) -> (r: bool)
        ensures
            r == self@.can_begin_call(now),
    {
        let mut stats: DayStats = self.stats;
        stats.ensure_today(now.day);
        stats.calls_today < u32::MAX
    }

    /// True if the day's total can take in the current call, if any.
    pub fn can_end_call(&self, now: LocalTime) -> (r: bool)
        ensures
            r == self@.can_end_call(now),
    {
        let mut stats: DayStats = self.stats;
        stats.ensure_today(now.day);
        match self.call_start {
            Some(start) => stats.total_time_today_secs <= u64::MAX - elapsed_secs(
                start,
                now.at,
            ) as u64,
            None => true,
        }
    }

    /// The rows in which the current config is to be stored.
    pub fn persist_config(&self) -> (r: Vec<(&'static str, String)>)
        ensures
            r@.len() == stored_rows(self@.config).len(),
            forall|i: int|
                0 <= i < r@.len() ==> (#[trigger] r@[i]).0@ == stored_rows(self@.config)[i].0
                    && r@[i].1@ == stored_rows(self@.config)[i].1,
    {
        config_to_pairs(&self.config)
    }

    /// Emits a message.
    fn notice(&mut self, level: EventLevel, message: &String)
        ensures
            final(self)@ == old(self)@.noticed(level, message@),
    {
        let notice: Notice = Notice { level, message: message.clone() };
        let ghost before = self.notices@;
        let ghost added = notice@;
        self.notices.push(notice);
        assert(notice_models(self.notices@) =~= notice_models(before).push(added));
    }

    /// Hands out what is to be emitted.
    pub fn take_notices(&mut self) -> (r: Vec<Notice>)
        ensures
            notice_models(r@) == old(self)@.notices,
            final(self)@ == (AppModel { notices: Seq::empty(), ..old(self)@ }),
    {
        let mut r: Vec<Notice> = Vec::new();
        std::mem::swap(&mut r, &mut self.notices);
        assert(self@.notices =~= Seq::empty());
        r
    }

    /// Emits an event and appends it to the ring buffer.
    pub fn log_event(&mut self, level: EventLevel, message: String, now: Moment)
        requires
            old(self)@.can_log(1),
        ensures
            final(self)@ == old(self)@.logged(level, message@, now),
            final(self)@.events.next_id == old(self)@.events.next_id + 1,
    {
        self.notice(level, &message);
        self.events.push(level, message, now);
    }

    /// Appends a debug-level event to the ring buffer, only when `log_level` is
    /// `"debug"`. Always emits it regardless.
    pub fn log_debug(&mut self, message: String, now: Moment)
        requires
            old(self)@.can_log(1),
        ensures
            final(self)@ == old(self)@.debugged(message@, now),
            final(self)@.events.next_id <= old(self)@.events.next_id + 1,
    {
        self.notice(EventLevel::Dbg, &message);
        if same_text(self.config.log_level.as_str(), "debug") {
            self.events.push(EventLevel::Dbg, message, now);
        }
    }

    /// True if the given incoming presence event should turn the light on,
    /// given the configured trigger mode. `is_call_event` is `true` only for
    /// TeamsCallTracker events on Windows.
    pub fn event_triggers(&self, presence: Presence, is_call_event: bool) -> (r: bool)
        ensures
            r == triggers(self@.platform, self@.config.trigger_mode, presence, is_call_event),
    {
        match self.config.trigger_mode {
            TriggerMode::CallOnly => {
                if self.platform == Platform::MacOs {
                    // No call-tracker on Mac; Busy is the best proxy.
                    presence.is_in_call()
                } else {
                    // Only a TeamsCallTracker call-active event counts; a Busy
                    // badge (manual status change) is intentionally ignored.
                    is_call_event && presence != Presence::Available
                }
            },
            TriggerMode::BusyAndDnd => presence.is_in_call(),
            TriggerMode::AnyNonAvailable => presence.is_engaged(),
        }
    }

    /// True if the *current* state should have the light on. Used for
    /// grace-timer checks and [`AppState::reconcile_display`].
    pub fn currently_triggered(&self) -> (r: bool)
        ensures
            r == self@.triggered(),
    {
        match self.config.trigger_mode {
            TriggerMode::CallOnly => {
                if self.platform == Platform::MacOs {
                    self.current_presence.is_in_call()
                } else {
                    self.call_tracker_active
                }
            },
            TriggerMode::BusyAndDnd => self.current_presence.is_in_call(),
            TriggerMode::AnyNonAvailable => self.current_presence.is_engaged(),
        }
    }

    /// The most recent `limit` events (newest last). `offset` skips from the
    /// newest end.
    pub fn get_events(&self, limit: usize, offset: usize) -> (r: Vec<Event>)
        ensures
            logged_models(r@) == self@.events.page(limit as nat, offset as nat),
    {
        self.events.page(limit, offset)
    }

    /// Number of events in the ring buffer.
    pub fn total_events(&self) -> (r: usize)
        ensures
            r == self@.events.events.len(),
            self@.events.well_formed(),
    {
        self.events.len()
    }

    /// True if the local hour is inside the configured work window.
    /// Window is `[work_start, work_end)`. If they're equal, treats as 24h on.
    pub fn within_work_hours(&self, hour: u8) -> (r: bool)
        ensures
            r == self@.works_at(hour),
    {
        let start: u8 = self.config.work_start;
        let end: u8 = self.config.work_end;
        if start == end {
            return true;
        }
        if start < end {
            hour >= start && hour < end
        } else {
            // wraps midnight (e.g. 22..6)
            hour >= start || hour < end
        }
    }
}

// ---------------------------------------------------------------------------
// Laws
// ---------------------------------------------------------------------------

/// Which events turn the light on, under each trigger mode: the presences of a
/// call, everything that is not free or gone, or what the call tracker says, where
/// there is one.
pub proof fn events_that_turn_the_light_on(p: Platform, presence: Presence, is_call_event: bool)
    ensures
        triggers(p, TriggerMode::BusyAndDnd, presence, is_call_event) <==> (presence
            == Presence::Busy || presence == Presence::DoNotDisturb),
        triggers(p, TriggerMode::AnyNonAvailable, presence, is_call_event) <==> (presence
            == Presence::Busy || presence == Presence::DoNotDisturb || presence == Presence::Away
            || presence == Presence::BeRightBack),
        p == Platform::MacOs ==> (triggers(p, TriggerMode::CallOnly, presence, is_call_event) <==> (
        presence == Presence::Busy || presence == Presence::DoNotDisturb)),
        p != Platform::MacOs && !is_call_event ==> !triggers(
            p,
            TriggerMode::CallOnly,
            presence,
            is_call_event,
        ),
        p != Platform::MacOs && is_call_event ==> (triggers(
            p,
            TriggerMode::CallOnly,
            presence,
            is_call_event,
        ) <==> presence != Presence::Available),
{
}

/// Which states should have the light on, under each trigger mode.
pub proof fn states_that_have_the_light_on(m: AppModel)
    ensures
        ({
            let presence = m.current_presence;
            let in_call = presence == Presence::Busy || presence == Presence::DoNotDisturb;
            &&& m.config.trigger_mode == TriggerMode::BusyAndDnd ==> m.triggered() == in_call
            &&& m.config.trigger_mode == TriggerMode::AnyNonAvailable ==> m.triggered() == (in_call
                || presence == Presence::Away || presence == Presence::BeRightBack)
            &&& m.config.trigger_mode == TriggerMode::CallOnly && m.platform == Platform::MacOs
                ==> m.triggered() == in_call
            &&& m.config.trigger_mode == TriggerMode::CallOnly && m.platform != Platform::MacOs
                ==> m.triggered() == m.call_tracker_active
        }),
{
}

/// The work window is what lies ahead of its start on the clock before its end
/// does; without a difference it is the whole day.
pub proof fn window_runs_from_start_to_end(m: AppModel, hour: u8)
    requires
        m.config.work_start < 24,
        m.config.work_end < 24,
        hour < 24,
    ensures
        ({
            let (start, end) = (m.config.work_start, m.config.work_end);
            m.works_at(hour) <==> start == end || (hour - start) % 24 < (end - start) % 24
        }),
{
}

/// Bounds beyond the clock are compared as they are.
pub proof fn window_bounds(m: AppModel, hour: u8)
    ensures
        ({
            let (start, end) = (m.config.work_start, m.config.work_end);
            &&& start < end ==> (m.works_at(hour) <==> start <= hour < end)
            &&& start > end ==> (m.works_at(hour) <==> !(end <= hour < start))
            &&& start == end ==> m.works_at(hour)
        }),
{
}

/// A fresh start knows no bulb, no presence and no call, and overrides nothing.
pub proof fn fresh_starts_know_nothing(config: ConfigModel, platform: Platform, now: Moment, day: i32)
    ensures
        ({
            let m = AppModel::initial(config, platform, now);
            &&& m.config == config && m.platform == platform && m.started_at == now
            &&& m.bulb_ip is None && m.bulb_live is None && m.bulb_last_polled is None
            &&& !m.bulb_reachable && m.display == DisplayState::Off
            &&& m.current_presence == Presence::Unknown && !m.call_tracker_active
            &&& m.call_start is None && m.grace_until is None && m.current_call_id is None
            &&& m.override_mode == OverrideMode::Auto
            &&& m.stats.on_day(day).calls_today == 0
            &&& m.stats.on_day(day).total_time_today_secs == 0
            &&& m.events.events.len() == 0 && m.notices.len() == 0 && m.last_discovery.len() == 0
        }),
{
}

/// A logged event is the newest of the log, with its level, its text and its time;
/// nothing else changes but what is emitted. At log level `debug`, debug messages
/// are logged like any other, and at no other level.
pub proof fn logging_changes_only_the_log(
    m: AppModel,
    level: EventLevel,
    message: Seq<char>,
    ts: Moment,
)
    ensures
        ({
            let after = m.logged(level, message, ts);
            &&& after.events.page(1, 0) == seq![
                EventModel { id: m.events.next_id, ts, level, message },
            ]
            &&& after == (AppModel { events: after.events, notices: after.notices, ..m })
        }),
        ({
            let after = m.debugged(message, ts);
            &&& m.config.log_level == "debug"@ ==> after == m.logged(EventLevel::Dbg, message, ts)
            &&& m.config.log_level != "debug"@ ==> after == (AppModel { notices: after.notices, ..m })
        }),
{
    logged_event_is_the_newest(m.events, level, message, ts);
}

} // verus!
