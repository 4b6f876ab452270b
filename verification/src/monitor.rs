//! The monitor: what presence changes, the grace timer, the work hours, the
//! override and the safety cap do to the state and to the light.
//!
//! A cycle of the monitor consists of [`AppState::override_step`], a poll of
//! the logs that is noted by [`AppState::note_poll`],
//! [`AppState::take_presence`] for each new event in order,
//! [`AppState::grace_step`] and [`AppState::cap_step`]. It is run by
//! [`crate::cycle::Cycle`].

use crate::clock::{elapsed_secs, elapsed_secs_spec, hours_between, seconds_apart, whole_hours, LocalTime, Moment};
use crate::config::ConfigModel;
use crate::events::{EventLevel, NoticeModel};
use crate::models::{Presence, TriggerMode};
use crate::platform::Platform;
use crate::presence::{call_events_come_from_the_tracker, line_event, PresenceEvent, PresenceEventModel};
use crate::state::{triggers, AppModel, AppState, DayStats, DisplayState, OverrideMode};
use crate::text::{bool_text, bool_word, decimal, decimal_text, optional_text};
use crate::watcher::{LogWatcher, WatcherModel};
use vstd::prelude::*;
use vstd::string::*;

verus! {

/// What the bulb is to be told.
#[derive(Debug, Clone, Copy, PartialEq, Eq, Structural)]
pub enum Order {
    /// Show the call config.
    ShowCall,
    /// Show the idle config.
    ShowIdle,
    /// Switch off, regardless of the config.
    SwitchOff,
}

// ---------------------------------------------------------------------------
// Start
// ---------------------------------------------------------------------------

/// The configured log directory, or else the default one.
pub open spec fn watched_dir(m: AppModel, default: Option<Seq<char>>) -> Option<Seq<char>> {
    match m.config.teams_log_dir {
        Some(dir) => Some(dir),
        None => default,
    }
}

impl AppState {
    /// Begins to watch the Teams logs, given the platform's default directory.
    /// Without a directory there is nothing to watch.
    pub fn begin_watching(&mut self, default: Option<String>, now: Moment) -> (r: Option<LogWatcher>)
        requires
            old(self)@.can_log(1),
        ensures
            match watched_dir(old(self)@, optional_text(default)) {
                Some(dir) => {
                    &&& r matches Some(w) && w@ == WatcherModel {
                        dir,
                        positions: Map::empty(),
                        initialized: false,
                    }
                    &&& final(self)@ == old(self)@.logged(
                        EventLevel::Inf,
                        "watching Teams log at "@ + dir,
                        now,
                    )
                },
                None => {
                    &&& r is None
                    &&& final(self)@ == old(self)@.logged(
                        EventLevel::Error,
                        "could not determine Teams log directory for this OS — set it in Settings"@,
                        now,
                    )
                },
            },
    {
        let dir: Option<String> = match &self.config.teams_log_dir {
            Some(dir) => Some(dir.clone()),
            None => default,
        };
        match dir {
            Some(dir) => {
                self.log_event(
                    EventLevel::Inf,
                    "watching Teams log at ".to_owned().concat(dir.as_str()),
                    now,
                );
                Some(LogWatcher::new(dir))
            },
            None => {
                self.log_event(
                    EventLevel::Error,
                    "could not determine Teams log directory for this OS — set it in Settings".to_owned(),
                    now,
                );
                None
            },
        }
    }
}

// ---------------------------------------------------------------------------
// Override
// ---------------------------------------------------------------------------

/// How a cycle of the monitor begins.
#[derive(Debug, Clone, Copy, PartialEq, Eq, Structural)]
pub enum CycleStart {
    /// Poll the logs.
    Poll,
    /// An override is in force: carry out the order, if any, and leave the logs
    /// alone.
    Hold(Option<Order>),
}

/// An override short-circuits everything: the bulb is told only what it is not
/// displaying yet.
pub open spec fn cycle_start(mode: OverrideMode, display: DisplayState) -> CycleStart {
    match mode {
        OverrideMode::ForceRed => CycleStart::Hold(
            if display != DisplayState::Call {
                Some(Order::ShowCall)
            } else {
                None
            },
        ),
        OverrideMode::ForceOff => CycleStart::Hold(
            if display != DisplayState::Off {
                Some(Order::SwitchOff)
            } else {
                None
            },
        ),
        OverrideMode::Auto => CycleStart::Poll,
    }
}

impl AppState {
    /// Decides how a cycle begins.
    pub fn override_step(&self) -> (r: CycleStart)
        ensures
            r == cycle_start(self@.override_mode, self@.display),
    {
        match self.override_mode {
            OverrideMode::ForceRed => CycleStart::Hold(
                if self.display != DisplayState::Call {
                    Some(Order::ShowCall)
                } else {
                    None
                },
            ),
            OverrideMode::ForceOff => CycleStart::Hold(
                if self.display != DisplayState::Off {
                    Some(Order::SwitchOff)
                } else {
                    None
                },
            ),
            OverrideMode::Auto => CycleStart::Poll,
        }
    }
}

// ---------------------------------------------------------------------------
// Presence events
// ---------------------------------------------------------------------------

/// The debug message about a poll.
pub open spec fn poll_message(m: AppModel, count: nat) -> Seq<char> {
    if count == 0 {
        "presence poll: no new events (presence="@ + m.current_presence.name_spec()
            + " call_tracker_active="@ + bool_word(m.call_tracker_active) + " triggered="@
            + bool_word(m.triggered()) + ")"@
    } else {
        "presence poll: "@ + decimal(count) + " new event(s)"@
    }
}

impl AppState {
    /// Notes how many new events a poll has given.
    pub fn note_poll(&mut self, count: usize, now: Moment)
        requires
            old(self)@.can_log(1),
        ensures
            final(self)@ == old(self)@.debugged(poll_message(old(self)@, count as nat), now),
    {
        let mut message: String;
        if count == 0 {
            message = "presence poll: no new events (presence=".to_owned();
            message.append(self.current_presence.name());
            message.append(" call_tracker_active=");
            message.append(bool_text(self.call_tracker_active));
            message.append(" triggered=");
            message.append(bool_text(self.currently_triggered()));
            message.append(")");
        } else {
            message = "presence poll: ".to_owned();
            message.append(decimal_text(count as u64).as_str());
            message.append(" new event(s)");
        }
        self.log_debug(message, now);
    }
}

/// The debug message about the call tracker.
pub open spec fn tracker_message(active: bool, raw: Seq<char>) -> Seq<char> {
    "TeamsCallTracker: call_tracker_active → "@ + bool_word(active) + " (raw="@ + raw + ")"@
}

/// The debug message about a presence that has not changed.
pub open spec fn unchanged_message(presence: Presence) -> Seq<char> {
    "presence unchanged ("@ + presence.name_spec() + "), no call-tracker event, skipping"@
}

/// The message about a presence that has changed.
pub open spec fn change_message(before: Presence, after: Presence) -> Seq<char> {
    "Teams presence: "@ + before.name_spec() + " -> "@ + after.name_spec()
}

/// The debug message about a decision.
pub open spec fn decision_message(
    mode: TriggerMode,
    triggered: bool,
    in_call: bool,
    ev: PresenceEventModel,
) -> Seq<char> {
    "trigger check: mode="@ + mode.name_spec() + " now_triggered="@ + bool_word(triggered)
        + " call_was_active="@ + bool_word(in_call) + " (raw="@ + ev.raw + " is_call_event="@
        + bool_word(ev.is_call_event) + ")"@
}

/// What a presence event leads to.
#[derive(Debug, Clone, Copy, PartialEq, Eq, Structural)]
pub enum PresenceEffect {
    /// The presence is what it was, and the call tracker says nothing.
    Unchanged,
    /// A call has begun.
    CallBegins,
    /// A call would have begun, had it not been outside work hours.
    OutsideHours,
    /// The call may have ended; the grace period begins.
    GraceBegins,
    /// The call goes on, or there still is none.
    Stays,
}

/// What a presence event leads to. An event with the presence of the one
/// before is passed over, except for call-tracker events: these must be heeded
/// even when presence stays Busy (e.g. manual Busy was already set before the
/// call started).
pub open spec fn presence_effect(m: AppModel, ev: PresenceEventModel, hour: u8) -> PresenceEffect {
    let triggered = triggers(m.platform, m.config.trigger_mode, ev.presence, ev.is_call_event);
    if m.current_presence == ev.presence && !ev.is_call_event {
        PresenceEffect::Unchanged
    } else if triggered && m.call_start is None {
        if m.works_at(hour) {
            PresenceEffect::CallBegins
        } else {
            PresenceEffect::OutsideHours
        }
    } else if !triggered && m.call_start is Some {
        PresenceEffect::GraceBegins
    } else {
        PresenceEffect::Stays
    }
}

/// When a grace period that begins now expires, in nanoseconds of the monotonic
/// clock.
pub open spec fn grace_deadline(clock: u64, grace_secs: u64) -> u128 {
    (clock + grace_secs * 1_000_000_000) as u128
}

/// The state after a presence event has been heard: the presence is the current
/// one, and the call tracker is as a call-tracker event says.
pub open spec fn heard(m: AppModel, ev: PresenceEventModel, at: Moment) -> AppModel {
    let active = ev.presence != Presence::Available;
    let told = if ev.is_call_event {
        AppModel { call_tracker_active: active, ..m }.debugged(tracker_message(active, ev.raw), at)
    } else {
        m
    };
    AppModel { current_presence: ev.presence, ..told }
}

/// The state after it has been logged what is made of a presence event, which
/// came after the presence `before`.
pub open spec fn explained(
    m: AppModel,
    before: Presence,
    ev: PresenceEventModel,
    at: Moment,
) -> AppModel {
    let changed = if before != ev.presence {
        m.logged(EventLevel::Inf, change_message(before, ev.presence), at)
    } else {
        m
    };
    changed.debugged(
        decision_message(
            m.config.trigger_mode,
            triggers(m.platform, m.config.trigger_mode, ev.presence, ev.is_call_event),
            m.call_start is Some,
            ev,
        ),
        at,
    )
}

/// The state after a call has begun. A pending grace period is cancelled, and
/// the call is counted.
pub open spec fn call_begun(m: AppModel, now: LocalTime) -> AppModel {
    let today = m.stats.on_day(now.day);
    AppModel {
        call_start: Some(now.at),
        grace_until: None,
        stats: DayStats { calls_today: (today.calls_today + 1) as u32, ..today },
        ..m
    }
}

/// The state after the grace period has begun.
pub open spec fn grace_begun(m: AppModel, at: Moment, clock: u64) -> AppModel {
    AppModel {
        grace_until: Some(grace_deadline(clock, m.config.grace_period_secs)),
        ..m
    }.logged(
        EventLevel::Inf,
        "grace period started ("@ + decimal(m.config.grace_period_secs as nat) + "s)"@,
        at,
    )
}

/// The state after a presence event.
pub open spec fn after_presence(
    m: AppModel,
    ev: PresenceEventModel,
    now: LocalTime,
    clock: u64,
) -> AppModel {
    let here = heard(m, ev, now.at);
    let seen = explained(here, m.current_presence, ev, now.at);
    match presence_effect(m, ev, now.hour) {
        PresenceEffect::Unchanged => here.debugged(unchanged_message(ev.presence), now.at),
        PresenceEffect::CallBegins => call_begun(seen, now),
        PresenceEffect::OutsideHours => seen.logged(
            EventLevel::Inf,
            "outside work hours — ignoring busy transition"@,
            now.at,
        ),
        PresenceEffect::GraceBegins => grace_begun(seen, now.at, clock),
        PresenceEffect::Stays => seen,
    }
}

fn tracker_text(active: bool, raw: &str) -> (r: String)
    ensures
        r@ == tracker_message(active, raw@),
{
    let mut r: String = "TeamsCallTracker: call_tracker_active → ".to_owned();
    r.append(bool_text(active));
    r.append(" (raw=");
    r.append(raw);
    r.append(")");
    r
}

fn unchanged_text(presence: Presence) -> (r: String)
    ensures
        r@ == unchanged_message(presence),
{
    let mut r: String = "presence unchanged (".to_owned();
    r.append(presence.name());
    r.append("), no call-tracker event, skipping");
    r
}

fn change_text(before: Presence, after: Presence) -> (r: String)
    ensures
        r@ == change_message(before, after),
{
    let mut r: String = "Teams presence: ".to_owned();
    r.append(before.name());
    r.append(" -> ");
    r.append(after.name());
    r
}

fn decision_text(mode: TriggerMode, triggered: bool, in_call: bool, ev: &PresenceEvent) -> (r:
    String)
    ensures
        r@ == decision_message(mode, triggered, in_call, ev@),
{
    let mut r: String = "trigger check: mode=".to_owned();
    r.append(mode.name());
    r.append(" now_triggered=");
    r.append(bool_text(triggered));
    r.append(" call_was_active=");
    r.append(bool_text(in_call));
    r.append(" (raw=");
    r.append(ev.raw.as_str());
    r.append(" is_call_event=");
    r.append(bool_text(ev.is_call_event));
    r.append(")");
    r
}

fn deadline(clock: u64, grace_secs: u64) -> (r: u128)
    ensures
        r == grace_deadline(clock, grace_secs),
{
    clock as u128 + grace_secs as u128 * 1_000_000_000
}

impl AppState {
    /// Takes in the presence and the call tracker's word.
    fn hear(&mut self, ev: &PresenceEvent, at: Moment)
        requires
            old(self)@.can_log(1),
        ensures
            final(self)@ == heard(old(self)@, ev@, at),
            final(self)@.events.next_id <= old(self)@.events.next_id + 1,
    {
        if ev.is_call_event {
            let active: bool = ev.presence != Presence::Available;
            self.call_tracker_active = active;
            self.log_debug(tracker_text(active, ev.raw.as_str()), at);
        }
        self.current_presence = ev.presence;
    }

    /// Logs what is made of a presence event.
    fn explain(&mut self, before: Presence, ev: &PresenceEvent, at: Moment)
        requires
            old(self)@.can_log(2),
        ensures
            final(self)@ == explained(old(self)@, before, ev@, at),
            final(self)@.events.next_id <= old(self)@.events.next_id + 2,
    {
        let decision: String = decision_text(
            self.config.trigger_mode,
            self.event_triggers(ev.presence, ev.is_call_event),
            self.call_start.is_some(),
            ev,
        );
        if ev.presence != before {
            self.log_event(EventLevel::Inf, change_text(before, ev.presence), at);
        }
        self.log_debug(decision, at);
    }

    /// Marks the start of a call.
    fn begin_call(&mut self, now: LocalTime)
        requires
            old(self)@.can_begin_call(now),
        ensures
            final(self)@ == call_begun(old(self)@, now),
    {
        self.grace_until = None;
        let mut stats: DayStats = self.stats;
        stats.ensure_today(now.day);
        stats.calls_today = stats.calls_today + 1;
        self.stats = stats;
        self.call_start = Some(now.at);
    }

    /// Starts the grace timer.
    fn begin_grace(&mut self, at: Moment, clock: u64)
        requires
            old(self)@.can_log(1),
        ensures
            final(self)@ == grace_begun(old(self)@, at, clock),
    {
        let grace: u64 = self.config.grace_period_secs;
        self.grace_until = Some(deadline(clock, grace));
        let mut message: String = "grace period started (".to_owned();
        message.append(decimal_text(grace).as_str());
        message.append("s)");
        self.log_event(EventLevel::Inf, message, at);
    }

    /// True if a presence event begins a call.
    pub fn begins_call(&self, ev: &PresenceEvent, hour: u8) -> (r: bool)
        ensures
            r == (presence_effect(self@, ev@, hour) == PresenceEffect::CallBegins),
    {
        let heeded: bool = self.current_presence != ev.presence || ev.is_call_event;
        heeded && self.event_triggers(ev.presence, ev.is_call_event) && self.call_start.is_none()
            && self.within_work_hours(hour)
    }

    /// Takes in a presence event. When a call begins, its start is to be
    /// recorded in the call history, and the bulb is to show the call config.
    pub fn take_presence(&mut self, ev: &PresenceEvent, now: LocalTime, clock: u64) -> (r:
        PresenceEffect)
        requires
            old(self)@.can_log(4),
            presence_effect(old(self)@, ev@, now.hour) == PresenceEffect::CallBegins ==> old(
                self,
            )@.can_begin_call(now),
        ensures
            r == presence_effect(old(self)@, ev@, now.hour),
            final(self)@ == after_presence(old(self)@, ev@, now, clock),
    {
        let before: Presence = self.current_presence;
        self.hear(ev, now.at);
        if before == ev.presence && !ev.is_call_event {
            self.log_debug(unchanged_text(ev.presence), now.at);
            return PresenceEffect::Unchanged;
        }
        let triggered: bool = self.event_triggers(ev.presence, ev.is_call_event);
        let in_call: bool = self.call_start.is_some();
        self.explain(before, ev, now.at);
        if triggered && !in_call {
            if !self.within_work_hours(now.hour) {
                self.log_event(
                    EventLevel::Inf,
                    "outside work hours — ignoring busy transition".to_owned(),
                    now.at,
                );
                return PresenceEffect::OutsideHours;
            }
            self.begin_call(now);
            return PresenceEffect::CallBegins;
        }
        if !triggered && in_call {
            self.begin_grace(now.at, clock);
            return PresenceEffect::GraceBegins;
        }
        PresenceEffect::Stays
    }
}

impl AppState {
    /// Keeps the row id under which the start of the call was recorded.
    pub fn call_recorded(&mut self, id: i64)
        ensures
            final(self)@ == (AppModel { current_call_id: Some(id), ..old(self)@ }),
    {
        self.current_call_id = Some(id);
    }
}

// ---------------------------------------------------------------------------
// Grace timer
// ---------------------------------------------------------------------------

/// A call in the call history that has ended.
#[derive(Debug, Clone, Copy, PartialEq, Eq, Structural)]
pub struct EndedCall {
    pub id: i64,
    pub duration_secs: i64,
}

/// What the grace timer leads to.
#[derive(Debug, Clone, Copy, PartialEq, Eq, Structural)]
pub enum GraceEffect {
    /// The timer is not set or has not expired.
    Waits,
    /// The timer has expired, but the light should be on again.
    Cancelled,
    /// The timer has expired and the call is over. The bulb is to show the idle
    /// config, and the end of the call is to be recorded if it is in the call
    /// history.
    CallEnds(Option<EndedCall>),
}

/// True if the grace timer is set and has expired.
pub open spec fn grace_expired(m: AppModel, clock: u64) -> bool {
    m.grace_until is Some && clock >= m.grace_until->Some_0
}

/// The debug message about an expired grace timer.
pub open spec fn expiry_message(m: AppModel) -> Seq<char> {
    "grace expired — still_triggered="@ + bool_word(m.triggered()) + " (presence="@
        + m.current_presence.name_spec() + " call_tracker_active="@ + bool_word(
        m.call_tracker_active,
    ) + ")"@
}

/// The row of the current call with its duration, if it is in the call history.
pub open spec fn ended_call(m: AppModel, at: Moment) -> Option<EndedCall> {
    match (m.call_start, m.current_call_id) {
        (Some(start), Some(id)) => Some(
            EndedCall { id, duration_secs: elapsed_secs_spec(start, at) },
        ),
        _ => None,
    }
}

/// What the grace timer leads to.
pub open spec fn grace_effect(m: AppModel, at: Moment, clock: u64) -> GraceEffect {
    if !grace_expired(m, clock) {
        GraceEffect::Waits
    } else if m.triggered() {
        GraceEffect::Cancelled
    } else {
        GraceEffect::CallEnds(ended_call(m, at))
    }
}

/// The state after a call has ended. Its duration is added to the day's total.
pub open spec fn call_ended(m: AppModel, now: LocalTime) -> AppModel {
    let counted = match m.call_start {
        Some(start) => {
            let today = m.stats.on_day(now.day);
            AppModel {
                stats: DayStats {
                    total_time_today_secs: (today.total_time_today_secs + elapsed_secs_spec(
                        start,
                        now.at,
                    )) as u64,
                    ..today
                },
                current_call_id: None,
                ..m
            }
        },
        None => m,
    };
    AppModel { call_start: None, grace_until: None, ..counted }
}

/// The state after the grace timer has been looked at.
pub open spec fn after_grace(m: AppModel, now: LocalTime, clock: u64) -> AppModel {
    let noted = m.debugged(expiry_message(m), now.at);
    match grace_effect(m, now.at, clock) {
        GraceEffect::Waits => m,
        GraceEffect::Cancelled => AppModel { grace_until: None, ..noted }.logged(
            EventLevel::Wrn,
            "grace cancelled — back-to-back call"@,
            now.at,
        ),
        GraceEffect::CallEnds(_) => call_ended(noted, now),
    }
}

impl AppState {
    /// Logs that the grace timer has expired.
    fn note_expiry(&mut self, at: Moment)
        requires
            old(self)@.can_log(1),
        ensures
            final(self)@ == old(self)@.debugged(expiry_message(old(self)@), at),
            final(self)@.events.next_id <= old(self)@.events.next_id + 1,
    {
        let mut message: String = "grace expired — still_triggered=".to_owned();
        message.append(bool_text(self.currently_triggered()));
        message.append(" (presence=");
        message.append(self.current_presence.name());
        message.append(" call_tracker_active=");
        message.append(bool_text(self.call_tracker_active));
        message.append(")");
        self.log_debug(message, at);
    }

    /// Ends the current call.
    fn end_call(&mut self, now: LocalTime) -> (r: Option<EndedCall>)
        requires
            old(self)@.can_end_call(now),
        ensures
            r == ended_call(old(self)@, now.at),
            final(self)@ == call_ended(old(self)@, now),
    {
        let mut ended: Option<EndedCall> = None;
        if let Some(start) = self.call_start {
            let duration_secs: i64 = elapsed_secs(start, now.at);
            let mut stats: DayStats = self.stats;
            stats.ensure_today(now.day);
            stats.total_time_today_secs = stats.total_time_today_secs + duration_secs as u64;
            self.stats = stats;
            if let Some(id) = self.current_call_id {
                ended = Some(EndedCall { id, duration_secs });
            }
            self.current_call_id = None;
        }
        self.call_start = None;
        self.grace_until = None;
        ended
    }

    /// True if the grace timer ends the call.
    pub fn ends_call(&self, clock: u64) -> (r: bool)
        ensures
            forall|at: Moment| r == #[trigger] grace_effect(self@, at, clock) is CallEnds,
    {
        match self.grace_until {
            Some(t) => clock as u128 >= t && !self.currently_triggered(),
            None => false,
        }
    }

    /// Looks at the grace timer.
    pub fn grace_step(&mut self, now: LocalTime, clock: u64) -> (r: GraceEffect)
        requires
            old(self)@.can_log(2),
            grace_effect(old(self)@, now.at, clock) is CallEnds ==> old(self)@.can_end_call(now),
        ensures
            r == grace_effect(old(self)@, now.at, clock),
            final(self)@ == after_grace(old(self)@, now, clock),
    {
        let expired: bool = match self.grace_until {
            Some(t) => clock as u128 >= t,
            None => false,
        };
        if !expired {
            return GraceEffect::Waits;
        }
        let triggered: bool = self.currently_triggered();
        self.note_expiry(now.at);
        if triggered {
            // State flipped back to triggered mid-grace.
            self.grace_until = None;
            self.log_event(
                EventLevel::Wrn,
                "grace cancelled — back-to-back call".to_owned(),
                now.at,
            );
            return GraceEffect::Cancelled;
        }
        GraceEffect::CallEnds(self.end_call(now))
    }
}

// ---------------------------------------------------------------------------
// Safety cap
// ---------------------------------------------------------------------------

/// True if the current call has gone on for too long.
pub open spec fn over_cap(m: AppModel, at: Moment) -> bool {
    m.call_start is Some && whole_hours(m.call_start->Some_0, at) >= m.config.max_call_hours
}

/// The state after the length of the current call has been looked at.
pub open spec fn after_cap(m: AppModel, at: Moment) -> AppModel {
    if over_cap(m, at) {
        AppModel { call_start: None, grace_until: None, ..m }.logged(
            EventLevel::Wrn,
            "call duration exceeded "@ + decimal(m.config.max_call_hours as nat)
                + "h cap — reverting to idle"@,
            at,
        )
    } else {
        m
    }
}

impl AppState {
    /// Looks at the length of the current call. Returns true if it has gone on
    /// for too long and the bulb is to show the idle config.
    pub fn cap_step(&mut self, at: Moment) -> (r: bool)
        requires
            old(self)@.can_log(1),
        ensures
            r == over_cap(old(self)@, at),
            final(self)@ == after_cap(old(self)@, at),
    {
        if let Some(start) = self.call_start {
            let hours: u64 = self.config.max_call_hours;
            if hours_between(start, at) >= hours as i128 {
                let mut message: String = "call duration exceeded ".to_owned();
                message.append(decimal_text(hours).as_str());
                message.append("h cap — reverting to idle");
                self.call_start = None;
                self.grace_until = None;
                self.log_event(EventLevel::Wrn, message, at);
                return true;
            }
        }
        false
    }
}

// ---------------------------------------------------------------------------
// Re-evaluation
// ---------------------------------------------------------------------------

/// What the bulb should be displaying.
pub open spec fn due_order(m: AppModel, hour: u8) -> Order {
    match m.override_mode {
        OverrideMode::ForceRed => Order::ShowCall,
        OverrideMode::ForceOff => Order::SwitchOff,
        OverrideMode::Auto => if m.triggered() && m.works_at(hour) {
            Order::ShowCall
        } else {
            Order::ShowIdle
        },
    }
}

/// The state after the display has been re-evaluated. A remembered call whose
/// light is not due any more has ended.
pub open spec fn after_reconcile(m: AppModel, hour: u8) -> AppModel {
    if due_order(m, hour) == Order::ShowIdle && m.call_start is Some {
        AppModel { call_start: None, grace_until: None, ..m }
    } else {
        m
    }
}

impl AppState {
    /// Re-evaluates what the bulb should be displaying based on current
    /// (presence, call_start, override, work_hours). Used after the user flips
    /// override back to Auto so the bulb immediately reflects what auto would do
    /// instead of waiting for the next presence transition.
    pub fn reconcile_display(&mut self, hour: u8) -> (r: Order)
        ensures
            r == due_order(old(self)@, hour),
            final(self)@ == after_reconcile(old(self)@, hour),
    {
        match self.override_mode {
            OverrideMode::ForceRed => {
                return Order::ShowCall;
            },
            OverrideMode::ForceOff => {
                return Order::SwitchOff;
            },
            OverrideMode::Auto => {},
        }
        if self.currently_triggered() && self.within_work_hours(hour) {
            return Order::ShowCall;
        }
        if self.call_start.is_some() {
            self.call_start = None;
            self.grace_until = None;
        }
        Order::ShowIdle
    }
}

// ---------------------------------------------------------------------------
// Laws
// ---------------------------------------------------------------------------

/// True if an event says all there is to know about the light: always, except
/// that only call-tracker events count where calls alone trigger and there is a
/// call tracker.
pub open spec fn is_decisive(m: AppModel, ev: PresenceEventModel) -> bool {
    ev.is_call_event || m.config.trigger_mode != TriggerMode::CallOnly || m.platform
        == Platform::MacOs
}

/// After a decisive event, the state should have the light on exactly if the
/// event turns it on.
pub proof fn event_and_state_agree(m: AppModel, ev: PresenceEventModel, now: LocalTime, clock: u64)
    requires
        is_decisive(m, ev),
    ensures
        after_presence(m, ev, now, clock).triggered() == triggers(
            m.platform,
            m.config.trigger_mode,
            ev.presence,
            ev.is_call_event,
        ),
{
}

/// A call begins only with an event that turns the light on, and only within
/// work hours; it is counted once, and its start is remembered.
pub proof fn calls_begin_within_work_hours(
    m: AppModel,
    ev: PresenceEventModel,
    now: LocalTime,
    clock: u64,
)
    requires
        m.call_start is None,
    ensures
        ({
            let after = after_presence(m, ev, now, clock);
            let begins = triggers(
                m.platform,
                m.config.trigger_mode,
                ev.presence,
                ev.is_call_event,
            ) && m.works_at(now.hour) && (ev.presence != m.current_presence || ev.is_call_event);
            &&& after.call_start == if begins {
                Some(now.at)
            } else {
                None
            }
            &&& after.stats == if begins {
                DayStats {
                    calls_today: (m.stats.on_day(now.day).calls_today + 1) as u32,
                    ..m.stats.on_day(now.day)
                }
            } else {
                m.stats
            }
            &&& begins ==> after.grace_until is None
        }),
{
}

/// No presence event ends a call, restarts it or counts it again.
pub proof fn presence_does_not_end_calls(
    m: AppModel,
    ev: PresenceEventModel,
    now: LocalTime,
    clock: u64,
)
    requires
        m.call_start is Some,
    ensures
        after_presence(m, ev, now, clock).call_start == m.call_start,
        after_presence(m, ev, now, clock).stats == m.stats,
        after_presence(m, ev, now, clock).current_call_id == m.current_call_id,
{
}

/// An event with the same presence that the call tracker is not the source of
/// changes nothing but the debug log.
pub proof fn repeated_presence_changes_nothing(
    m: AppModel,
    ev: PresenceEventModel,
    now: LocalTime,
    clock: u64,
)
    requires
        ev.presence == m.current_presence,
        !ev.is_call_event,
    ensures
        after_presence(m, ev, now, clock) == m.debugged(unchanged_message(ev.presence), now.at),
{
}

/// A call that the call tracker reports begins even if presence was Busy before
/// (e.g. manual Busy was already set), under every trigger mode.
pub proof fn tracker_calls_begin_while_busy(
    m: AppModel,
    ev: PresenceEventModel,
    now: LocalTime,
    clock: u64,
)
    requires
        m.call_start is None,
        m.works_at(now.hour),
        ev.is_call_event,
        ev.presence == Presence::Busy,
    ensures
        presence_effect(m, ev, now.hour) == PresenceEffect::CallBegins,
        after_presence(m, ev, now, clock).call_start == Some(now.at),
{
}

/// The grace timer ends a call only after it has expired, and only if the light
/// should not be on again.
pub proof fn calls_end_after_grace(m: AppModel, now: LocalTime, clock: u64)
    requires
        m.call_start is Some,
    ensures
        after_grace(m, now, clock).call_start == if grace_expired(m, clock) && !m.triggered() {
            None
        } else {
            m.call_start
        },
{
}

/// A grace period runs for its configured length: until then the timer leads to
/// nothing, and from then on it leads to something.
pub proof fn grace_runs_its_length(
    m: AppModel,
    ev: PresenceEventModel,
    now: LocalTime,
    clock: u64,
    later: LocalTime,
    later_clock: u64,
)
    requires
        presence_effect(m, ev, now.hour) == PresenceEffect::GraceBegins,
    ensures
        ({
            let begun = after_presence(m, ev, now, clock);
            (grace_effect(begun, later.at, later_clock) == GraceEffect::Waits) <==> later_clock
                < clock + m.config.grace_period_secs * 1_000_000_000
        }),
{
}

/// Back-to-back calls are one call: if an event that turns the light off is
/// followed, before the timer ends the call, by a decisive event that turns it
/// on, the call goes on as it was, and is not counted again.
pub proof fn back_to_back_calls_are_one_call(
    m: AppModel,
    off: PresenceEventModel,
    off_time: LocalTime,
    off_clock: u64,
    on: PresenceEventModel,
    on_time: LocalTime,
    on_clock: u64,
    later: LocalTime,
    later_clock: u64,
)
    requires
        m.call_start is Some,
        presence_effect(m, off, off_time.hour) == PresenceEffect::GraceBegins,
        is_decisive(m, on),
        triggers(m.platform, m.config.trigger_mode, on.presence, on.is_call_event),
    ensures
        ({
            let paused = after_presence(m, off, off_time, off_clock);
            let resumed = after_presence(paused, on, on_time, on_clock);
            let after = after_grace(resumed, later, later_clock);
            &&& after.call_start == m.call_start
            &&& after.stats == m.stats
            &&& after.current_call_id == m.current_call_id
            &&& grace_expired(resumed, later_clock) ==> after.grace_until is None
        }),
{
    let paused = after_presence(m, off, off_time, off_clock);
    event_and_state_agree(paused, on, on_time, on_clock);
}

/// When the grace timer ends a call, exactly the recorded duration is added to
/// the day's total, and no call is left.
pub proof fn ended_calls_are_counted(m: AppModel, now: LocalTime, clock: u64)
    requires
        m.can_end_call(now),
        grace_effect(m, now.at, clock) is CallEnds,
        m.call_start is Some,
    ensures
        ({
            let after = after_grace(m, now, clock);
            let total = m.stats.on_day(now.day).total_time_today_secs;
            &&& after.call_start is None
            &&& after.grace_until is None
            &&& after.current_call_id is None
            &&& after.stats.date == Some(now.day)
            &&& after.stats.calls_today == m.stats.on_day(now.day).calls_today
            &&& after.stats.total_time_today_secs == total + elapsed_secs_spec(
                m.call_start->Some_0,
                now.at,
            )
            &&& match m.current_call_id {
                Some(id) => grace_effect(m, now.at, clock) == GraceEffect::CallEnds(
                    Some(
                        EndedCall {
                            id,
                            duration_secs: (after.stats.total_time_today_secs - total) as i64,
                        },
                    ),
                ),
                None => grace_effect(m, now.at, clock) == GraceEffect::CallEnds(None),
            }
        }),
{
}

/// True if a grace timer is set only during a call.
pub open spec fn grace_belongs_to_a_call(m: AppModel) -> bool {
    m.grace_until is Some ==> m.call_start is Some
}

/// The grace timer is never set without a call, whatever step is taken.
pub proof fn every_step_keeps_grace_within_calls(
    m: AppModel,
    ev: PresenceEventModel,
    now: LocalTime,
    clock: u64,
)
    requires
        grace_belongs_to_a_call(m),
    ensures
        grace_belongs_to_a_call(AppModel::initial(m.config, m.platform, now.at)),
        grace_belongs_to_a_call(after_presence(m, ev, now, clock)),
        grace_belongs_to_a_call(after_grace(m, now, clock)),
        grace_belongs_to_a_call(after_cap(m, now.at)),
        grace_belongs_to_a_call(after_reconcile(m, now.hour)),
{
}

/// The cap takes effect once the call has lasted for that many whole hours.
pub proof fn cap_takes_effect_after_its_hours(m: AppModel, at: Moment)
    requires
        m.call_start is Some,
    ensures
        after_cap(m, at).call_start == if whole_hours(m.call_start->Some_0, at)
            >= m.config.max_call_hours {
            None
        } else {
            m.call_start
        },
{
}

/// While an override is in force the logs are left alone, and the bulb is told
/// nothing that it displays already.
pub proof fn overrides_hold_the_light(mode: OverrideMode, display: DisplayState)
    requires
        mode != OverrideMode::Auto,
    ensures
        cycle_start(mode, display) is Hold,
        (cycle_start(mode, display) == CycleStart::Hold(None)) <==> display == if mode
            == OverrideMode::ForceRed {
            DisplayState::Call
        } else {
            DisplayState::Off
        },
{
}

/// On macOS, where there is no call tracker, triggering on calls only is the same
/// as triggering on Busy and DoNotDisturb.
pub proof fn call_only_is_busy_and_dnd_on_macos(
    m: AppModel,
    presence: Presence,
    is_call_event: bool,
)
    requires
        m.platform == Platform::MacOs,
    ensures
        triggers(m.platform, TriggerMode::CallOnly, presence, is_call_event) == triggers(
            m.platform,
            TriggerMode::BusyAndDnd,
            presence,
            is_call_event,
        ),
        with_trigger_mode(m, TriggerMode::CallOnly).triggered() == with_trigger_mode(
            m,
            TriggerMode::BusyAndDnd,
        ).triggered(),
{
}

/// A state under another trigger mode.
pub open spec fn with_trigger_mode(m: AppModel, mode: TriggerMode) -> AppModel {
    AppModel { config: ConfigModel { trigger_mode: mode, ..m.config }, ..m }
}

/// The lines of macOS logs leave the call tracker off.
pub proof fn call_tracker_stays_off_on_macos(
    m: AppModel,
    line: Seq<char>,
    now: LocalTime,
    clock: u64,
)
    requires
        !m.call_tracker_active,
        line_event(Platform::MacOs, line) is Some,
    ensures
        !after_presence(
            m,
            line_event(Platform::MacOs, line)->Some_0,
            now,
            clock,
        ).call_tracker_active,
{
    call_events_come_from_the_tracker(Platform::MacOs, line);
}

// ---------------------------------------------------------------------------
// Laws of single steps
// ---------------------------------------------------------------------------

/// True if a presence event turns the light on.
pub open spec fn turns_on(m: AppModel, ev: PresenceEventModel) -> bool {
    triggers(m.platform, m.config.trigger_mode, ev.presence, ev.is_call_event)
}

/// True if a presence event is passed over as a repetition.
pub open spec fn is_repetition(m: AppModel, ev: PresenceEventModel) -> bool {
    ev.presence == m.current_presence && !ev.is_call_event
}

/// True if two states differ at most in what is said of calls and of presence.
pub open spec fn same_but_for_calls(a: AppModel, b: AppModel) -> bool {
    &&& a.platform == b.platform
    &&& a.config == b.config
    &&& a.bulb_ip == b.bulb_ip
    &&& a.bulb_live == b.bulb_live
    &&& a.bulb_last_polled == b.bulb_last_polled
    &&& a.bulb_reachable == b.bulb_reachable
    &&& a.display == b.display
    &&& a.override_mode == b.override_mode
    &&& a.started_at == b.started_at
    &&& a.last_discovery == b.last_discovery
}

/// During a call, every event that does not turn the light on begins the grace
/// period, whatever presence it brings, unless it is a repetition; every other
/// event leaves the timer as it is.
pub proof fn whatever_turns_the_light_off_begins_grace(
    m: AppModel,
    ev: PresenceEventModel,
    now: LocalTime,
    clock: u64,
)
    requires
        m.call_start is Some,
    ensures
        ({
            let after = after_presence(m, ev, now, clock);
            let begins = !turns_on(m, ev) && !is_repetition(m, ev);
            &&& begins ==> after.grace_until is Some && after.grace_until->Some_0 == clock
                + m.config.grace_period_secs * 1_000_000_000
            &&& !begins ==> after.grace_until == m.grace_until
            &&& begins <==> presence_effect(m, ev, now.hour) == PresenceEffect::GraceBegins
        }),
{
}

/// Under the default trigger mode, during a call, these are all presences but Busy
/// and DoNotDisturb; a call that they end begins with one of these two.
pub proof fn calls_last_while_busy(m: AppModel, ev: PresenceEventModel, now: LocalTime, clock: u64)
    requires
        m.config.trigger_mode == TriggerMode::BusyAndDnd,
        ev.presence != m.current_presence,
    ensures
        ({
            let busy = ev.presence == Presence::Busy || ev.presence == Presence::DoNotDisturb;
            let effect = presence_effect(m, ev, now.hour);
            &&& m.call_start is Some && !busy ==> effect == PresenceEffect::GraceBegins
            &&& m.call_start is Some && busy ==> effect == PresenceEffect::Stays
            &&& m.call_start is None && !busy ==> effect == PresenceEffect::Stays
            &&& m.call_start is None && busy && m.works_at(now.hour) ==> effect
                == PresenceEffect::CallBegins
            &&& m.call_start is None && busy && !m.works_at(now.hour) ==> effect
                == PresenceEffect::OutsideHours
        }),
{
}

/// What a presence event leads to is settled by whether it repeats the last one,
/// whether it turns the light on, whether there is a call, and the work hours.
pub proof fn effects_of_presence(m: AppModel, ev: PresenceEventModel, hour: u8)
    ensures
        ({
            let effect = presence_effect(m, ev, hour);
            let heeded = !is_repetition(m, ev);
            &&& effect == PresenceEffect::Unchanged <==> !heeded
            &&& effect == PresenceEffect::CallBegins <==> heeded && turns_on(m, ev)
                && m.call_start is None && m.works_at(hour)
            &&& effect == PresenceEffect::OutsideHours <==> heeded && turns_on(m, ev)
                && m.call_start is None && !m.works_at(hour)
            &&& effect == PresenceEffect::GraceBegins <==> heeded && !turns_on(m, ev)
                && m.call_start is Some
            &&& effect == PresenceEffect::Stays <==> heeded && (turns_on(m, ev) == (
            m.call_start is Some))
        }),
{
}

/// After a presence event the presence is the current one, and the call tracker is
/// as a call event says; the event begins at most a call or a grace period, and
/// touches nothing else but the log.
pub proof fn presence_is_taken_in(m: AppModel, ev: PresenceEventModel, now: LocalTime, clock: u64)
    ensures
        ({
            let after = after_presence(m, ev, now, clock);
            &&& after.current_presence == ev.presence
            &&& ev.is_call_event ==> after.call_tracker_active == (ev.presence
                != Presence::Available)
            &&& !ev.is_call_event ==> after.call_tracker_active == m.call_tracker_active
            &&& after.current_call_id == m.current_call_id
            &&& m.call_start is None && after.call_start is None ==> after.grace_until
                == m.grace_until && after.stats == m.stats
            &&& same_but_for_calls(m, after)
        }),
{
}

/// A presence that has changed is logged, with what it was and what it is now; an
/// event that repeats it is not.
pub proof fn changes_of_presence_are_logged(
    m: AppModel,
    ev: PresenceEventModel,
    now: LocalTime,
    clock: u64,
)
    ensures
        ({
            let after = after_presence(m, ev, now, clock);
            let told = NoticeModel {
                level: EventLevel::Inf,
                message: "Teams presence: "@ + m.current_presence.name_spec() + " -> "@
                    + ev.presence.name_spec(),
            };
            ev.presence != m.current_presence ==> after.notices.contains(told)
        }),
{
    let after = after_presence(m, ev, now, clock);
    if ev.presence != m.current_presence {
        let here = heard(m, ev, now.at);
        let told = NoticeModel {
            level: EventLevel::Inf,
            message: change_message(m.current_presence, ev.presence),
        };
        assert(here.logged(EventLevel::Inf, told.message, now.at).notices[here.notices.len() as int]
            == told);
        assert(explained(here, m.current_presence, ev, now.at).notices[here.notices.len() as int]
            == told);
        assert(after.notices[here.notices.len() as int] == told);
    }
}

/// The grace timer does nothing before its time. Then it ends the call, unless the
/// light should be on again: in that case it is cleared, and the call goes on.
pub proof fn the_timer_ends_calls(m: AppModel, now: LocalTime, clock: u64)
    ensures
        ({
            let after = after_grace(m, now, clock);
            let effect = grace_effect(m, now.at, clock);
            let expired = m.grace_until matches Some(t) && clock >= t;
            &&& !expired ==> effect == GraceEffect::Waits && after == m
            &&& expired && m.triggered() ==> {
                &&& effect == GraceEffect::Cancelled
                &&& after.grace_until is None
                &&& after.call_start == m.call_start
                &&& after.current_call_id == m.current_call_id
                &&& after.stats == m.stats
            }
            &&& expired && !m.triggered() ==> {
                &&& effect is CallEnds
                &&& after.grace_until is None
                &&& after.call_start is None
                &&& m.call_start is None ==> after.stats == m.stats
            }
            &&& after.current_presence == m.current_presence
            &&& after.call_tracker_active == m.call_tracker_active
            &&& same_but_for_calls(m, after)
        }),
{
}

/// The end of a call is to be recorded if its start was, with its row and its
/// length in whole seconds.
pub proof fn recorded_calls_are_closed(m: AppModel, now: LocalTime, clock: u64)
    requires
        grace_effect(m, now.at, clock) is CallEnds,
    ensures
        ({
            let ended = grace_effect(m, now.at, clock)->CallEnds_0;
            &&& ended is Some <==> m.call_start is Some && m.current_call_id is Some
            &&& ended matches Some(call) ==> {
                &&& Some(call.id) == m.current_call_id
                &&& call.duration_secs == elapsed_secs_spec(m.call_start->Some_0, now.at)
                &&& after_grace(m, now, clock).current_call_id is None
            }
        }),
{
}

/// Between its cap and its beginning a call is left alone; once it has gone on for
/// the capped hours it is forgotten, with its timer. Its time is not counted, and
/// nothing else changes but the log.
pub proof fn the_cap_forgets_the_call(m: AppModel, at: Moment)
    ensures
        ({
            let after = after_cap(m, at);
            let over = m.call_start matches Some(start) && seconds_apart(start, at)
                >= m.config.max_call_hours * 3600;
            &&& m.config.max_call_hours > 0 ==> over_cap(m, at) == over
            &&& !over_cap(m, at) ==> after == m
            &&& over_cap(m, at) ==> after.call_start is None && after.grace_until is None
            &&& after.stats == m.stats && after.current_call_id == m.current_call_id
            &&& after.current_presence == m.current_presence
            &&& after.call_tracker_active == m.call_tracker_active
            &&& same_but_for_calls(m, after)
        }),
{
}

/// What an override holds the light to, and that only what is not displayed yet is
/// ordered; without an override the logs are polled.
pub proof fn overrides_order_what_they_say(display: DisplayState)
    ensures
        cycle_start(OverrideMode::Auto, display) == CycleStart::Poll,
        display != DisplayState::Call ==> cycle_start(OverrideMode::ForceRed, display)
            == CycleStart::Hold(Some(Order::ShowCall)),
        display == DisplayState::Call ==> cycle_start(OverrideMode::ForceRed, display)
            == CycleStart::Hold(None),
        display != DisplayState::Off ==> cycle_start(OverrideMode::ForceOff, display)
            == CycleStart::Hold(Some(Order::SwitchOff)),
        display == DisplayState::Off ==> cycle_start(OverrideMode::ForceOff, display)
            == CycleStart::Hold(None),
{
}

/// Without an override the call config is due exactly while the state should have
/// the light on within work hours, and the idle config otherwise; a remembered
/// call goes then. An override comes first and leaves the call alone.
pub proof fn what_is_due_is_shown(m: AppModel, hour: u8)
    ensures
        ({
            let after = after_reconcile(m, hour);
            let auto = m.override_mode == OverrideMode::Auto;
            let on = m.triggered() && m.works_at(hour);
            &&& m.override_mode == OverrideMode::ForceRed ==> due_order(m, hour) == Order::ShowCall
            &&& m.override_mode == OverrideMode::ForceOff ==> due_order(m, hour) == Order::SwitchOff
            &&& auto && on ==> due_order(m, hour) == Order::ShowCall
            &&& auto && !on ==> due_order(m, hour) == Order::ShowIdle
            &&& !auto || on || m.call_start is None ==> after == m
            &&& auto && !on && m.call_start is Some ==> after.call_start is None
                && after.grace_until is None
            &&& after.stats == m.stats && after.current_call_id == m.current_call_id
            &&& after.current_presence == m.current_presence
            &&& after.call_tracker_active == m.call_tracker_active
            &&& after.events == m.events && after.notices == m.notices
            &&& same_but_for_calls(m, after)
        }),
{
}

/// The configured log directory is watched, or else the default one.
pub proof fn the_configured_directory_comes_first(m: AppModel, default: Option<Seq<char>>)
    ensures
        m.config.teams_log_dir is Some ==> watched_dir(m, default) == m.config.teams_log_dir,
        m.config.teams_log_dir is None ==> watched_dir(m, default) == default,
{
}

/// A notice at a level.
pub open spec fn said(level: EventLevel, message: Seq<char>) -> Seq<NoticeModel> {
    seq![NoticeModel { level, message }]
}

/// What is said of a presence event, in this order: what the call tracker says, that
/// the presence has changed, what is decided and why, and what comes of it. Of a
/// repetition only that is said.
pub proof fn what_is_said_of_presence(
    m: AppModel,
    ev: PresenceEventModel,
    now: LocalTime,
    clock: u64,
)
    ensures
        ({
            let after = after_presence(m, ev, now, clock);
            let active = ev.presence != Presence::Available;
            let tracker = if ev.is_call_event {
                said(
                    EventLevel::Dbg,
                    "TeamsCallTracker: call_tracker_active → "@ + bool_word(active) + " (raw="@
                        + ev.raw + ")"@,
                )
            } else {
                Seq::empty()
            };
            let change = if ev.presence != m.current_presence {
                said(
                    EventLevel::Inf,
                    "Teams presence: "@ + m.current_presence.name_spec() + " -> "@
                        + ev.presence.name_spec(),
                )
            } else {
                Seq::empty()
            };
            let decision = said(
                EventLevel::Dbg,
                "trigger check: mode="@ + m.config.trigger_mode.name_spec() + " now_triggered="@
                    + bool_word(turns_on(m, ev)) + " call_was_active="@ + bool_word(
                    m.call_start is Some,
                ) + " (raw="@ + ev.raw + " is_call_event="@ + bool_word(ev.is_call_event) + ")"@,
            );
            let seen = m.notices + tracker + change + decision;
            match presence_effect(m, ev, now.hour) {
                PresenceEffect::Unchanged => after.notices == m.notices + said(
                    EventLevel::Dbg,
                    "presence unchanged ("@ + ev.presence.name_spec()
                        + "), no call-tracker event, skipping"@,
                ),
                PresenceEffect::OutsideHours => after.notices == seen + said(
                    EventLevel::Inf,
                    "outside work hours — ignoring busy transition"@,
                ),
                PresenceEffect::GraceBegins => after.notices == seen + said(
                    EventLevel::Inf,
                    "grace period started ("@ + decimal(m.config.grace_period_secs as nat) + "s)"@,
                ),
                _ => after.notices == seen,
            }
        }),
{
    let none = Seq::<NoticeModel>::empty();
    let after = after_presence(m, ev, now, clock);
    let here = heard(m, ev, now.at);
    let seen = explained(here, m.current_presence, ev, now.at);
    let active = ev.presence != Presence::Available;
    let tracker = if ev.is_call_event {
        said(EventLevel::Dbg, tracker_message(active, ev.raw))
    } else {
        none
    };
    assert(here.notices =~= m.notices + tracker);
    let change = if ev.presence != m.current_presence {
        said(EventLevel::Inf, change_message(m.current_presence, ev.presence))
    } else {
        none
    };
    let decision = said(
        EventLevel::Dbg,
        decision_message(m.config.trigger_mode, turns_on(m, ev), m.call_start is Some, ev),
    );
    assert(seen.notices =~= m.notices + tracker + change + decision);
    match presence_effect(m, ev, now.hour) {
        PresenceEffect::Unchanged => {
            assert(after.notices =~= m.notices + said(
                EventLevel::Dbg,
                unchanged_message(ev.presence),
            ));
        },
        PresenceEffect::OutsideHours => {
            assert(after.notices =~= seen.notices + said(
                EventLevel::Inf,
                "outside work hours — ignoring busy transition"@,
            ));
        },
        PresenceEffect::GraceBegins => {
            assert(after.notices =~= seen.notices + said(
                EventLevel::Inf,
                "grace period started ("@ + decimal(m.config.grace_period_secs as nat) + "s)"@,
            ));
        },
        _ => {},
    }
}

/// What is said when the grace timer has run out, and when a call has gone on for
/// too long.
pub proof fn what_is_said_of_the_end(m: AppModel, now: LocalTime, clock: u64)
    ensures
        ({
            let after = after_grace(m, now, clock);
            let expiry = said(
                EventLevel::Dbg,
                "grace expired — still_triggered="@ + bool_word(m.triggered()) + " (presence="@
                    + m.current_presence.name_spec() + " call_tracker_active="@ + bool_word(
                    m.call_tracker_active,
                ) + ")"@,
            );
            match grace_effect(m, now.at, clock) {
                GraceEffect::Waits => after.notices == m.notices,
                GraceEffect::Cancelled => after.notices == m.notices + expiry + said(
                    EventLevel::Wrn,
                    "grace cancelled — back-to-back call"@,
                ),
                GraceEffect::CallEnds(_) => after.notices == m.notices + expiry,
            }
        }),
        over_cap(m, now.at) ==> after_cap(m, now.at).notices == m.notices + said(
            EventLevel::Wrn,
            "call duration exceeded "@ + decimal(m.config.max_call_hours as nat)
                + "h cap — reverting to idle"@,
        ),
{
    let noted = m.debugged(expiry_message(m), now.at);
    let expiry = said(EventLevel::Dbg, expiry_message(m));
    assert(noted.notices =~= m.notices + expiry);
    let after = after_grace(m, now, clock);
    if grace_effect(m, now.at, clock) == GraceEffect::Cancelled {
        assert(after.notices =~= noted.notices + said(
            EventLevel::Wrn,
            "grace cancelled — back-to-back call"@,
        ));
    }
    if over_cap(m, now.at) {
        assert(after_cap(m, now.at).notices =~= m.notices + said(
            EventLevel::Wrn,
            "call duration exceeded "@ + decimal(m.config.max_call_hours as nat)
                + "h cap — reverting to idle"@,
        ));
    }
}

/// What is said of a poll: how many events it gave, or how things stand.
pub proof fn what_is_said_of_a_poll(m: AppModel, count: nat)
    ensures
        count > 0 ==> poll_message(m, count) == "presence poll: "@ + decimal(count)
            + " new event(s)"@,
        count == 0 ==> poll_message(m, count) == "presence poll: no new events (presence="@
            + m.current_presence.name_spec() + " call_tracker_active="@ + bool_word(
            m.call_tracker_active,
        ) + " triggered="@ + bool_word(m.triggered()) + ")"@,
{
}

} // verus!
