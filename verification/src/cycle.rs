//! The monitor's cycle: in which order its steps are taken.
//!
//! The override comes first and short-circuits everything else. Then the logs
//! are polled, the new presence events are processed in order, the grace timer
//! is looked at, and last the length of the call. Each call of [`Cycle::next`]
//! takes one step and says what outside work comes before the next one.

use crate::clock::LocalTime;
use crate::monitor::{after_cap, after_grace, after_presence, cycle_start, grace_belongs_to_a_call, grace_effect, over_cap, poll_message, presence_effect, CycleStart, EndedCall, GraceEffect, Order, PresenceEffect};
use crate::presence::{PresenceEvent, PresenceEventModel};
use crate::state::{AppModel, AppState, DisplayState, OverrideMode};
use crate::watcher::event_models;
use std::collections::VecDeque;
use vstd::prelude::*;

verus! {

/// Which step of a cycle comes next.
#[derive(Debug, Clone, Copy, PartialEq, Eq, Structural)]
pub enum Phase {
    /// Look at the override.
    Override,
    /// Take in what the poll gave.
    Polled,
    /// Process the next new event.
    Events,
    /// Take in under which id the start of a call was recorded.
    CallStarted,
    /// Look at the grace timer.
    Grace,
    /// The end of a call was recorded: show the idle config.
    CallEnded,
    /// Look at the length of the call.
    Cap,
    /// Everything has been done.
    Rest,
}

/// The outside work before the next step.
#[derive(Debug, Clone, Copy, PartialEq, Eq, Structural)]
pub enum Task {
    /// Nothing: go on at once.
    Nothing,
    /// Poll the logs.
    Poll,
    /// Carry out an order.
    Perform(Order),
    /// Record that a call has started.
    RecordStart(LocalTime),
    /// Record that a call has ended.
    RecordEnd(EndedCall, LocalTime),
    /// Wait for the next cycle.
    Wait,
}

/// What the outside work gave.
#[derive(Debug)]
pub enum Report {
    /// Nothing that matters.
    Done,
    /// The new events of a poll.
    Events(Vec<PresenceEvent>),
    /// The row id of a recorded call.
    Recorded(i64),
}

/// Where a cycle stands, with the new events that are still to be processed.
#[verifier::ext_equal]
pub struct CycleModel {
    pub phase: Phase,
    pub pending: Seq<PresenceEventModel>,
}

/// The next step: where the cycle stands after it, the state after it, and the
/// outside work that comes then.
pub open spec fn next_step(
    c: CycleModel,
    m: AppModel,
    report: Report,
    now: LocalTime,
    clock: u64,
) -> (CycleModel, AppModel, Task) {
    match c.phase {
        Phase::Override => match cycle_start(m.override_mode, m.display) {
            CycleStart::Poll => (CycleModel { phase: Phase::Polled, ..c }, m, Task::Poll),
            CycleStart::Hold(Some(order)) => (
                CycleModel { phase: Phase::Rest, ..c },
                m,
                Task::Perform(order),
            ),
            CycleStart::Hold(None) => (c, m, Task::Wait),
        },
        Phase::Polled => match report {
            Report::Events(events) => (
                CycleModel { phase: Phase::Events, pending: event_models(events@) },
                m.debugged(poll_message(m, events@.len()), now.at),
                Task::Nothing,
            ),
            // The poll failed.
            _ => (CycleModel { phase: Phase::Override, ..c }, m, Task::Wait),
        },
        Phase::Events => if c.pending.len() == 0 {
            (CycleModel { phase: Phase::Grace, ..c }, m, Task::Nothing)
        } else {
            let ev = c.pending[0];
            let rest = c.pending.drop_first();
            let after = after_presence(m, ev, now, clock);
            if presence_effect(m, ev, now.hour) == PresenceEffect::CallBegins {
                (
                    CycleModel { phase: Phase::CallStarted, pending: rest },
                    after,
                    Task::RecordStart(now),
                )
            } else {
                (CycleModel { phase: Phase::Events, pending: rest }, after, Task::Nothing)
            }
        },
        Phase::CallStarted => (
            CycleModel { phase: Phase::Events, ..c },
            match report {
                Report::Recorded(id) => AppModel { current_call_id: Some(id), ..m },
                _ => m,
            },
            Task::Perform(Order::ShowCall),
        ),
        Phase::Grace => {
            let after = after_grace(m, now, clock);
            match grace_effect(m, now.at, clock) {
                GraceEffect::CallEnds(Some(call)) => (
                    CycleModel { phase: Phase::CallEnded, ..c },
                    after,
                    Task::RecordEnd(call, now),
                ),
                GraceEffect::CallEnds(None) => (
                    CycleModel { phase: Phase::Cap, ..c },
                    after,
                    Task::Perform(Order::ShowIdle),
                ),
                _ => (CycleModel { phase: Phase::Cap, ..c }, after, Task::Nothing),
            }
        },
        Phase::CallEnded => (
            CycleModel { phase: Phase::Cap, ..c },
            m,
            Task::Perform(Order::ShowIdle),
        ),
        Phase::Cap => if over_cap(m, now.at) {
            (
                CycleModel { phase: Phase::Rest, ..c },
                after_cap(m, now.at),
                Task::Perform(Order::ShowIdle),
            )
        } else {
            (CycleModel { phase: Phase::Override, ..c }, m, Task::Wait)
        },
        Phase::Rest => (CycleModel { phase: Phase::Override, ..c }, m, Task::Wait),
    }
}

/// True if ids are left for the events of the next step, and the day's counters
/// can take in the call that it begins or ends.
pub open spec fn has_room(c: CycleModel, m: AppModel, now: LocalTime, clock: u64) -> bool {
    match c.phase {
        Phase::Polled => m.can_log(1),
        Phase::Events => c.pending.len() > 0 ==> m.can_log(4) && (presence_effect(
            m,
            c.pending[0],
            now.hour,
        ) == PresenceEffect::CallBegins ==> m.can_begin_call(now)),
        Phase::Grace => m.can_log(2) && (grace_effect(m, now.at, clock) is CallEnds
            ==> m.can_end_call(now)),
        Phase::Cap => m.can_log(1),
        _ => true,
    }
}

/// A cycle of the monitor.
pub struct Cycle {
    phase: Phase,
    pending: VecDeque<PresenceEvent>,
}

impl View for Cycle {
    type V = CycleModel;

    closed spec fn view(&self) -> CycleModel {
        CycleModel { phase: self.phase, pending: event_models(self.pending@) }
    }
}

impl Cycle {
    /// A cycle that is about to begin.
    pub fn new() -> (r: Self)
        ensures
            r@.phase == Phase::Override,
            r@.pending.len() == 0,
    {
        Cycle { phase: Phase::Override, pending: VecDeque::new() }
    }

    /// True if there is room for the next step: it may be taken.
    pub fn has_room(&self, state: &AppState, now: LocalTime, clock: u64) -> (r: bool)
        ensures
            r == has_room(self@, state@, now, clock),
    {
        match self.phase {
            Phase::Polled => state.can_log(1),
            Phase::Events => {
                if self.pending.len() == 0 {
                    return true;
                }
                let ev: &PresenceEvent = &self.pending[0];
                assert(self@.pending[0] == ev@);
                state.can_log(4) && (!state.begins_call(ev, now.hour) || state.can_begin_call(now))
            },
            Phase::Grace => {
                let ends: bool = state.ends_call(clock);
                assert(ends == grace_effect(state@, now.at, clock) is CallEnds);
                state.can_log(2) && (!ends || state.can_end_call(now))
            },
            Phase::Cap => state.can_log(1),
            _ => true,
        }
    }

    /// Takes in the new events of a poll.
    fn queue(&mut self, events: Vec<PresenceEvent>)
        ensures
            final(self)@ == (CycleModel {
                phase: Phase::Events,
                pending: event_models(events@),
            }),
    {
        let mut pending: VecDeque<PresenceEvent> = VecDeque::new();
        let mut i: usize = 0;
        while i < events.len()
            invariant
                i <= events@.len(),
                pending@.len() == i,
                forall|j: int| 0 <= j < i ==> (#[trigger] pending@[j])@ == events@[j]@,
            decreases events@.len() - i,
        {
            pending.push_back(events[i].clone());
            i = i + 1;
        }
        self.pending = pending;
        self.phase = Phase::Events;
        assert(self@.pending =~= event_models(events@));
    }

    /// Processes the next new event, if there is one.
    fn next_event(&mut self, state: &mut AppState, now: LocalTime, clock: u64) -> (r: Task)
        requires
            old(self)@.phase == Phase::Events,
            has_room(old(self)@, old(state)@, now, clock),
        ensures
            (final(self)@, final(state)@, r) == next_step(
                old(self)@,
                old(state)@,
                Report::Done,
                now,
                clock,
            ),
    {
        let ghost before = self@.pending;
        match self.pending.pop_front() {
            Some(ev) => {
                proof {
                    assert(before[0] == ev@);
                    assert(event_models(self.pending@) =~= before.drop_first());
                }
                match state.take_presence(&ev, now, clock) {
                    PresenceEffect::CallBegins => {
                        self.phase = Phase::CallStarted;
                        Task::RecordStart(now)
                    },
                    _ => Task::Nothing,
                }
            },
            None => {
                self.phase = Phase::Grace;
                Task::Nothing
            },
        }
    }

    /// Takes the next step, given what the outside work before it gave. Says
    /// what outside work comes next.
    pub fn next(&mut self, state: &mut AppState, report: Report, now: LocalTime, clock: u64) -> (r:
        Task)
        requires
            has_room(old(self)@, old(state)@, now, clock),
        ensures
            (final(self)@, final(state)@, r) == next_step(
                old(self)@,
                old(state)@,
                report,
                now,
                clock,
            ),
    {
        match self.phase {
            Phase::Override => match state.override_step() {
                CycleStart::Poll => {
                    self.phase = Phase::Polled;
                    Task::Poll
                },
                CycleStart::Hold(Some(order)) => {
                    self.phase = Phase::Rest;
                    Task::Perform(order)
                },
                CycleStart::Hold(None) => Task::Wait,
            },
            Phase::Polled => match report {
                Report::Events(events) => {
                    state.note_poll(events.len(), now.at);
                    self.queue(events);
                    Task::Nothing
                },
                _ => {
                    self.phase = Phase::Override;
                    Task::Wait
                },
            },
            Phase::Events => self.next_event(state, now, clock),
            Phase::CallStarted => {
                if let Report::Recorded(id) = report {
                    state.call_recorded(id);
                }
                self.phase = Phase::Events;
                Task::Perform(Order::ShowCall)
            },
            Phase::Grace => match state.grace_step(now, clock) {
                GraceEffect::CallEnds(Some(call)) => {
                    self.phase = Phase::CallEnded;
                    Task::RecordEnd(call, now)
                },
                GraceEffect::CallEnds(None) => {
                    self.phase = Phase::Cap;
                    Task::Perform(Order::ShowIdle)
                },
                _ => {
                    self.phase = Phase::Cap;
                    Task::Nothing
                },
            },
            Phase::CallEnded => {
                self.phase = Phase::Cap;
                Task::Perform(Order::ShowIdle)
            },
            Phase::Cap => {
                if state.cap_step(now.at) {
                    self.phase = Phase::Rest;
                    Task::Perform(Order::ShowIdle)
                } else {
                    self.phase = Phase::Override;
                    Task::Wait
                }
            },
            Phase::Rest => {
                self.phase = Phase::Override;
                Task::Wait
            },
        }
    }
}

// ---------------------------------------------------------------------------
// Laws
// ---------------------------------------------------------------------------

/// How far a cycle still is from its end.
pub open spec fn distance(c: CycleModel) -> nat {
    match c.phase {
        Phase::Override => 0,
        Phase::Rest => 1,
        Phase::Cap => 2,
        Phase::CallEnded => 3,
        Phase::Grace => 4,
        Phase::Events => 5 + 2 * c.pending.len(),
        Phase::CallStarted => 6 + 2 * c.pending.len(),
        Phase::Polled => 5,
    }
}

/// A cycle that is under way comes to its end, once the poll has been taken in:
/// each step brings it nearer, and only its last step waits for the next cycle.
pub proof fn cycles_end(c: CycleModel, m: AppModel, report: Report, now: LocalTime, clock: u64)
    requires
        c.phase != Phase::Override,
        c.phase != Phase::Polled,
    ensures
        ({
            let (after, _, task) = next_step(c, m, report, now, clock);
            &&& distance(after) < distance(c)
            &&& task == Task::Wait <==> after.phase == Phase::Override
        }),
{
}

/// While an override is in force, a cycle neither polls nor changes the state.
pub proof fn overrides_short_circuit(
    c: CycleModel,
    m: AppModel,
    report: Report,
    now: LocalTime,
    clock: u64,
)
    requires
        c.phase == Phase::Override,
        m.override_mode != OverrideMode::Auto,
    ensures
        ({
            let (after, state, task) = next_step(c, m, report, now, clock);
            &&& state == m
            &&& task == Task::Wait || task is Perform
            &&& after.phase == Phase::Override || after.phase == Phase::Rest
        }),
{
}

/// The grace timer is never set without a call, wherever the cycle stands.
pub proof fn cycles_keep_grace_within_calls(
    c: CycleModel,
    m: AppModel,
    report: Report,
    now: LocalTime,
    clock: u64,
)
    requires
        grace_belongs_to_a_call(m),
    ensures
        grace_belongs_to_a_call(next_step(c, m, report, now, clock).1),
{
}

/// The state after a series of presence events, in order.
pub open spec fn after_events(
    m: AppModel,
    events: Seq<PresenceEventModel>,
    now: LocalTime,
    clock: u64,
) -> AppModel
    decreases events.len(),
{
    if events.len() == 0 {
        m
    } else {
        after_events(after_presence(m, events[0], now, clock), events.drop_first(), now, clock)
    }
}

/// A cycle after a number of steps without reports, at one point in time.
pub open spec fn after_steps(
    c: CycleModel,
    m: AppModel,
    count: nat,
    now: LocalTime,
    clock: u64,
) -> (CycleModel, AppModel)
    decreases count,
{
    if count == 0 {
        (c, m)
    } else {
        let (d, n, _) = next_step(c, m, Report::Done, now, clock);
        after_steps(d, n, (count - 1) as nat, now, clock)
    }
}

/// How many steps it takes to process events: two for one that begins a call.
pub open spec fn steps_for(
    m: AppModel,
    events: Seq<PresenceEventModel>,
    now: LocalTime,
    clock: u64,
) -> nat
    decreases events.len(),
{
    if events.len() == 0 {
        0
    } else {
        let begins = presence_effect(m, events[0], now.hour) == PresenceEffect::CallBegins;
        let rest = steps_for(
            after_presence(m, events[0], now, clock),
            events.drop_first(),
            now,
            clock,
        );
        if begins {
            rest + 2
        } else {
            rest + 1
        }
    }
}

/// The new events of a poll are processed in order, all of them, before the grace
/// timer is looked at.
pub proof fn events_come_before_grace(
    m: AppModel,
    events: Seq<PresenceEventModel>,
    now: LocalTime,
    clock: u64,
)
    ensures
        after_steps(
            CycleModel { phase: Phase::Events, pending: events },
            m,
            steps_for(m, events, now, clock) + 1,
            now,
            clock,
        ) == (
            CycleModel { phase: Phase::Grace, pending: Seq::empty() },
            after_events(m, events, now, clock),
        ),
    decreases events.len(),
{
    reveal_with_fuel(after_steps, 3);
    let c = CycleModel { phase: Phase::Events, pending: events };
    if events.len() == 0 {
        assert(events =~= Seq::empty());
    } else {
        events_come_before_grace(
            after_presence(m, events[0], now, clock),
            events.drop_first(),
            now,
            clock,
        );
    }
}

/// The grace timer is looked at before the length of the call, and then the cycle
/// ends: its last state is that after both.
pub proof fn grace_comes_before_the_cap(
    m: AppModel,
    pending: Seq<PresenceEventModel>,
    now: LocalTime,
    clock: u64,
)
    ensures
        ({
            let c = CycleModel { phase: Phase::Grace, pending };
            let graced = after_grace(m, now, clock);
            let recorded: nat = if grace_effect(m, now.at, clock) matches GraceEffect::CallEnds(
                Some(_),
            ) {
                1
            } else {
                0
            };
            let rested: nat = if over_cap(graced, now.at) {
                1
            } else {
                0
            };
            after_steps(c, m, 2 + recorded + rested, now, clock) == (
                CycleModel { phase: Phase::Override, pending },
                after_cap(graced, now.at),
            )
        }),
{
    reveal_with_fuel(after_steps, 5);
}

/// A poll's events are all taken up, in their order; a poll that failed leaves the
/// state as it was and ends the cycle.
pub proof fn polled_events_are_taken_up(
    c: CycleModel,
    m: AppModel,
    events: Vec<PresenceEvent>,
    now: LocalTime,
    clock: u64,
)
    requires
        c.phase == Phase::Polled,
    ensures
        ({
            let (after, state, task) = next_step(c, m, Report::Events(events), now, clock);
            &&& after.phase == Phase::Events
            &&& after.pending.len() == events@.len()
            &&& forall|i: int| 0 <= i < events@.len() ==> after.pending[i] == (#[trigger] events@[i])@
            &&& task == Task::Nothing
            &&& state == (AppModel { events: state.events, notices: state.notices, ..m })
        }),
        ({
            let (after, state, task) = next_step(c, m, Report::Done, now, clock);
            &&& after.phase == Phase::Override
            &&& state == m
            &&& task == Task::Wait
        }),
{
}

/// A call that begins is recorded with the time of the event, and then shown. If it
/// could be recorded, its row is remembered.
pub proof fn begun_calls_are_recorded_and_shown(
    m: AppModel,
    events: Seq<PresenceEventModel>,
    report: Report,
    now: LocalTime,
    clock: u64,
    later: LocalTime,
    later_clock: u64,
)
    requires
        events.len() > 0,
    ensures
        ({
            let c = CycleModel { phase: Phase::Events, pending: events };
            let (after, state, task) = next_step(c, m, Report::Done, now, clock);
            let (shown, last, order) = next_step(after, state, report, later, later_clock);
            let begins = m.call_start is None && state.call_start is Some;
            &&& after.pending == events.drop_first()
            &&& state == after_presence(m, events[0], now, clock)
            &&& begins ==> task == Task::RecordStart(now)
            &&& !begins ==> task == Task::Nothing && after.phase == Phase::Events
            &&& begins ==> {
                &&& order == Task::Perform(Order::ShowCall)
                &&& shown.phase == Phase::Events && shown.pending == after.pending
                &&& report matches Report::Recorded(id) ==> last.current_call_id == Some(id)
                &&& report is Done ==> last == state
                &&& last.call_start == state.call_start
            }
        }),
{
}

/// A call that the grace timer ends is recorded, if it is in the history, and then
/// the idle config is shown; one that the cap forgets is not recorded. Otherwise
/// the timer and the cap lead to no outside work.
pub proof fn ended_calls_are_recorded_and_hidden(
    m: AppModel,
    now: LocalTime,
    clock: u64,
    report: Report,
)
    ensures
        ({
            let c = CycleModel { phase: Phase::Grace, pending: Seq::empty() };
            let (after, state, task) = next_step(c, m, report, now, clock);
            let expired = m.grace_until matches Some(t) && clock >= t;
            let ends = expired && !m.triggered();
            let recorded = ends && m.call_start is Some && m.current_call_id is Some;
            &&& state == after_grace(m, now, clock)
            &&& !ends ==> task == Task::Nothing && after.phase == Phase::Cap
            &&& ends && !recorded ==> task == Task::Perform(Order::ShowIdle) && after.phase
                == Phase::Cap
            &&& recorded ==> {
                &&& task matches Task::RecordEnd(call, at) && Some(call.id) == m.current_call_id
                    && at == now
                &&& next_step(after, state, report, now, clock).2 == Task::Perform(Order::ShowIdle)
                &&& next_step(after, state, report, now, clock).0.phase == Phase::Cap
            }
        }),
        ({
            let c = CycleModel { phase: Phase::Cap, pending: Seq::empty() };
            let (after, state, task) = next_step(c, m, report, now, clock);
            &&& state == after_cap(m, now.at)
            &&& m.call_start is Some && state.call_start is None ==> task == Task::Perform(
                Order::ShowIdle,
            )
            &&& state.call_start == m.call_start ==> task == Task::Wait
        }),
{
}

/// While an override is in force, the bulb is told what it says, unless it displays
/// that already, and the cycle rests.
pub proof fn overrides_are_performed(m: AppModel, report: Report, now: LocalTime, clock: u64)
    ensures
        ({
            let c = CycleModel { phase: Phase::Override, pending: Seq::empty() };
            let task = next_step(c, m, report, now, clock).2;
            &&& m.override_mode == OverrideMode::Auto ==> task == Task::Poll
            &&& m.override_mode == OverrideMode::ForceRed ==> task == if m.display
                == DisplayState::Call {
                Task::Wait
            } else {
                Task::Perform(Order::ShowCall)
            }
            &&& m.override_mode == OverrideMode::ForceOff ==> task == if m.display
                == DisplayState::Off {
                Task::Wait
            } else {
                Task::Perform(Order::SwitchOff)
            }
        }),
{
}

} // verus!
