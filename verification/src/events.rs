//! The event log: a bounded ring buffer of recent events.

use crate::clock::Moment;
use std::collections::VecDeque;
use vstd::prelude::*;

verus! {

/// Maximum number of events that are kept. Older events are pruned when the
/// buffer is full.
pub const EVENT_BUFFER_CAP: usize = 1000;

/// How grave an event is.
#[derive(Debug, Clone, Copy, PartialEq, Eq, Structural)]
pub enum EventLevel {
    Dbg,
    Inf,
    Okay,
    Wrn,
    Error,
}

impl EventLevel {
    /// The abbreviation that stands for the level.
    pub open spec fn label_spec(self) -> Seq<char> {
        match self {
            EventLevel::Dbg => "DBG"@,
            EventLevel::Inf => "INF"@,
            EventLevel::Okay => "OK"@,
            EventLevel::Wrn => "WRN"@,
            EventLevel::Error => "ERR"@,
        }
    }

    /// The abbreviation that stands for the level.
    pub fn label(self) -> (r: &'static str)
        ensures
            r@ == self.label_spec(),
    {
        match self {
            EventLevel::Dbg => "DBG",
            EventLevel::Inf => "INF",
            EventLevel::Okay => "OK",
            EventLevel::Wrn => "WRN",
            EventLevel::Error => "ERR",
        }
    }
}

/// A message for the program's own log, where everything is emitted that happens.
#[derive(Debug)]
pub struct Notice {
    pub level: EventLevel,
    pub message: String,
}

/// The values of a [`Notice`].
#[verifier::ext_equal]
pub struct NoticeModel {
    pub level: EventLevel,
    pub message: Seq<char>,
}

impl View for Notice {
    type V = NoticeModel;

    open spec fn view(&self) -> NoticeModel {
        NoticeModel { level: self.level, message: self.message@ }
    }
}

/// The values of a sequence of notices.
pub open spec fn notice_models(s: Seq<Notice>) -> Seq<NoticeModel> {
    Seq::new(s.len(), |i: int| s[i]@)
}

/// Something that happened.
#[derive(Debug)]
pub struct Event {
    pub id: u64,
    pub ts: Moment,
    pub level: EventLevel,
    pub message: String,
}

/// The values of an [`Event`].
#[verifier::ext_equal]
pub struct EventModel {
    pub id: nat,
    pub ts: Moment,
    pub level: EventLevel,
    pub message: Seq<char>,
}

impl View for Event {
    type V = EventModel;

    open spec fn view(&self) -> EventModel {
        EventModel { id: self.id as nat, ts: self.ts, level: self.level, message: self.message@ }
    }
}

impl Clone for Event {
    /// An event with the same values.
    fn clone(&self) -> (r: Self)
        ensures
            r@ == self@,
    {
        Self { id: self.id, ts: self.ts, level: self.level, message: self.message.clone() }
    }
}

/// The values of a sequence of events.
pub open spec fn logged_models(s: Seq<Event>) -> Seq<EventModel> {
    Seq::new(s.len(), |i: int| s[i]@)
}

/// The state of an [`EventLog`]: the events that are kept, oldest first, and
/// the id of the next one.
#[verifier::ext_equal]
pub struct EventLogModel {
    pub events: Seq<EventModel>,
    pub next_id: nat,
}

impl EventLogModel {
    /// The log after another event. A full buffer drops its oldest event.
    #[verifier::opaque]
    pub open spec fn with_event(self, level: EventLevel, message: Seq<char>, ts: Moment) -> Self {
        let kept = if self.events.len() >= EVENT_BUFFER_CAP {
            self.events.drop_first()
        } else {
            self.events
        };
        EventLogModel {
            events: kept.push(EventModel { id: self.next_id, ts, level, message }),
            next_id: self.next_id + 1,
        }
    }

    /// What every log satisfies: it holds no more than [`EVENT_BUFFER_CAP`]
    /// events, and the ids of these are consecutive and end before the next one.
    pub open spec fn well_formed(self) -> bool {
        &&& self.events.len() <= EVENT_BUFFER_CAP
        &&& self.events.len() < self.next_id
        &&& forall|i: int|
            0 <= i < self.events.len() ==> (#[trigger] self.events[i]).id == self.next_id
                - self.events.len() + i
    }

    /// The index after the newest event that is not skipped.
    pub open spec fn page_end(self, offset: nat) -> int {
        if offset >= self.events.len() {
            0
        } else {
            self.events.len() - offset
        }
    }

    /// The newest `limit` events after the `offset` newest ones have been
    /// skipped, newest last.
    pub open spec fn page(self, limit: nat, offset: nat) -> Seq<EventModel> {
        let end = self.page_end(offset);
        let start = if limit >= end {
            0
        } else {
            end - limit
        };
        self.events.subrange(start, end)
    }
}

/// Logging keeps a log well-formed.
pub proof fn logging_keeps_the_log_well_formed(
    log: EventLogModel,
    level: EventLevel,
    message: Seq<char>,
    ts: Moment,
)
    requires
        log.well_formed(),
    ensures
        log.with_event(level, message, ts).well_formed(),
        log.with_event(level, message, ts).next_id == log.next_id + 1,
{
    reveal(EventLogModel::with_event);
}

/// A new event is the newest one of the log.
pub proof fn logged_event_is_the_newest(
    log: EventLogModel,
    level: EventLevel,
    message: Seq<char>,
    ts: Moment,
)
    ensures
        log.with_event(level, message, ts).page(1, 0) == seq![
            EventModel { id: log.next_id, ts, level, message },
        ],
{
    reveal(EventLogModel::with_event);
}

/// Two adjacent pages make up one page of both their sizes.
pub proof fn pages_fit_together(log: EventLogModel, first: nat, second: nat, offset: nat)
    ensures
        log.page(first + second, offset) == log.page(second, offset + first) + log.page(
            first,
            offset,
        ),
{
}

/// A page never holds more than its limit, and together with the skipped
/// events never more than there are.
pub proof fn page_is_bounded(log: EventLogModel, limit: nat, offset: nat)
    ensures
        log.page(limit, offset).len() <= limit,
        log.page(limit, offset).len() <= log.events.len(),
        offset == 0 && limit >= log.events.len() ==> log.page(limit, offset) == log.events,
{
}

/// A bounded ring buffer of recent events (newest at the back).
pub struct EventLog {
    events: VecDeque<Event>,
    next_id: u64,
}

impl View for EventLog {
    type V = EventLogModel;

    closed spec fn view(&self) -> EventLogModel {
        EventLogModel { events: logged_models(self.events@), next_id: self.next_id as nat }
    }
}

impl EventLog {
    #[verifier::type_invariant]
    spec fn inv(self) -> bool {
        self@.well_formed()
    }

    /// An empty log. Ids start at 1.
    pub fn new() -> (r: Self)
        ensures
            r@.events.len() == 0,
            r@.next_id == 1,
    {
        EventLog { events: VecDeque::with_capacity(EVENT_BUFFER_CAP), next_id: 1 }
    }

    /// The id of the next event.
    pub fn next_id(&self) -> (r: u64)
        ensures
            r == self@.next_id,
    {
        self.next_id
    }

    /// Appends an event.
    pub fn push(&mut self, level: EventLevel, message: String, ts: Moment)
        requires
            old(self)@.next_id < u64::MAX,
        ensures
            final(self)@ == old(self)@.with_event(level, message@, ts),
            final(self)@.next_id == old(self)@.next_id + 1,
    {
        proof {
            use_type_invariant(&*self);
            reveal(EventLogModel::with_event);
        }
        let id: u64 = self.next_id;
        let mut events: VecDeque<Event> = VecDeque::new();
        std::mem::swap(&mut events, &mut self.events);
        let ghost all = logged_models(events@);
        if events.len() >= EVENT_BUFFER_CAP {
            let _ = events.pop_front();
            assert(logged_models(events@) == all.drop_first());
        }
        let ghost kept = logged_models(events@);
        let event: Event = Event { id, ts, level, message };
        let ghost model = event@;
        events.push_back(event);
        assert(logged_models(events@) == kept.push(model));
        *self = EventLog { events, next_id: id + 1 };
    }

    /// Number of events in the buffer.
    pub fn len(&self) -> (r: usize)
        ensures
            r == self@.events.len(),
            self@.well_formed(),
    {
        proof {
            use_type_invariant(self);
        }
        self.events.len()
    }

    /// The most recent `limit` events (newest last). `offset` skips from the
    /// newest end.
    pub fn page(&self, limit: usize, offset: usize) -> (r: Vec<Event>)
        ensures
            logged_models(r@) == self@.page(limit as nat, offset as nat),
            self@.well_formed(),
    {
        proof {
            use_type_invariant(self);
        }
        let total: usize = self.events.len();
        let end: usize = total.saturating_sub(offset);
        let start: usize = end.saturating_sub(limit);
        let mut r: Vec<Event> = Vec::new();
        let mut i: usize = start;
        while i < end
            invariant
                start <= i <= end <= self.events@.len(),
                logged_models(r@) == self@.events.subrange(start as int, i as int),
            decreases end - i,
        {
            let ghost before = r@;
            let event: Event = self.events[i].clone();
            let ghost model = event@;
            r.push(event);
            assert(logged_models(r@) == logged_models(before).push(model));
            assert(self@.events.subrange(start as int, i + 1) == self@.events.subrange(
                start as int,
                i as int,
            ).push(self@.events[i as int]));
            i = i + 1;
        }
        r
    }
}

// ---------------------------------------------------------------------------
// Laws of paging
// ---------------------------------------------------------------------------

/// Events are counted from the newest: the page of one event after `offset` skipped
/// ones is the event at that place from the end, and none beyond the oldest.
pub proof fn pages_count_from_the_newest(log: EventLogModel, offset: nat)
    ensures
        offset < log.events.len() ==> log.page(1, offset) == seq![
            log.events[log.events.len() - 1 - offset],
        ],
        offset >= log.events.len() ==> log.page(1, offset).len() == 0,
        log.page(0, offset).len() == 0,
{
}

/// A new event moves the older ones back by one place, and drops only the oldest of
/// a full log, which holds a thousand.
pub proof fn older_events_move_back(
    log: EventLogModel,
    level: EventLevel,
    message: Seq<char>,
    ts: Moment,
    offset: nat,
)
    requires
        log.well_formed(),
        offset < 999,
    ensures
        log.with_event(level, message, ts).page(1, offset + 1) == log.page(1, offset),
        log.with_event(level, message, ts).events.len() == if log.events.len() < 1000 {
            log.events.len() + 1
        } else {
            1000
        },
{
    reveal(EventLogModel::with_event);
    let after = log.with_event(level, message, ts);
    assert(after.page(1, offset + 1) =~= log.page(1, offset));
}

/// Each level has its own label.
pub proof fn labels_of_levels(level: EventLevel)
    ensures
        level == EventLevel::Dbg ==> level.label_spec() == "DBG"@,
        level == EventLevel::Inf ==> level.label_spec() == "INF"@,
        level == EventLevel::Okay ==> level.label_spec() == "OK"@,
        level == EventLevel::Wrn ==> level.label_spec() == "WRN"@,
        level == EventLevel::Error ==> level.label_spec() == "ERR"@,
{
}

/// The values of events and notices are those of each, in their order.
pub proof fn logs_keep_their_elements(events: Seq<Event>, notices: Seq<Notice>, i: int)
    ensures
        logged_models(events).len() == events.len(),
        notice_models(notices).len() == notices.len(),
        0 <= i < events.len() ==> {
            let e = logged_models(events)[i];
            e.id == events[i].id && e.ts == events[i].ts && e.level == events[i].level && e.message
                == events[i].message@
        },
        0 <= i < notices.len() ==> {
            let n = notice_models(notices)[i];
            n.level == notices[i].level && n.message == notices[i].message@
        },
{
}

} // verus!
