//! The call history: rows as they are stored, and their summary.

use crate::clock::{days_before, earlier, format_dt, is_before, is_ordinary_time, moment_of, parse_dt, rfc3339_reading, rfc3339_writing, truncated_div, LocalTime, Moment};
use crate::text::{first_difference_decides, optional_text, same_text, sorts_before, text_less, text_order_is_total, text_order_is_transitive};
use vstd::prelude::*;
use vstd::seq_lib::*;
use vstd::string::*;

verus! {

/// Days of event history to keep. Older rows are pruned at startup.
pub const EVENT_RETENTION_DAYS: i64 = 30;

/// Days of call history to keep. Older rows are pruned at startup.
pub const CALL_RETENTION_DAYS: i64 = 90;

/// A call in the history.
#[derive(Debug, Clone, Copy, PartialEq, Eq, Structural)]
pub struct CallRow {
    pub id: i64,
    pub started_at: Moment,
    pub ended_at: Option<Moment>,
    pub duration_secs: Option<i64>,
}

// ---------------------------------------------------------------------------
// Rows
// ---------------------------------------------------------------------------

/// The call of a row as it is stored, where the notations of its times have been
/// read. An unreadable start counts as now, an unreadable end as none.
pub open spec fn call_of_columns(
    id: i64,
    started: Option<Moment>,
    ended: Option<Moment>,
    duration_secs: Option<i64>,
    now: Moment,
) -> CallRow {
    CallRow {
        id,
        started_at: match started {
            Some(t) => t,
            None => now,
        },
        ended_at: ended,
        duration_secs,
    }
}

/// The reading of an optional notation.
pub open spec fn optional_reading(s: Option<Seq<char>>) -> Option<Moment> {
    match s {
        Some(s) => moment_of(rfc3339_reading(s)),
        None => None,
    }
}

/// Puts a call together from its columns.
pub fn call_from_columns(
    id: i64,
    started: Option<Moment>,
    ended: Option<Moment>,
    duration_secs: Option<i64>,
    now: Moment,
) -> (r: CallRow)
    ensures
        r == call_of_columns(id, started, ended, duration_secs, now),
{
    CallRow { id, started_at: started.unwrap_or(now), ended_at: ended, duration_secs }
}

/// A point in time as it is stored: its notation, and what that is read as.
#[derive(Debug)]
pub struct StoredTime {
    pub text: String,
    pub at: Option<Moment>,
}

impl StoredTime {
    /// Reads a notation.
    pub fn read(text: String) -> (r: Self)
        ensures
            r.text@ == text@,
            r.at == moment_of(rfc3339_reading(text@)),
    {
        let at: Option<Moment> = parse_dt(text.as_str());
        StoredTime { text, at }
    }
}

/// A call as it is stored.
#[derive(Debug)]
pub struct StoredCall {
    pub id: i64,
    pub started: StoredTime,
    pub ended: Option<Moment>,
    pub duration_secs: Option<i64>,
}

impl StoredCall {
    /// Reads the columns of a stored call.
    pub fn read(
        id: i64,
        started: String,
        ended: &Option<String>,
        duration_secs: Option<i64>,
    ) -> (r: Self)
        ensures
            r.id == id,
            r.started.text@ == started@,
            r.started.at == moment_of(rfc3339_reading(started@)),
            r.ended == optional_reading(optional_text(*ended)),
            r.duration_secs == duration_secs,
    {
        let ended: Option<Moment> = match ended {
            Some(s) => parse_dt(s.as_str()),
            None => None,
        };
        StoredCall { id, started: StoredTime::read(started), ended, duration_secs }
    }

    fn copy(&self) -> (r: Self)
        ensures
            r == *self,
    {
        StoredCall {
            id: self.id,
            started: StoredTime { text: self.started.text.clone(), at: self.started.at },
            ended: self.ended,
            duration_secs: self.duration_secs,
        }
    }

    /// The call of the row.
    pub open spec fn row_spec(self, now: Moment) -> CallRow {
        call_of_columns(self.id, self.started.at, self.ended, self.duration_secs, now)
    }

    /// The call of the row.
    pub fn row(&self, now: Moment) -> (r: CallRow)
        ensures
            r == self.row_spec(now),
    {
        call_from_columns(self.id, self.started.at, self.ended, self.duration_secs, now)
    }
}

/// The notation under which a clock reading is stored. That of an ordinary time
/// is read back by [`StoredTime::read`] as that time.
pub fn stored_time(now: LocalTime) -> (r: Option<String>)
    ensures
        optional_text(r) == rfc3339_writing(now.at.secs, now.at.nanos, now.offset),
        is_ordinary_time(now.at.secs, now.at.nanos, now.offset) ==> r is Some && moment_of(
            rfc3339_reading(r->Some_0@),
        ) == Some(now.at),
{
    format_dt(now.at, now.offset)
}

// ---------------------------------------------------------------------------
// Listing and pruning
// ---------------------------------------------------------------------------

/// The point in time from which on history is listed or kept, with its notation.
#[derive(Debug)]
pub struct Cutoff {
    pub at: Moment,
    pub text: String,
}

impl Cutoff {
    /// The cutoff at a clock reading; none if it has no notation.
    pub fn new(t: LocalTime) -> (r: Option<Self>)
        ensures
            match r {
                Some(c) => c.at == t.at && rfc3339_writing(t.at.secs, t.at.nanos, t.offset) == Some(
                    c.text@,
                ),
                None => rfc3339_writing(t.at.secs, t.at.nanos, t.offset) is None,
            },
            is_ordinary_time(t.at.secs, t.at.nanos, t.offset) ==> r is Some,
    {
        match stored_time(t) {
            Some(text) => Some(Cutoff { at: t.at, text }),
            None => None,
        }
    }
}

/// True if a stored time lies before a cutoff: as points in time, whatever the
/// offsets of their notations. A notation that cannot be read is compared as text.
pub open spec fn lies_before(t: StoredTime, cutoff: Cutoff) -> bool {
    match t.at {
        Some(at) => earlier(at, cutoff.at),
        None => text_less(t.text@, cutoff.text@),
    }
}

fn is_older(t: &StoredTime, cutoff: &Cutoff) -> (r: bool)
    ensures
        r == lies_before(*t, *cutoff),
{
    match t.at {
        Some(at) => is_before(at, cutoff.at),
        None => sorts_before(t.text.as_str(), cutoff.text.as_str()),
    }
}

/// The calls that did not start before a cutoff.
pub open spec fn calls_since(calls: Seq<StoredCall>, cutoff: Cutoff) -> Seq<StoredCall> {
    calls.filter(|c: StoredCall| !lies_before(c.started, cutoff))
}

/// True if call `a` is newer than call `b`: it started later, where an unreadable
/// start counts as now. Calls that started at the same time come in the order of
/// their notations, and then of their ids.
pub open spec fn newer(a: StoredCall, b: StoredCall, now: Moment) -> bool {
    let (x, y) = (a.row_spec(now).started_at, b.row_spec(now).started_at);
    earlier(y, x) || x == y && (text_less(b.started.text@, a.started.text@) || a.started.text@
        == b.started.text@ && a.id > b.id)
}

/// True if no call stands behind an older one.
pub open spec fn newest_first(calls: Seq<StoredCall>, now: Moment) -> bool {
    forall|i: int, j: int|
        0 <= i < j < calls.len() ==> !newer(#[trigger] calls[j], #[trigger] calls[i], now)
}

/// Of two calls with different ids exactly one is newer than the other.
pub proof fn newer_is_settled(a: StoredCall, b: StoredCall, now: Moment)
    ensures
        a.id != b.id ==> newer(a, b, now) || newer(b, a, now),
        !(newer(a, b, now) && newer(b, a, now)),
{
    text_order_is_total(a.started.text@, b.started.text@);
}

/// If `a` is not newer than `b`, nor `b` than `c`, then `a` is not newer than `c`.
proof fn lemma_not_newer(a: StoredCall, b: StoredCall, c: StoredCall, now: Moment)
    requires
        !newer(a, b, now),
        !newer(b, c, now),
    ensures
        !newer(a, c, now),
{
    let (x, y, z) = (a.started.text@, b.started.text@, c.started.text@);
    text_order_is_total(x, y);
    text_order_is_total(y, z);
    text_order_is_total(x, z);
    if text_less(x, y) && text_less(y, z) {
        text_order_is_transitive(x, y, z);
    }
    if text_less(z, x) && text_less(x, y) {
        text_order_is_transitive(z, x, y);
    }
    if text_less(y, z) && text_less(z, x) {
        text_order_is_transitive(y, z, x);
    }
}

fn is_newer(a: &StoredCall, b: &StoredCall, now: Moment) -> (r: bool)
    ensures
        r == newer(*a, *b, now),
{
    let x: Moment = a.row(now).started_at;
    let y: Moment = b.row(now).started_at;
    if x != y {
        return is_before(y, x);
    }
    if same_text(a.started.text.as_str(), b.started.text.as_str()) {
        proof {
            text_order_is_total(a.started.text@, b.started.text@);
        }
        return a.id > b.id;
    }
    sorts_before(b.started.text.as_str(), a.started.text.as_str())
}

/// Adds a call to a list, in front of the first older one.
fn add_in_order(calls: &mut Vec<StoredCall>, call: StoredCall, now: Moment)
    requires
        newest_first(old(calls)@, now),
    ensures
        newest_first(final(calls)@, now),
        final(calls)@.to_multiset() == old(calls)@.to_multiset().insert(call),
{
    let ghost before = calls@;
    let mut k: usize = calls.len();
    while k > 0 && is_newer(&call, &calls[k - 1], now)
        invariant
            calls@ == before,
            newest_first(before, now),
            k <= before.len(),
            forall|j: int| k <= j < before.len() ==> newer(call, #[trigger] before[j], now),
        decreases k,
    {
        k = k - 1;
    }
    let ghost added = call;
    calls.insert(k, call);
    proof {
        to_multiset_insert(before, k as int, added);
        assert forall|a: int, b: int| 0 <= a < b < calls@.len() implies !newer(
            #[trigger] calls@[b],
            #[trigger] calls@[a],
            now,
        ) by {
            let x = if a < k { a } else { a - 1 };
            let y = if b < k { b } else { b - 1 };
            if a != k {
                assert(calls@[a] == before[x]);
            }
            if b != k {
                assert(calls@[b] == before[y]);
            }
            if a == k {
                newer_is_settled(added, before[y], now);
            }
            if b == k && a < k - 1 {
                lemma_not_newer(added, before[k - 1], before[a], now);
            }
        }
    }
}

/// The calls that did not start before a cutoff, newest first.
pub fn list_since(calls: &Vec<StoredCall>, cutoff: &Cutoff, now: Moment) -> (r: Vec<StoredCall>)
    ensures
        newest_first(r@, now),
        r@.to_multiset() == calls_since(calls@, *cutoff).to_multiset(),
{
    let mut r: Vec<StoredCall> = Vec::new();
    let mut i: usize = 0;
    proof {
        reveal(Seq::filter);
        assert(calls@.take(0) == Seq::<StoredCall>::empty());
    }
    while i < calls.len()
        invariant
            i <= calls@.len(),
            newest_first(r@, now),
            r@.to_multiset() == calls_since(calls@.take(i as int), *cutoff).to_multiset(),
        decreases calls@.len() - i,
    {
        let call: &StoredCall = &calls[i];
        proof {
            reveal(Seq::filter);
            assert(calls@.take(i + 1).drop_last() == calls@.take(i as int));
            assert(calls@.take(i + 1).last() == *call);
            to_multiset_build(calls_since(calls@.take(i as int), *cutoff), *call);
        }
        if !is_older(&call.started, cutoff) {
            add_in_order(&mut r, call.copy(), now);
        }
        i = i + 1;
    }
    assert(calls@.take(calls@.len() as int) == calls@);
    r
}

/// The calls of stored rows, in order.
pub fn call_rows(calls: &Vec<StoredCall>, now: Moment) -> (r: Vec<CallRow>)
    ensures
        r@ == Seq::new(calls@.len(), |i: int| calls@[i].row_spec(now)),
{
    let mut r: Vec<CallRow> = Vec::new();
    let mut i: usize = 0;
    while i < calls.len()
        invariant
            i <= calls@.len(),
            r@.len() == i,
            forall|j: int| 0 <= j < i ==> #[trigger] r@[j] == calls@[j].row_spec(now),
        decreases calls@.len() - i,
    {
        r.push(calls[i].row(now));
        i = i + 1;
    }
    r
}

/// The ids of the rows from before a cutoff, in order.
pub open spec fn stale_ids_spec(rows: Seq<(i64, StoredTime)>, cutoff: Cutoff) -> Seq<i64> {
    rows.filter(|row: (i64, StoredTime)| lies_before(row.1, cutoff)).map_values(
        |row: (i64, StoredTime)| row.0,
    )
}

/// The ids of the rows to prune, given the times of all rows: those from before
/// the cutoff.
pub fn stale_ids(rows: &Vec<(i64, StoredTime)>, cutoff: &Cutoff) -> (r: Vec<i64>)
    ensures
        r@ == stale_ids_spec(rows@, *cutoff),
{
    let mut r: Vec<i64> = Vec::new();
    let mut i: usize = 0;
    proof {
        reveal(Seq::filter);
        assert(rows@.take(0) == Seq::<(i64, StoredTime)>::empty());
    }
    while i < rows.len()
        invariant
            i <= rows@.len(),
            r@ == stale_ids_spec(rows@.take(i as int), *cutoff),
        decreases rows@.len() - i,
    {
        proof {
            reveal(Seq::filter);
            assert(rows@.take(i + 1).drop_last() == rows@.take(i as int));
            assert(rows@.take(i + 1).last() == rows@[i as int]);
        }
        if is_older(&rows[i].1, cutoff) {
            r.push(rows[i].0);
        }
        i = i + 1;
        assert(r@ =~= stale_ids_spec(rows@.take(i as int), *cutoff));
    }
    assert(rows@.take(rows@.len() as int) == rows@);
    r
}

/// A listing that asks for no more days than calls are kept misses no pruned call
/// whose start can be read.
pub proof fn pruned_calls_were_not_listed(
    call: StoredCall,
    now: Moment,
    days: i64,
    kept: Cutoff,
    listed: Cutoff,
)
    requires
        days <= CALL_RETENTION_DAYS,
        days_before(now, CALL_RETENTION_DAYS) == Some(kept.at),
        days_before(now, days) == Some(listed.at),
        call.started.at is Some,
        lies_before(call.started, kept),
    ensures
        lies_before(call.started, listed),
{
}

// ---------------------------------------------------------------------------
// Summary
// ---------------------------------------------------------------------------

/// The number of days that a query asks for.
pub open spec fn days_asked_for(days: Option<i64>) -> i64 {
    if days is None {
        7
    } else if days->Some_0 < 1 {
        1
    } else {
        days->Some_0
    }
}

/// A week is listed unless the query says otherwise, and never less than a day.
pub proof fn a_day_is_listed_at_least(days: i64)
    ensures
        days_asked_for(None) == 7,
        days_asked_for(Some(days)) >= 1,
        days >= 1 ==> days_asked_for(Some(days)) == days,
        days < 1 ==> days_asked_for(Some(days)) == 1,
{
}

/// The number of days that a query asks for: 7 unless it says otherwise, and at
/// least one.
pub fn days_to_list(days: Option<i64>) -> (r: i64)
    ensures
        r == match days {
            Some(n) => if n < 1 {
                1
            } else {
                n as int
            },
            None => 7,
        },
        r == days_asked_for(days),
{
    match days {
        Some(n) => if n < 1 {
            1
        } else {
            n
        },
        None => 7,
    }
}

/// Totals of a list of calls.
#[derive(Debug, Clone, Copy, PartialEq, Eq, Structural)]
pub struct CallSummary {
    pub total_calls: u64,
    pub total_duration_secs: i64,
    pub avg_duration_secs: i64,
}

/// The duration of a call; none is nothing.
pub open spec fn duration_of(row: CallRow) -> int {
    match row.duration_secs {
        Some(d) => d as int,
        None => 0,
    }
}

/// The total duration of calls.
pub open spec fn total_duration(rows: Seq<CallRow>) -> int
    decreases rows.len(),
{
    if rows.len() == 0 {
        0
    } else {
        total_duration(rows.drop_last()) + duration_of(rows.last())
    }
}

/// True if an `i64` holds the total duration of the first calls, however many.
pub open spec fn totals_fit(rows: Seq<CallRow>) -> bool {
    forall|i: int|
        0 <= i <= rows.len() ==> i64::MIN <= #[trigger] total_duration(rows.take(i)) <= i64::MAX
}

/// The average duration of calls, rounded toward zero; nothing without calls.
pub open spec fn average_duration(rows: Seq<CallRow>) -> int {
    if rows.len() == 0 {
        0
    } else {
        truncated_div(total_duration(rows), rows.len() as int)
    }
}

/// True if [`summarize`] may be called on the calls.
pub fn durations_fit(rows: &Vec<CallRow>) -> (r: bool)
    ensures
        r == totals_fit(rows@),
{
    let mut total: i64 = 0;
    let mut i: usize = 0;
    assert(rows@.take(0) == Seq::<CallRow>::empty());
    while i < rows.len()
        invariant
            i <= rows@.len(),
            total == total_duration(rows@.take(i as int)),
            forall|j: int|
                0 <= j <= i ==> i64::MIN <= #[trigger] total_duration(rows@.take(j)) <= i64::MAX,
        decreases rows@.len() - i,
    {
        proof {
            assert(rows@.take(i + 1).drop_last() == rows@.take(i as int));
            assert(rows@.take(i + 1).last() == rows@[i as int]);
        }
        let d: i64 = rows[i].duration_secs.unwrap_or(0);
        let sum: i128 = total as i128 + d as i128;
        assert(sum == total_duration(rows@.take(i + 1)));
        if sum < i64::MIN as i128 || sum > i64::MAX as i128 {
            return false;
        }
        total = sum as i64;
        i = i + 1;
    }
    true
}

/// Totals of a list of calls.
pub fn summarize(rows: &Vec<CallRow>) -> (r: CallSummary)
    requires
        totals_fit(rows@),
    ensures
        r.total_calls == rows@.len(),
        r.total_duration_secs == total_duration(rows@),
        r.avg_duration_secs == average_duration(rows@),
{
    let mut total: i64 = 0;
    let mut i: usize = 0;
    let n: usize = rows.len();
    assert(rows@.take(0) == Seq::<CallRow>::empty());
    while i < n
        invariant
            i <= n,
            n == rows@.len(),
            totals_fit(rows@),
            total == total_duration(rows@.take(i as int)),
        decreases n - i,
    {
        proof {
            assert(rows@.take(i + 1).drop_last() == rows@.take(i as int));
            assert(rows@.take(i + 1).last() == rows@[i as int]);
            assert(i64::MIN <= total_duration(rows@.take(i + 1)) <= i64::MAX);
        }
        total = total + rows[i].duration_secs.unwrap_or(0);
        i = i + 1;
    }
    assert(rows@.take(n as int) == rows@);
    CallSummary {
        total_calls: n as u64,
        total_duration_secs: total,
        avg_duration_secs: average(total, n as u64),
    }
}

fn average(total: i64, count: u64) -> (r: i64)
    ensures
        r == if count == 0 {
            0
        } else {
            truncated_div(total as int, count as int)
        },
{
    if count == 0 {
        return 0;
    }
    if total >= 0 {
        let q: u64 = total as u64 / count;
        assert(q <= total) by (nonlinear_arith)
            requires
                count >= 1,
                total >= 0,
                q == total as u64 / count,
        ;
        q as i64
    } else {
        let magnitude: i128 = -(total as i128);
        let q: i128 = magnitude / count as i128;
        assert(0 <= q <= magnitude) by (nonlinear_arith)
            requires
                count >= 1,
                magnitude >= 0,
                q == magnitude / count as i128,
        ;
        (-q) as i64
    }
}

// ---------------------------------------------------------------------------
// Laws
// ---------------------------------------------------------------------------

/// A stored call is the call of its columns; only a start that cannot be read is
/// replaced, by now.
pub proof fn stored_calls_are_their_columns(c: StoredCall, now: Moment)
    ensures
        c.row_spec(now).id == c.id,
        c.row_spec(now).ended_at == c.ended,
        c.row_spec(now).duration_secs == c.duration_secs,
        c.started.at matches Some(start) ==> c.row_spec(now).started_at == start,
        c.started.at is None ==> c.row_spec(now).started_at == now,
{
}

/// A time lies before a cutoff if it is earlier than it. Where a notation cannot be
/// read, the texts are compared: by the first character in which they differ.
pub proof fn times_lie_before_by_time(t: StoredTime, cutoff: Cutoff, i: int)
    ensures
        t.at matches Some(at) ==> (lies_before(t, cutoff) <==> at.secs < cutoff.at.secs || (at.secs
            == cutoff.at.secs && at.nanos < cutoff.at.nanos)),
        t.at is None && 0 <= i < t.text@.len() && i < cutoff.text@.len() && t.text@.take(i)
            == cutoff.text@.take(i) && t.text@[i] != cutoff.text@[i] ==> (lies_before(t, cutoff)
            <==> t.text@[i] < cutoff.text@[i]),
{
    if t.at is None && 0 <= i < t.text@.len() && i < cutoff.text@.len() && t.text@.take(i)
        == cutoff.text@.take(i) && t.text@[i] != cutoff.text@[i] {
        first_difference_decides(t.text@, cutoff.text@, i);
    }
}

/// A listing holds the calls that did not start before the cutoff, and no others;
/// pruning names the rows from before it, and no others.
pub proof fn cutoffs_divide_the_history(
    calls: Seq<StoredCall>,
    c: StoredCall,
    rows: Seq<(i64, StoredTime)>,
    id: i64,
    cutoff: Cutoff,
)
    ensures
        calls_since(calls, cutoff).contains(c) <==> calls.contains(c) && !lies_before(
            c.started,
            cutoff,
        ),
        stale_ids_spec(rows, cutoff).contains(id) <==> exists|i: int|
            0 <= i < rows.len() && (#[trigger] rows[i]).0 == id && lies_before(rows[i].1, cutoff),
{
    lemma_filter_contains(calls, |c: StoredCall| !lies_before(c.started, cutoff), c);
    let stale = |row: (i64, StoredTime)| lies_before(row.1, cutoff);
    let gone = rows.filter(stale);
    let ids = stale_ids_spec(rows, cutoff);
    if ids.contains(id) {
        let j = choose|j: int| 0 <= j < ids.len() && ids[j] == id;
        assert(gone.contains(gone[j]));
        lemma_filter_contains(rows, stale, gone[j]);
        let i = choose|i: int| 0 <= i < rows.len() && rows[i] == gone[j];
        assert(rows[i].0 == id);
    }
    if exists|i: int|
        0 <= i < rows.len() && (#[trigger] rows[i]).0 == id && lies_before(rows[i].1, cutoff) {
        let i = choose|i: int|
            0 <= i < rows.len() && (#[trigger] rows[i]).0 == id && lies_before(rows[i].1, cutoff);
        lemma_filter_contains(rows, stale, rows[i]);
        let j = choose|j: int| 0 <= j < gone.len() && gone[j] == rows[i];
        assert(ids[j] == id);
    }
}

proof fn lemma_filter_contains<A>(s: Seq<A>, pred: spec_fn(A) -> bool, x: A)
    ensures
        s.filter(pred).contains(x) <==> s.contains(x) && pred(x),
    decreases s.len(),
{
    reveal(Seq::filter);
    if s.len() > 0 {
        let init = s.drop_last();
        let before = init.filter(pred);
        lemma_filter_contains(init, pred, x);
        assert(s =~= init.push(s.last()));
        lemma_push_contains(init, s.last(), x);
        lemma_push_contains(before, s.last(), x);
    }
}

proof fn lemma_push_contains<A>(s: Seq<A>, last: A, x: A)
    ensures
        s.push(last).contains(x) <==> s.contains(x) || x == last,
{
    if s.contains(x) {
        let i = choose|i: int| 0 <= i < s.len() && s[i] == x;
        assert(s.push(last)[i] == x);
    }
    if x == last {
        assert(s.push(last)[s.len() as int] == x);
    }
    if s.push(last).contains(x) && x != last {
        let i = choose|i: int| 0 <= i < s.push(last).len() && s.push(last)[i] == x;
        assert(s[i] == x);
    }
}

/// Of two calls the one that started later is the newer one. If both started at the
/// same time, the later notation decides, and then the greater id.
pub proof fn later_calls_are_newer(a: StoredCall, b: StoredCall, now: Moment)
    requires
        a.started.at is Some,
        b.started.at is Some,
    ensures
        earlier(b.started.at->Some_0, a.started.at->Some_0) ==> newer(a, b, now) && !newer(
            b,
            a,
            now,
        ),
        a.started.at == b.started.at && text_less(b.started.text@, a.started.text@) ==> newer(
            a,
            b,
            now,
        ),
        a.started == b.started && a.id > b.id ==> newer(a, b, now),
{
}

/// The total is added up call by call, where a call without a duration adds
/// nothing.
pub proof fn totals_add_up(rows: Seq<CallRow>, row: CallRow)
    ensures
        total_duration(Seq::empty()) == 0,
        row.duration_secs matches Some(d) ==> total_duration(rows.push(row)) == total_duration(rows)
            + d,
        row.duration_secs is None ==> total_duration(rows.push(row)) == total_duration(rows),
{
    assert(rows.push(row).drop_last() == rows);
}

/// The average, times the number of calls, is the total but for a rest that is
/// smaller than that number.
pub proof fn averages_are_of_the_total(rows: Seq<CallRow>)
    ensures
        rows.len() == 0 ==> average_duration(rows) == 0,
        rows.len() > 0 && total_duration(rows) >= 0 ==> 0 <= total_duration(rows)
            - average_duration(rows) * rows.len() < rows.len(),
        rows.len() > 0 && total_duration(rows) < 0 ==> 0 <= average_duration(rows) * rows.len()
            - total_duration(rows) < rows.len(),
{
    if rows.len() > 0 {
        let n = rows.len() as int;
        let total = total_duration(rows);
        if total >= 0 {
            vstd::arithmetic::div_mod::lemma_fundamental_div_mod(total, n);
            vstd::arithmetic::div_mod::lemma_mod_bound(total, n);
            assert(n * (total / n) == (total / n) * n) by (nonlinear_arith);
        } else {
            vstd::arithmetic::div_mod::lemma_fundamental_div_mod(-total, n);
            vstd::arithmetic::div_mod::lemma_mod_bound(-total, n);
            assert(n * ((-total) / n) == -((-((-total) / n)) * n)) by (nonlinear_arith);
        }
    }
}

/// In a listing no call stands behind one that started earlier, where both starts
/// can be read; where one cannot, now is its start.
pub proof fn listings_are_newest_first(calls: Seq<StoredCall>, now: Moment, i: int, j: int)
    requires
        newest_first(calls, now),
        0 <= i < j < calls.len(),
    ensures
        !earlier(calls[i].row_spec(now).started_at, calls[j].row_spec(now).started_at),
        calls[i].row_spec(now).started_at == calls[j].row_spec(now).started_at ==> !text_less(
            calls[i].started.text@,
            calls[j].started.text@,
        ),
        calls[i].started.at == calls[j].started.at && calls[i].started.text@
            == calls[j].started.text@ ==> calls[i].id >= calls[j].id,
{
    assert(!newer(calls[j], calls[i], now));
}

/// A listing that is newest first, of calls with different ids, is the only one: of
/// any two of its calls the order settles which comes first.
pub proof fn newest_first_is_settled(calls: Seq<StoredCall>, now: Moment, i: int, j: int)
    requires
        newest_first(calls, now),
        0 <= i < j < calls.len(),
        calls[i].id != calls[j].id,
    ensures
        newer(calls[i], calls[j], now),
{
    assert(!newer(calls[j], calls[i], now));
    newer_is_settled(calls[i], calls[j], now);
}

/// The end of a call is what its notation is read as; a call without one has none.
pub proof fn ends_are_read_if_there(s: Seq<char>)
    ensures
        optional_reading(None) is None,
        optional_reading(Some(s)) == moment_of(rfc3339_reading(s)),
{
}

} // verus!
