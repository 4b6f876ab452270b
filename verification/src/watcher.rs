//! Tailing of Teams log files.
//!
//! Multi-profile Teams (multiple work/school/personal accounts on the same
//! box) writes to several log files concurrently. Picking only the latest file
//! flips non-deterministically between profiles as each writes chat
//! heartbeats, dropping presence events on the floor. Instead the
//! [`LogWatcher`] keeps a per-file position map and tails them all.
//!
//! The watcher decides what is to be read; opening and reading the files is up
//! to its caller.

use crate::clock::Moment;
use crate::lines::{count_finished, finished, finished_len, finished_part_ends_a_line, finished_part_is_finished, finishing_goes_on, first_line_feed, lines_go_on, lines_of, lines_spec, no_line_feed_before_the_first, no_line_feed_is_unfinished, one_line_is_one_line, unfinished, unfinished_line_is_unfinished, CARRIAGE_RETURN, LINE_FEED};
use crate::models::Presence;
use crate::paths::{is_path_sorted, sorted_paths};
use crate::platform::{join_path, joined, Platform};
use crate::positions::{kept_positions, path_listed};
use crate::presence::{line_event, parse_line, LinePatterns, PresenceEvent, PresenceEventModel};
use crate::text::{optional_text, same_text, trim_spec, trim_text};
use vstd::hash_map::StringHashMap;
use vstd::prelude::*;
use vstd::slice::slice_subrange;
use vstd::string::*;
use vstd::utf8::*;

verus! {

// ---------------------------------------------------------------------------
// Events of a piece of log
// ---------------------------------------------------------------------------

/// The text that `String::from_utf8_lossy` makes of bytes.
pub uninterp spec fn utf8_lossy(bytes: Seq<u8>) -> Seq<char>;

/// `String::from_utf8_lossy`: decodes UTF-8 and puts replacement characters in
/// the place of invalid sequences. Valid UTF-8 is decoded as it stands. Teams
/// logs can contain interspersed binary bytes.
#[verifier::external_body]
pub(crate) fn lossy_text(bytes: &[u8]) -> (r: String)
    ensures
        r@ == utf8_lossy(bytes@),
        valid_utf8(bytes@) ==> r@ == decode_utf8(bytes@),
{
    String::from_utf8_lossy(bytes).into_owned()
}

/// The values of a sequence of events.
pub open spec fn event_models(s: Seq<PresenceEvent>) -> Seq<PresenceEventModel> {
    Seq::new(s.len(), |i: int| s[i]@)
}

/// The event of a line that is reported: none for a line without a presence
/// marker, and none for an unknown presence.
pub open spec fn reported_event(p: Platform, line: Seq<char>) -> Option<PresenceEventModel> {
    match line_event(p, line) {
        Some(ev) => if ev.presence == Presence::Unknown {
            None
        } else {
            Some(ev)
        },
        None => None,
    }
}

/// The events that lines report, in the order of the lines.
pub open spec fn reported_events(p: Platform, lines: Seq<Seq<char>>) -> Seq<PresenceEventModel>
    decreases lines.len(),
{
    if lines.len() == 0 {
        Seq::empty()
    } else {
        let before = reported_events(p, lines.drop_last());
        match reported_event(p, lines.last()) {
            Some(ev) => before.push(ev),
            None => before,
        }
    }
}

/// The texts of lines.
pub open spec fn decoded(lines: Seq<Seq<u8>>) -> Seq<Seq<char>> {
    Seq::new(lines.len(), |i: int| utf8_lossy(lines[i]))
}

/// The events that a piece of log reports.
pub open spec fn events_of_bytes(p: Platform, bytes: Seq<u8>) -> Seq<PresenceEventModel> {
    reported_events(p, decoded(lines_spec(bytes)))
}

/// The characters of a sequence of strings.
pub open spec fn line_texts(lines: Seq<String>) -> Seq<Seq<char>> {
    Seq::new(lines.len(), |i: int| lines[i]@)
}

/// The texts of the lines of a piece of log.
fn decoded_lines(bytes: &[u8]) -> (r: Vec<String>)
    ensures
        line_texts(r@) == decoded(lines_spec(bytes@)),
{
    let lines: Vec<Vec<u8>> = lines_of(bytes);
    let ghost model = lines_spec(bytes@);
    let mut r: Vec<String> = Vec::new();
    let mut i: usize = 0;
    while i < lines.len()
        invariant
            i <= lines@.len(),
            lines@.len() == model.len(),
            forall|j: int| 0 <= j < lines@.len() ==> (#[trigger] lines@[j])@ == model[j],
            r@.len() == i,
            forall|j: int| 0 <= j < i ==> (#[trigger] r@[j])@ == utf8_lossy(model[j]),
        decreases lines@.len() - i,
    {
        assert(lines@[i as int]@ == model[i as int]);
        r.push(lossy_text(lines[i].as_slice()));
        i = i + 1;
    }
    r
}

/// The events that lines report, in order.
pub fn events_in_lines(p: Platform, patterns: &LinePatterns, lines: &Vec<String>) -> (r: Vec<
    PresenceEvent,
>)
    ensures
        event_models(r@) == reported_events(p, line_texts(lines@)),
{
    let ghost model = line_texts(lines@);
    let mut r: Vec<PresenceEvent> = Vec::new();
    let mut i: usize = 0;
    assert(model.take(0) == Seq::<Seq<char>>::empty());
    assert(event_models(r@) == Seq::<PresenceEventModel>::empty());
    while i < lines.len()
        invariant
            i <= lines@.len(),
            model == line_texts(lines@),
            event_models(r@) == reported_events(p, model.take(i as int)),
        decreases lines@.len() - i,
    {
        proof {
            assert(model.take(i + 1).drop_last() == model.take(i as int));
            assert(model.take(i + 1).last() == lines@[i as int]@);
        }
        if let Some(ev) = parse_line(p, patterns, lines[i].as_str()) {
            if ev.presence != Presence::Unknown {
                let ghost before = r@;
                let ghost added = ev;
                r.push(ev);
                assert(event_models(r@) == event_models(before).push(added@));
            }
        }
        i = i + 1;
    }
    assert(model.take(model.len() as int) == model);
    r
}

/// The events that a piece of log reports, line by line.
pub fn events_in_bytes(p: Platform, patterns: &LinePatterns, bytes: &[u8]) -> (r: Vec<PresenceEvent>)
    ensures
        event_models(r@) == events_of_bytes(p, bytes@),
{
    events_in_lines(p, patterns, &decoded_lines(bytes))
}

/// True if a piece of log ends within a line that reports an event already.
pub open spec fn tail_reports(p: Platform, bytes: Seq<u8>) -> bool {
    events_of_bytes(p, unfinished(bytes)).len() > 0
}

/// The number of bytes of a piece of log that are done with. A line at the end
/// that still is being written and reports nothing yet is not among them.
pub open spec fn taken_len(p: Platform, bytes: Seq<u8>) -> nat {
    if tail_reports(p, bytes) {
        bytes.len()
    } else {
        finished_len(bytes)
    }
}

/// The bytes at the end of a piece of log that are to be read again.
pub open spec fn held_back(p: Platform, bytes: Seq<u8>) -> Seq<u8> {
    bytes.skip(taken_len(p, bytes) as int)
}

/// The number of bytes of a piece of log that are done with.
pub fn count_taken(p: Platform, patterns: &LinePatterns, bytes: &[u8]) -> (n: usize)
    ensures
        n == taken_len(p, bytes@),
        n <= bytes@.len(),
{
    let count: usize = count_finished(bytes);
    let tail: &[u8] = slice_subrange(bytes, count, bytes.len());
    assert(tail@ == unfinished(bytes@));
    let events: Vec<PresenceEvent> = events_in_bytes(p, patterns, tail);
    assert(event_models(events@).len() == events@.len());
    if events.len() > 0 {
        bytes.len()
    } else {
        count
    }
}

/// An unknown presence is never reported, and every reported event is that of
/// one of the lines.
pub proof fn unknown_presence_is_skipped(p: Platform, lines: Seq<Seq<char>>, i: int)
    requires
        0 <= i < reported_events(p, lines).len(),
    ensures
        reported_events(p, lines)[i].presence != Presence::Unknown,
        exists|j: int|
            0 <= j < lines.len() && line_event(p, #[trigger] lines[j]) == Some(
                reported_events(p, lines)[i],
            ),
    decreases lines.len(),
{
    let init = lines.drop_last();
    let before = reported_events(p, init);
    if i < before.len() {
        unknown_presence_is_skipped(p, init, i);
        let j = choose|j: int|
            0 <= j < init.len() && line_event(p, #[trigger] init[j]) == Some(before[i]);
        assert(init[j] == lines[j]);
    } else {
        assert(lines[lines.len() - 1] == lines.last());
    }
}

/// Events come out in the order of their lines: what the lines of a longer
/// text report begins with what its first lines report.
pub proof fn events_are_chronological(p: Platform, first: Seq<Seq<char>>, rest: Seq<Seq<char>>)
    ensures
        reported_events(p, first + rest) == reported_events(p, first) + reported_events(p, rest),
    decreases rest.len(),
{
    if rest.len() == 0 {
        assert(first + rest == first);
    } else {
        events_are_chronological(p, first, rest.drop_last());
        assert((first + rest).drop_last() == first + rest.drop_last());
        assert((first + rest).last() == rest.last());
        let a = reported_events(p, first);
        let b = reported_events(p, rest.drop_last());
        if let Some(ev) = reported_event(p, rest.last()) {
            assert((a + b).push(ev) == a + b.push(ev));
        }
    }
}

// ---------------------------------------------------------------------------
// Errors
// ---------------------------------------------------------------------------

/// Why a poll has found nothing to read.
#[derive(Debug)]
pub enum PresenceError {
    Io(String),
    LogDirNotFound(String),
    NoLogFiles(String),
}

impl PresenceError {
    /// The error in words.
    pub open spec fn message_spec(self) -> Seq<char> {
        match self {
            PresenceError::Io(e) => "io error: "@ + e@,
            PresenceError::LogDirNotFound(dir) => "teams log directory not found: "@ + dir@,
            PresenceError::NoLogFiles(dir) => "no MSTeams_*.log files found in "@ + dir@,
        }
    }

    /// The error in words.
    pub fn message(&self) -> (r: String)
        ensures
            r@ == self.message_spec(),
    {
        match self {
            PresenceError::Io(e) => "io error: ".to_owned().concat(e.as_str()),
            PresenceError::LogDirNotFound(dir) => "teams log directory not found: ".to_owned().concat(
                dir.as_str(),
            ),
            PresenceError::NoLogFiles(dir) => "no MSTeams_*.log files found in ".to_owned().concat(
                dir.as_str(),
            ),
        }
    }
}

// ---------------------------------------------------------------------------
// Polling
// ---------------------------------------------------------------------------

/// The glob pattern of the log files in a directory.
pub fn log_file_pattern(p: Platform, dir: &str) -> (r: String)
    ensures
        r@ == joined(p, dir@, "MSTeams_*.log"@),
{
    join_path(p, dir, "MSTeams_*.log")
}

/// A part of a log file that is to be read: the bytes `from..to`.
#[derive(Debug)]
pub struct PlannedRead {
    pub path: String,
    pub from: u64,
    pub to: u64,
}

/// The values of a [`PlannedRead`].
#[verifier::ext_equal]
pub struct ReadModel {
    pub path: Seq<char>,
    pub from: u64,
    pub to: u64,
}

impl View for PlannedRead {
    type V = ReadModel;

    open spec fn view(&self) -> ReadModel {
        ReadModel { path: self.path@, from: self.from, to: self.to }
    }
}

/// The values of a sequence of planned reads.
pub open spec fn read_models(s: Seq<PlannedRead>) -> Seq<ReadModel> {
    Seq::new(s.len(), |i: int| s[i]@)
}

/// A size, where an unknown one counts as zero.
pub open spec fn size_or_zero(size: Option<u64>) -> u64 {
    match size {
        Some(n) => n,
        None => 0,
    }
}

/// The positions of files that are taken up at their ends.
pub open spec fn seeded(
    positions: Map<Seq<char>, u64>,
    logs: Seq<String>,
    sizes: Seq<Option<u64>>,
) -> Map<Seq<char>, u64>
    decreases logs.len(),
{
    if logs.len() == 0 {
        positions
    } else {
        seeded(positions, logs.drop_last(), sizes.drop_last()).insert(
            logs.last()@,
            size_or_zero(sizes.last()),
        )
    }
}

/// Where reading of a known file resumes: at its position, or at the start if
/// the file has shrunk below that.
pub open spec fn resume_at(position: u64, size: u64) -> u64 {
    if size < position {
        0
    } else {
        position
    }
}

/// The position of a known file that has been found with a size: a file that has
/// shrunk is rewound to its start.
pub open spec fn rewound(position: u64, size: Option<u64>) -> u64 {
    match size {
        Some(n) => resume_at(position, n),
        None => position,
    }
}

/// What there is to read of a known file; nothing if its size is unknown or it
/// has not changed.
pub open spec fn unread(path: Seq<char>, position: u64, size: Option<u64>) -> Option<ReadModel> {
    match size {
        Some(n) => if n == resume_at(position, n) {
            None
        } else {
            Some(ReadModel { path, from: resume_at(position, n), to: n })
        },
        None => None,
    }
}

/// True if a path repeats the one before it; such a path is passed over.
pub open spec fn is_repeated(logs: Seq<String>, i: int) -> bool {
    i > 0 && logs[i - 1]@ == logs[i]@
}

/// The positions and the planned reads after the logs have been gone through in
/// order: files that have not been seen before are taken up at their ends, and
/// of the others the unread part is to be read. Files that have shrunk are
/// rewound, whether or not they hold anything to read.
pub open spec fn planned(
    positions: Map<Seq<char>, u64>,
    logs: Seq<String>,
    sizes: Seq<Option<u64>>,
) -> (Map<Seq<char>, u64>, Seq<ReadModel>)
    decreases logs.len(),
{
    if logs.len() == 0 {
        (positions, Seq::empty())
    } else {
        let (known, reads) = planned(positions, logs.drop_last(), sizes.drop_last());
        let path = logs.last()@;
        if is_repeated(logs, logs.len() - 1) {
            (known, reads)
        } else if known.contains_key(path) {
            let after = known.insert(path, rewound(known[path], sizes.last()));
            match unread(path, known[path], sizes.last()) {
                Some(r) => (after, reads.push(r)),
                None => (after, reads),
            }
        } else {
            (known.insert(path, size_or_zero(sizes.last())), reads)
        }
    }
}

/// A long-lived watcher that tails every `MSTeams_*.log` file in a directory.
///
/// Handles log rotation (Teams sometimes creates a new log mid-day) and new
/// profile log files that appear mid-session. Reads only new bytes since the
/// last poll; on the first poll it seeds every existing log with its current
/// size so that yesterday's status changes are not replayed.
pub struct LogWatcher {
    log_dir: String,
    positions: StringHashMap<u64>,
    initialized: bool,
}

/// The state of a [`LogWatcher`].
#[verifier::ext_equal]
pub struct WatcherModel {
    pub dir: Seq<char>,
    pub positions: Map<Seq<char>, u64>,
    pub initialized: bool,
}

impl View for LogWatcher {
    type V = WatcherModel;

    closed spec fn view(&self) -> WatcherModel {
        WatcherModel {
            dir: self.log_dir@,
            positions: self.positions@,
            initialized: self.initialized,
        }
    }
}

/// The state after a poll.
pub open spec fn after_poll(w: WatcherModel, logs: Seq<String>, sizes: Seq<Option<u64>>) -> WatcherModel {
    if w.initialized {
        WatcherModel {
            positions: planned(w.positions, logs, sizes).0.filter_keys(
                |k: Seq<char>| path_listed(logs, k),
            ),
            ..w
        }
    } else {
        WatcherModel {
            positions: seeded(w.positions, logs, sizes),
            initialized: true,
            ..w
        }
    }
}

/// What a poll has to read: nothing the first time.
pub open spec fn poll_reads(w: WatcherModel, logs: Seq<String>, sizes: Seq<Option<u64>>) -> Seq<ReadModel> {
    if w.initialized {
        planned(w.positions, logs, sizes).1
    } else {
        Seq::empty()
    }
}

/// The state after a number of bytes have been taken in from a file.
pub open spec fn after_read(w: WatcherModel, read: ReadModel, count: nat) -> WatcherModel {
    WatcherModel { positions: w.positions.insert(read.path, (read.from + count) as u64), ..w }
}

impl LogWatcher {
    /// Create a new watcher for the given log directory. The first poll takes
    /// up every `MSTeams_*.log` at its end.
    pub fn new(log_dir: String) -> (w: Self)
        ensures
            w@ == (WatcherModel {
                dir: log_dir@,
                positions: Map::<Seq<char>, u64>::empty(),
                initialized: false,
            }),
    {
        Self { log_dir, positions: StringHashMap::new(), initialized: false }
    }

    /// The directory that is watched.
    pub fn log_dir(&self) -> (r: &str)
        ensures
            r@ == self@.dir,
    {
        self.log_dir.as_str()
    }

    /// The log files to poll, in a deterministic order, given what was found in
    /// the directory.
    pub fn logs_to_poll(&self, p: Platform, dir_exists: bool, found: &Vec<String>) -> (r: Result<
        Vec<String>,
        PresenceError,
    >)
        ensures
            match r {
                Ok(logs) => {
                    &&& dir_exists
                    &&& found@.len() > 0
                    &&& is_path_sorted(p, logs@)
                    &&& logs@.to_multiset() == found@.to_multiset()
                },
                Err(PresenceError::LogDirNotFound(dir)) => !dir_exists && dir@ == self@.dir,
                Err(PresenceError::NoLogFiles(dir)) => dir_exists && found@.len() == 0 && dir@
                    == self@.dir,
                Err(PresenceError::Io(_)) => false,
            },
    {
        if !dir_exists {
            return Err(PresenceError::LogDirNotFound(self.log_dir.clone()));
        }
        if found.len() == 0 {
            return Err(PresenceError::NoLogFiles(self.log_dir.clone()));
        }
        Ok(sorted_paths(p, found))
    }

    /// Starts a poll over the given logs with their current sizes, where these
    /// could be determined. Returns what is to be read from them; what that gave
    /// is then handed to [`LogWatcher::take_parts`].
    pub fn plan_reads(&mut self, logs: &Vec<String>, sizes: &Vec<Option<u64>>) -> (r: Vec<
        PlannedRead,
    >)
        requires
            logs@.len() == sizes@.len(),
        ensures
            final(self)@ == after_poll(old(self)@, logs@, sizes@),
            read_models(r@) == poll_reads(old(self)@, logs@, sizes@),
    {
        let mut reads: Vec<PlannedRead> = Vec::new();
        let ghost start = self.positions@;
        let ghost was = self@;
        let mut i: usize = 0;
        assert(logs@.take(0) == Seq::<String>::empty());
        assert(read_models(reads@) == Seq::<ReadModel>::empty());
        if !self.initialized {
            while i < logs.len()
                invariant
                    i <= logs@.len(),
                    logs@.len() == sizes@.len(),
                    self.log_dir@ == was.dir,
                    self.positions@ == seeded(start, logs@.take(i as int), sizes@.take(i as int)),
                decreases logs@.len() - i,
            {
                proof {
                    assert(logs@.take(i + 1).drop_last() == logs@.take(i as int));
                    assert(sizes@.take(i + 1).drop_last() == sizes@.take(i as int));
                }
                let size: u64 = sizes[i].unwrap_or(0);
                self.positions.insert(logs[i].as_str().to_owned(), size);
                i = i + 1;
            }
            self.initialized = true;
            proof {
                assert(logs@.take(logs@.len() as int) == logs@);
                assert(sizes@.take(sizes@.len() as int) == sizes@);
            }
            return reads;
        }
        while i < logs.len()
            invariant
                i <= logs@.len(),
                logs@.len() == sizes@.len(),
                self.log_dir@ == was.dir,
                self.initialized,
                ({
                    let so_far = planned(start, logs@.take(i as int), sizes@.take(i as int));
                    &&& self.positions@ == so_far.0
                    &&& read_models(reads@) == so_far.1
                }),
            decreases logs@.len() - i,
        {
            proof {
                assert(logs@.take(i + 1).drop_last() == logs@.take(i as int));
                assert(sizes@.take(i + 1).drop_last() == sizes@.take(i as int));
                assert(logs@.take(i + 1).last() == logs@[i as int]);
                assert(sizes@.take(i + 1).last() == sizes@[i as int]);
                assert(is_repeated(logs@.take(i + 1), i as int) == is_repeated(logs@, i as int));
            }
            let path: &str = logs[i].as_str();
            if i > 0 && same_text(logs[i - 1].as_str(), path) {
                i = i + 1;
                continue ;
            }
            match self.positions.get(path) {
                Some(last) => {
                    let last: u64 = *last;
                    let ghost known = self.positions@;
                    assert(known.insert(path@, last) =~= known);
                    if let Some(size) = sizes[i] {
                        let from: u64 = if size < last { 0 } else { last };
                        if size < last {
                            self.positions.insert(path.to_owned(), 0);
                        }
                        if size != from {
                            let ghost before = reads@;
                            let read: PlannedRead = PlannedRead {
                                path: path.to_owned(),
                                from,
                                to: size,
                            };
                            let ghost model = read@;
                            reads.push(read);
                            assert(read_models(reads@) == read_models(before).push(model));
                        }
                    }
                },
                None => {
                    // Either a rotation or a new Teams profile that just came
                    // online: no backlog is replayed.
                    let size: u64 = sizes[i].unwrap_or(0);
                    self.positions.insert(path.to_owned(), size);
                },
            }
            i = i + 1;
        }
        // Files that Teams cleaned up are forgotten, so the map doesn't grow
        // forever.
        self.positions = kept_positions(&self.positions, logs);
        proof {
            assert(logs@.take(logs@.len() as int) == logs@);
            assert(sizes@.take(sizes@.len() as int) == sizes@);
        }
        reads
    }

    /// Takes in the bytes that a planned read gave, which may be fewer than
    /// planned, and returns the presence events in their lines. A line at the end
    /// that still is being written and reports nothing yet is left to be read
    /// again.
    pub fn take_bytes(
        &mut self,
        p: Platform,
        patterns: &LinePatterns,
        read: &PlannedRead,
        bytes: &[u8],
    ) -> (r: Vec<PresenceEvent>)
        requires
            read.from + bytes@.len() <= read.to,
        ensures
            final(self)@ == after_read(old(self)@, read@, taken_len(p, bytes@)),
            event_models(r@) == events_of_bytes(p, bytes@),
    {
        let count: usize = count_taken(p, patterns, bytes);
        self.positions.insert(read.path.as_str().to_owned(), read.from + count as u64);
        events_in_bytes(p, patterns, bytes)
    }
}

/// The events of the parts that could be read, in the order of the parts.
pub open spec fn events_of_parts(p: Platform, parts: Seq<Option<Vec<u8>>>) -> Seq<PresenceEventModel>
    decreases parts.len(),
{
    if parts.len() == 0 {
        Seq::empty()
    } else {
        let before = events_of_parts(p, parts.drop_last());
        match parts.last() {
            Some(bytes) => before + events_of_bytes(p, bytes@),
            None => before,
        }
    }
}

/// The state after the parts that could be read have been taken in.
pub open spec fn after_parts(
    p: Platform,
    w: WatcherModel,
    reads: Seq<ReadModel>,
    parts: Seq<Option<Vec<u8>>>,
) -> WatcherModel
    decreases parts.len(),
{
    if parts.len() == 0 {
        w
    } else {
        let before = after_parts(p, w, reads.drop_last(), parts.drop_last());
        match parts.last() {
            Some(bytes) => after_read(before, reads.last(), taken_len(p, bytes@)),
            None => before,
        }
    }
}

/// True if no more was read than planned.
pub open spec fn within_plan(read: PlannedRead, part: Option<Vec<u8>>) -> bool {
    part matches Some(bytes) ==> read.from + bytes@.len() <= read.to
}

impl LogWatcher {
    /// Ends a poll: takes in what each planned read gave, where it could be
    /// carried out, and returns the new presence events. Events within a single
    /// file are chronological, and those of several files come out in the order
    /// of the planned reads, which is that of the sorted paths.
    pub fn take_parts(
        &mut self,
        p: Platform,
        patterns: &LinePatterns,
        reads: &Vec<PlannedRead>,
        parts: &Vec<Option<Vec<u8>>>,
    ) -> (r: Vec<PresenceEvent>)
        requires
            reads@.len() == parts@.len(),
            forall|i: int| 0 <= i < reads@.len() ==> within_plan(#[trigger] reads@[i], parts@[i]),
        ensures
            final(self)@ == after_parts(p, old(self)@, read_models(reads@), parts@),
            event_models(r@) == events_of_parts(p, parts@),
    {
        let mut r: Vec<PresenceEvent> = Vec::new();
        let mut i: usize = 0;
        let ghost models = read_models(reads@);
        proof {
            assert(parts@.take(0) == Seq::<Option<Vec<u8>>>::empty());
            assert(event_models(r@) == Seq::<PresenceEventModel>::empty());
        }
        while i < reads.len()
            invariant
                i <= reads@.len(),
                reads@.len() == parts@.len(),
                models == read_models(reads@),
                forall|j: int|
                    0 <= j < reads@.len() ==> within_plan(#[trigger] reads@[j], parts@[j]),
                self@ == after_parts(p, old(self)@, models.take(i as int), parts@.take(i as int)),
                event_models(r@) == events_of_parts(p, parts@.take(i as int)),
            decreases reads@.len() - i,
        {
            proof {
                assert(parts@.take(i + 1).drop_last() == parts@.take(i as int));
                assert(parts@.take(i + 1).last() == parts@[i as int]);
                assert(models.take(i + 1).drop_last() == models.take(i as int));
                assert(models.take(i + 1).last() == reads@[i as int]@);
                assert(within_plan(reads@[i as int], parts@[i as int]));
            }
            if let Some(bytes) = &parts[i] {
                let mut more: Vec<PresenceEvent> = self.take_bytes(
                    p,
                    patterns,
                    &reads[i],
                    bytes.as_slice(),
                );
                let ghost before = r@;
                let ghost added = more@;
                r.append(&mut more);
                assert(event_models(r@) == event_models(before) + event_models(added));
            }
            i = i + 1;
        }
        proof {
            assert(parts@.take(parts@.len() as int) == parts@);
            assert(models.take(models.len() as int) == models);
        }
        r
    }
}

// ---------------------------------------------------------------------------
// Verification of a log directory
// ---------------------------------------------------------------------------

/// A log file, and when it was last modified if that could be determined.
#[derive(Debug)]
pub struct LogFile {
    pub path: String,
    pub modified: Option<Moment>,
}

/// What became of reading a log file.
#[derive(Debug)]
pub enum LogContents {
    Bytes(Vec<u8>),
    OpenFailed(String),
    ReadFailed(String),
}

/// What the check of a log directory has found.
#[derive(Debug)]
pub struct VerifyResult {
    pub dir_exists: bool,
    pub log_files_count: usize,
    pub latest_log: Option<String>,
    pub latest_mtime: Option<Moment>,
    pub sample_match: Option<String>,
    pub error: Option<String>,
}

/// The values of a [`VerifyResult`].
#[verifier::ext_equal]
pub struct VerifyModel {
    pub dir_exists: bool,
    pub log_files_count: nat,
    pub latest_log: Option<Seq<char>>,
    pub latest_mtime: Option<Moment>,
    pub sample_match: Option<Seq<char>>,
    pub error: Option<Seq<char>>,
}

impl View for VerifyResult {
    type V = VerifyModel;

    open spec fn view(&self) -> VerifyModel {
        VerifyModel {
            dir_exists: self.dir_exists,
            log_files_count: self.log_files_count as nat,
            latest_log: optional_text(self.latest_log),
            latest_mtime: self.latest_mtime,
            sample_match: optional_text(self.sample_match),
            error: optional_text(self.error),
        }
    }
}

/// True if `a` is not later than `b`.
pub open spec fn not_later(a: Moment, b: Moment) -> bool {
    a.secs < b.secs || (a.secs == b.secs && a.nanos <= b.nanos)
}

/// The index of the file that was modified last, the last one of several that
/// were modified at the same time. Files of unknown age are left out.
pub open spec fn latest_index(files: Seq<LogFile>) -> Option<int>
    decreases files.len(),
{
    if files.len() == 0 {
        None
    } else {
        match (latest_index(files.drop_last()), files.last().modified) {
            (None, Some(_)) => Some(files.len() - 1),
            (Some(i), Some(t)) => if not_later(files[i].modified->Some_0, t) {
                Some(files.len() - 1)
            } else {
                Some(i)
            },
            (earlier, None) => earlier,
        }
    }
}

/// The sample line of a log: the first one that has a presence, even an unknown
/// one.
pub open spec fn sample_line(p: Platform, lines: Seq<Seq<char>>) -> Option<Seq<char>>
    decreases lines.len(),
{
    if lines.len() == 0 {
        None
    } else {
        match line_event(p, lines.first()) {
            Some(ev) => Some(ev.presence.name_spec() + ": "@ + trim_spec(lines.first())),
            None => sample_line(p, lines.drop_first()),
        }
    }
}

/// What is found in a directory that exists.
pub open spec fn verified_dir(
    p: Platform,
    dir: Seq<char>,
    files: Seq<LogFile>,
    contents: LogContents,
) -> VerifyModel {
    let found = VerifyModel {
        dir_exists: true,
        log_files_count: files.len(),
        latest_log: None,
        latest_mtime: None,
        sample_match: None,
        error: None,
    };
    match latest_index(files) {
        Some(i) => {
            let path = files[i].path@;
            VerifyModel {
                latest_log: Some(path),
                latest_mtime: files[i].modified,
                sample_match: match contents {
                    LogContents::Bytes(b) => sample_line(p, decoded(lines_spec(b@))),
                    _ => None,
                },
                error: match contents {
                    LogContents::Bytes(_) => None,
                    LogContents::OpenFailed(e) => Some("could not open "@ + path + ": "@ + e@),
                    LogContents::ReadFailed(e) => Some("could not read "@ + path + ": "@ + e@),
                },
                ..found
            }
        },
        None => VerifyModel {
            error: if files.len() == 0 {
                Some("no MSTeams_*.log files in "@ + dir)
            } else {
                None
            },
            ..found
        },
    }
}

/// The file that was modified last has a known age, and no file of known age is
/// later; there is one as soon as the age of any file is known.
pub proof fn latest_index_is_the_maximum(files: Seq<LogFile>)
    ensures
        match latest_index(files) {
            Some(i) => {
                &&& 0 <= i < files.len()
                &&& files[i].modified is Some
                &&& forall|j: int|
                    0 <= j < files.len() && (#[trigger] files[j]).modified is Some ==> not_later(
                        files[j].modified->Some_0,
                        files[i].modified->Some_0,
                    )
            },
            None => forall|j: int| 0 <= j < files.len() ==> (#[trigger] files[j]).modified is None,
        },
    decreases files.len(),
{
    if files.len() > 0 {
        let init = files.drop_last();
        latest_index_is_the_maximum(init);
        assert forall|j: int| 0 <= j < init.len() implies init[j] == files[j] by {}
        assert(files[files.len() - 1] == files.last());
        assert(forall|j: int| 0 <= j < init.len() ==> #[trigger] files[j] == init[j]);
    }
}

/// The sample line among lines, if any of them has a presence.
pub fn find_sample(p: Platform, patterns: &LinePatterns, lines: &Vec<String>) -> (r: Option<String>)
    ensures
        optional_text(r) == sample_line(p, line_texts(lines@)),
{
    let ghost model = line_texts(lines@);
    let mut i: usize = 0;
    assert(model.skip(0) == model);
    while i < lines.len()
        invariant
            i <= lines@.len(),
            model == line_texts(lines@),
            sample_line(p, model) == sample_line(p, model.skip(i as int)),
        decreases lines@.len() - i,
    {
        proof {
            assert(model.skip(i as int).first() == lines@[i as int]@);
            assert(model.skip(i as int).drop_first() == model.skip(i + 1));
        }
        if let Some(ev) = parse_line(p, patterns, lines[i].as_str()) {
            let mut sample: String = ev.presence.name().to_owned();
            sample.append(": ");
            sample.append(trim_text(lines[i].as_str()).as_str());
            return Some(sample);
        }
        i = i + 1;
    }
    None
}

impl LogWatcher {
    /// The index of the file that [`LogWatcher::verify`] reads.
    pub fn latest_log(files: &Vec<LogFile>) -> (r: Option<usize>)
        ensures
            match r {
                Some(i) => i < files@.len() && latest_index(files@) == Some(i as int),
                None => latest_index(files@) is None,
            },
    {
        let mut latest: Option<usize> = None;
        let mut i: usize = 0;
        assert(files@.take(0) == Seq::<LogFile>::empty());
        while i < files.len()
            invariant
                i <= files@.len(),
                match latest {
                    Some(k) => k < i && latest_index(files@.take(i as int)) == Some(k as int)
                        && files@[k as int].modified is Some,
                    None => latest_index(files@.take(i as int)) is None,
                },
            decreases files@.len() - i,
        {
            proof {
                assert(files@.take(i + 1).drop_last() == files@.take(i as int));
                assert(files@.take(i + 1).last() == files@[i as int]);
            }
            if let Some(t) = files[i].modified {
                match latest {
                    Some(k) => {
                        if let Some(best) = files[k].modified {
                            if best.secs < t.secs || (best.secs == t.secs && best.nanos
                                <= t.nanos) {
                                latest = Some(i);
                            }
                        }
                    },
                    None => {
                        latest = Some(i);
                    },
                }
            }
            i = i + 1;
        }
        assert(files@.take(files@.len() as int) == files@);
        latest
    }

    /// Verify a directory looks like a valid Teams log dir.
    /// Used by the Settings UI "Verify" button. `contents` is what reading the
    /// latest log gave, if there is one.
    pub fn verify(
        p: Platform,
        patterns: &LinePatterns,
        dir: &str,
        dir_exists: bool,
        files: &Vec<LogFile>,
        contents: &LogContents,
    ) -> (r: VerifyResult)
        ensures
            r@ == if dir_exists {
                verified_dir(p, dir@, files@, *contents)
            } else {
                VerifyModel {
                    dir_exists: false,
                    log_files_count: 0,
                    latest_log: None,
                    latest_mtime: None,
                    sample_match: None,
                    error: Some("directory does not exist: "@ + dir@),
                }
            },
    {
        let mut result: VerifyResult = VerifyResult {
            dir_exists: false,
            log_files_count: 0,
            latest_log: None,
            latest_mtime: None,
            sample_match: None,
            error: None,
        };
        if !dir_exists {
            result.error = Some("directory does not exist: ".to_owned().concat(dir));
            return result;
        }
        result.dir_exists = true;
        result.log_files_count = files.len();
        match LogWatcher::latest_log(files) {
            Some(i) => {
                let path: &str = files[i].path.as_str();
                result.latest_mtime = files[i].modified;
                match contents {
                    LogContents::Bytes(bytes) => {
                        let lines: Vec<String> = decoded_lines(bytes.as_slice());
                        result.sample_match = find_sample(p, patterns, &lines);
                    },
                    LogContents::OpenFailed(e) => {
                        let mut error: String = "could not open ".to_owned().concat(path);
                        error.append(": ");
                        error.append(e.as_str());
                        result.error = Some(error);
                    },
                    LogContents::ReadFailed(e) => {
                        let mut error: String = "could not read ".to_owned().concat(path);
                        error.append(": ");
                        error.append(e.as_str());
                        result.error = Some(error);
                    },
                }
                result.latest_log = Some(path.to_owned());
            },
            None => {
                if files.len() == 0 {
                    result.error = Some("no MSTeams_*.log files in ".to_owned().concat(dir));
                }
            },
        }
        result
    }
}

// ---------------------------------------------------------------------------
// Laws of polling
// ---------------------------------------------------------------------------

/// True if no path is listed twice.
pub open spec fn distinct_logs(logs: Seq<String>) -> bool {
    forall|i: int, j: int|
        0 <= i < j < logs.len() ==> (#[trigger] logs[i])@ != (#[trigger] logs[j])@
}

/// The first poll has nothing to read: every log is taken up at its current
/// end, and its backlog is skipped.
pub proof fn first_poll_skips_backlog(
    w: WatcherModel,
    logs: Seq<String>,
    sizes: Seq<Option<u64>>,
    i: int,
)
    requires
        !w.initialized,
        logs.len() == sizes.len(),
        distinct_logs(logs),
        0 <= i < logs.len(),
    ensures
        poll_reads(w, logs, sizes).len() == 0,
        after_poll(w, logs, sizes).initialized,
        after_poll(w, logs, sizes).positions.contains_key(logs[i]@),
        after_poll(w, logs, sizes).positions[logs[i]@] == size_or_zero(sizes[i]),
    decreases logs.len(),
{
    if i < logs.len() - 1 {
        assert(logs.drop_last()[i] == logs[i]);
        assert(distinct_logs(logs.drop_last()));
        first_poll_skips_backlog(w, logs.drop_last(), sizes.drop_last(), i);
        assert(logs[i]@ != logs[logs.len() - 1]@);
    }
}

/// Going through the logs takes up each new file at its end and rewinds the known
/// ones that have shrunk. It changes no other position.
pub proof fn new_files_are_taken_up_at_their_end(
    positions: Map<Seq<char>, u64>,
    logs: Seq<String>,
    sizes: Seq<Option<u64>>,
)
    requires
        logs.len() == sizes.len(),
        distinct_logs(logs),
    ensures
        forall|k: Seq<char>|
            positions.contains_key(k) ==> #[trigger] planned(positions, logs, sizes).0.contains_key(
                k,
            ) && (!path_listed(logs, k) ==> planned(positions, logs, sizes).0[k] == positions[k]),
        forall|i: int|
            0 <= i < logs.len() ==> {
                let path = (#[trigger] logs[i])@;
                let known = planned(positions, logs, sizes).0;
                known.contains_key(path) && known[path] == if positions.contains_key(path) {
                    rewound(positions[path], sizes[i])
                } else {
                    size_or_zero(sizes[i])
                }
            },
        forall|k: Seq<char>| #[trigger]
            planned(positions, logs, sizes).0.contains_key(k) ==> positions.contains_key(k)
                || path_listed(logs, k),
    decreases logs.len(),
{
    if logs.len() > 0 {
        let init = logs.drop_last();
        new_files_are_taken_up_at_their_end(positions, init, sizes.drop_last());
        let before = planned(positions, init, sizes.drop_last()).0;
        let after = planned(positions, logs, sizes).0;
        let last = logs.last()@;
        assert(logs[logs.len() - 1] == logs.last());
        assert(!is_repeated(logs, logs.len() - 1));
        assert(!path_listed(init, last)) by {
            if path_listed(init, last) {
                let j = choose|j: int| 0 <= j < init.len() && (#[trigger] init[j])@ == last;
                assert(logs[j]@ != logs[logs.len() - 1]@);
            }
        }
        assert(path_listed(logs, last));
        assert forall|k: Seq<char>| path_listed(init, k) implies #[trigger] path_listed(logs, k) by {
            let j = choose|j: int| 0 <= j < init.len() && (#[trigger] init[j])@ == k;
            assert(logs[j]@ == k);
        }
        assert forall|i: int| 0 <= i < logs.len() implies {
            let path = (#[trigger] logs[i])@;
            after.contains_key(path) && after[path] == if positions.contains_key(path) {
                rewound(positions[path], sizes[i])
            } else {
                size_or_zero(sizes[i])
            }
        } by {
            if i < init.len() {
                assert(init[i] == logs[i]);
                assert(logs[i]@ != logs[logs.len() - 1]@);
            }
        }
        assert forall|k: Seq<char>| #[trigger] after.contains_key(k) implies positions.contains_key(
            k,
        ) || path_listed(logs, k) by {
            if before.contains_key(k) && path_listed(init, k) {
                let j = choose|j: int| 0 <= j < init.len() && (#[trigger] init[j])@ == k;
                assert(logs[j]@ == k);
            }
        }
    }
}

/// What is planned to be read is exactly the unread part of each known file: it
/// is never empty and never reaches back before the position, except that a
/// file that has shrunk is read from its start.
pub proof fn planned_reads_are_the_unread_parts(
    positions: Map<Seq<char>, u64>,
    logs: Seq<String>,
    sizes: Seq<Option<u64>>,
)
    requires
        logs.len() == sizes.len(),
        distinct_logs(logs),
    ensures
        forall|k: int|
            0 <= k < planned(positions, logs, sizes).1.len() ==> {
                let r = #[trigger] planned(positions, logs, sizes).1[k];
                &&& r.from < r.to
                &&& positions.contains_key(r.path)
                &&& path_listed(logs, r.path)
                &&& r.from == resume_at(positions[r.path], r.to)
            },
        forall|i: int, k: int|
            0 <= i < logs.len() && 0 <= k < planned(positions, logs, sizes).1.len()
                && #[trigger] planned(positions, logs, sizes).1[k].path == (
            #[trigger] logs[i])@ ==> unread(logs[i]@, positions[logs[i]@], sizes[i]) == Some(
                planned(positions, logs, sizes).1[k],
            ),
        forall|i: int|
            0 <= i < logs.len() && positions.contains_key((#[trigger] logs[i])@) ==> match unread(
                logs[i]@,
                positions[logs[i]@],
                sizes[i],
            ) {
                Some(r) => planned(positions, logs, sizes).1.contains(r),
                None => true,
            },
    decreases logs.len(),
{
    if logs.len() > 0 {
        let init = logs.drop_last();
        let n = logs.len() - 1;
        planned_reads_are_the_unread_parts(positions, init, sizes.drop_last());
        new_files_are_taken_up_at_their_end(positions, init, sizes.drop_last());
        let known = planned(positions, init, sizes.drop_last()).0;
        let before = planned(positions, init, sizes.drop_last()).1;
        let after = planned(positions, logs, sizes).1;
        let last = logs.last()@;
        assert(logs[n] == logs.last());
        assert(!is_repeated(logs, n));
        assert(!path_listed(init, last)) by {
            if path_listed(init, last) {
                let j = choose|j: int| 0 <= j < init.len() && (#[trigger] init[j])@ == last;
                assert(logs[j]@ != logs[n]@);
            }
        }
        assert(known.contains_key(last) == positions.contains_key(last));
        let own = if positions.contains_key(last) {
            unread(last, positions[last], sizes[n])
        } else {
            None
        };
        assert(after == match own {
            Some(r) => before.push(r),
            None => before,
        });
        assert(path_listed(logs, last));
        assert forall|k: int| 0 <= k < after.len() implies {
            let r = #[trigger] after[k];
            &&& r.from < r.to
            &&& positions.contains_key(r.path)
            &&& path_listed(logs, r.path)
            &&& r.from == resume_at(positions[r.path], r.to)
        } by {
            if k < before.len() {
                assert(after[k] == before[k]);
                let j = choose|j: int|
                    0 <= j < init.len() && (#[trigger] init[j])@ == before[k].path;
                assert(logs[j]@ == after[k].path);
            }
        }
        assert forall|i: int, k: int|
            0 <= i < logs.len() && 0 <= k < after.len() && #[trigger] after[k].path == (
            #[trigger] logs[i])@ implies unread(logs[i]@, positions[logs[i]@], sizes[i]) == Some(
            after[k],
        ) by {
            if k < before.len() {
                assert(after[k] == before[k]);
                if i < n {
                    assert(init[i] == logs[i]);
                    assert(before[k].path == init[i]@);
                } else {
                    assert(path_listed(init, before[k].path));
                }
            } else if i < n {
                assert(logs[i]@ != logs[n]@);
            }
        }
        assert forall|i: int|
            0 <= i < logs.len() && positions.contains_key((#[trigger] logs[i])@) implies match unread(
            logs[i]@,
            positions[logs[i]@],
            sizes[i],
        ) {
            Some(r) => after.contains(r),
            None => true,
        } by {
            if let Some(r) = unread(logs[i]@, positions[logs[i]@], sizes[i]) {
                if i < n {
                    assert(init[i] == logs[i]);
                    assert(before.contains(r));
                    let k = choose|k: int| 0 <= k < before.len() && before[k] == r;
                    assert(after[k] == r);
                } else {
                    assert(after[after.len() - 1] == r);
                }
            }
        }
    }
}

/// True if the paths of the reads occur among the logs in the same order.
pub open spec fn in_log_order(reads: Seq<ReadModel>, logs: Seq<String>) -> bool
    decreases logs.len(),
{
    if reads.len() == 0 {
        true
    } else if logs.len() == 0 {
        false
    } else if reads.last().path == logs.last()@ {
        in_log_order(reads.drop_last(), logs.drop_last())
    } else {
        in_log_order(reads, logs.drop_last())
    }
}

/// What is planned to be read comes in the order of the logs, so that events
/// across files come out in the order of the sorted paths.
pub proof fn planned_reads_follow_the_logs(
    positions: Map<Seq<char>, u64>,
    logs: Seq<String>,
    sizes: Seq<Option<u64>>,
)
    requires
        logs.len() == sizes.len(),
        distinct_logs(logs),
    ensures
        in_log_order(planned(positions, logs, sizes).1, logs),
    decreases logs.len(),
{
    if logs.len() > 0 {
        let init = logs.drop_last();
        let n = logs.len() - 1;
        planned_reads_follow_the_logs(positions, init, sizes.drop_last());
        planned_reads_are_the_unread_parts(positions, init, sizes.drop_last());
        let before = planned(positions, init, sizes.drop_last()).1;
        let after = planned(positions, logs, sizes).1;
        if after == before {
            if before.len() > 0 {
                let k = before.len() - 1;
                assert(before[k] == before.last());
                assert(path_listed(init, before[k].path));
                let j = choose|j: int|
                    0 <= j < init.len() && (#[trigger] init[j])@ == before[k].path;
                assert(logs[j]@ != logs[n]@);
                assert(logs[n] == logs.last());
            }
        } else {
            assert(after.drop_last() =~= before);
        }
    }
}

/// After a poll, only files that are still there have positions.
pub proof fn removed_files_are_forgotten(
    w: WatcherModel,
    logs: Seq<String>,
    sizes: Seq<Option<u64>>,
    path: Seq<char>,
)
    requires
        w.initialized,
        logs.len() == sizes.len(),
        !path_listed(logs, path),
    ensures
        !after_poll(w, logs, sizes).positions.contains_key(path),
{
}

/// No file is planned to be read twice.
proof fn lemma_reads_are_distinct(
    positions: Map<Seq<char>, u64>,
    logs: Seq<String>,
    sizes: Seq<Option<u64>>,
)
    requires
        logs.len() == sizes.len(),
        distinct_logs(logs),
    ensures
        distinct_reads(planned(positions, logs, sizes).1),
    decreases logs.len(),
{
    if logs.len() > 0 {
        let init = logs.drop_last();
        let n = logs.len() - 1;
        lemma_reads_are_distinct(positions, init, sizes.drop_last());
        planned_reads_are_the_unread_parts(positions, init, sizes.drop_last());
        let before = planned(positions, init, sizes.drop_last()).1;
        let after = planned(positions, logs, sizes).1;
        assert forall|i: int, j: int| 0 <= i < j < after.len() implies (#[trigger] after[i]).path
            != (#[trigger] after[j]).path by {
            assert(after[i] == before[i]);
            if j < before.len() {
                assert(after[j] == before[j]);
            } else {
                assert(path_listed(init, before[i].path));
                let k = choose|k: int|
                    0 <= k < init.len() && (#[trigger] init[k])@ == before[i].path;
                assert(logs[k]@ != logs[n]@);
                assert(logs[n] == logs.last());
            }
        }
    }
}

/// True if no two reads are of the same file.
pub open spec fn distinct_reads(reads: Seq<ReadModel>) -> bool {
    forall|i: int, j: int|
        0 <= i < j < reads.len() ==> (#[trigger] reads[i]).path != (#[trigger] reads[j]).path
}

/// True if a path has the same position, or none, in both.
pub open spec fn same_position(
    a: Map<Seq<char>, u64>,
    b: Map<Seq<char>, u64>,
    path: Seq<char>,
) -> bool {
    a.contains_key(path) == b.contains_key(path) && (b.contains_key(path) ==> a[path] == b[path])
}

/// Taking in parts moves the position of each file that could be read to the end
/// of what is done with, and no other position.
pub proof fn parts_move_their_positions(
    p: Platform,
    w: WatcherModel,
    reads: Seq<ReadModel>,
    parts: Seq<Option<Vec<u8>>>,
    path: Seq<char>,
)
    requires
        reads.len() == parts.len(),
        distinct_reads(reads),
    ensures
        after_parts(p, w, reads, parts).initialized == w.initialized,
        forall|k: int|
            0 <= k < reads.len() && (#[trigger] reads[k]).path == path ==> match parts[k] {
                Some(bytes) => after_parts(p, w, reads, parts).positions.contains_key(path)
                    && after_parts(p, w, reads, parts).positions[path] == (reads[k].from
                    + taken_len(p, bytes@)) as u64,
                None => same_position(after_parts(p, w, reads, parts).positions, w.positions, path),
            },
        (forall|k: int| 0 <= k < reads.len() ==> (#[trigger] reads[k]).path != path)
            ==> same_position(after_parts(p, w, reads, parts).positions, w.positions, path),
    decreases reads.len(),
{
    if reads.len() > 0 {
        let init = reads.drop_last();
        let n = reads.len() - 1;
        assert forall|i: int, j: int| 0 <= i < j < init.len() implies (#[trigger] init[i]).path
            != (#[trigger] init[j]).path by {
            assert(init[i] == reads[i] && init[j] == reads[j]);
        }
        parts_move_their_positions(p, w, init, parts.drop_last(), path);
        assert(reads[n] == reads.last());
        if reads[n].path == path {
            assert forall|k: int| 0 <= k < init.len() implies (#[trigger] init[k]).path != path by {
                assert(reads[k].path != reads[n].path);
            }
        } else {
            assert forall|k: int| 0 <= k < init.len() implies #[trigger] reads[k] == init[k] by {}
            if forall|k: int| 0 <= k < reads.len() ==> (#[trigger] reads[k]).path != path {
                assert forall|k: int| 0 <= k < init.len() implies (#[trigger] init[k]).path
                    != path by {
                    assert(reads[k].path != path);
                }
            }
            assert forall|k: int|
                0 <= k < reads.len() && (#[trigger] reads[k]).path == path implies match parts[k] {
                Some(bytes) => after_parts(p, w, reads, parts).positions.contains_key(path)
                    && after_parts(p, w, reads, parts).positions[path] == (reads[k].from
                    + taken_len(p, bytes@)) as u64,
                None => same_position(after_parts(p, w, reads, parts).positions, w.positions, path),
            } by {
                assert(init[k].path == path);
                assert(parts.drop_last()[k] == parts[k]);
            }
        }
    }
}

/// True if every planned read was carried out and gave all that was planned.
pub open spec fn all_carried_out(reads: Seq<ReadModel>, parts: Seq<Option<Vec<u8>>>) -> bool {
    &&& reads.len() == parts.len()
    &&& forall|k: int|
        0 <= k < reads.len() ==> (#[trigger] parts[k]) is Some && reads[k].from
            + parts[k]->Some_0@.len() == reads[k].to
}

/// True if a read is that of what was held back at the end of an earlier one.
pub open spec fn rereads_held_back(
    p: Platform,
    later: ReadModel,
    earlier: ReadModel,
    part: Seq<u8>,
) -> bool {
    &&& later.path == earlier.path
    &&& later.to == earlier.to
    &&& later.from == earlier.from + taken_len(p, part)
}

/// True if a read is that of what was held back at the end of one of the earlier
/// ones.
pub open spec fn rereads_some(
    p: Platform,
    later: ReadModel,
    reads: Seq<ReadModel>,
    parts: Seq<Option<Vec<u8>>>,
) -> bool {
    exists|k: int|
        0 <= k < reads.len() && rereads_held_back(
            p,
            later,
            #[trigger] reads[k],
            parts[k]->Some_0@,
        )
}

/// Bytes are read once. After a poll whose reads were carried out, a poll that
/// finds the same logs with the same sizes has nothing to read but lines that were
/// still being written and were held back; if there were none, it has nothing to
/// read at all.
pub proof fn bytes_are_read_once(
    p: Platform,
    w: WatcherModel,
    logs: Seq<String>,
    sizes: Seq<Option<u64>>,
    parts: Seq<Option<Vec<u8>>>,
)
    requires
        logs.len() == sizes.len(),
        distinct_logs(logs),
        all_carried_out(poll_reads(w, logs, sizes), parts),
    ensures
        ({
            let reads = poll_reads(w, logs, sizes);
            let polled = after_parts(p, after_poll(w, logs, sizes), reads, parts);
            let again = poll_reads(polled, logs, sizes);
            &&& forall|j: int|
                0 <= j < again.len() ==> rereads_some(p, #[trigger] again[j], reads, parts)
            &&& (forall|k: int|
                0 <= k < parts.len() ==> taken_len(p, (#[trigger] parts[k])->Some_0@)
                    == parts[k]->Some_0@.len()) ==> again.len() == 0
        }),
{
    let reads = poll_reads(w, logs, sizes);
    let seen = after_poll(w, logs, sizes);
    let polled = after_parts(p, seen, reads, parts);
    let again = poll_reads(polled, logs, sizes);
    if w.initialized {
        lemma_reads_are_distinct(w.positions, logs, sizes);
        planned_reads_are_the_unread_parts(w.positions, logs, sizes);
        new_files_are_taken_up_at_their_end(w.positions, logs, sizes);
    }
    parts_move_their_positions(p, seen, reads, parts, Seq::empty());
    planned_reads_are_the_unread_parts(polled.positions, logs, sizes);
    assert forall|j: int| 0 <= j < again.len() implies rereads_some(
        p,
        #[trigger] again[j],
        reads,
        parts,
    ) by {
        let path = again[j].path;
        assert(planned(polled.positions, logs, sizes).1[j] == again[j]);
        assert(path_listed(logs, path));
        let i = choose|i: int| 0 <= i < logs.len() && (#[trigger] logs[i])@ == path;
        parts_move_their_positions(p, seen, reads, parts, path);
        assert(unread(path, polled.positions[path], sizes[i]) == Some(again[j]));
        if !w.initialized {
            first_poll_skips_backlog(w, logs, sizes, i);
            assert(false);
        }
        assert(seen.positions.contains_key(path));
        if exists|k: int| 0 <= k < reads.len() && (#[trigger] reads[k]).path == path {
            let k = choose|k: int| 0 <= k < reads.len() && (#[trigger] reads[k]).path == path;
            assert(parts[k] is Some);
            finished_part_ends_a_line(parts[k]->Some_0@);
            assert(planned(w.positions, logs, sizes).1[k].path == logs[i]@);
            assert(unread(path, w.positions[path], sizes[i]) == Some(reads[k]));
            assert(rereads_held_back(p, again[j], reads[k], parts[k]->Some_0@));
        } else {
            if w.positions.contains_key(path) {
                if let Some(r) = unread(path, w.positions[path], sizes[i]) {
                    assert(planned(w.positions, logs, sizes).1.contains(r));
                    let k = choose|k: int| 0 <= k < reads.len() && reads[k] == r;
                    assert(reads[k].path == path);
                }
            }
            assert(false);
        }
    }
    if again.len() > 0 && forall|k: int|
        0 <= k < parts.len() ==> taken_len(p, (#[trigger] parts[k])->Some_0@)
            == parts[k]->Some_0@.len() {
        assert(rereads_some(p, again[0], reads, parts));
        let k = choose|k: int|
            0 <= k < reads.len() && rereads_held_back(
                p,
                again[0],
                #[trigger] reads[k],
                parts[k]->Some_0@,
            );
        assert(parts[k] is Some);
        assert(planned(polled.positions, logs, sizes).1[0] == again[0]);
        assert(false);
    }
}

/// True if a read is one of the planned ones, and what it gave has moved the
/// position of its file to the end of what is done with. If it could not be
/// carried out, the position stays where the read was to begin.
pub open spec fn taken_in(
    p: Platform,
    r: ReadModel,
    reads: Seq<ReadModel>,
    parts: Seq<Option<Vec<u8>>>,
    after: Map<Seq<char>, u64>,
) -> bool {
    exists|k: int|
        0 <= k < reads.len() && #[trigger] reads[k] == r && after.contains_key(r.path)
            && after[r.path] == match parts[k] {
            Some(bytes) => (r.from + taken_len(p, bytes@)) as u64,
            None => r.from,
        }
}

/// A poll tails each known log on its own: what is unread of it is read, and its
/// position moves to the end of what is done with. A log that has shrunk is
/// rewound, even if it is empty; nothing else moves a position.
pub proof fn poll_tails_each_log(
    p: Platform,
    w: WatcherModel,
    logs: Seq<String>,
    sizes: Seq<Option<u64>>,
    parts: Seq<Option<Vec<u8>>>,
    i: int,
)
    requires
        w.initialized,
        logs.len() == sizes.len(),
        distinct_logs(logs),
        poll_reads(w, logs, sizes).len() == parts.len(),
        0 <= i < logs.len(),
        w.positions.contains_key(logs[i]@),
    ensures
        ({
            let path = logs[i]@;
            let reads = poll_reads(w, logs, sizes);
            let after = after_parts(p, after_poll(w, logs, sizes), reads, parts).positions;
            match unread(path, w.positions[path], sizes[i]) {
                Some(r) => taken_in(p, r, reads, parts, after),
                None => after.contains_key(path) && after[path] == rewound(
                    w.positions[path],
                    sizes[i],
                ),
            }
        }),
{
    let path = logs[i]@;
    let reads = poll_reads(w, logs, sizes);
    let seen = after_poll(w, logs, sizes);
    lemma_reads_are_distinct(w.positions, logs, sizes);
    planned_reads_are_the_unread_parts(w.positions, logs, sizes);
    new_files_are_taken_up_at_their_end(w.positions, logs, sizes);
    parts_move_their_positions(p, seen, reads, parts, path);
    assert(path_listed(logs, path));
    assert(seen.positions[path] == rewound(w.positions[path], sizes[i]));
    match unread(path, w.positions[path], sizes[i]) {
        Some(r) => {
            assert(planned(w.positions, logs, sizes).1.contains(r));
            let k = choose|k: int| 0 <= k < reads.len() && reads[k] == r;
            assert(reads[k].path == path);
        },
        None => {
            assert forall|k: int| 0 <= k < reads.len() implies (#[trigger] reads[k]).path
                != path by {
                if reads[k].path == path {
                    assert(planned(w.positions, logs, sizes).1[k].path == logs[i]@);
                }
            }
        },
    }
}

proof fn lemma_taken_len(p: Platform, bytes: Seq<u8>)
    ensures
        finished_len(bytes) <= taken_len(p, bytes) <= bytes.len(),
{
    finished_part_ends_a_line(bytes);
}

/// The events of finished lines and what follows them are the events of both.
pub proof fn events_go_on(p: Platform, a: Seq<u8>, b: Seq<u8>)
    requires
        finished_len(a) == a.len(),
    ensures
        events_of_bytes(p, a + b) == events_of_bytes(p, a) + events_of_bytes(p, b),
{
    lines_go_on(a, b);
    let (first, rest) = (lines_spec(a), lines_spec(b));
    assert(decoded(first + rest) =~= decoded(first) + decoded(rest));
    events_are_chronological(p, decoded(first), decoded(rest));
}

/// What is held back reports nothing, however often it is read again, so that no
/// event is reported twice.
pub proof fn held_back_bytes_report_nothing(p: Platform, bytes: Seq<u8>)
    ensures
        events_of_bytes(p, held_back(p, bytes)).len() == 0,
        taken_len(p, held_back(p, bytes)) == 0,
{
    let held = held_back(p, bytes);
    if tail_reports(p, bytes) {
        assert(held.len() == 0);
        assert(unfinished(held).len() == 0);
    } else {
        unfinished_line_is_unfinished(bytes);
        assert(held == unfinished(bytes));
        assert(unfinished(held) =~= held);
    }
}

/// Wherever a log is cut in two within a line that reports nothing yet, it
/// reports what its first piece reports, and then what the line that was being
/// written there and the second piece report: half a marker is not lost.
pub proof fn cut_leaves_the_events(p: Platform, a: Seq<u8>, b: Seq<u8>)
    requires
        !tail_reports(p, a),
    ensures
        events_of_bytes(p, a + b) == events_of_bytes(p, a) + events_of_bytes(
            p,
            held_back(p, a) + b,
        ),
{
    let f = finished(a);
    let u = unfinished(a);
    finished_part_ends_a_line(a);
    finished_part_is_finished(a);
    assert(a =~= f + u);
    assert(a + b =~= f + (u + b));
    events_go_on(p, f, u);
    events_go_on(p, f, u + b);
    assert(events_of_bytes(p, u) =~= Seq::empty());
    assert(events_of_bytes(p, a) =~= events_of_bytes(p, f));
}

/// The position of a log after a poll that found it with a size, and the events
/// that the poll reports.
pub open spec fn tail_step(p: Platform, content: Seq<u8>, position: u64, size: u64) -> (
    u64,
    Seq<PresenceEventModel>,
) {
    match unread(Seq::empty(), position, Some(size)) {
        Some(r) => {
            let part = content.subrange(r.from as int, r.to as int);
            ((r.from + taken_len(p, part)) as u64, events_of_bytes(p, part))
        },
        None => (rewound(position, Some(size)), Seq::empty()),
    }
}

/// True if the reads of a log were carried out and gave its content.
pub open spec fn gave_content(
    reads: Seq<ReadModel>,
    parts: Seq<Option<Vec<u8>>>,
    content: Seq<u8>,
) -> bool {
    &&& reads.len() == parts.len()
    &&& forall|k: int|
        0 <= k < reads.len() ==> (#[trigger] parts[k]) is Some && parts[k]->Some_0@
            == content.subrange(reads[k].from as int, reads[k].to as int)
}

/// A poll of one known log is a [`tail_step`], in its position and its events.
pub proof fn polls_tail_a_log(
    p: Platform,
    w: WatcherModel,
    log: String,
    size: u64,
    content: Seq<u8>,
    parts: Seq<Option<Vec<u8>>>,
)
    requires
        w.initialized,
        w.positions.contains_key(log@),
        gave_content(poll_reads(w, seq![log], seq![Some(size)]), parts, content),
    ensures
        ({
            let (logs, sizes) = (seq![log], seq![Some(size)]);
            let polled = after_parts(
                p,
                after_poll(w, logs, sizes),
                poll_reads(w, logs, sizes),
                parts,
            );
            &&& polled.initialized
            &&& polled.positions.contains_key(log@)
            &&& (polled.positions[log@], events_of_parts(p, parts)) == tail_step(
                p,
                content,
                w.positions[log@],
                size,
            )
        }),
{
    reveal_with_fuel(planned, 2);
    reveal_with_fuel(after_parts, 2);
    reveal_with_fuel(events_of_parts, 2);
    let (logs, sizes) = (seq![log], seq![Some(size)]);
    assert(logs.drop_last() == Seq::<String>::empty());
    assert(logs.last() == log && sizes.last() == Some(size));
    assert(path_listed(logs, log@)) by {
        assert(logs[0]@ == log@);
    }
    let reads = poll_reads(w, logs, sizes);
    if let Some(r) = unread(log@, w.positions[log@], Some(size)) {
        assert(reads == seq![r]);
        assert(parts[0] is Some);
        let part = parts[0]->Some_0@;
        assert(Seq::<PresenceEventModel>::empty() + events_of_bytes(p, part) == events_of_bytes(
            p,
            part,
        ));
    }
}

/// A log that was emptied is read from its start when it grows again, however
/// large it gets.
pub proof fn emptied_logs_are_read_from_the_start(
    p: Platform,
    content: Seq<u8>,
    position: u64,
    size: u64,
)
    requires
        0 < size <= content.len(),
    ensures
        ({
            let (emptied, none) = tail_step(p, Seq::empty(), position, 0);
            &&& emptied == 0
            &&& none.len() == 0
            &&& tail_step(p, content, emptied, size).1 == events_of_bytes(
                p,
                content.take(size as int),
            )
        }),
{
    assert(content.subrange(0, size as int) == content.take(size as int));
}

/// The position of a log, and the events that it has reported, after polls that
/// found it with the given sizes.
pub open spec fn tailed(
    p: Platform,
    content: Seq<u8>,
    start: u64,
    sizes: Seq<u64>,
) -> (u64, Seq<PresenceEventModel>)
    decreases sizes.len(),
{
    if sizes.len() == 0 {
        (start, Seq::empty())
    } else {
        let (position, events) = tailed(p, content, start, sizes.drop_last());
        let (after, more) = tail_step(p, content, position, sizes.last());
        (after, events + more)
    }
}

/// True if sizes never get smaller, starting from a first one.
pub open spec fn growing(start: u64, sizes: Seq<u64>) -> bool {
    &&& forall|i: int| 0 <= i < sizes.len() ==> start <= #[trigger] sizes[i]
    &&& forall|i: int, j: int|
        0 <= i < j < sizes.len() ==> #[trigger] sizes[i] <= #[trigger] sizes[j]
}

/// The last size that polls have found.
pub open spec fn reached(start: u64, sizes: Seq<u64>) -> u64 {
    if sizes.len() == 0 {
        start
    } else {
        sizes.last()
    }
}

/// True if a line begins at an index of a log that is tailed from a start.
pub open spec fn begins_line(content: Seq<u8>, start: int, i: int) -> bool {
    i == start || start < i <= content.len() && content[i - 1] == LINE_FEED
}

/// True if bytes hold no line feed but perhaps at their end.
pub open spec fn is_one_line(b: Seq<u8>) -> bool {
    forall|i: int| 0 <= i < b.len() - 1 ==> #[trigger] b[i] != LINE_FEED
}

/// True if a line that has grown from its first `k - i` bytes to `m - i` goes on
/// as it has begun: if its beginning reports an event, it reports that one, and
/// what has been added reports none on its own.
pub open spec fn goes_on_as_begun(p: Platform, content: Seq<u8>, i: int, k: int, m: int) -> bool {
    events_of_bytes(p, content.subrange(i, k)).len() > 0 ==> {
        &&& events_of_bytes(p, content.subrange(i, m)) == events_of_bytes(
            p,
            content.subrange(i, k),
        )
        &&& events_of_bytes(p, content.subrange(k, m)).len() == 0
    }
}

/// True if each line of a log goes on as it has begun, wherever it is cut. A line
/// with one marker that cannot be taken for another one before it is complete
/// does.
pub open spec fn lines_report_once(p: Platform, content: Seq<u8>, start: int, end: int) -> bool {
    forall|i: int, k: int, m: int|
        start <= i <= k <= m <= end && begins_line(content, start, i) && is_one_line(
            content.subrange(i, m),
        ) ==> #[trigger] goes_on_as_begun(p, content, i, k, m)
}

/// Where the position of a log may stand once a poll has found it with a size:
/// before the line that is being written, if that reports nothing yet, or else
/// within it, behind a beginning that has been reported.
pub open spec fn stands_well(
    p: Platform,
    content: Seq<u8>,
    start: int,
    end: int,
    position: int,
) -> bool {
    let line = start + finished_len(content.subrange(start, end));
    if position == line {
        events_of_bytes(p, content.subrange(line, end)).len() == 0
    } else {
        line < position <= end && events_of_bytes(p, content.subrange(line, position)).len() > 0
    }
}

/// A read that begins where a line does leaves the position well.
#[verifier::spinoff_prover]
#[verifier::rlimit(40)]
proof fn lemma_taken_stands_well(
    p: Platform,
    content: Seq<u8>,
    start: int,
    from: int,
    to: int,
)
    requires
        0 <= start <= from <= to <= content.len(),
        finished_len(content.subrange(start, to)) == from - start + finished_len(
            content.subrange(from, to),
        ),
    ensures
        stands_well(p, content, start, to, from + taken_len(p, content.subrange(from, to))),
{
    let part = content.subrange(from, to);
    finished_part_ends_a_line(part);
    let line = from + finished_len(part);
    assert(unfinished(part) =~= content.subrange(line, to));
    if tail_reports(p, part) && line == to {
        assert(unfinished(part).len() == 0);
    }
}

/// A read that begins within a line whose beginning has been reported.
#[verifier::spinoff_prover]
#[verifier::rlimit(40)]
proof fn lemma_read_within_line(
    p: Platform,
    content: Seq<u8>,
    start: int,
    line: int,
    from: int,
    mid: int,
    to: int,
)
    requires
        0 <= start <= line < from <= mid <= to <= content.len(),
        begins_line(content, start, line),
        forall|j: int| line <= j < mid ==> content[j] != LINE_FEED,
        events_of_bytes(p, content.subrange(line, from)).len() > 0,
        lines_report_once(p, content, start, to),
        finished_len(content.subrange(start, to)) == line - start + finished_len(
            content.subrange(line, to),
        ),
    ensures
        stands_well(p, content, start, to, from + taken_len(p, content.subrange(from, to))),
        events_of_bytes(p, content.subrange(line, to)) == events_of_bytes(
            p,
            content.subrange(line, mid),
        ) + events_of_bytes(p, content.subrange(from, to)),
{
    let reported = events_of_bytes(p, content.subrange(line, from));
    let whole = content.subrange(line, to);
    let part = content.subrange(from, to);
    assert(is_one_line(content.subrange(line, mid)));
    assert(goes_on_as_begun(p, content, line, from, mid));
    no_line_feed_before_the_first(whole);
    if first_line_feed(whole) == whole.len() {
        assert forall|j: int| 0 <= j < part.len() implies part[j] != LINE_FEED by {
            assert(part[j] == whole[j + from - line]);
        }
        assert(goes_on_as_begun(p, content, line, from, to));
        no_line_feed_is_unfinished(whole);
        no_line_feed_is_unfinished(part);
        assert(unfinished(part) =~= part);
        assert(events_of_bytes(p, part) =~= Seq::empty());
        assert(reported + events_of_bytes(p, part) =~= reported);
    } else {
        let e = line + first_line_feed(whole) + 1;
        assert(whole[e - 1 - line] == content[e - 1]);
        let own = content.subrange(line, e);
        let own_rest = content.subrange(from, e);
        let next = content.subrange(e, to);
        assert forall|i: int| 0 <= i < own.len() - 1 implies #[trigger] own[i] != LINE_FEED by {
            assert(own[i] == whole[i]);
        }
        assert(goes_on_as_begun(p, content, line, from, e));
        assert(own.last() == LINE_FEED && own_rest.last() == LINE_FEED);
        assert(whole =~= own + next);
        assert(part =~= own_rest + next);
        events_go_on(p, own, next);
        events_go_on(p, own_rest, next);
        finishing_goes_on(own, next);
        finishing_goes_on(own_rest, next);
        finished_part_ends_a_line(next);
        assert(unfinished(part) =~= unfinished(next));
        assert(events_of_bytes(p, own_rest) =~= Seq::empty());
        assert(events_of_bytes(p, part) =~= events_of_bytes(p, next));
        lemma_taken_stands_well(p, content, start, e, to);
    }
}

/// One poll of a growing log reports what the log reports beyond what it has
/// reported, and leaves the position well.
#[verifier::spinoff_prover]
#[verifier::rlimit(40)]
proof fn lemma_tail_step(
    p: Platform,
    content: Seq<u8>,
    start: int,
    mid: int,
    position: u64,
    to: u64,
)
    requires
        0 <= start <= mid <= to <= content.len(),
        stands_well(p, content, start, mid, position as int),
        lines_report_once(p, content, start, to as int),
    ensures
        ({
            let (after, more) = tail_step(p, content, position, to);
            &&& stands_well(p, content, start, to as int, after as int)
            &&& events_of_bytes(p, content.subrange(start, to as int)) == events_of_bytes(
                p,
                content.subrange(start, mid),
            ) + more
        }),
{
    let end = to as int;
    let from = position as int;
    let more = tail_step(p, content, position, to).1;
    let read = content.subrange(start, mid);
    finished_part_ends_a_line(read);
    finished_part_is_finished(read);
    let line = start + finished_len(read);
    let f = content.subrange(start, line);
    let begun = content.subrange(line, mid);
    let whole = content.subrange(line, end);
    assert(f =~= finished(read));
    assert(read =~= f + begun);
    assert(content.subrange(start, end) =~= f + whole);
    events_go_on(p, f, begun);
    events_go_on(p, f, whole);
    finishing_goes_on(f, whole);
    lemma_taken_len(p, content.subrange(from, end));
    let told = events_of_bytes(p, f);
    if position == to {
        assert(events_of_bytes(p, read) + more =~= events_of_bytes(p, read));
    } else if from == line {
        assert(told + events_of_bytes(p, begun) =~= told);
        lemma_taken_stands_well(p, content, start, line, end);
    } else {
        assert forall|j: int| line <= j < mid implies content[j] != LINE_FEED by {
            assert(read[j - start] == content[j]);
        }
        if finished_len(read) > 0 {
            assert(read[finished_len(read) - 1] == content[line - 1]);
        }
        lemma_read_within_line(p, content, start, line, from, mid, end);
        assert(told + (events_of_bytes(p, begun) + more) =~= (told + events_of_bytes(p, begun))
            + more);
    }
}

/// However a growing log is cut by the polls, they report the events of its
/// lines: none is lost, none is reported twice, and a line that was written in
/// several pieces is reported as one.
pub proof fn polls_report_the_joined_log(p: Platform, content: Seq<u8>, start: u64, sizes: Seq<u64>)
    requires
        growing(start, sizes),
        reached(start, sizes) <= content.len(),
        lines_report_once(p, content, start as int, reached(start, sizes) as int),
    ensures
        ({
            let end = reached(start, sizes) as int;
            let (position, events) = tailed(p, content, start, sizes);
            &&& stands_well(p, content, start as int, end, position as int)
            &&& events == events_of_bytes(p, content.subrange(start as int, end))
        }),
    decreases sizes.len(),
{
    if sizes.len() == 0 {
        let none = content.subrange(start as int, start as int);
        assert(none.len() == 0);
        assert(finished_len(none) == 0);
        assert(events_of_bytes(p, none) =~= Seq::empty());
    } else {
        let init = sizes.drop_last();
        let n = sizes.len() - 1;
        let to = sizes.last();
        assert(sizes[n] == to);
        assert(growing(start, init)) by {
            assert forall|i: int| 0 <= i < init.len() implies start <= #[trigger] init[i] by {
                assert(init[i] == sizes[i]);
            }
            assert forall|i: int, j: int| 0 <= i < j < init.len() implies #[trigger] init[i]
                <= #[trigger] init[j] by {
                assert(init[i] == sizes[i] && init[j] == sizes[j]);
            }
        }
        let mid = reached(start, init);
        assert(start <= mid <= to) by {
            if init.len() > 0 {
                assert(sizes[n - 1] == mid);
            }
        }
        polls_report_the_joined_log(p, content, start, init);
        let (position, events) = tailed(p, content, start, init);
        lemma_tail_step(p, content, start as int, mid as int, position, to);
    }
}

// ---------------------------------------------------------------------------
// Laws of lines and directories
// ---------------------------------------------------------------------------

/// A line is reported if and only if it has a presence other than Unknown, and
/// then as just that event: no presence is passed over, least of all Available,
/// which ends calls.
pub proof fn every_known_presence_is_reported(p: Platform, line: Seq<char>)
    ensures
        match line_event(p, line) {
            Some(ev) => if ev.presence == Presence::Unknown {
                reported_events(p, seq![line]).len() == 0
            } else {
                reported_events(p, seq![line]) == seq![ev]
            },
            None => reported_events(p, seq![line]).len() == 0,
        },
{
    reveal_with_fuel(reported_events, 2);
    assert(seq![line].drop_last() == Seq::<Seq<char>>::empty());
}

/// The report of lines is as long as there are lines to report, and holds the
/// event of each of them in its place: after those of the lines before it.
pub proof fn each_line_has_its_place(p: Platform, lines: Seq<Seq<char>>, i: int)
    requires
        0 <= i < lines.len(),
        line_event(p, lines[i]) is Some,
        line_event(p, lines[i])->Some_0.presence != Presence::Unknown,
    ensures
        ({
            let k = reported_events(p, lines.take(i)).len();
            &&& k < reported_events(p, lines).len()
            &&& reported_events(p, lines)[k as int] == line_event(p, lines[i])->Some_0
        }),
{
    let line = lines[i];
    every_known_presence_is_reported(p, line);
    events_are_chronological(p, lines.take(i), seq![line]);
    events_are_chronological(p, lines.take(i) + seq![line], lines.skip(i + 1));
    assert(lines.take(i) + seq![line] + lines.skip(i + 1) =~= lines);
}

/// A line that a poll reads to its line feed is reported for what it says, with
/// or without a carriage return before that.
pub proof fn written_lines_are_reported(p: Platform, line: Seq<u8>)
    requires
        forall|i: int| 0 <= i < line.len() ==> line[i] != LINE_FEED,
        line.len() > 0 ==> line.last() != CARRIAGE_RETURN,
    ensures
        events_of_bytes(p, line.push(LINE_FEED)) == reported_events(p, seq![utf8_lossy(line)]),
        events_of_bytes(p, line.push(CARRIAGE_RETURN).push(LINE_FEED)) == reported_events(
            p,
            seq![utf8_lossy(line)],
        ),
        line.len() > 0 ==> events_of_bytes(p, line) == reported_events(p, seq![utf8_lossy(line)]),
        taken_len(p, line.push(LINE_FEED)) == line.len() + 1,
{
    one_line_is_one_line(line);
    assert(decoded(seq![line]) =~= seq![utf8_lossy(line)]);
    assert(line.push(LINE_FEED).last() == LINE_FEED);
    assert(unfinished(line.push(LINE_FEED)).len() == 0);
}

/// What is read of a known file when it has been found with a size: all that was
/// added since; everything if it has become smaller; and nothing if there is
/// nothing, or the size is not known.
pub proof fn added_bytes_are_read(path: Seq<char>, position: u64, size: u64)
    ensures
        size > position ==> unread(path, position, Some(size)) == Some(
            ReadModel { path, from: position, to: size },
        ),
        0 < size < position ==> unread(path, position, Some(size)) == Some(
            ReadModel { path, from: 0, to: size },
        ),
        size == position || size == 0 ==> unread(path, position, Some(size)) is None,
        unread(path, position, None) is None,
        rewound(position, None) == position,
        size < position ==> rewound(position, Some(size)) == 0,
        size >= position ==> rewound(position, Some(size)) == position,
{
}

/// The sample of a log is its first line with a presence, whatever that is, after
/// the name of the presence; there is none only if no line has a presence.
pub proof fn sample_is_the_first_match(p: Platform, lines: Seq<Seq<char>>, i: int)
    requires
        0 <= i <= lines.len(),
        forall|j: int| 0 <= j < i ==> line_event(p, #[trigger] lines[j]) is None,
    ensures
        i == lines.len() ==> sample_line(p, lines) is None,
        i < lines.len() && line_event(p, lines[i]) is Some ==> sample_line(p, lines) == Some(
            line_event(p, lines[i])->Some_0.presence.name_spec() + ": "@ + trim_spec(lines[i]),
        ),
    decreases i,
{
    if i > 0 {
        assert(line_event(p, lines[0]) is None);
        let rest = lines.drop_first();
        assert forall|j: int| 0 <= j < i - 1 implies line_event(p, #[trigger] rest[j]) is None by {
            assert(rest[j] == lines[j + 1]);
        }
        sample_is_the_first_match(p, rest, i - 1);
    }
}

/// Of several files that were modified last at the same time, the last one is
/// read.
pub proof fn later_files_win(files: Seq<LogFile>, j: int)
    requires
        latest_index(files) is Some,
        latest_index(files)->Some_0 < j < files.len(),
        files[j].modified is Some,
    ensures
        ({
            let (best, other) = (
                files[latest_index(files)->Some_0].modified->Some_0,
                files[j].modified->Some_0,
            );
            other.secs < best.secs || other.secs == best.secs && other.nanos < best.nanos
        }),
    decreases files.len(),
{
    latest_index_is_the_maximum(files);
    latest_index_is_the_maximum(files.drop_last());
    let init = files.drop_last();
    if j < init.len() {
        assert(init[j] == files[j]);
        assert(latest_index(init) == latest_index(files));
        later_files_win(init, j);
    }
}

/// A directory is verified by its latest log: its path, its age and its sample
/// are shown, or why it could not be read. Without logs that is said.
pub proof fn directories_are_verified_by_their_latest_log(
    p: Platform,
    dir: Seq<char>,
    files: Seq<LogFile>,
    bytes: Vec<u8>,
    why: String,
)
    ensures
        ({
            let read = verified_dir(p, dir, files, LogContents::Bytes(bytes));
            let closed = verified_dir(p, dir, files, LogContents::OpenFailed(why));
            let torn = verified_dir(p, dir, files, LogContents::ReadFailed(why));
            &&& read.dir_exists && closed.dir_exists && torn.dir_exists
            &&& read.log_files_count == files.len()
            &&& closed.log_files_count == files.len()
            &&& torn.log_files_count == files.len()
            &&& match latest_index(files) {
                Some(i) => {
                    &&& read.latest_log == Some(files[i].path@)
                    &&& closed.latest_log == Some(files[i].path@)
                    &&& torn.latest_log == Some(files[i].path@)
                    &&& read.latest_mtime == files[i].modified
                    &&& closed.latest_mtime == files[i].modified
                    &&& torn.latest_mtime == files[i].modified
                    &&& read.error is None
                    &&& read.sample_match == sample_line(p, decoded(lines_spec(bytes@)))
                    &&& closed.sample_match is None && torn.sample_match is None
                    &&& closed.error == Some("could not open "@ + files[i].path@ + ": "@ + why@)
                    &&& torn.error == Some("could not read "@ + files[i].path@ + ": "@ + why@)
                },
                None => {
                    &&& read.latest_log is None && read.latest_mtime is None
                    &&& read.sample_match is None
                    &&& files.len() > 0 ==> read.error is None
                    &&& files.len() == 0 ==> read.error == Some("no MSTeams_*.log files in "@ + dir)
                    &&& closed == read && torn == read
                },
            }
        }),
{
}

/// A poll reports the events of all that could be read, file after file; what could
/// not be read adds nothing and moves nothing.
pub proof fn every_part_is_reported(
    p: Platform,
    w: WatcherModel,
    reads: Seq<ReadModel>,
    parts: Seq<Option<Vec<u8>>>,
    read: ReadModel,
    bytes: Vec<u8>,
)
    requires
        reads.len() == parts.len(),
    ensures
        events_of_parts(p, Seq::empty()).len() == 0,
        events_of_parts(p, parts.push(Some(bytes))) == events_of_parts(p, parts) + events_of_bytes(
            p,
            bytes@,
        ),
        events_of_parts(p, parts.push(None)) == events_of_parts(p, parts),
        after_parts(p, w, reads.push(read), parts.push(None)) == after_parts(p, w, reads, parts),
        after_parts(p, w, reads.push(read), parts.push(Some(bytes))).positions[read.path] == (
        read.from + taken_len(p, bytes@)) as u64,
{
    assert(parts.push(Some(bytes)).drop_last() == parts);
    assert(parts.push(None).drop_last() == parts);
    assert(reads.push(read).drop_last() == reads);
}

/// The values of events, reads and lines are those of each, in their order; lines
/// are decoded one by one.
pub proof fn sequences_keep_their_elements(
    events: Seq<PresenceEvent>,
    reads: Seq<PlannedRead>,
    texts: Seq<String>,
    lines: Seq<Seq<u8>>,
    i: int,
)
    ensures
        event_models(events).len() == events.len(),
        read_models(reads).len() == reads.len(),
        line_texts(texts).len() == texts.len(),
        decoded(lines).len() == lines.len(),
        0 <= i < events.len() ==> {
            let e = event_models(events)[i];
            e.presence == events[i].presence && e.raw == events[i].raw@ && e.is_call_event
                == events[i].is_call_event
        },
        0 <= i < reads.len() ==> {
            let r = read_models(reads)[i];
            r.path == reads[i].path@ && r.from == reads[i].from && r.to == reads[i].to
        },
        0 <= i < texts.len() ==> line_texts(texts)[i] == texts[i]@,
        0 <= i < lines.len() ==> decoded(lines)[i] == utf8_lossy(lines[i]),
{
}

/// Every error of a poll says in words what went wrong.
pub proof fn poll_errors_say_what_went_wrong(e: PresenceError)
    ensures
        e matches PresenceError::Io(why) ==> e.message_spec() == "io error: "@ + why@,
        e matches PresenceError::LogDirNotFound(dir) ==> e.message_spec()
            == "teams log directory not found: "@ + dir@,
        e matches PresenceError::NoLogFiles(dir) ==> e.message_spec()
            == "no MSTeams_*.log files found in "@ + dir@,
{
}

} // verus!
