use onair::clock::Moment;
use onair::lines::{count_finished, lines_of};
use onair::models::Presence;
use onair::paths::sorted_paths;
use onair::platform::Platform;
use onair::presence::{LinePatterns, PresenceEvent};
use onair::watcher::{
    count_taken, events_in_bytes, events_in_lines, find_sample, log_file_pattern, LogContents, LogFile,
    LogWatcher, PlannedRead, PresenceError,
};

const BUSY: &str = r#"a GlyphBadge{"busy"} b"#;
const AWAY: &str = r#"a GlyphBadge{"away"} b"#;
const ODD: &str = r#"a GlyphBadge{"sleepy"} b"#;

fn patterns() -> LinePatterns {
    LinePatterns::new().expect("patterns compile")
}

fn strings(v: &[&str]) -> Vec<String> {
    v.iter().map(|s| s.to_string()).collect()
}

fn reads(v: &[PlannedRead]) -> Vec<(String, u64, u64)> {
    v.iter().map(|r| (r.path.clone(), r.from, r.to)).collect()
}

#[test]
fn pattern_of_the_log_files() {
    assert_eq!(log_file_pattern(Platform::Linux, "/logs"), "/logs/MSTeams_*.log");
    assert_eq!(log_file_pattern(Platform::Windows, r"C:\logs"), r"C:\logs\MSTeams_*.log");
}

fn found(events: &[PresenceEvent]) -> Vec<Presence> {
    events.iter().map(|e| e.presence).collect()
}

/// One poll of a single log with the given content.
fn poll(w: &mut LogWatcher, content: &str) -> Vec<PresenceEvent> {
    let logs = strings(&["/logs/1"]);
    let plan = w.plan_reads(&logs, &vec![Some(content.len() as u64)]);
    let parts: Vec<Option<Vec<u8>>> = plan
        .iter()
        .map(|r| Some(content.as_bytes()[r.from as usize..r.to as usize].to_vec()))
        .collect();
    w.take_parts(Platform::Windows, &patterns(), &plan, &parts)
}

#[test]
fn lines_of_a_text() {
    let text = format!("{}\r\nnothing\n{}\n{}", BUSY, ODD, AWAY);
    let events = events_in_bytes(Platform::Windows, &patterns(), text.as_bytes());
    assert_eq!(found(&events), vec![Presence::Busy, Presence::Away]);
    let lines = strings(&[BUSY, "nothing", ODD, AWAY]);
    let events = events_in_lines(Platform::Windows, &patterns(), &lines);
    assert_eq!(found(&events), vec![Presence::Busy, Presence::Away]);
    assert_eq!(
        find_sample(Platform::Windows, &patterns(), &lines),
        Some(format!("Busy: {}", BUSY))
    );
}

#[test]
fn bytes_split_into_lines() {
    let lines = |s: &str| -> Vec<String> {
        let v = lines_of(s.as_bytes());
        v.into_iter().map(|l| String::from_utf8(l).unwrap()).collect()
    };
    for s in ["", "a", "a\n", "a\r\nb", "\n\n", "a\rb\n", "a\r\r\n", "a\n\rb\r"] {
        let expected: Vec<String> = s.lines().map(|l| l.to_string()).collect();
        assert_eq!(lines(s), expected);
    }
}

#[test]
fn finished_parts() {
    assert_eq!(count_finished(b""), 0);
    assert_eq!(count_finished(b"abc"), 0);
    assert_eq!(count_finished(b"abc\n"), 4);
    assert_eq!(count_finished(b"a\nb\ncd"), 4);
    // Cut anywhere, the finished lines and the rest make up all lines.
    let text = b"one\r\ntwo\n\nthree";
    for cut in 0..text.len() {
        let n = count_finished(&text[..cut]);
        let mut joined = lines_of(&text[..n]);
        joined.extend(lines_of(&text[n..]));
        assert_eq!(joined, lines_of(text));
    }
}

#[test]
fn lines_in_two_pieces_are_reported_once() {
    let mut w = LogWatcher::new("/logs".to_string());
    assert!(poll(&mut w, "").is_empty());
    assert!(poll(&mut w, "GlyphBadge{\"bu").is_empty());
    let events = poll(&mut w, "GlyphBadge{\"busy\"}\n");
    assert_eq!(found(&events), vec![Presence::Busy]);
    assert_eq!(events[0].raw, "busy");
    assert!(poll(&mut w, "GlyphBadge{\"busy\"}\n").is_empty());
}

#[test]
fn complete_markers_are_reported_without_a_line_feed() {
    let mut w = LogWatcher::new("/logs".to_string());
    assert!(poll(&mut w, "").is_empty());
    let events = poll(&mut w, BUSY);
    assert_eq!(found(&events), vec![Presence::Busy]);
    assert!(poll(&mut w, BUSY).is_empty());
    // The rest of the line adds nothing.
    let events = poll(&mut w, &format!("{} and so on\n{}", BUSY, AWAY));
    assert_eq!(found(&events), vec![Presence::Away]);
    let p = patterns();
    assert_eq!(count_taken(Platform::Linux, &p, BUSY.as_bytes()), BUSY.len());
    assert_eq!(count_taken(Platform::Linux, &p, b"x\nGlyphBadge{\"bu"), 2);
    assert_eq!(count_taken(Platform::Linux, &p, ODD.as_bytes()), 0);
}

#[test]
fn polls_report_the_joined_log() {
    let log = format!("x\n{}\r\n{}\n{}", BUSY, AWAY, BUSY);
    let whole = events_in_bytes(Platform::Windows, &patterns(), log.as_bytes());
    for first in 0..log.len() {
        let second = (first + 11).min(log.len());
        let mut w = LogWatcher::new("/logs".to_string());
        assert!(poll(&mut w, "").is_empty());
        let mut events = poll(&mut w, &log[..first]);
        events.extend(poll(&mut w, &log[..second]));
        events.extend(poll(&mut w, &log));
        assert_eq!(found(&events), found(&whole));
    }
}

#[test]
fn polls_need_a_directory_with_logs() {
    let w = LogWatcher::new("/logs".to_string());
    let e = w.logs_to_poll(Platform::Linux, false, &vec![]).unwrap_err();
    assert_eq!(e.message(), "teams log directory not found: /logs");
    let e = w.logs_to_poll(Platform::Linux, true, &vec![]).unwrap_err();
    assert_eq!(e.message(), "no MSTeams_*.log files found in /logs");
    assert_eq!(PresenceError::Io("x".to_string()).message(), "io error: x");
    let logs = w.logs_to_poll(Platform::Linux, true, &strings(&["/l/b", "/l/a"])).unwrap();
    assert_eq!(logs, strings(&["/l/a", "/l/b"]));
}

#[test]
fn paths_are_sorted_by_component() {
    assert_eq!(
        sorted_paths(Platform::Linux, &strings(&["/a.b/x", "/a/x", "/a-b/x"])),
        strings(&["/a/x", "/a-b/x", "/a.b/x"])
    );
}

#[test]
fn backlog_is_skipped() {
    let mut w = LogWatcher::new("/logs".to_string());
    let logs = strings(&["/logs/1", "/logs/2"]);
    assert!(w.plan_reads(&logs, &vec![Some(100), None]).is_empty());
    let plan = w.plan_reads(&logs, &vec![Some(120), Some(7)]);
    assert_eq!(
        reads(&plan),
        vec![("/logs/1".to_string(), 100, 120), ("/logs/2".to_string(), 0, 7)]
    );
}

#[test]
fn bytes_are_read_once() {
    let p = patterns();
    let mut w = LogWatcher::new("/logs".to_string());
    let logs = strings(&["/logs/1"]);
    w.plan_reads(&logs, &vec![Some(0)]);
    let line = format!("{}\n", BUSY);
    let n = line.len() as u64;
    let plan = w.plan_reads(&logs, &vec![Some(n)]);
    let events = w.take_bytes(Platform::Windows, &p, &plan[0], line.as_bytes());
    assert_eq!(events.len(), 1);
    assert_eq!(events[0].raw, "busy");
    assert!(w.plan_reads(&logs, &vec![Some(n)]).is_empty());
    let plan = w.plan_reads(&logs, &vec![Some(n + 5)]);
    assert_eq!(reads(&plan), vec![("/logs/1".to_string(), n, n + 5)]);
    // A short read is continued behind its last finished line.
    assert!(w.take_bytes(Platform::Windows, &p, &plan[0], b"a\nb").is_empty());
    let plan = w.plan_reads(&logs, &vec![Some(n + 5)]);
    assert_eq!(reads(&plan), vec![("/logs/1".to_string(), n + 2, n + 5)]);
    // An unfinished line is read again.
    assert!(w.take_bytes(Platform::Windows, &p, &plan[0], b"bcd").is_empty());
    let plan = w.plan_reads(&logs, &vec![Some(n + 6)]);
    assert_eq!(reads(&plan), vec![("/logs/1".to_string(), n + 2, n + 6)]);
}

#[test]
fn parts_are_taken_in_path_order() {
    let p = patterns();
    let mut w = LogWatcher::new("/logs".to_string());
    let logs = strings(&["/logs/1", "/logs/2", "/logs/3"]);
    w.plan_reads(&logs, &vec![Some(0), Some(0), Some(0)]);
    let busy = format!("{}\n", BUSY).into_bytes();
    let away = format!("{}\n{}\n", AWAY, BUSY).into_bytes();
    let sizes = vec![Some(busy.len() as u64), Some(9), Some(away.len() as u64)];
    let plan = w.plan_reads(&logs, &sizes);
    let parts = vec![Some(busy), None, Some(away)];
    let events = w.take_parts(Platform::Windows, &p, &plan, &parts);
    assert_eq!(found(&events), vec![Presence::Busy, Presence::Away, Presence::Busy]);
    // The part that could not be read is planned again.
    let plan = w.plan_reads(&logs, &sizes);
    assert_eq!(reads(&plan), vec![("/logs/2".to_string(), 0, 9)]);
}

#[test]
fn unread_parts_stay_unread() {
    let mut w = LogWatcher::new("/logs".to_string());
    let logs = strings(&["/logs/1"]);
    w.plan_reads(&logs, &vec![Some(3)]);
    // The read failed, or the size could not be determined.
    w.plan_reads(&logs, &vec![Some(9)]);
    assert!(w.plan_reads(&logs, &vec![None]).is_empty());
    let plan = w.plan_reads(&logs, &vec![Some(9)]);
    assert_eq!(reads(&plan), vec![("/logs/1".to_string(), 3, 9)]);
}

#[test]
fn shrunken_files_are_read_from_the_start() {
    let mut w = LogWatcher::new("/logs".to_string());
    let logs = strings(&["/logs/1"]);
    w.plan_reads(&logs, &vec![Some(50)]);
    let plan = w.plan_reads(&logs, &vec![Some(20)]);
    assert_eq!(reads(&plan), vec![("/logs/1".to_string(), 0, 20)]);
}

#[test]
fn emptied_files_are_read_from_the_start() {
    let mut w = LogWatcher::new("/logs".to_string());
    let logs = strings(&["/logs/1"]);
    w.plan_reads(&logs, &vec![Some(41)]);
    assert!(w.plan_reads(&logs, &vec![Some(0)]).is_empty());
    let plan = w.plan_reads(&logs, &vec![Some(60)]);
    assert_eq!(reads(&plan), vec![("/logs/1".to_string(), 0, 60)]);
}

#[test]
fn new_and_removed_files() {
    let mut w = LogWatcher::new("/logs".to_string());
    w.plan_reads(&strings(&["/logs/1"]), &vec![Some(5)]);
    // A new file is taken up at its end.
    let both = strings(&["/logs/1", "/logs/2"]);
    assert!(w.plan_reads(&both, &vec![Some(5), Some(30)]).is_empty());
    let plan = w.plan_reads(&both, &vec![Some(5), Some(31)]);
    assert_eq!(reads(&plan), vec![("/logs/2".to_string(), 30, 31)]);
    // A file that went away and came back is new.
    w.plan_reads(&strings(&["/logs/2"]), &vec![Some(31)]);
    assert!(w.plan_reads(&both, &vec![Some(40), Some(30)]).iter().all(|r| r.path != "/logs/1"));
}

#[test]
fn binary_bytes_do_not_hide_lines() {
    let p = patterns();
    let mut w = LogWatcher::new("/logs".to_string());
    let logs = strings(&["/logs/1"]);
    w.plan_reads(&logs, &vec![Some(0)]);
    let mut bytes: Vec<u8> = vec![0xff, 0xfe, b'\n'];
    bytes.extend_from_slice(AWAY.as_bytes());
    bytes.push(b'\n');
    let n = bytes.len() as u64;
    let plan = w.plan_reads(&logs, &vec![Some(n)]);
    let events = w.take_bytes(Platform::Linux, &p, &plan[0], &bytes);
    assert_eq!(events.len(), 1);
    assert_eq!(events[0].presence, Presence::Away);
}

fn file(path: &str, secs: Option<i64>) -> LogFile {
    LogFile { path: path.to_string(), modified: secs.map(|secs| Moment { secs, nanos: 0 }) }
}

#[test]
fn verifying_a_directory() {
    let p = patterns();
    let files = vec![
        file("/l/1", Some(5)),
        file("/l/2", Some(9)),
        file("/l/3", None),
        file("/l/4", Some(9)),
    ];
    assert_eq!(LogWatcher::latest_log(&files), Some(3));
    let contents = LogContents::Bytes(format!("x\n  {} \n{}", ODD, BUSY).into_bytes());
    let r = LogWatcher::verify(Platform::Linux, &p, "/l", true, &files, &contents);
    assert!(r.dir_exists);
    assert_eq!(r.log_files_count, 4);
    assert_eq!(r.latest_log.as_deref(), Some("/l/4"));
    assert_eq!(r.latest_mtime, Some(Moment { secs: 9, nanos: 0 }));
    assert_eq!(r.sample_match, Some(format!("Unknown: {}", ODD)));
    assert_eq!(r.error, None);
}

#[test]
fn verification_errors() {
    let p = patterns();
    let none: Vec<LogFile> = Vec::new();
    let empty = LogContents::Bytes(Vec::new());
    let r = LogWatcher::verify(Platform::Linux, &p, "/l", false, &none, &empty);
    assert_eq!(r.error.as_deref(), Some("directory does not exist: /l"));
    assert!(!r.dir_exists);
    let r = LogWatcher::verify(Platform::Linux, &p, "/l", true, &none, &empty);
    assert_eq!(r.error.as_deref(), Some("no MSTeams_*.log files in /l"));
    let files = vec![file("/l/1", Some(1))];
    let failed = LogContents::OpenFailed("denied".to_string());
    let r = LogWatcher::verify(Platform::Linux, &p, "/l", true, &files, &failed);
    assert_eq!(r.error.as_deref(), Some("could not open /l/1: denied"));
    assert_eq!(r.latest_log.as_deref(), Some("/l/1"));
    let failed = LogContents::ReadFailed("torn".to_string());
    let r = LogWatcher::verify(Platform::Linux, &p, "/l", true, &files, &failed);
    assert_eq!(r.error.as_deref(), Some("could not read /l/1: torn"));
    assert_eq!(r.sample_match, None);
    // Files of unknown age give neither a log nor an error.
    let r = LogWatcher::verify(Platform::Linux, &p, "/l", true, &vec![file("/l/1", None)], &empty);
    assert_eq!((r.latest_log, r.error, r.log_files_count), (None, None, 1));
}
