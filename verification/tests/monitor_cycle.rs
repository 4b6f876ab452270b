use onair::clock::{LocalTime, Moment};
use onair::config::Config;
use onair::cycle::{Cycle, Report, Task};
use onair::models::Presence;
use onair::monitor::{EndedCall, Order};
use onair::platform::Platform;
use onair::presence::PresenceEvent;
use onair::state::{AppState, DisplayState, OverrideMode};

const SECOND: u64 = 1_000_000_000;

fn local(secs: i64) -> LocalTime {
    LocalTime { at: Moment { secs, nanos: 0 }, offset: 0, day: 5, hour: 9 }
}

fn fresh() -> AppState {
    AppState::new(Config::defaults(), Platform::Windows, Moment { secs: 0, nanos: 0 })
}

fn presence(presence: Presence) -> PresenceEvent {
    PresenceEvent { presence, raw: "raw".to_string(), is_call_event: false }
}

/// Runs one cycle whose poll gives the events, and returns its outside work.
fn run(c: &mut Cycle, s: &mut AppState, events: Vec<PresenceEvent>, secs: i64) -> Vec<Task> {
    let mut events = Some(events);
    let mut report = Report::Done;
    let mut tasks = Vec::new();
    loop {
        let task = c.next(s, report, local(secs), secs as u64 * SECOND);
        tasks.push(task);
        report = match task {
            Task::Poll => Report::Events(events.take().unwrap()),
            Task::RecordStart(_) => Report::Recorded(77),
            Task::Wait => return tasks,
            _ => Report::Done,
        };
    }
}

#[test]
fn cycles_with_a_call() {
    let mut c = Cycle::new();
    let mut s = fresh();
    let events = vec![presence(Presence::Available), presence(Presence::Busy)];
    assert_eq!(
        run(&mut c, &mut s, events, 100),
        vec![
            Task::Poll,
            Task::Nothing,
            Task::Nothing,
            Task::RecordStart(local(100)),
            Task::Perform(Order::ShowCall),
            Task::Nothing,
            Task::Nothing,
            Task::Wait,
        ]
    );
    assert_eq!(s.current_call_id, Some(77));
    assert_eq!(s.current_presence, Presence::Busy);

    let tasks = run(&mut c, &mut s, vec![presence(Presence::Away)], 160);
    assert_eq!(
        tasks,
        vec![Task::Poll, Task::Nothing, Task::Nothing, Task::Nothing, Task::Nothing, Task::Wait]
    );
    assert!(s.call_start.is_some());

    assert_eq!(
        run(&mut c, &mut s, vec![], 170),
        vec![
            Task::Poll,
            Task::Nothing,
            Task::Nothing,
            Task::RecordEnd(EndedCall { id: 77, duration_secs: 70 }, local(170)),
            Task::Perform(Order::ShowIdle),
            Task::Wait,
        ]
    );
    assert_eq!(s.call_start, None);
    assert_eq!(s.stats.total_time_today_secs, 70);
}

#[test]
fn cycles_with_two_calls_in_one_poll() {
    let mut c = Cycle::new();
    let mut s = fresh();
    let events = vec![
        presence(Presence::Busy),
        presence(Presence::Away),
        presence(Presence::Busy),
    ];
    let tasks = run(&mut c, &mut s, events, 100);
    let starts = tasks.iter().filter(|t| matches!(t, Task::RecordStart(_))).count();
    assert_eq!(starts, 1);
    assert_eq!(s.current_presence, Presence::Busy);
    assert_eq!(s.stats.calls_today, 1);
}

#[test]
fn failed_polls_end_the_cycle() {
    let mut c = Cycle::new();
    let mut s = fresh();
    assert_eq!(c.next(&mut s, Report::Done, local(0), 0), Task::Poll);
    assert_eq!(c.next(&mut s, Report::Done, local(0), 0), Task::Wait);
    assert_eq!(c.next(&mut s, Report::Done, local(3), 0), Task::Poll);
    assert_eq!(s.total_events(), 0);
}

#[test]
fn overrides_short_circuit() {
    let mut c = Cycle::new();
    let mut s = fresh();
    s.override_mode = OverrideMode::ForceRed;
    let show = vec![Task::Perform(Order::ShowCall), Task::Wait];
    assert_eq!(run(&mut c, &mut s, vec![], 0), show);
    s.display = DisplayState::Call;
    assert_eq!(run(&mut c, &mut s, vec![], 3), vec![Task::Wait]);
    s.override_mode = OverrideMode::Auto;
    assert_eq!(run(&mut c, &mut s, vec![], 6)[0], Task::Poll);
}

#[test]
fn unrecorded_calls_end_without_a_record() {
    let mut c = Cycle::new();
    let mut s = fresh();
    run(&mut c, &mut s, vec![presence(Presence::Busy)], 100);
    s.current_call_id = None;
    run(&mut c, &mut s, vec![presence(Presence::Away)], 160);
    assert_eq!(
        run(&mut c, &mut s, vec![], 170),
        vec![
            Task::Poll,
            Task::Nothing,
            Task::Nothing,
            Task::Perform(Order::ShowIdle),
            Task::Wait,
        ]
    );
}

#[test]
fn the_cap_comes_last() {
    let mut c = Cycle::new();
    let mut s = fresh();
    run(&mut c, &mut s, vec![presence(Presence::Busy)], 0);
    let tasks = run(&mut c, &mut s, vec![], 4 * 3600);
    assert_eq!(
        tasks,
        vec![
            Task::Poll,
            Task::Nothing,
            Task::Nothing,
            Task::Nothing,
            Task::Perform(Order::ShowIdle),
            Task::Wait,
        ]
    );
    assert_eq!(s.call_start, None);
}

#[test]
fn steps_that_count_need_room() {
    let mut c = Cycle::new();
    let mut s = fresh();
    s.stats.date = Some(5);
    s.stats.calls_today = u32::MAX;
    assert!(c.has_room(&s, local(0), 0));
    c.next(&mut s, Report::Done, local(0), 0);
    assert!(c.has_room(&s, local(0), 0));
    let events = vec![presence(Presence::Away), presence(Presence::Busy)];
    c.next(&mut s, Report::Events(events), local(0), 0);
    assert!(c.has_room(&s, local(0), 0));
    c.next(&mut s, Report::Done, local(0), 0);
    assert!(!c.has_room(&s, local(0), 0));
    s.stats.calls_today = 3;
    assert!(c.has_room(&s, local(0), 0));
}
