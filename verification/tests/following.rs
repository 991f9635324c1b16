use cups_client::default_printer::{DefaultCache, Resolution};
use cups_client::events::Snapshot;
use cups_client::poll::{backoff_after, Poller};
use cups_client::{
    Error, Job, JobId, JobProgress, JobState, Printer, PrinterEvent, PrinterOptions, PrinterState,
};
use std::collections::BTreeMap;
use std::time::Duration;

fn job(id: JobId, state: JobState) -> Job {
    Job {
        id,
        printer: "HP".into(),
        name: None,
        user: None,
        state,
        reasons: Vec::new(),
        progress: JobProgress::Indeterminate,
        created: None,
        pages_printed: None,
        completed: None,
    }
}

fn printer(name: &str, state: PrinterState) -> Printer {
    Printer {
        name: name.into(),
        uri: String::new(),
        device_uri: String::new(),
        info: None,
        location: None,
        state,
        reasons: Vec::new(),
        accepting_jobs: true,
        supplies: Vec::new(),
        is_default: false,
        options: PrinterOptions::default(),
    }
}

/// What a consumer that follows the events knows.
#[derive(Debug, Default, PartialEq)]
struct Known {
    jobs: BTreeMap<JobId, Job>,
    printers: BTreeMap<String, Printer>,
}

impl Known {
    fn of(snapshot: &Snapshot) -> Known {
        Known {
            jobs: snapshot.jobs.iter().map(|j| (j.id, j.clone())).collect(),
            printers: snapshot
                .printers
                .iter()
                .map(|p| (p.name.clone(), p.clone()))
                .collect(),
        }
    }

    fn told(&mut self, event: PrinterEvent) {
        match event {
            PrinterEvent::JobAdded(job) | PrinterEvent::JobChanged(job) => {
                self.jobs.insert(job.id, job);
            }
            PrinterEvent::JobRemoved(id) => {
                self.jobs.remove(&id);
            }
            PrinterEvent::PrinterChanged(printer) => {
                self.printers.insert(printer.name.clone(), printer);
            }
            PrinterEvent::PrinterRemoved(name) => {
                self.printers.remove(&name);
            }
            PrinterEvent::Resynchronised { printers, jobs } => {
                *self = Known::of(&Snapshot { printers, jobs });
            }
        }
    }
}

fn first() -> Snapshot {
    Snapshot {
        printers: vec![printer("A", PrinterState::Idle), printer("B", PrinterState::Idle)],
        jobs: vec![job(1, JobState::Pending), job(2, JobState::Processing)],
    }
}

fn second() -> Snapshot {
    Snapshot {
        printers: vec![printer("B", PrinterState::Stopped), printer("C", PrinterState::Idle)],
        jobs: vec![job(2, JobState::Completed), job(3, JobState::Pending)],
    }
}

#[test]
fn the_events_turn_one_snapshot_into_the_next() {
    let mut known = Known::of(&first());
    let events = first().diff(&second());
    assert_eq!(events.len(), 6);
    for event in events {
        known.told(event);
    }
    assert_eq!(known, Known::of(&second()));
}

#[test]
fn the_events_come_in_their_order() {
    let events = first().diff(&second());
    assert!(matches!(events[0], PrinterEvent::JobRemoved(1)));
    assert!(matches!(&events[1], PrinterEvent::JobChanged(j) if j.id == 2));
    assert!(matches!(&events[2], PrinterEvent::JobAdded(j) if j.id == 3));
    assert!(matches!(&events[3], PrinterEvent::PrinterRemoved(n) if n == "A"));
    assert!(matches!(&events[4], PrinterEvent::PrinterChanged(p) if p.name == "B"));
    assert!(matches!(&events[5], PrinterEvent::PrinterChanged(p) if p.name == "C"));
}

#[test]
fn every_field_of_a_job_is_compared() {
    let before = |change: fn(&mut Job)| {
        let mut changed = job(1, JobState::Pending);
        change(&mut changed);
        let old = Snapshot { printers: vec![], jobs: vec![job(1, JobState::Pending)] };
        let new = Snapshot { printers: vec![], jobs: vec![changed] };
        old.diff(&new).len()
    };
    assert_eq!(before(|_| {}), 0);
    assert_eq!(before(|j| j.printer = "B".into()), 1);
    assert_eq!(before(|j| j.name = Some("doc".into())), 1);
    assert_eq!(before(|j| j.user = Some("alice".into())), 1);
    assert_eq!(before(|j| j.progress = JobProgress::Pages { done: 1, total: 2 }), 1);
    assert_eq!(before(|j| j.created = Some(std::time::UNIX_EPOCH)), 1);
    assert_eq!(before(|j| j.completed = Some(std::time::UNIX_EPOCH)), 1);
    assert_eq!(before(|j| j.pages_printed = Some(1)), 1);
    assert_eq!(
        before(|j| j.reasons = vec![cups_client::StateReason::parse("a-warning")]),
        1
    );
}

#[test]
fn every_field_of_a_printer_is_compared() {
    let before = |change: fn(&mut Printer)| {
        let mut changed = printer("A", PrinterState::Idle);
        change(&mut changed);
        let old = Snapshot { printers: vec![printer("A", PrinterState::Idle)], jobs: vec![] };
        let new = Snapshot { printers: vec![changed], jobs: vec![] };
        old.diff(&new).len()
    };
    assert_eq!(before(|_| {}), 0);
    assert_eq!(before(|p| p.uri = "x".into()), 1);
    assert_eq!(before(|p| p.device_uri = "x".into()), 1);
    assert_eq!(before(|p| p.info = Some("x".into())), 1);
    assert_eq!(before(|p| p.location = Some("x".into())), 1);
    assert_eq!(before(|p| p.accepting_jobs = false), 1);
    assert_eq!(before(|p| p.is_default = true), 1);
    assert_eq!(before(|p| p.options.media.default = Some("iso_a4_210x297mm".into())), 1);
    assert_eq!(before(|p| p.options.quality.default = Some(cups_client::PrintQuality::High)), 1);
    let supplied = |p: &mut Printer| {
        p.supplies = cups_client::Supply::decode_list(&["Ink".to_string()], &[5], &[], &[], &[])
    };
    assert_eq!(before(supplied), 1);
}

#[test]
fn the_first_reading_reports_everything() {
    let mut poller = Poller::new();
    assert!(poller.must_resolve_default());
    let poll = poller.follow(Ok(first()));
    assert_eq!(poll.pause, Duration::from_secs(3));
    assert_eq!(poll.reports.len(), 1);
    match poll.reports.into_iter().next().unwrap().unwrap() {
        PrinterEvent::Resynchronised { printers, jobs } => {
            assert_eq!(printers, first().printers);
            assert_eq!(jobs, first().jobs);
        }
        other => panic!("expected a full reload, got {other:?}"),
    }
    assert!(!poller.must_resolve_default());
    // Nothing changed, so there is nothing to report.
    assert!(poller.follow(Ok(first())).reports.is_empty());
    assert_eq!(poller.follow(Ok(second())).reports.len(), 6);
}

#[test]
fn failures_are_reported_and_waited_out() {
    let mut poller = Poller::new();
    poller.follow(Ok(first()));
    let mut waits = Vec::new();
    for _ in 0..7 {
        let poll = poller.follow(Err(Error::transport_msg("down".into())));
        assert_eq!(poll.reports.len(), 1);
        assert!(poll.reports[0].is_err());
        waits.push(poll.pause.as_secs());
    }
    assert_eq!(waits, vec![1, 2, 4, 8, 16, 30, 30]);
    assert!(poller.must_resolve_default());

    // Recovery reloads everything, and the next failure waits a second again.
    let poll = poller.follow(Ok(second()));
    assert!(matches!(
        poll.reports[0],
        Ok(PrinterEvent::Resynchronised { .. })
    ));
    let poll = poller.follow(Err(Error::transport_msg("down".into())));
    assert_eq!(poll.pause, Duration::from_secs(1));
}

#[test]
fn a_fraction_of_a_second_doubles_too() {
    assert_eq!(
        backoff_after(Duration::from_millis(500)),
        Duration::from_secs(1)
    );
    assert_eq!(
        backoff_after(Duration::from_nanos(14_999_999_999)),
        Duration::from_nanos(29_999_999_998)
    );
    assert_eq!(backoff_after(Duration::from_secs(15)), Duration::from_secs(30));
    assert_eq!(backoff_after(Duration::from_secs(3600)), Duration::from_secs(30));
}

#[test]
fn no_delay_is_too_long_to_be_capped() {
    assert_eq!(backoff_after(Duration::MAX), Duration::from_secs(30));
    assert_eq!(backoff_after(Duration::MAX / 2), Duration::from_secs(30));
}

#[test]
fn default_printer_is_cached_until_invalidated() {
    let mut cache = DefaultCache::new();
    assert!(matches!(cache.begin(), Resolution::ReadOptions));
    let choice = cache.options_read(Some("Cached".into()));
    assert!(matches!(choice, Resolution::Settled(Some(name)) if name == "Cached"));
    for _ in 0..2 {
        assert!(matches!(cache.begin(), Resolution::Settled(Some(name)) if name == "Cached"));
    }
    cache.invalidate();
    assert!(matches!(cache.begin(), Resolution::ReadOptions));
}

#[test]
fn the_server_is_asked_where_the_user_made_no_choice() {
    let mut cache = DefaultCache::new();
    assert!(matches!(cache.options_read(None), Resolution::AskServer));
    assert!(matches!(cache.begin(), Resolution::ReadOptions));
    assert_eq!(
        cache.server_answered(Ok(Some("HP".into()))).as_deref(),
        Some("HP")
    );
    assert!(matches!(cache.begin(), Resolution::Settled(Some(name)) if name == "HP"));
}

#[test]
fn having_no_default_is_remembered_too() {
    let mut cache = DefaultCache::new();
    assert_eq!(cache.server_answered(Err(Error::transport_msg("down".into()))), None);
    assert!(matches!(cache.begin(), Resolution::Settled(None)));
    cache.invalidate();
    assert_eq!(cache.server_answered(Ok(None)), None);
    assert!(matches!(cache.begin(), Resolution::Settled(None)));
}
