use cups_client::events::Snapshot;
use cups_client::poll::{backoff_after, poll_interval};
use cups_client::{Job, JobProgress, JobState, Printer, PrinterEvent, PrinterOptions, PrinterState};
use std::time::Duration;

fn job(id: i32, state: JobState) -> Job {
    Job {
        id,
        printer: "HP-8210".into(),
        name: Some("doc.pdf".into()),
        user: Some("tester".into()),
        state,
        reasons: Vec::new(),
        progress: JobProgress::Indeterminate,
        created: None,
        pages_printed: None,
        completed: None,
    }
}

fn printer(state: PrinterState) -> Printer {
    Printer {
        name: "HP-8210".into(),
        uri: "ipp://localhost/printers/HP-8210".into(),
        device_uri: String::new(),
        info: None,
        location: None,
        state,
        reasons: Vec::new(),
        accepting_jobs: true,
        supplies: Vec::new(),
        is_default: true,
        options: PrinterOptions::default(),
    }
}

fn snapshot(printers: Vec<Printer>, jobs: Vec<Job>) -> Snapshot {
    Snapshot { printers, jobs }
}

#[test]
fn identical_snapshots_produce_no_events() {
    let s = snapshot(vec![printer(PrinterState::Idle)], vec![job(1, JobState::Pending)]);
    assert!(s.diff(&s).is_empty());
}

#[test]
fn a_new_job_is_reported_as_added() {
    let before = snapshot(vec![], vec![]);
    let after = snapshot(vec![], vec![job(1, JobState::Pending)]);
    let events = before.diff(&after);
    assert_eq!(events.len(), 1);
    assert!(matches!(&events[0], PrinterEvent::JobAdded(j) if j.id == 1));
}

#[test]
fn a_changed_job_is_reported_as_changed() {
    let before = snapshot(vec![], vec![job(1, JobState::Pending)]);
    let after = snapshot(vec![], vec![job(1, JobState::Processing)]);
    let events = before.diff(&after);
    assert_eq!(events.len(), 1);
    assert!(matches!(&events[0], PrinterEvent::JobChanged(j) if j.state == JobState::Processing));
}

#[test]
fn a_vanished_job_is_reported_as_removed() {
    let before = snapshot(vec![], vec![job(1, JobState::Pending)]);
    let after = snapshot(vec![], vec![]);
    assert_eq!(before.diff(&after), vec![PrinterEvent::JobRemoved(1)]);
}

#[test]
fn a_changed_printer_is_reported_once() {
    let before = snapshot(vec![printer(PrinterState::Idle)], vec![]);
    let after = snapshot(vec![printer(PrinterState::Processing)], vec![]);
    let events = before.diff(&after);
    assert_eq!(events.len(), 1);
    assert!(matches!(&events[0], PrinterEvent::PrinterChanged(p) if p.state == PrinterState::Processing));
}

#[test]
fn a_new_printer_is_reported_as_changed() {
    let before = snapshot(vec![], vec![]);
    let after = snapshot(vec![printer(PrinterState::Idle)], vec![]);
    assert_eq!(before.diff(&after).len(), 1);
}

#[test]
fn a_vanished_printer_is_reported_as_removed() {
    let before = snapshot(vec![printer(PrinterState::Idle)], vec![]);
    let after = snapshot(vec![], vec![]);
    assert_eq!(
        before.diff(&after),
        vec![PrinterEvent::PrinterRemoved("HP-8210".into())]
    );
}

#[test]
fn a_replaced_printer_reports_removal_before_addition() {
    let mut other = printer(PrinterState::Idle);
    other.name = "Other".into();

    let before = snapshot(vec![printer(PrinterState::Idle)], vec![]);
    let after = snapshot(vec![other], vec![]);
    let events = before.diff(&after);

    assert_eq!(events.len(), 2);
    assert!(matches!(&events[0], PrinterEvent::PrinterRemoved(n) if n == "HP-8210"));
    assert!(matches!(&events[1], PrinterEvent::PrinterChanged(p) if p.name == "Other"));
}

#[test]
fn removals_are_emitted_before_additions() {
    let before = snapshot(vec![], vec![job(1, JobState::Pending)]);
    let after = snapshot(vec![], vec![job(2, JobState::Pending)]);
    let events = before.diff(&after);
    assert_eq!(events.len(), 2);
    assert!(matches!(events[0], PrinterEvent::JobRemoved(1)));
    assert!(matches!(&events[1], PrinterEvent::JobAdded(j) if j.id == 2));
}

#[test]
fn backoff_grows_then_caps() {
    assert_eq!(backoff_after(Duration::ZERO), Duration::from_secs(1));
    assert_eq!(backoff_after(Duration::from_secs(1)), Duration::from_secs(2));
    assert_eq!(backoff_after(Duration::from_secs(16)), Duration::from_secs(30));
    assert_eq!(backoff_after(Duration::from_secs(30)), Duration::from_secs(30));
}

#[test]
fn poll_interval_is_three_seconds() {
    assert_eq!(poll_interval(), Duration::from_secs(3));
}
