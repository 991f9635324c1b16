//! Following the print system by reading it over and over.

use vstd::prelude::*;
use std::time::Duration;
use crate::clock::{in_nanos, SECOND};
use crate::error::{outcome, Error, ErrorView};
use crate::events::{changes, PrinterEvent, PrinterEventView, Snapshot, SnapshotView};
use crate::lists::viewed;
use crate::replay::{consistent, events_turn_a_snapshot_into_the_next, known, told, told_all, Known};

verus! {

/// How often the queue is read again, in seconds.
pub const POLL_SECONDS: u64 = 3;

/// The longest wait before trying again, in seconds.
pub const MAX_BACKOFF_SECONDS: u64 = 30;

/// How often the queue is read again.
pub fn poll_interval() -> (r: Duration)
    ensures
        in_nanos(r) == POLL_SECONDS * SECOND,
{
    Duration::from_secs(POLL_SECONDS)
}

/// The wait that follows a wait of `previous` nanoseconds: a second at first,
/// then twice as long each time, up to a cap.
pub open spec fn next_backoff(previous: nat) -> nat {
    let cap = (MAX_BACKOFF_SECONDS * SECOND) as nat;
    if previous == 0 {
        SECOND as nat
    } else if 2 * previous <= cap {
        2 * previous
    } else {
        cap
    }
}

/// Doubles the retry delay, capped at 30 s.
pub fn backoff_after(previous: Duration) -> (r: Duration)
    ensures
        in_nanos(r) == next_backoff(in_nanos(previous)),
{
    let nanos: u128 = previous.as_nanos();
    if nanos == 0 {
        Duration::from_secs(1)
    } else if nanos <= 15_000_000_000 {
        Duration::from_nanos(2 * (nanos as u64))
    } else {
        Duration::from_secs(MAX_BACKOFF_SECONDS)
    }
}

/// No wait is longer than the cap, however long the one before it was. The wait
/// grows with every failure until it reaches the cap, and stays there.
pub proof fn backoff_grows_to_its_cap(previous: nat)
    ensures
        next_backoff(previous) <= MAX_BACKOFF_SECONDS * SECOND,
        previous < MAX_BACKOFF_SECONDS * SECOND ==> previous < next_backoff(previous),
        previous >= MAX_BACKOFF_SECONDS * SECOND ==> next_backoff(previous)
            == MAX_BACKOFF_SECONDS * SECOND,
{
}

/// Where a reader of the print system stands: what it read last, where nothing
/// has failed since, and how long it last waited after a failure.
pub struct PollerView {
    pub previous: Option<SnapshotView>,
    pub backoff: nat,
}

/// What one reading comes to: what to report, and how long to wait before the
/// next.
pub struct PollView {
    pub reports: Seq<Result<PrinterEventView, ErrorView>>,
    pub pause: nat,
}

/// The reports of events, none of which is a failure.
pub open spec fn reported(events: Seq<PrinterEventView>) -> Seq<
    Result<PrinterEventView, ErrorView>,
> {
    events.map_values(|event: PrinterEventView| Ok::<PrinterEventView, ErrorView>(event))
}

/// The events of a reading that succeeded: a full reload where there is
/// nothing to compare it to, and else what changed.
pub open spec fn news(poller: PollerView, current: SnapshotView) -> Seq<PrinterEventView> {
    match poller.previous {
        None => seq![
            PrinterEventView::Resynchronised { printers: current.printers, jobs: current.jobs },
        ],
        Some(before) => changes(before, current),
    }
}

/// What follows from one reading.
pub open spec fn followed(
    poller: PollerView,
    reading: Result<SnapshotView, ErrorView>,
) -> (PollerView, PollView) {
    match reading {
        Ok(current) => (
            PollerView { previous: Some(current), backoff: 0 },
            PollView {
                reports: reported(news(poller, current)),
                pause: (POLL_SECONDS * SECOND) as nat,
            },
        ),
        Err(error) => (
            PollerView { previous: None, backoff: next_backoff(poller.backoff) },
            PollView { reports: seq![Err(error)], pause: next_backoff(poller.backoff) },
        ),
    }
}

/// The reports in a list, as they are viewed.
pub open spec fn report_views(reports: Seq<Result<PrinterEvent, Error>>) -> Seq<
    Result<PrinterEventView, ErrorView>,
> {
    reports.map_values(|report: Result<PrinterEvent, Error>| outcome(report))
}

/// What one reading comes to.
pub struct Poll {
    /// What to report, in order.
    pub reports: Vec<Result<PrinterEvent, Error>>,
    /// How long to wait before the next reading.
    pub pause: Duration,
}

impl View for Poll {
    type V = PollView;

    open spec fn view(&self) -> PollView {
        PollView { reports: report_views(self.reports@), pause: in_nanos(self.pause) }
    }
}

/// A reader of the print system, between two readings.
pub struct Poller {
    previous: Option<Snapshot>,
    backoff: Duration,
}

impl View for Poller {
    type V = PollerView;

    closed spec fn view(&self) -> PollerView {
        PollerView {
            previous: match self.previous {
                Some(snapshot) => Some(snapshot@),
                None => None,
            },
            backoff: in_nanos(self.backoff),
        }
    }
}

impl Poller {
    /// The wait never exceeds the cap.
    pub open spec fn wf(&self) -> bool {
        self@.backoff <= MAX_BACKOFF_SECONDS * SECOND
    }

    /// A reader that has read nothing yet.
    pub fn new() -> (r: Poller)
        ensures
            r.wf(),
            r@ == (PollerView { previous: None, backoff: 0 }),
    {
        Poller { previous: None, backoff: Duration::from_secs(0) }
    }

    /// Whether what is remembered of the default printer may predate an outage
    /// and has to be looked up again: before the first reading, and before the
    /// first after a failure.
    pub fn must_resolve_default(&self) -> (r: bool)
        ensures
            r == (self@.previous is None),
    {
        self.previous.is_none()
    }

    /// Takes in one reading. The first, and the first after a failure, reports
    /// everything; each other reports what changed.
    pub fn follow(&mut self, reading: Result<Snapshot, Error>) -> (r: Poll)
        ensures
            final(self).wf(),
            (final(self)@, r@) == followed(old(self)@, outcome(reading)),
    {
        let mut reports: Vec<Result<PrinterEvent, Error>> = Vec::new();
        match reading {
            Ok(current) => {
                match &self.previous {
                    None => {
                        let printers = current.printers.clone();
                        let jobs = current.jobs.clone();
                        assert(viewed(printers@) =~= current@.printers);
                        assert(viewed(jobs@) =~= current@.jobs);
                        reports.push(Ok(PrinterEvent::Resynchronised { printers, jobs }));
                    },
                    Some(before) => {
                        let events = before.diff(&current);
                        let mut i: usize = 0;
                        while i < events.len()
                            invariant
                                i <= events.len(),
                                reports.len() == i,
                                forall|j: int|
                                    0 <= j < i ==> outcome(#[trigger] reports@[j]) == Ok::<
                                        PrinterEventView,
                                        ErrorView,
                                    >(events@[j]@),
                            decreases events.len() - i,
                        {
                            reports.push(Ok(events[i].clone()));
                            i += 1;
                        }
                        assert(report_views(reports@) =~= reported(viewed(events@)));
                    },
                }
                let ghost kept = current@;
                self.previous = Some(current);
                self.backoff = Duration::from_secs(0);
                let r = Poll { reports, pause: poll_interval() };
                assert(self@ == followed(old(self)@, Ok(kept)).0);
                assert(r@.reports =~= followed(old(self)@, Ok(kept)).1.reports);
                r
            },
            Err(error) => {
                self.previous = None;
                self.backoff = backoff_after(self.backoff);
                let ghost seen = error@;
                reports.push(Err(error));
                let r = Poll { reports, pause: self.backoff };
                assert(r@.reports =~= followed(old(self)@, Err(seen)).1.reports);
                r
            },
        }
    }
}

/// A reading that succeeds after one that failed is reported in full, so a
/// consumer always has a way back to a known-good state.
pub proof fn recovery_reports_everything(
    poller: PollerView,
    failure: ErrorView,
    current: SnapshotView,
)
    ensures
        followed(followed(poller, Err(failure)).0, Ok(current)).1.reports == seq![
            Ok::<PrinterEventView, ErrorView>(
                PrinterEventView::Resynchronised {
                    printers: current.printers,
                    jobs: current.jobs,
                },
            ),
        ],
{
    let events = news(followed(poller, Err(failure)).0, current);
    assert(reported(events) =~= seq![Ok(events[0])]);
}

/// A success ends the waiting: the first wait after it, should the next reading
/// fail, is a second long whatever went before.
pub proof fn success_resets_the_backoff(
    poller: PollerView,
    current: SnapshotView,
    failure: ErrorView,
)
    ensures
        followed(followed(poller, Ok(current)).0, Err(failure)).1.pause == SECOND,
{
}

/// A consumer that is told the events of every reading knows the last one: it
/// need only have known the one before where nothing failed in between.
pub proof fn a_follower_knows_the_last_reading(
    poller: PollerView,
    current: SnapshotView,
    before: Known,
)
    requires
        consistent(current),
        poller.previous matches Some(snapshot) ==> before == known(snapshot),
    ensures
        followed(poller, Ok(current)).1.reports == reported(news(poller, current)),
        told_all(before, news(poller, current)) == known(current),
{
    match poller.previous {
        None => {
            let events = news(poller, current);
            assert(events.drop_last() =~= Seq::empty());
            assert(told_all(before, events) == told(
                told_all(before, events.drop_last()),
                events.last(),
            ));
            assert(told_all(before, events.drop_last()) == before);
        },
        Some(snapshot) => {
            events_turn_a_snapshot_into_the_next(snapshot, current);
        },
    }
}

} // verus!
