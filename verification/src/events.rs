//! Changes in the print system, found by comparing one view of it to the next.

use vstd::prelude::*;
use crate::job::{Job, JobId, JobView};
use crate::lists::viewed;
use crate::printer::{Printer, PrinterView};

verus! {

/// A change in the print system.
#[derive(Debug, PartialEq, Eq)]
pub enum PrinterEvent {
    /// A job that was not there before.
    JobAdded(Job),
    /// A job that is not what it was.
    JobChanged(Job),
    /// A job that is no longer there.
    JobRemoved(JobId),
    /// A queue that is new, or not what it was.
    PrinterChanged(Printer),
    /// A queue CUPS no longer knows about, by name. Without this a deleted
    /// queue would sit in the panel forever, permanently idle.
    PrinterRemoved(String),
    /// A full state reload. Emitted on connect and after any recovery, so the
    /// consumer always has a way back to a known-good state.
    Resynchronised {
        /// Every queue.
        printers: Vec<Printer>,
        /// Every job.
        jobs: Vec<Job>,
    },
}

/// A [`PrinterEvent`], as it is viewed.
pub enum PrinterEventView {
    JobAdded(JobView),
    JobChanged(JobView),
    JobRemoved(JobId),
    PrinterChanged(PrinterView),
    PrinterRemoved(Seq<char>),
    Resynchronised { printers: Seq<PrinterView>, jobs: Seq<JobView> },
}

impl View for PrinterEvent {
    type V = PrinterEventView;

    open spec fn view(&self) -> PrinterEventView {
        match self {
            PrinterEvent::JobAdded(job) => PrinterEventView::JobAdded(job@),
            PrinterEvent::JobChanged(job) => PrinterEventView::JobChanged(job@),
            PrinterEvent::JobRemoved(id) => PrinterEventView::JobRemoved(*id),
            PrinterEvent::PrinterChanged(printer) => PrinterEventView::PrinterChanged(printer@),
            PrinterEvent::PrinterRemoved(name) => PrinterEventView::PrinterRemoved(name@),
            PrinterEvent::Resynchronised { printers, jobs } => PrinterEventView::Resynchronised {
                printers: viewed(printers@),
                jobs: viewed(jobs@),
            },
        }
    }
}

impl Clone for PrinterEvent {
    fn clone(&self) -> (r: PrinterEvent)
        ensures
            r@ == self@,
    {
        match self {
            PrinterEvent::JobAdded(job) => PrinterEvent::JobAdded(job.clone()),
            PrinterEvent::JobChanged(job) => PrinterEvent::JobChanged(job.clone()),
            PrinterEvent::JobRemoved(id) => PrinterEvent::JobRemoved(*id),
            PrinterEvent::PrinterChanged(printer) => PrinterEvent::PrinterChanged(printer.clone()),
            PrinterEvent::PrinterRemoved(name) => PrinterEvent::PrinterRemoved(name.clone()),
            PrinterEvent::Resynchronised { printers, jobs } => {
                let printers_copy = printers.clone();
                let jobs_copy = jobs.clone();
                assert(viewed(printers_copy@) =~= viewed(printers@));
                assert(viewed(jobs_copy@) =~= viewed(jobs@));
                PrinterEvent::Resynchronised { printers: printers_copy, jobs: jobs_copy }
            },
        }
    }
}

/// A point-in-time view of the print system.
#[derive(Debug, PartialEq, Eq)]
pub struct Snapshot {
    /// Every queue.
    pub printers: Vec<Printer>,
    /// Every job.
    pub jobs: Vec<Job>,
}

/// A [`Snapshot`], as it is viewed.
pub struct SnapshotView {
    pub printers: Seq<PrinterView>,
    pub jobs: Seq<JobView>,
}

impl View for Snapshot {
    type V = SnapshotView;

    open spec fn view(&self) -> SnapshotView {
        SnapshotView { printers: viewed(self.printers@), jobs: viewed(self.jobs@) }
    }
}

impl Clone for Snapshot {
    fn clone(&self) -> (r: Snapshot)
        ensures
            r@ == self@,
    {
        let printers = self.printers.clone();
        let jobs = self.jobs.clone();
        assert(viewed(printers@) =~= viewed(self.printers@));
        assert(viewed(jobs@) =~= viewed(self.jobs@));
        Snapshot { printers, jobs }
    }
}

impl Default for Snapshot {
    fn default() -> (r: Snapshot)
        ensures
            r@ == (SnapshotView { printers: Seq::empty(), jobs: Seq::empty() }),
    {
        let r = Snapshot { printers: Vec::new(), jobs: Vec::new() };
        assert(r@.printers =~= Seq::empty());
        assert(r@.jobs =~= Seq::empty());
        r
    }
}

/// The first job with this id, if there is one.
pub open spec fn find_job(jobs: Seq<JobView>, id: JobId) -> Option<JobView>
    decreases jobs.len(),
{
    if jobs.len() == 0 {
        None
    } else if jobs[0].id == id {
        Some(jobs[0])
    } else {
        find_job(jobs.drop_first(), id)
    }
}

/// The first printer with this name, if there is one.
pub open spec fn find_printer(printers: Seq<PrinterView>, name: Seq<char>) -> Option<PrinterView>
    decreases printers.len(),
{
    if printers.len() == 0 {
        None
    } else if printers[0].name == name {
        Some(printers[0])
    } else {
        find_printer(printers.drop_first(), name)
    }
}

/// The removals of the jobs in `before` that are not in `after`.
pub open spec fn job_removals(before: Seq<JobView>, after: Seq<JobView>) -> Seq<PrinterEventView>
    decreases before.len(),
{
    if before.len() == 0 {
        Seq::empty()
    } else {
        let earlier = job_removals(before.drop_last(), after);
        if find_job(after, before.last().id) is None {
            earlier.push(PrinterEventView::JobRemoved(before.last().id))
        } else {
            earlier
        }
    }
}

/// The additions of and changes to the jobs in `after`, against `before`.
pub open spec fn job_arrivals(before: Seq<JobView>, after: Seq<JobView>) -> Seq<PrinterEventView>
    decreases after.len(),
{
    if after.len() == 0 {
        Seq::empty()
    } else {
        let earlier = job_arrivals(before, after.drop_last());
        match find_job(before, after.last().id) {
            None => earlier.push(PrinterEventView::JobAdded(after.last())),
            Some(previous) => if previous != after.last() {
                earlier.push(PrinterEventView::JobChanged(after.last()))
            } else {
                earlier
            },
        }
    }
}

/// The removals of the printers in `before` that are not in `after`.
pub open spec fn printer_removals(before: Seq<PrinterView>, after: Seq<PrinterView>) -> Seq<
    PrinterEventView,
>
    decreases before.len(),
{
    if before.len() == 0 {
        Seq::empty()
    } else {
        let earlier = printer_removals(before.drop_last(), after);
        if find_printer(after, before.last().name) is None {
            earlier.push(PrinterEventView::PrinterRemoved(before.last().name))
        } else {
            earlier
        }
    }
}

/// The printers in `after` that are new against `before`, or not what they were.
pub open spec fn printer_changes(before: Seq<PrinterView>, after: Seq<PrinterView>) -> Seq<
    PrinterEventView,
>
    decreases after.len(),
{
    if after.len() == 0 {
        Seq::empty()
    } else {
        let earlier = printer_changes(before, after.drop_last());
        if find_printer(before, after.last().name) == Some(after.last()) {
            earlier
        } else {
            earlier.push(PrinterEventView::PrinterChanged(after.last()))
        }
    }
}

/// The events that lead from one snapshot to the next.
pub open spec fn changes(before: SnapshotView, after: SnapshotView) -> Seq<PrinterEventView> {
    job_removals(before.jobs, after.jobs) + job_arrivals(before.jobs, after.jobs)
        + printer_removals(before.printers, after.printers) + printer_changes(
        before.printers,
        after.printers,
    )
}

/// The first job with this id.
fn job_with<'a>(jobs: &'a Vec<Job>, id: JobId) -> (r: Option<&'a Job>)
    ensures
        match r {
            Some(job) => find_job(viewed(jobs@), id) == Some(job@),
            None => find_job(viewed(jobs@), id) is None,
        },
{
    let ghost all = viewed(jobs@);
    let mut i: usize = 0;
    assert(all.skip(0) =~= all);
    while i < jobs.len()
        invariant
            i <= jobs.len(),
            all == viewed(jobs@),
            find_job(all, id) == find_job(all.skip(i as int), id),
        decreases jobs.len() - i,
    {
        assert(all.skip(i as int)[0] == jobs@[i as int]@);
        assert(all.skip(i as int).drop_first() =~= all.skip(i + 1));
        if jobs[i].id == id {
            return Some(&jobs[i]);
        }
        i += 1;
    }
    None
}

/// The first printer with this name.
fn printer_with<'a>(printers: &'a Vec<Printer>, name: &String) -> (r: Option<&'a Printer>)
    ensures
        match r {
            Some(printer) => find_printer(viewed(printers@), name@) == Some(printer@),
            None => find_printer(viewed(printers@), name@) is None,
        },
{
    let ghost all = viewed(printers@);
    let mut i: usize = 0;
    assert(all.skip(0) =~= all);
    while i < printers.len()
        invariant
            i <= printers.len(),
            all == viewed(printers@),
            find_printer(all, name@) == find_printer(all.skip(i as int), name@),
        decreases printers.len() - i,
    {
        assert(all.skip(i as int)[0] == printers@[i as int]@);
        assert(all.skip(i as int).drop_first() =~= all.skip(i + 1));
        if printers[i].name == *name {
            return Some(&printers[i]);
        }
        i += 1;
    }
    None
}

/// One more event, as the list is viewed.
proof fn lemma_pushed(events: Seq<PrinterEvent>, event: PrinterEvent)
    ensures
        viewed(events.push(event)) == viewed(events).push(event@),
{
    assert(viewed(events.push(event)) =~= viewed(events).push(event@));
}

impl Snapshot {
    /// Events that turn `self` into `next`. Removals come first so a consumer
    /// replacing a job id sees the old one leave before the new one arrives.
    pub fn diff(&self, next: &Snapshot) -> (r: Vec<PrinterEvent>)
        ensures
            viewed(r@) == changes(self@, next@),
    {
        let mut events: Vec<PrinterEvent> = Vec::new();
        let ghost before = self@;
        let ghost after = next@;
        assert(viewed(events@) =~= Seq::empty());
        assert(before.jobs.take(0) =~= Seq::empty());
        let mut i: usize = 0;
        while i < self.jobs.len()
            invariant
                i <= self.jobs.len(),
                before == self@,
                after == next@,
                viewed(events@) == job_removals(before.jobs.take(i as int), after.jobs),
            decreases self.jobs.len() - i,
        {
            let id: JobId = self.jobs[i].id;
            proof {
                assert(before.jobs.take(i + 1).drop_last() =~= before.jobs.take(i as int));
                assert(before.jobs.take(i + 1).last() == self.jobs@[i as int]@);
            }
            if job_with(&next.jobs, id).is_none() {
                let event = PrinterEvent::JobRemoved(id);
                proof {
                    lemma_pushed(events@, event);
                }
                events.push(event);
            }
            i += 1;
        }
        let ghost first = job_removals(before.jobs, after.jobs);
        assert(before.jobs.take(i as int) =~= before.jobs);
        assert(after.jobs.take(0) =~= Seq::empty());
        assert(viewed(events@) =~= first + job_arrivals(before.jobs, after.jobs.take(0)));
        let mut i: usize = 0;
        while i < next.jobs.len()
            invariant
                i <= next.jobs.len(),
                before == self@,
                after == next@,
                viewed(events@) == first + job_arrivals(before.jobs, after.jobs.take(i as int)),
            decreases next.jobs.len() - i,
        {
            let job = &next.jobs[i];
            proof {
                assert(after.jobs.take(i + 1).drop_last() =~= after.jobs.take(i as int));
                assert(after.jobs.take(i + 1).last() == job@);
            }
            let ghost so_far = viewed(events@);
            match job_with(&self.jobs, job.id) {
                None => {
                    let event = PrinterEvent::JobAdded(job.clone());
                    proof {
                        lemma_pushed(events@, event);
                    }
                    events.push(event);
                },
                Some(previous) => {
                    if !previous.same(job) {
                        let event = PrinterEvent::JobChanged(job.clone());
                        proof {
                            lemma_pushed(events@, event);
                        }
                        events.push(event);
                    }
                },
            }
            proof {
                assert(viewed(events@) =~= first + job_arrivals(
                    before.jobs,
                    after.jobs.take(i + 1),
                ));
            }
            i += 1;
        }
        let ghost second = first + job_arrivals(before.jobs, after.jobs);
        assert(after.jobs.take(i as int) =~= after.jobs);
        assert(before.printers.take(0) =~= Seq::empty());
        assert(viewed(events@) =~= second + printer_removals(
            before.printers.take(0),
            after.printers,
        ));
        let mut i: usize = 0;
        while i < self.printers.len()
            invariant
                i <= self.printers.len(),
                before == self@,
                after == next@,
                viewed(events@) == second + printer_removals(
                    before.printers.take(i as int),
                    after.printers,
                ),
            decreases self.printers.len() - i,
        {
            let name = &self.printers[i].name;
            proof {
                assert(before.printers.take(i + 1).drop_last() =~= before.printers.take(
                    i as int,
                ));
                assert(before.printers.take(i + 1).last() == self.printers@[i as int]@);
            }
            if printer_with(&next.printers, name).is_none() {
                let event = PrinterEvent::PrinterRemoved(name.clone());
                proof {
                    lemma_pushed(events@, event);
                }
                events.push(event);
            }
            proof {
                assert(viewed(events@) =~= second + printer_removals(
                    before.printers.take(i + 1),
                    after.printers,
                ));
            }
            i += 1;
        }
        let ghost third = second + printer_removals(before.printers, after.printers);
        assert(before.printers.take(i as int) =~= before.printers);
        assert(after.printers.take(0) =~= Seq::empty());
        assert(viewed(events@) =~= third + printer_changes(
            before.printers,
            after.printers.take(0),
        ));
        let mut i: usize = 0;
        while i < next.printers.len()
            invariant
                i <= next.printers.len(),
                before == self@,
                after == next@,
                viewed(events@) == third + printer_changes(
                    before.printers,
                    after.printers.take(i as int),
                ),
            decreases next.printers.len() - i,
        {
            let printer = &next.printers[i];
            proof {
                assert(after.printers.take(i + 1).drop_last() =~= after.printers.take(i as int));
                assert(after.printers.take(i + 1).last() == printer@);
            }
            let unchanged = match printer_with(&self.printers, &printer.name) {
                Some(previous) => previous.same(printer),
                None => false,
            };
            if !unchanged {
                let event = PrinterEvent::PrinterChanged(printer.clone());
                proof {
                    lemma_pushed(events@, event);
                }
                events.push(event);
            }
            proof {
                assert(viewed(events@) =~= third + printer_changes(
                    before.printers,
                    after.printers.take(i + 1),
                ));
            }
            i += 1;
        }
        assert(after.printers.take(i as int) =~= after.printers);
        events
    }
}

} // verus!
