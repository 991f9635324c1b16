//! Which events two readings of the print system give: each kind of event, with
//! the readings that give it and no others.

use vstd::prelude::*;
use crate::error::ErrorView;
use crate::events::{
    changes, find_job, find_printer, job_arrivals, job_removals, printer_changes,
    printer_removals, PrinterEventView, SnapshotView,
};
use crate::job::{JobId, JobView};
use crate::poll::{followed, next_backoff, PollerView};
use crate::printer::PrinterView;

verus! {

/// Some job has this id.
#[verifier::opaque]
pub open spec fn has_job(jobs: Seq<JobView>, id: JobId) -> bool {
    exists|k: int| 0 <= k < jobs.len() && (#[trigger] jobs[k]).id == id
}

/// Of the jobs with its id, `job` is the first.
#[verifier::opaque]
pub open spec fn leads_jobs(jobs: Seq<JobView>, job: JobView) -> bool {
    exists|k: int|
        #![trigger jobs[k]]
        {
            &&& 0 <= k < jobs.len()
            &&& jobs[k] == job
            &&& forall|m: int| 0 <= m < k ==> (#[trigger] jobs[m]).id != job.id
        }
}

/// Some printer has this name.
#[verifier::opaque]
pub open spec fn has_printer(printers: Seq<PrinterView>, name: Seq<char>) -> bool {
    exists|k: int| 0 <= k < printers.len() && (#[trigger] printers[k]).name == name
}

/// Of the printers with its name, `printer` is the first.
#[verifier::opaque]
pub open spec fn leads_printers(printers: Seq<PrinterView>, printer: PrinterView) -> bool {
    exists|k: int|
        #![trigger printers[k]]
        {
            &&& 0 <= k < printers.len()
            &&& printers[k] == printer
            &&& forall|m: int| 0 <= m < k ==> (#[trigger] printers[m]).name != printer.name
        }
}

/// What is in a list with one more at its end.
proof fn lemma_one_more<T>(list: Seq<T>, last: T, x: T)
    ensures
        list.push(last).contains(x) <==> list.contains(x) || x == last,
{
    let all = list.push(last);
    if list.contains(x) {
        let k = choose|k: int| 0 <= k < list.len() && list[k] == x;
        assert(all[k] == x);
    }
    if x == last {
        assert(all[list.len() as int] == x);
    }
    if all.contains(x) && x != last {
        let k = choose|k: int| 0 <= k < all.len() && all[k] == x;
        assert(list[k] == x);
    }
}

/// A job is found under its id where it is the first to have it, and something
/// is where any job has it.
pub proof fn a_job_is_found_under_its_id(jobs: Seq<JobView>, job: JobView)
    ensures
        find_job(jobs, job.id) == Some(job) <==> leads_jobs(jobs, job),
        find_job(jobs, job.id) is Some <==> has_job(jobs, job.id),
    decreases jobs.len(),
{
    reveal(has_job);
    reveal(leads_jobs);
    if jobs.len() > 0 {
        let rest = jobs.drop_first();
        a_job_is_found_under_its_id(rest, job);
        if jobs[0].id != job.id {
            if has_job(rest, job.id) {
                let k = choose|k: int| 0 <= k < rest.len() && (#[trigger] rest[k]).id == job.id;
                assert(jobs[k + 1].id == job.id);
            }
            if has_job(jobs, job.id) {
                let k = choose|k: int| 0 <= k < jobs.len() && (#[trigger] jobs[k]).id == job.id;
                assert(rest[k - 1].id == job.id);
            }
            if leads_jobs(rest, job) {
                let k = choose|k: int|
                    #![trigger rest[k]]
                    {
                        &&& 0 <= k < rest.len()
                        &&& rest[k] == job
                        &&& forall|m: int| 0 <= m < k ==> (#[trigger] rest[m]).id != job.id
                    };
                assert(jobs[k + 1] == job);
                assert forall|m: int| 0 <= m < k + 1 implies (#[trigger] jobs[m]).id != job.id by {
                    if m > 0 {
                        assert(rest[m - 1] == jobs[m]);
                    }
                }
            }
            if leads_jobs(jobs, job) {
                let k = choose|k: int|
                    #![trigger jobs[k]]
                    {
                        &&& 0 <= k < jobs.len()
                        &&& jobs[k] == job
                        &&& forall|m: int| 0 <= m < k ==> (#[trigger] jobs[m]).id != job.id
                    };
                assert(rest[k - 1] == job);
                assert forall|m: int| 0 <= m < k - 1 implies (#[trigger] rest[m]).id != job.id by {
                    assert(rest[m] == jobs[m + 1]);
                }
            }
        } else {
            assert(has_job(jobs, job.id));
            if jobs[0] == job {
                assert(leads_jobs(jobs, job));
            }
        }
    }
}

/// A printer is found under its name where it is the first to have it, and
/// something is where any printer has it.
pub proof fn a_printer_is_found_under_its_name(
    printers: Seq<PrinterView>,
    printer: PrinterView,
    name: Seq<char>,
)
    ensures
        find_printer(printers, printer.name) == Some(printer) <==> leads_printers(
            printers,
            printer,
        ),
        find_printer(printers, name) is Some <==> has_printer(printers, name),
    decreases printers.len(),
{
    reveal(has_printer);
    reveal(leads_printers);
    if printers.len() > 0 {
        let rest = printers.drop_first();
        a_printer_is_found_under_its_name(rest, printer, name);
        if printers[0].name == name {
            assert(has_printer(printers, name));
        } else {
            if has_printer(rest, name) {
                let k = choose|k: int| 0 <= k < rest.len() && (#[trigger] rest[k]).name == name;
                assert(printers[k + 1].name == name);
            }
            if has_printer(printers, name) {
                let k = choose|k: int|
                    0 <= k < printers.len() && (#[trigger] printers[k]).name == name;
                assert(rest[k - 1].name == name);
            }
        }
        if printers[0].name != printer.name {
            if leads_printers(rest, printer) {
                let k = choose|k: int|
                    #![trigger rest[k]]
                    {
                        &&& 0 <= k < rest.len()
                        &&& rest[k] == printer
                        &&& forall|m: int| 0 <= m < k ==> (#[trigger] rest[m]).name != printer.name
                    };
                assert(printers[k + 1] == printer);
                assert forall|m: int| 0 <= m < k + 1 implies (#[trigger] printers[m]).name
                    != printer.name by {
                    if m > 0 {
                        assert(rest[m - 1] == printers[m]);
                    }
                }
            }
            if leads_printers(printers, printer) {
                let k = choose|k: int|
                    #![trigger printers[k]]
                    {
                        &&& 0 <= k < printers.len()
                        &&& printers[k] == printer
                        &&& forall|m: int|
                            0 <= m < k ==> (#[trigger] printers[m]).name != printer.name
                    };
                assert(rest[k - 1] == printer);
                assert forall|m: int| 0 <= m < k - 1 implies (#[trigger] rest[m]).name
                    != printer.name by {
                    assert(rest[m] == printers[m + 1]);
                }
            }
        } else if printers[0] == printer {
            assert(leads_printers(printers, printer));
        }
    }
}

/// Whether an event is one about a job that comes or changes, and is due.
spec fn arrival_due(before: Seq<JobView>, after: Seq<JobView>, event: PrinterEventView) -> bool {
    match event {
        PrinterEventView::JobAdded(job) => after.contains(job) && !has_job(before, job.id),
        PrinterEventView::JobChanged(job) => after.contains(job) && has_job(before, job.id)
            && !leads_jobs(before, job),
        _ => false,
    }
}

/// Whether an event is one about a job that goes, and is due.
spec fn removal_due(before: Seq<JobView>, after: Seq<JobView>, event: PrinterEventView) -> bool {
    event matches PrinterEventView::JobRemoved(id) && has_job(before, id) && !has_job(after, id)
}

/// Whether an event is one about a printer that comes or changes, and is due.
spec fn change_due(
    before: Seq<PrinterView>,
    after: Seq<PrinterView>,
    event: PrinterEventView,
) -> bool {
    event matches PrinterEventView::PrinterChanged(printer) && after.contains(printer)
        && !leads_printers(before, printer)
}

/// Whether an event is one about a printer that goes, and is due.
spec fn loss_due(
    before: Seq<PrinterView>,
    after: Seq<PrinterView>,
    event: PrinterEventView,
) -> bool {
    event matches PrinterEventView::PrinterRemoved(name) && has_printer(before, name)
        && !has_printer(after, name)
}

proof fn lemma_arrivals(before: Seq<JobView>, after: Seq<JobView>, event: PrinterEventView)
    ensures
        job_arrivals(before, after).contains(event) <==> arrival_due(before, after, event),
    decreases after.len(),
{
    if after.len() > 0 {
        let rest = after.drop_last();
        let job = after.last();
        lemma_arrivals(before, rest, event);
        a_job_is_found_under_its_id(before, job);
        assert(rest.push(job) =~= after);
        let earlier = job_arrivals(before, rest);
        match find_job(before, job.id) {
            None => {
                lemma_one_more(earlier, PrinterEventView::JobAdded(job), event);
            },
            Some(previous) => {
                lemma_one_more(earlier, PrinterEventView::JobChanged(job), event);
                assert(previous == job <==> leads_jobs(before, job));
            },
        }
        match event {
            PrinterEventView::JobAdded(told) => {
                lemma_one_more(rest, job, told);
            },
            PrinterEventView::JobChanged(told) => {
                lemma_one_more(rest, job, told);
            },
            _ => {},
        }
    }
}

proof fn lemma_removals(before: Seq<JobView>, after: Seq<JobView>, event: PrinterEventView)
    ensures
        job_removals(before, after).contains(event) <==> removal_due(before, after, event),
    decreases before.len(),
{
    reveal(has_job);
    if before.len() > 0 {
        let rest = before.drop_last();
        let job = before.last();
        lemma_removals(rest, after, event);
        a_job_is_found_under_its_id(after, job);
        let earlier = job_removals(rest, after);
        lemma_one_more(earlier, PrinterEventView::JobRemoved(job.id), event);
        if let PrinterEventView::JobRemoved(id) = event {
            if has_job(rest, id) {
                let k = choose|k: int| 0 <= k < rest.len() && (#[trigger] rest[k]).id == id;
                assert(before[k].id == id);
            }
            if job.id == id {
                assert(before[before.len() - 1].id == id);
            }
            if has_job(before, id) && job.id != id {
                let k = choose|k: int| 0 <= k < before.len() && (#[trigger] before[k]).id == id;
                assert(rest[k].id == id);
            }
        }
    }
}

proof fn lemma_changes(before: Seq<PrinterView>, after: Seq<PrinterView>, event: PrinterEventView)
    ensures
        printer_changes(before, after).contains(event) <==> change_due(before, after, event),
    decreases after.len(),
{
    if after.len() > 0 {
        let rest = after.drop_last();
        let printer = after.last();
        lemma_changes(before, rest, event);
        a_printer_is_found_under_its_name(before, printer, printer.name);
        assert(rest.push(printer) =~= after);
        let earlier = printer_changes(before, rest);
        lemma_one_more(earlier, PrinterEventView::PrinterChanged(printer), event);
        if let PrinterEventView::PrinterChanged(told) = event {
            lemma_one_more(rest, printer, told);
        }
    }
}

proof fn lemma_losses(before: Seq<PrinterView>, after: Seq<PrinterView>, event: PrinterEventView)
    ensures
        printer_removals(before, after).contains(event) <==> loss_due(before, after, event),
    decreases before.len(),
{
    reveal(has_printer);
    if before.len() > 0 {
        let rest = before.drop_last();
        let printer = before.last();
        lemma_losses(rest, after, event);
        a_printer_is_found_under_its_name(after, printer, printer.name);
        let earlier = printer_removals(rest, after);
        lemma_one_more(earlier, PrinterEventView::PrinterRemoved(printer.name), event);
        if let PrinterEventView::PrinterRemoved(name) = event {
            if has_printer(rest, name) {
                let k = choose|k: int| 0 <= k < rest.len() && (#[trigger] rest[k]).name == name;
                assert(before[k].name == name);
            }
            if printer.name == name {
                assert(before[before.len() - 1].name == name);
            }
            if has_printer(before, name) && printer.name != name {
                let k = choose|k: int| 0 <= k < before.len() && (#[trigger] before[k]).name == name;
                assert(rest[k].name == name);
            }
        }
    }
}

/// What is in four lists, one behind the other.
proof fn lemma_four_lists<T>(a: Seq<T>, b: Seq<T>, c: Seq<T>, d: Seq<T>, x: T)
    ensures
        (a + b + c + d).contains(x) <==> a.contains(x) || b.contains(x) || c.contains(x)
            || d.contains(x),
{
    let all = a + b + c + d;
    if a.contains(x) {
        let k = choose|k: int| 0 <= k < a.len() && a[k] == x;
        assert(all[k] == x);
    }
    if b.contains(x) {
        let k = choose|k: int| 0 <= k < b.len() && b[k] == x;
        assert(all[a.len() + k] == x);
    }
    if c.contains(x) {
        let k = choose|k: int| 0 <= k < c.len() && c[k] == x;
        assert(all[a.len() + b.len() + k] == x);
    }
    if d.contains(x) {
        let k = choose|k: int| 0 <= k < d.len() && d[k] == x;
        assert(all[a.len() + b.len() + c.len() + k] == x);
    }
    if all.contains(x) {
        let k = choose|k: int| 0 <= k < all.len() && all[k] == x;
        if k < a.len() {
            assert(a[k] == x);
        } else if k < a.len() + b.len() {
            assert(b[k - a.len()] == x);
        } else if k < a.len() + b.len() + c.len() {
            assert(c[k - a.len() - b.len()] == x);
        } else {
            assert(d[k - a.len() - b.len() - c.len()] == x);
        }
    }
}

/// A job is told as added exactly where it is in the later reading and its id is
/// in no job of the earlier one; as changed where it is in the later one, its id
/// is in the earlier one and it is not what that id stood for there; and as
/// removed where its id is in the earlier one and no longer in the later.
pub proof fn a_job_is_told_as_what_happened_to_it(
    before: SnapshotView,
    after: SnapshotView,
    job: JobView,
    id: JobId,
)
    ensures
        changes(before, after).contains(PrinterEventView::JobAdded(job)) <==> {
            &&& after.jobs.contains(job)
            &&& !has_job(before.jobs, job.id)
        },
        changes(before, after).contains(PrinterEventView::JobChanged(job)) <==> {
            &&& after.jobs.contains(job)
            &&& has_job(before.jobs, job.id)
            &&& !leads_jobs(before.jobs, job)
        },
        changes(before, after).contains(PrinterEventView::JobRemoved(id)) <==> {
            &&& has_job(before.jobs, id)
            &&& !has_job(after.jobs, id)
        },
{
    lemma_told(before, after, PrinterEventView::JobAdded(job));
    lemma_told(before, after, PrinterEventView::JobChanged(job));
    lemma_told(before, after, PrinterEventView::JobRemoved(id));
}

/// A printer is told as changed exactly where it is in the later reading and is
/// not what its name stood for in the earlier one, and as removed where its name
/// is in the earlier one and no longer in the later.
pub proof fn a_printer_is_told_as_what_happened_to_it(
    before: SnapshotView,
    after: SnapshotView,
    printer: PrinterView,
    name: Seq<char>,
)
    ensures
        changes(before, after).contains(PrinterEventView::PrinterChanged(printer)) <==> {
            &&& after.printers.contains(printer)
            &&& !leads_printers(before.printers, printer)
        },
        changes(before, after).contains(PrinterEventView::PrinterRemoved(name)) <==> {
            &&& has_printer(before.printers, name)
            &&& !has_printer(after.printers, name)
        },
{
    lemma_told(before, after, PrinterEventView::PrinterChanged(printer));
    lemma_told(before, after, PrinterEventView::PrinterRemoved(name));
}

/// An event is among those two readings give where it is due.
proof fn lemma_told(before: SnapshotView, after: SnapshotView, event: PrinterEventView)
    ensures
        changes(before, after).contains(event) <==> {
            ||| removal_due(before.jobs, after.jobs, event)
            ||| arrival_due(before.jobs, after.jobs, event)
            ||| loss_due(before.printers, after.printers, event)
            ||| change_due(before.printers, after.printers, event)
        },
{
    lemma_removals(before.jobs, after.jobs, event);
    lemma_arrivals(before.jobs, after.jobs, event);
    lemma_losses(before.printers, after.printers, event);
    lemma_changes(before.printers, after.printers, event);
    lemma_four_lists(
        job_removals(before.jobs, after.jobs),
        job_arrivals(before.jobs, after.jobs),
        printer_removals(before.printers, after.printers),
        printer_changes(before.printers, after.printers),
        event,
    );
}

/// Every event two readings give is true of them: one of a job added carries a
/// job whose id is in no job of the earlier reading, one of a job changed a job
/// whose id is in the earlier reading, and none is a full reload.
pub proof fn every_event_is_true(before: SnapshotView, after: SnapshotView, i: int)
    requires
        0 <= i < changes(before, after).len(),
    ensures
        match changes(before, after)[i] {
            PrinterEventView::JobAdded(job) => {
                &&& after.jobs.contains(job)
                &&& forall|k: int|
                    0 <= k < before.jobs.len() ==> (#[trigger] before.jobs[k]).id != job.id
            },
            PrinterEventView::JobChanged(job) => {
                &&& after.jobs.contains(job)
                &&& exists|k: int|
                    0 <= k < before.jobs.len() && (#[trigger] before.jobs[k]).id == job.id
                        && before.jobs[k] != job
            },
            PrinterEventView::JobRemoved(id) => {
                &&& exists|k: int|
                    0 <= k < before.jobs.len() && (#[trigger] before.jobs[k]).id == id
                &&& forall|k: int| 0 <= k < after.jobs.len() ==> (#[trigger] after.jobs[k]).id != id
            },
            PrinterEventView::PrinterChanged(printer) => {
                &&& after.printers.contains(printer)
                &&& !leads_printers(before.printers, printer)
            },
            PrinterEventView::PrinterRemoved(name) => {
                &&& has_printer(before.printers, name)
                &&& !has_printer(after.printers, name)
            },
            PrinterEventView::Resynchronised { .. } => false,
        },
{
    reveal(has_job);
    let event = changes(before, after)[i];
    assert(changes(before, after).contains(event));
    lemma_told(before, after, event);
    if let PrinterEventView::JobChanged(job) = event {
        a_job_is_found_under_its_id(before.jobs, job);
        let found = find_job(before.jobs, job.id)->0;
        crate::replay::lemma_find_job(before.jobs, job.id);
        let k = before.jobs.index_of(found);
        assert(before.jobs[k].id == job.id && before.jobs[k] != job);
    }
}

/// Each job and each printer is told in its turn: what is told of two lists, one
/// behind the other, is what is told of the first and then what is told of the
/// second.
pub proof fn each_is_told_in_its_turn(
    jobs: Seq<JobView>,
    x: Seq<JobView>,
    y: Seq<JobView>,
    printers: Seq<PrinterView>,
    p: Seq<PrinterView>,
    q: Seq<PrinterView>,
)
    ensures
        job_arrivals(jobs, x + y) == job_arrivals(jobs, x) + job_arrivals(jobs, y),
        job_removals(x + y, jobs) == job_removals(x, jobs) + job_removals(y, jobs),
        printer_changes(printers, p + q) == printer_changes(printers, p) + printer_changes(
            printers,
            q,
        ),
        printer_removals(p + q, printers) == printer_removals(p, printers) + printer_removals(
            q,
            printers,
        ),
    decreases y.len() + q.len(),
{
    if y.len() > 0 {
        let whole = x + y;
        each_is_told_in_its_turn(jobs, x, y.drop_last(), printers, p, q);
        assert(whole.drop_last() =~= x + y.drop_last());
        assert(whole.last() == y.last());
        assert(job_arrivals(jobs, whole) =~= job_arrivals(jobs, x) + job_arrivals(jobs, y));
        assert(job_removals(whole, jobs) =~= job_removals(x, jobs) + job_removals(y, jobs));
    } else {
        assert(x + y =~= x);
        assert(job_arrivals(jobs, x) + job_arrivals(jobs, y) =~= job_arrivals(jobs, x));
        assert(job_removals(x, jobs) + job_removals(y, jobs) =~= job_removals(x, jobs));
    }
    if q.len() > 0 {
        let whole = p + q;
        each_is_told_in_its_turn(jobs, x, y, printers, p, q.drop_last());
        assert(whole.drop_last() =~= p + q.drop_last());
        assert(whole.last() == q.last());
        assert(printer_changes(printers, whole) =~= printer_changes(printers, p)
            + printer_changes(printers, q));
        assert(printer_removals(whole, printers) =~= printer_removals(p, printers)
            + printer_removals(q, printers));
    } else {
        assert(p + q =~= p);
        assert(printer_changes(printers, p) + printer_changes(printers, q) =~= printer_changes(
            printers,
            p,
        ));
        assert(printer_removals(p, printers) + printer_removals(q, printers)
            =~= printer_removals(p, printers));
    }
}

/// At most one event is given for each job and each printer of either reading,
/// so nothing is told twice.
pub proof fn nothing_is_told_twice(before: SnapshotView, after: SnapshotView)
    requires
        forall|i: int, j: int|
            0 <= i < j < before.jobs.len() ==> (#[trigger] before.jobs[i]).id != (
            #[trigger] before.jobs[j]).id,
        forall|i: int, j: int|
            0 <= i < j < after.jobs.len() ==> (#[trigger] after.jobs[i]).id != (
            #[trigger] after.jobs[j]).id,
        forall|i: int, j: int|
            0 <= i < j < before.printers.len() ==> (#[trigger] before.printers[i]).name != (
            #[trigger] before.printers[j]).name,
        forall|i: int, j: int|
            0 <= i < j < after.printers.len() ==> (#[trigger] after.printers[i]).name != (
            #[trigger] after.printers[j]).name,
    ensures
        changes(before, after).no_duplicates(),
{
    lemma_jobs_told_once(before.jobs, after.jobs);
    lemma_printers_told_once(before.printers, after.printers);
    let a = job_removals(before.jobs, after.jobs);
    let b = job_arrivals(before.jobs, after.jobs);
    let c = printer_removals(before.printers, after.printers);
    let d = printer_changes(before.printers, after.printers);
    let events = changes(before, after);
    assert forall|i: int, j: int| 0 <= i < events.len() && 0 <= j < events.len() && i != j implies
        events[i] != events[j] by {
        lemma_place(a, b, c, d, i);
        lemma_place(a, b, c, d, j);
        lemma_removals(before.jobs, after.jobs, events[i]);
        lemma_removals(before.jobs, after.jobs, events[j]);
        lemma_arrivals(before.jobs, after.jobs, events[i]);
        lemma_arrivals(before.jobs, after.jobs, events[j]);
        lemma_losses(before.printers, after.printers, events[i]);
        lemma_losses(before.printers, after.printers, events[j]);
        lemma_changes(before.printers, after.printers, events[i]);
        lemma_changes(before.printers, after.printers, events[j]);
    }
}

/// Where in four lists, one behind the other, a place is.
proof fn lemma_place<T>(a: Seq<T>, b: Seq<T>, c: Seq<T>, d: Seq<T>, i: int)
    requires
        0 <= i < (a + b + c + d).len(),
    ensures
        ({
            let all = a + b + c + d;
            let n = a.len();
            let m = n + b.len();
            let o = m + c.len();
            &&& i < n ==> all[i] == a[i] && a.contains(all[i])
            &&& n <= i < m ==> all[i] == b[i - n] && b.contains(all[i])
            &&& m <= i < o ==> all[i] == c[i - m] && c.contains(all[i])
            &&& o <= i ==> all[i] == d[i - o] && d.contains(all[i])
        }),
{
}

proof fn lemma_jobs_told_once(before: Seq<JobView>, after: Seq<JobView>)
    requires
        forall|i: int, j: int|
            0 <= i < j < before.len() ==> (#[trigger] before[i]).id != (#[trigger] before[j]).id,
        forall|i: int, j: int|
            0 <= i < j < after.len() ==> (#[trigger] after[i]).id != (#[trigger] after[j]).id,
    ensures
        job_removals(before, after).no_duplicates(),
        job_arrivals(before, after).no_duplicates(),
    decreases before.len() + after.len(),
{
    if before.len() > 0 {
        let rest = before.drop_last();
        lemma_jobs_told_once(rest, after);
        let last = PrinterEventView::JobRemoved(before.last().id);
        lemma_removals(rest, after, last);
        reveal(has_job);
        assert(!job_removals(rest, after).contains(last));
    }
    if after.len() > 0 {
        let rest = after.drop_last();
        lemma_jobs_told_once(before, rest);
        let added = PrinterEventView::JobAdded(after.last());
        let changed = PrinterEventView::JobChanged(after.last());
        lemma_arrivals(before, rest, added);
        lemma_arrivals(before, rest, changed);
        assert(!rest.contains(after.last()));
        assert(!job_arrivals(before, rest).contains(added));
        assert(!job_arrivals(before, rest).contains(changed));
    }
}

proof fn lemma_printers_told_once(before: Seq<PrinterView>, after: Seq<PrinterView>)
    requires
        forall|i: int, j: int|
            0 <= i < j < before.len() ==> (#[trigger] before[i]).name != (
            #[trigger] before[j]).name,
        forall|i: int, j: int|
            0 <= i < j < after.len() ==> (#[trigger] after[i]).name != (#[trigger] after[j]).name,
    ensures
        printer_removals(before, after).no_duplicates(),
        printer_changes(before, after).no_duplicates(),
    decreases before.len() + after.len(),
{
    if before.len() > 0 {
        let rest = before.drop_last();
        lemma_printers_told_once(rest, after);
        let last = PrinterEventView::PrinterRemoved(before.last().name);
        lemma_losses(rest, after, last);
        reveal(has_printer);
        assert(!printer_removals(rest, after).contains(last));
    }
    if after.len() > 0 {
        let rest = after.drop_last();
        lemma_printers_told_once(before, rest);
        let changed = PrinterEventView::PrinterChanged(after.last());
        lemma_changes(before, rest, changed);
        assert(!rest.contains(after.last()));
        assert(!printer_changes(before, rest).contains(changed));
    }
}

/// After a reading that succeeded a reader waits three seconds and has forgotten
/// every failure; after one that failed it waits a second, or twice as long as
/// the last time, and never more than thirty, and has forgotten what it read.
pub proof fn a_reader_waits_longer_after_every_failure(
    poller: PollerView,
    current: SnapshotView,
    failure: ErrorView,
)
    ensures
        ({
            let (next, poll) = followed(poller, Ok(current));
            &&& poll.pause == 3_000_000_000
            &&& next.backoff == 0
            &&& next.previous == Some(current)
        }),
        ({
            let (next, poll) = followed(poller, Err(failure));
            &&& poll.pause == next.backoff
            &&& poll.reports == seq![Err::<PrinterEventView, ErrorView>(failure)]
            &&& next.previous is None
            &&& poller.backoff == 0 ==> poll.pause == 1_000_000_000
            &&& 0 < poller.backoff <= 15_000_000_000 ==> poll.pause == 2 * poller.backoff
            &&& poller.backoff > 15_000_000_000 ==> poll.pause == 30_000_000_000
        }),
        next_backoff(poller.backoff) == followed(poller, Err(failure)).1.pause,
{
}

/// A reading that succeeds is told in full where there is none before it, and
/// else event by event, none of them a failure.
pub proof fn a_reading_is_told_in_full_or_by_its_changes(
    poller: PollerView,
    current: SnapshotView,
    i: int,
)
    ensures
        ({
            let reports = followed(poller, Ok(current)).1.reports;
            match poller.previous {
                None => {
                    &&& reports.len() == 1
                    &&& reports[0] == Ok::<PrinterEventView, ErrorView>(
                        PrinterEventView::Resynchronised {
                            printers: current.printers,
                            jobs: current.jobs,
                        },
                    )
                },
                Some(before) => {
                    &&& reports.len() == changes(before, current).len()
                    &&& 0 <= i < reports.len() ==> reports[i] == Ok::<PrinterEventView, ErrorView>(
                        changes(before, current)[i],
                    )
                },
            }
        }),
{
}

/// What is told of jobs comes before what is told of printers.
pub proof fn jobs_are_told_before_printers(
    before: SnapshotView,
    after: SnapshotView,
    i: int,
    j: int,
)
    requires
        0 <= i < j < changes(before, after).len(),
        changes(before, after)[i] is PrinterChanged || changes(before, after)[i] is PrinterRemoved,
    ensures
        changes(before, after)[j] is PrinterChanged || changes(before, after)[j] is PrinterRemoved,
{
    let a = job_removals(before.jobs, after.jobs);
    let b = job_arrivals(before.jobs, after.jobs);
    let c = printer_removals(before.printers, after.printers);
    let d = printer_changes(before.printers, after.printers);
    let events = changes(before, after);
    lemma_place(a, b, c, d, i);
    lemma_place(a, b, c, d, j);
    lemma_removals(before.jobs, after.jobs, events[i]);
    lemma_arrivals(before.jobs, after.jobs, events[i]);
    lemma_losses(before.printers, after.printers, events[j]);
    lemma_changes(before.printers, after.printers, events[j]);
}

} // verus!
