//! What a consumer that follows the events ends up knowing.

use vstd::prelude::*;
use crate::events::{
    changes, find_job, find_printer, job_arrivals, job_removals, printer_changes, printer_removals,
    PrinterEventView, SnapshotView,
};
use crate::job::{brief, JobId, JobView};
use crate::printer::PrinterView;

verus! {

/// What a consumer knows: the jobs by id and the printers by name.
pub struct Known {
    pub jobs: Map<JobId, JobView>,
    pub printers: Map<Seq<char>, PrinterView>,
}

/// The jobs of a list, by id.
pub open spec fn jobs_by_id(jobs: Seq<JobView>) -> Map<JobId, JobView> {
    Map::new(|id: JobId| find_job(jobs, id) is Some, |id: JobId| find_job(jobs, id)->0)
}

/// The printers of a list, by name.
pub open spec fn printers_by_name(printers: Seq<PrinterView>) -> Map<Seq<char>, PrinterView> {
    Map::new(
        |name: Seq<char>| find_printer(printers, name) is Some,
        |name: Seq<char>| find_printer(printers, name)->0,
    )
}

/// What a consumer that has seen a snapshot knows.
pub open spec fn known(snapshot: SnapshotView) -> Known {
    Known {
        jobs: jobs_by_id(snapshot.jobs),
        printers: printers_by_name(snapshot.printers),
    }
}

/// What a consumer knows after one event.
pub open spec fn told(before: Known, event: PrinterEventView) -> Known {
    match event {
        PrinterEventView::JobAdded(job) => Known {
            jobs: before.jobs.insert(job.id, job),
            ..before
        },
        PrinterEventView::JobChanged(job) => Known {
            jobs: before.jobs.insert(job.id, job),
            ..before
        },
        PrinterEventView::JobRemoved(id) => Known { jobs: before.jobs.remove(id), ..before },
        PrinterEventView::PrinterChanged(printer) => Known {
            printers: before.printers.insert(printer.name, printer),
            ..before
        },
        PrinterEventView::PrinterRemoved(name) => Known {
            printers: before.printers.remove(name),
            ..before
        },
        PrinterEventView::Resynchronised { printers, jobs } => known(
            SnapshotView { printers, jobs },
        ),
    }
}

/// What a consumer knows after several events.
pub open spec fn told_all(before: Known, events: Seq<PrinterEventView>) -> Known
    decreases events.len(),
{
    if events.len() == 0 {
        before
    } else {
        told(told_all(before, events.drop_last()), events.last())
    }
}

/// No id stands for two different jobs, and no name for two different printers.
pub open spec fn consistent(snapshot: SnapshotView) -> bool {
    &&& forall|i: int, j: int|
        0 <= i < snapshot.jobs.len() && 0 <= j < snapshot.jobs.len() && (
        #[trigger] snapshot.jobs[i]).id == (#[trigger] snapshot.jobs[j]).id ==> snapshot.jobs[i]
            == snapshot.jobs[j]
    &&& forall|i: int, j: int|
        0 <= i < snapshot.printers.len() && 0 <= j < snapshot.printers.len() && (
        #[trigger] snapshot.printers[i]).name == (#[trigger] snapshot.printers[j]).name
            ==> snapshot.printers[i] == snapshot.printers[j]
}

/// Several jobs, each in brief.
pub open spec fn all_brief(jobs: Seq<JobView>) -> Seq<JobView> {
    jobs.map_values(|job: JobView| brief(job))
}

/// A job that is found is in the list, and one in the list is found.
pub proof fn lemma_find_job(jobs: Seq<JobView>, id: JobId)
    ensures
        find_job(jobs, id) matches Some(job) ==> jobs.contains(job) && job.id == id,
        find_job(jobs, id) is None ==> forall|i: int|
            0 <= i < jobs.len() ==> (#[trigger] jobs[i]).id != id,
    decreases jobs.len(),
{
    if jobs.len() > 0 {
        if jobs[0].id == id {
            assert(jobs.contains(jobs[0]));
        } else {
            let rest = jobs.drop_first();
            lemma_find_job(rest, id);
            if let Some(job) = find_job(rest, id) {
                let i = rest.index_of(job);
                assert(jobs[i + 1] == job);
            } else {
                assert forall|i: int| 0 <= i < jobs.len() implies (#[trigger] jobs[i]).id
                    != id by {
                    if i > 0 {
                        assert(rest[i - 1] == jobs[i]);
                    }
                }
            }
        }
    }
}

/// A printer that is found is in the list, and one in the list is found.
pub proof fn lemma_find_printer(printers: Seq<PrinterView>, name: Seq<char>)
    ensures
        find_printer(printers, name) matches Some(printer) ==> printers.contains(printer)
            && printer.name == name,
        find_printer(printers, name) is None ==> forall|i: int|
            0 <= i < printers.len() ==> (#[trigger] printers[i]).name != name,
    decreases printers.len(),
{
    if printers.len() > 0 {
        if printers[0].name == name {
            assert(printers.contains(printers[0]));
        } else {
            let rest = printers.drop_first();
            lemma_find_printer(rest, name);
            if let Some(printer) = find_printer(rest, name) {
                let i = rest.index_of(printer);
                assert(printers[i + 1] == printer);
            } else {
                assert forall|i: int| 0 <= i < printers.len() implies (
                #[trigger] printers[i]).name != name by {
                    if i > 0 {
                        assert(rest[i - 1] == printers[i]);
                    }
                }
            }
        }
    }
}

/// Where no id stands for two different jobs, each is what is found under its id.
proof fn lemma_job_is_found(snapshot: SnapshotView, i: int)
    requires
        consistent(snapshot),
        0 <= i < snapshot.jobs.len(),
    ensures
        find_job(snapshot.jobs, snapshot.jobs[i].id) == Some(snapshot.jobs[i]),
{
    let jobs = snapshot.jobs;
    lemma_find_job(jobs, jobs[i].id);
    let found = find_job(jobs, jobs[i].id)->0;
    let j = jobs.index_of(found);
    assert(jobs[j] == found);
}

/// Where no name stands for two different printers, each is what is found under its name.
proof fn lemma_printer_is_found(snapshot: SnapshotView, i: int)
    requires
        consistent(snapshot),
        0 <= i < snapshot.printers.len(),
    ensures
        find_printer(snapshot.printers, snapshot.printers[i].name) == Some(snapshot.printers[i]),
{
    let printers = snapshot.printers;
    lemma_find_printer(printers, printers[i].name);
    let found = find_printer(printers, printers[i].name)->0;
    let j = printers.index_of(found);
    assert(printers[j] == found);
}

/// A snapshot compared to itself gives no events.
pub proof fn identical_snapshots_give_no_events(snapshot: SnapshotView)
    requires
        consistent(snapshot),
    ensures
        changes(snapshot, snapshot).len() == 0,
{
    lemma_no_job_removals(snapshot, snapshot.jobs.len() as int);
    lemma_no_job_arrivals(snapshot, snapshot.jobs.len() as int);
    lemma_no_printer_removals(snapshot, snapshot.printers.len() as int);
    lemma_no_printer_changes(snapshot, snapshot.printers.len() as int);
    assert(snapshot.jobs.take(snapshot.jobs.len() as int) =~= snapshot.jobs);
    assert(snapshot.printers.take(snapshot.printers.len() as int) =~= snapshot.printers);
}

proof fn lemma_no_job_removals(snapshot: SnapshotView, n: int)
    requires
        consistent(snapshot),
        0 <= n <= snapshot.jobs.len(),
    ensures
        job_removals(snapshot.jobs.take(n), snapshot.jobs).len() == 0,
    decreases n,
{
    if n > 0 {
        lemma_no_job_removals(snapshot, n - 1);
        lemma_job_is_found(snapshot, n - 1);
        assert(snapshot.jobs.take(n).drop_last() =~= snapshot.jobs.take(n - 1));
    }
}

proof fn lemma_no_job_arrivals(snapshot: SnapshotView, n: int)
    requires
        consistent(snapshot),
        0 <= n <= snapshot.jobs.len(),
    ensures
        job_arrivals(snapshot.jobs, snapshot.jobs.take(n)).len() == 0,
    decreases n,
{
    if n > 0 {
        lemma_no_job_arrivals(snapshot, n - 1);
        lemma_job_is_found(snapshot, n - 1);
        assert(snapshot.jobs.take(n).drop_last() =~= snapshot.jobs.take(n - 1));
    }
}

proof fn lemma_no_printer_removals(snapshot: SnapshotView, n: int)
    requires
        consistent(snapshot),
        0 <= n <= snapshot.printers.len(),
    ensures
        printer_removals(snapshot.printers.take(n), snapshot.printers).len() == 0,
    decreases n,
{
    if n > 0 {
        lemma_no_printer_removals(snapshot, n - 1);
        lemma_printer_is_found(snapshot, n - 1);
        assert(snapshot.printers.take(n).drop_last() =~= snapshot.printers.take(n - 1));
    }
}

proof fn lemma_no_printer_changes(snapshot: SnapshotView, n: int)
    requires
        consistent(snapshot),
        0 <= n <= snapshot.printers.len(),
    ensures
        printer_changes(snapshot.printers, snapshot.printers.take(n)).len() == 0,
    decreases n,
{
    if n > 0 {
        lemma_no_printer_changes(snapshot, n - 1);
        lemma_printer_is_found(snapshot, n - 1);
        assert(snapshot.printers.take(n).drop_last() =~= snapshot.printers.take(n - 1));
    }
}

/// To a client that reads jobs in brief, the pages a job printed and the time it
/// ended are no change: readings that differ in nothing else give no events.
pub proof fn brief_readings_ignore_how_a_job_ended(
    printers: Seq<PrinterView>,
    before: Seq<JobView>,
    after: Seq<JobView>,
)
    requires
        before.len() == after.len(),
        forall|i: int|
            0 <= i < after.len() ==> (JobView {
                pages_printed: before[i].pages_printed,
                completed: before[i].completed,
                ..#[trigger] after[i]
            }) == before[i],
        consistent(SnapshotView { printers, jobs: all_brief(after) }),
    ensures
        changes(
            SnapshotView { printers, jobs: all_brief(before) },
            SnapshotView { printers, jobs: all_brief(after) },
        ).len() == 0,
{
    assert forall|i: int| 0 <= i < after.len() implies all_brief(before)[i] == #[trigger] all_brief(
        after,
    )[i] by {
        assert(before[i] == (JobView {
            pages_printed: before[i].pages_printed,
            completed: before[i].completed,
            ..after[i]
        }));
    }
    assert(all_brief(before) =~= all_brief(after));
    identical_snapshots_give_no_events(SnapshotView { printers, jobs: all_brief(after) });
}

/// Being told two lists of events is being told the one and then the other.
proof fn lemma_told_in_turn(
    before: Known,
    first: Seq<PrinterEventView>,
    second: Seq<PrinterEventView>,
)
    ensures
        told_all(before, first + second) == told_all(told_all(before, first), second),
    decreases second.len(),
{
    if second.len() == 0 {
        assert(first + second =~= first);
    } else {
        lemma_told_in_turn(before, first, second.drop_last());
        assert((first + second).drop_last() =~= first + second.drop_last());
        assert((first + second).last() == second.last());
    }
}

/// The events that lead from one snapshot to the next do so: a consumer that
/// knew the first and is told them all knows the next.
pub proof fn events_turn_a_snapshot_into_the_next(before: SnapshotView, after: SnapshotView)
    requires
        consistent(after),
    ensures
        told_all(known(before), changes(before, after)) == known(after),
{
    let removals = job_removals(before.jobs, after.jobs);
    let arrivals = job_arrivals(before.jobs, after.jobs);
    let dropped = printer_removals(before.printers, after.printers);
    let changed = printer_changes(before.printers, after.printers);
    let start = known(before);
    lemma_told_in_turn(start, removals + arrivals + dropped, changed);
    lemma_told_in_turn(start, removals + arrivals, dropped);
    lemma_told_in_turn(start, removals, arrivals);
    assert(before.jobs.take(before.jobs.len() as int) =~= before.jobs);
    assert(after.jobs.take(after.jobs.len() as int) =~= after.jobs);
    assert(before.printers.take(before.printers.len() as int) =~= before.printers);
    assert(after.printers.take(after.printers.len() as int) =~= after.printers);
    let one = told_all(start, removals);
    lemma_jobs_removed(before, after, start, before.jobs.len() as int);
    let two = told_all(one, arrivals);
    lemma_jobs_arrived(before, after, one, after.jobs.len() as int);
    let three = told_all(two, dropped);
    lemma_printers_removed(before, after, two, before.printers.len() as int);
    let four = told_all(three, changed);
    lemma_printers_changed(before, after, three, after.printers.len() as int);
    let target = known(after);
    assert forall|id: JobId|
        four.jobs.contains_key(id) == target.jobs.contains_key(id) && (target.jobs.contains_key(id)
            ==> four.jobs[id] == target.jobs[id]) by {
        lemma_find_job(before.jobs, id);
        lemma_find_job(after.jobs, id);
        if find_job(after.jobs, id) is Some {
            let job = find_job(after.jobs, id)->0;
            let i = after.jobs.index_of(job);
            assert(after.jobs[i] == job);
        } else if find_job(before.jobs, id) is Some {
            let job = find_job(before.jobs, id)->0;
            let i = before.jobs.index_of(job);
            assert(before.jobs[i] == job);
        }
    }
    assert(four.jobs =~= target.jobs);
    assert forall|name: Seq<char>|
        four.printers.contains_key(name) == target.printers.contains_key(name) && (
        target.printers.contains_key(name) ==> four.printers[name] == target.printers[name]) by {
        lemma_find_printer(before.printers, name);
        lemma_find_printer(after.printers, name);
        if find_printer(after.printers, name) is Some {
            let printer = find_printer(after.printers, name)->0;
            let i = after.printers.index_of(printer);
            assert(after.printers[i] == printer);
            assert forall|k: int|
                0 <= k < after.printers.len() && (#[trigger] after.printers[k]).name
                    == name implies after.printers[k] == printer by {}
            if find_printer(before.printers, name) == Some(printer) {
                assert(three.printers.contains_key(name));
                assert(four.printers.contains_key(name));
            } else {
                assert(four.printers.contains_key(after.printers[i].name));
            }
        } else if find_printer(before.printers, name) is Some {
            let printer = find_printer(before.printers, name)->0;
            let i = before.printers.index_of(printer);
            assert(before.printers[i] == printer);
        }
    }
    assert(four.printers =~= target.printers);
}

/// The removals of the first `n` jobs take out those that are gone, and no other.
proof fn lemma_jobs_removed(before: SnapshotView, after: SnapshotView, start: Known, n: int)
    requires
        0 <= n <= before.jobs.len(),
    ensures
        ({
            let end = told_all(start, job_removals(before.jobs.take(n), after.jobs));
            &&& end.printers == start.printers
            &&& forall|id: JobId| #[trigger]
                end.jobs.contains_key(id) <==> start.jobs.contains_key(id) && !(find_job(
                    after.jobs,
                    id,
                ) is None && exists|i: int| 0 <= i < n && (#[trigger] before.jobs[i]).id == id)
            &&& forall|id: JobId| #[trigger]
                end.jobs.contains_key(id) ==> end.jobs[id] == start.jobs[id]
        }),
    decreases n,
{
    if n > 0 {
        lemma_jobs_removed(before, after, start, n - 1);
        let list = before.jobs.take(n);
        assert(list.drop_last() =~= before.jobs.take(n - 1));
        assert(list.last() == before.jobs[n - 1]);
        let earlier = job_removals(before.jobs.take(n - 1), after.jobs);
        let events = job_removals(list, after.jobs);
        if find_job(after.jobs, list.last().id) is None {
            assert(events.drop_last() =~= earlier);
        }
    }
}

/// The arrivals of the first `n` jobs put in those that are new or changed.
proof fn lemma_jobs_arrived(before: SnapshotView, after: SnapshotView, start: Known, n: int)
    requires
        consistent(after),
        0 <= n <= after.jobs.len(),
    ensures
        ({
            let end = told_all(start, job_arrivals(before.jobs, after.jobs.take(n)));
            &&& end.printers == start.printers
            &&& forall|i: int|
                0 <= i < n && find_job(before.jobs, (#[trigger] after.jobs[i]).id) != Some(
                    after.jobs[i],
                ) ==> end.jobs.contains_key(after.jobs[i].id) && end.jobs[after.jobs[i].id]
                    == after.jobs[i]
            &&& forall|id: JobId|
                !(exists|i: int|
                    0 <= i < n && (#[trigger] after.jobs[i]).id == id && find_job(before.jobs, id)
                        != Some(after.jobs[i])) ==> (#[trigger] end.jobs.contains_key(id)
                    <==> start.jobs.contains_key(id)) && (start.jobs.contains_key(id)
                    ==> end.jobs[id] == start.jobs[id])
        }),
    decreases n,
{
    if n > 0 {
        lemma_jobs_arrived(before, after, start, n - 1);
        let list = after.jobs.take(n);
        let job = after.jobs[n - 1];
        assert(list.drop_last() =~= after.jobs.take(n - 1));
        assert(list.last() == job);
        lemma_find_job(before.jobs, job.id);
        let earlier = job_arrivals(before.jobs, after.jobs.take(n - 1));
        let events = job_arrivals(before.jobs, list);
        if find_job(before.jobs, job.id) != Some(job) {
            assert(events.drop_last() =~= earlier);
            let end = told_all(start, events);
            let mid = told_all(start, earlier);
            assert(end.jobs == mid.jobs.insert(job.id, job));
            assert forall|id: JobId|
                !(exists|i: int|
                    0 <= i < n && (#[trigger] after.jobs[i]).id == id && find_job(before.jobs, id)
                        != Some(after.jobs[i])) implies (#[trigger] end.jobs.contains_key(id)
                <==> start.jobs.contains_key(id)) && (start.jobs.contains_key(id) ==> end.jobs[id]
                == start.jobs[id]) by {
                assert(after.jobs[n - 1].id != id);
                assert(mid.jobs.contains_key(id) <==> start.jobs.contains_key(id));
            }
        } else {
            assert(events == earlier);
        }
    }
}

/// The removals of the first `n` printers take out those that are gone, and no other.
proof fn lemma_printers_removed(before: SnapshotView, after: SnapshotView, start: Known, n: int)
    requires
        0 <= n <= before.printers.len(),
    ensures
        ({
            let end = told_all(start, printer_removals(before.printers.take(n), after.printers));
            &&& end.jobs == start.jobs
            &&& forall|name: Seq<char>| #[trigger]
                end.printers.contains_key(name) <==> start.printers.contains_key(name) && !(
                find_printer(after.printers, name) is None && exists|i: int|
                    0 <= i < n && (#[trigger] before.printers[i]).name == name)
            &&& forall|name: Seq<char>| #[trigger]
                end.printers.contains_key(name) ==> end.printers[name] == start.printers[name]
        }),
    decreases n,
{
    if n > 0 {
        lemma_printers_removed(before, after, start, n - 1);
        let list = before.printers.take(n);
        assert(list.drop_last() =~= before.printers.take(n - 1));
        assert(list.last() == before.printers[n - 1]);
        let earlier = printer_removals(before.printers.take(n - 1), after.printers);
        let events = printer_removals(list, after.printers);
        if find_printer(after.printers, list.last().name) is None {
            assert(events.drop_last() =~= earlier);
        }
    }
}

/// The changes of the first `n` printers put in those that are new or changed.
proof fn lemma_printers_changed(before: SnapshotView, after: SnapshotView, start: Known, n: int)
    requires
        consistent(after),
        0 <= n <= after.printers.len(),
    ensures
        ({
            let end = told_all(start, printer_changes(before.printers, after.printers.take(n)));
            &&& end.jobs == start.jobs
            &&& forall|i: int|
                0 <= i < n && find_printer(before.printers, (#[trigger] after.printers[i]).name)
                    != Some(after.printers[i]) ==> end.printers.contains_key(
                    after.printers[i].name,
                ) && end.printers[after.printers[i].name] == after.printers[i]
            &&& forall|name: Seq<char>|
                !(exists|i: int|
                    0 <= i < n && (#[trigger] after.printers[i]).name == name && find_printer(
                        before.printers,
                        name,
                    ) != Some(after.printers[i])) ==> (#[trigger] end.printers.contains_key(name)
                    <==> start.printers.contains_key(name)) && (start.printers.contains_key(name)
                    ==> end.printers[name] == start.printers[name])
        }),
    decreases n,
{
    if n > 0 {
        lemma_printers_changed(before, after, start, n - 1);
        let list = after.printers.take(n);
        let printer = after.printers[n - 1];
        assert(list.drop_last() =~= after.printers.take(n - 1));
        assert(list.last() == printer);
        let earlier = printer_changes(before.printers, after.printers.take(n - 1));
        let events = printer_changes(before.printers, list);
        if find_printer(before.printers, printer.name) != Some(printer) {
            assert(events.drop_last() =~= earlier);
            let end = told_all(start, events);
            let mid = told_all(start, earlier);
            assert(end.printers == mid.printers.insert(printer.name, printer));
            assert forall|i: int|
                0 <= i < n && find_printer(before.printers, (#[trigger] after.printers[i]).name)
                    != Some(after.printers[i]) implies end.printers.contains_key(
                after.printers[i].name,
            ) && end.printers[after.printers[i].name] == after.printers[i] by {
                if after.printers[i].name == printer.name {
                    assert(after.printers[i] == printer);
                } else {
                    assert(mid.printers.contains_key(after.printers[i].name));
                }
            }
            assert forall|name: Seq<char>|
                !(exists|i: int|
                    0 <= i < n && (#[trigger] after.printers[i]).name == name && find_printer(
                        before.printers,
                        name,
                    ) != Some(after.printers[i])) implies (#[trigger] end.printers.contains_key(name)
                <==> start.printers.contains_key(name)) && (start.printers.contains_key(name)
                ==> end.printers[name] == start.printers[name]) by {
                assert(after.printers[n - 1].name != name);
                assert(mid.printers.contains_key(name) <==> start.printers.contains_key(name));
            }
        } else {
            assert(events == earlier);
        }
    }
}

/// Removals come first: once a job has been reported as added or changed, no
/// job is reported as removed, and the same goes for printers.
pub proof fn removals_come_before_arrivals(
    before: SnapshotView,
    after: SnapshotView,
    i: int,
    j: int,
)
    requires
        0 <= i < j < changes(before, after).len(),
    ensures
        changes(before, after)[i] is JobAdded || changes(before, after)[i] is JobChanged
            ==> !(changes(before, after)[j] is JobRemoved),
        changes(before, after)[i] is PrinterChanged ==> !(changes(
            before,
            after,
        )[j] is PrinterRemoved),
{
    lemma_kinds_of_job_events(before.jobs, after.jobs);
    lemma_kinds_of_printer_events(before.printers, after.printers);
    let removals = job_removals(before.jobs, after.jobs);
    let arrivals = job_arrivals(before.jobs, after.jobs);
    let dropped = printer_removals(before.printers, after.printers);
    let changed = printer_changes(before.printers, after.printers);
    let events = changes(before, after);
    assert forall|k: int| 0 <= k < events.len() implies #[trigger] events[k] == (if k
        < removals.len() {
        removals[k]
    } else if k < removals.len() + arrivals.len() {
        arrivals[k - removals.len()]
    } else if k < removals.len() + arrivals.len() + dropped.len() {
        dropped[k - removals.len() - arrivals.len()]
    } else {
        changed[k - removals.len() - arrivals.len() - dropped.len()]
    }) by {}
    assert(events[i] == events[i]);
    assert(events[j] == events[j]);
}

proof fn lemma_kinds_of_job_events(before: Seq<JobView>, after: Seq<JobView>)
    ensures
        forall|k: int|
            0 <= k < job_removals(before, after).len() ==> (#[trigger] job_removals(
                before,
                after,
            )[k]) is JobRemoved,
        forall|k: int|
            0 <= k < job_arrivals(before, after).len() ==> (#[trigger] job_arrivals(
                before,
                after,
            )[k]) is JobAdded || job_arrivals(before, after)[k] is JobChanged,
    decreases before.len() + after.len(),
{
    if before.len() > 0 {
        lemma_kinds_of_job_events(before.drop_last(), after);
    }
    if after.len() > 0 {
        lemma_kinds_of_job_events(before, after.drop_last());
    }
}

proof fn lemma_kinds_of_printer_events(before: Seq<PrinterView>, after: Seq<PrinterView>)
    ensures
        forall|k: int|
            0 <= k < printer_removals(before, after).len() ==> (#[trigger] printer_removals(
                before,
                after,
            )[k]) is PrinterRemoved,
        forall|k: int|
            0 <= k < printer_changes(before, after).len() ==> (#[trigger] printer_changes(
                before,
                after,
            )[k]) is PrinterChanged,
    decreases before.len() + after.len(),
{
    if before.len() > 0 {
        lemma_kinds_of_printer_events(before.drop_last(), after);
    }
    if after.len() > 0 {
        lemma_kinds_of_printer_events(before, after.drop_last());
    }
}

} // verus!
