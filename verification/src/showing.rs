//! What the fields of a value hold is what its view shows, each under its own
//! name.

use vstd::prelude::*;
use crate::clock::{in_nanos, length, moment, since_epoch};
use crate::device::{entries_of, Device};
use crate::error::{fails_with, outcome, Error, ErrorView};
use crate::events::{PrinterEvent, PrinterEventView, Snapshot};
use crate::job::Job;
use crate::lists::viewed;
use crate::mechanism::{CupsPkError, CupsPkErrorView};
use crate::media::MediaSize;
use crate::options::PrinterOptions;
use crate::poll::Poll;
use crate::printer::{Class, Ppd, Printer};
use crate::state::{JobState, PrinterState, StateReason};
use crate::submission::{PrintStep, PrintStepView};
use crate::subscription::{
    Notification, Notifications, NotifyEvent, NotifyEventView, Subscription,
};
use crate::supply::Supply;
use crate::text::view_of;

verus! {

/// A list is viewed one for one, and a text that may be missing is shown where it
/// is there.
pub proof fn a_list_shows_each_of_its_values<T: View>(list: Seq<T>, i: int, text: String)
    requires
        0 <= i < list.len(),
    ensures
        viewed(list).len() == list.len(),
        viewed(list)[i] == list[i]@,
        view_of(Some(text)) == Some(text@),
        view_of(None) is None,
{
}

/// A time is shown as nanoseconds since the epoch, and a length as nanoseconds.
pub proof fn times_and_lengths_show_as_nanoseconds(
    time: std::time::SystemTime,
    duration: std::time::Duration,
)
    ensures
        moment(Some(time)) == Some(since_epoch(time)),
        moment(None) is None,
        length(Some(duration)) == Some(in_nanos(duration)),
        length(None) is None,
{
}

/// What came of an operation shows its value or its error.
pub proof fn an_outcome_shows_its_value_or_error<T: View>(value: T, error: Error, e: ErrorView)
    ensures
        outcome(Ok::<T, Error>(value)) == Ok::<T::V, ErrorView>(value@),
        outcome(Err::<T, Error>(error)) == Err::<T::V, ErrorView>(error@),
        fails_with(Err::<T, Error>(error), e) <==> error@ == e,
        !fails_with(Ok::<T, Error>(value), e),
{
}

/// A printer shows each of its fields.
pub proof fn a_printer_shows_its_fields(p: Printer)
    ensures
        p@.name == p.name@,
        p@.uri == p.uri@,
        p@.device_uri == p.device_uri@,
        p@.info == view_of(p.info),
        p@.location == view_of(p.location),
        p@.state == p.state,
        p@.reasons == viewed(p.reasons@),
        p@.accepting_jobs == p.accepting_jobs,
        p@.supplies == viewed(p.supplies@),
        p@.is_default == p.is_default,
        p@.options == p.options@,
{
}

/// The options of a printer show what is offered for each.
pub proof fn options_show_what_is_offered(o: PrinterOptions)
    ensures
        o@.media.supported == viewed(o.media.supported@),
        o@.media.default == view_of(o.media.default),
        o@.sides.supported == viewed(o.sides.supported@),
        o@.sides.default == view_of(o.sides.default),
        o@.color_mode.supported == viewed(o.color_mode.supported@),
        o@.color_mode.default == view_of(o.color_mode.default),
        o@.quality.supported == o.quality.supported@,
        o@.quality.default == o.quality.default,
        o@.output_bin.supported == viewed(o.output_bin.supported@),
        o@.output_bin.default == view_of(o.output_bin.default),
{
}

/// A job shows each of its fields.
pub proof fn a_job_shows_its_fields(job: Job)
    ensures
        job@.id == job.id,
        job@.printer == job.printer@,
        job@.name == view_of(job.name),
        job@.user == view_of(job.user),
        job@.state == job.state,
        job@.reasons == viewed(job.reasons@),
        job@.progress == job.progress,
        job@.created == moment(job.created),
        job@.pages_printed == job.pages_printed,
        job@.completed == moment(job.completed),
{
}

/// A supply, a reason, a class, a driver, a size and a device show each of their
/// fields.
pub proof fn small_records_show_their_fields(
    supply: Supply,
    reason: StateReason,
    class: Class,
    ppd: Ppd,
    size: MediaSize,
    device: Device,
)
    ensures
        supply@.name == supply.name@,
        supply@.kind == view_of(supply.kind),
        supply@.colour == view_of(supply.colour),
        supply@.level == supply.level,
        supply@.low_threshold == supply.low_threshold,
        reason@.keyword == reason.keyword@,
        reason@.severity == reason.severity,
        class@.name == class.name@,
        class@.members == viewed(class.members@),
        ppd@.name == ppd.name@,
        ppd@.make_and_model == ppd.make_and_model@,
        ppd@.device_id == ppd.device_id@,
        size@.keyword == size.keyword@,
        size@.class == size.class@,
        size@.name == size.name@,
        size@.dimensions == size.dimensions@,
        size@.borderless == size.borderless,
        device@.uri == device.uri@,
        device@.class == device.class@,
        device@.info == device.info@,
        device@.make_and_model == device.make_and_model@,
        device@.device_id == device.device_id@,
        device@.location == device.location@,
{
}

/// A state is its own view.
pub proof fn a_state_shows_itself(printer: PrinterState, job: JobState)
    ensures
        printer@ == printer,
        job@ == job,
{
}

/// The entries of a reply show their keys and values, one for one.
pub proof fn entries_show_their_keys_and_values(raw: Seq<(String, String)>, i: int)
    requires
        0 <= i < raw.len(),
    ensures
        entries_of(raw).len() == raw.len(),
        entries_of(raw)[i].0 == raw[i].0@,
        entries_of(raw)[i].1 == raw[i].1@,
{
}

/// A subscription, a notification and what a call for them returned show each of
/// their fields.
pub proof fn notifications_show_their_fields(
    subscription: Subscription,
    notification: Notification,
    all: Notifications,
    i: int,
)
    ensures
        subscription@.id == subscription.id,
        subscription@.events == viewed(subscription.events@),
        subscription@.lease == length(subscription.lease),
        subscription@.subscriber == view_of(subscription.subscriber),
        notification@.subscription_id == notification.subscription_id,
        notification@.event == notification.event@,
        notification@.job_id == notification.job_id,
        notification@.text == view_of(notification.text),
        notification@.sequence == notification.sequence,
        all@.events.len() == all.events@.len(),
        0 <= i < all.events@.len() ==> all@.events[i] == all.events@[i]@,
        all@.poll_after == length(all.poll_after),
{
}

/// An event to be notified of shows as what it is.
pub proof fn a_notify_event_shows_what_it_is(keyword: String)
    ensures
        NotifyEvent::PrinterStateChanged@ == NotifyEventView::PrinterStateChanged,
        NotifyEvent::PrinterStopped@ == NotifyEventView::PrinterStopped,
        NotifyEvent::JobCreated@ == NotifyEventView::JobCreated,
        NotifyEvent::JobStateChanged@ == NotifyEventView::JobStateChanged,
        NotifyEvent::JobCompleted@ == NotifyEventView::JobCompleted,
        NotifyEvent::JobStopped@ == NotifyEventView::JobStopped,
        NotifyEvent::All@ == NotifyEventView::All,
        NotifyEvent::Other(keyword)@ == NotifyEventView::Other(keyword@),
{
}

/// An event of the print system shows as what it is, with what it carries.
pub proof fn a_printer_event_shows_what_it_is(
    job: Job,
    id: i32,
    printer: Printer,
    name: String,
    printers: Vec<Printer>,
    jobs: Vec<Job>,
)
    ensures
        PrinterEvent::JobAdded(job)@ == PrinterEventView::JobAdded(job@),
        PrinterEvent::JobChanged(job)@ == PrinterEventView::JobChanged(job@),
        PrinterEvent::JobRemoved(id)@ == PrinterEventView::JobRemoved(id),
        PrinterEvent::PrinterChanged(printer)@ == PrinterEventView::PrinterChanged(printer@),
        PrinterEvent::PrinterRemoved(name)@ == PrinterEventView::PrinterRemoved(name@),
        (PrinterEvent::Resynchronised { printers, jobs })@ == (PrinterEventView::Resynchronised {
            printers: viewed(printers@),
            jobs: viewed(jobs@),
        }),
{
}

/// A reading shows its printers and its jobs, and what a reading comes to its
/// reports and its pause.
pub proof fn a_reading_shows_its_printers_and_jobs(snapshot: Snapshot, poll: Poll, i: int)
    ensures
        snapshot@.printers == viewed(snapshot.printers@),
        snapshot@.jobs == viewed(snapshot.jobs@),
        poll@.reports.len() == poll.reports@.len(),
        0 <= i < poll.reports@.len() ==> poll@.reports[i] == outcome(poll.reports@[i]),
        poll@.pause == in_nanos(poll.pause),
{
}

/// An error shows its texts, and the wordings of its causes.
pub proof fn an_error_shows_its_texts(error: Error)
    ensures
        match error {
            Error::Transport { message, source: None } => error@ == (ErrorView::Transport {
                message: message@,
                source: Seq::empty(),
            }),
            Error::Transport { message, source: Some(cause) } => error@ == (ErrorView::Transport {
                message: message@,
                source: cause.chain(),
            }),
            Error::Ipp { operation, status } => error@ == (ErrorView::Ipp {
                operation: operation@,
                status: status@,
            }),
            Error::Decode { attribute, detail } => error@ == (ErrorView::Decode {
                attribute: attribute@,
                detail: detail@,
            }),
            Error::Io(cause) => error@ == ErrorView::Io(cause.chain()),
        },
{
}

/// An error of the mechanism shows its text, and a step of a submission what to
/// do next and with which job.
pub proof fn errors_and_steps_show_what_they_carry(text: String, job: i32, failure: Error)
    ensures
        CupsPkError::AuthorizationFailed@ == CupsPkErrorView::AuthorizationFailed,
        CupsPkError::Mechanism(text)@ == CupsPkErrorView::Mechanism(text@),
        CupsPkError::Transport(text)@ == CupsPkErrorView::Transport(text@),
        PrintStep::SendDocument(job)@ == PrintStepView::SendDocument(job),
        (PrintStep::CancelJob { job, failure })@ == (PrintStepView::CancelJob {
            job,
            failure: failure@,
        }),
        PrintStep::Done(Ok(job))@ == PrintStepView::Done(Ok(job)),
        PrintStep::Done(Err(failure))@ == PrintStepView::Done(Err(failure@)),
{
}

} // verus!
