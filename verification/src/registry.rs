//! The numbers and keywords that IPP and CUPS have registered, against what is
//! read from them and what is written as them.

use vstd::prelude::*;
use crate::clock::{length_of, moment_at};
use crate::error::ErrorView;
use crate::operations::Operation;
use crate::options::{quality_of, qualities_of, PrintQuality};
use crate::printer::is_worst;
use crate::replies::{status_error, Listing, NOT_FOUND};
use crate::requests::{IdentifyAction, PpdFilter, WhichJobs};
use crate::state::{
    job_state_of, printer_state_of, reason_of, reasons_of, JobState, PrinterState, Severity,
    StateReasonView,
};
use crate::subscription::{event_of, events_of, NotifyEventView};
use crate::supply::{level_of, SupplyLevel};
use crate::text::{decimal_int, ends_with};
use crate::wire::{status_name, GroupTag, IPP_1_1};

verus! {

/// Each job state is read from the value RFC 8011 registers for it and from no
/// other: 3 pending, 4 pending-held, 5 processing, 6 processing-stopped,
/// 7 canceled, 8 aborted, 9 completed. Any other value is an error that names
/// the attribute and the value.
pub proof fn a_job_state_is_read_from_its_registered_value(value: i32)
    ensures
        job_state_of(value) == Ok::<JobState, ErrorView>(JobState::Pending) <==> value == 3,
        job_state_of(value) == Ok::<JobState, ErrorView>(JobState::PendingHeld) <==> value == 4,
        job_state_of(value) == Ok::<JobState, ErrorView>(JobState::Processing) <==> value == 5,
        job_state_of(value) == Ok::<JobState, ErrorView>(JobState::ProcessingStopped) <==> value
            == 6,
        job_state_of(value) == Ok::<JobState, ErrorView>(JobState::Canceled) <==> value == 7,
        job_state_of(value) == Ok::<JobState, ErrorView>(JobState::Aborted) <==> value == 8,
        job_state_of(value) == Ok::<JobState, ErrorView>(JobState::Completed) <==> value == 9,
        value < 3 || value > 9 ==> job_state_of(value) == Err::<JobState, ErrorView>(
            ErrorView::Decode {
                attribute: "job-state"@,
                detail: "unknown value "@ + decimal_int(value as int),
            },
        ),
{
}

/// A job has ended exactly where its state was read from 7, 8 or 9.
pub proof fn a_job_has_ended_from_canceled_on(value: i32)
    requires
        job_state_of(value) is Ok,
    ensures
        job_state_of(value)->Ok_0.is_terminal() <==> value >= 7,
{
}

/// Each printer state is read from the value RFC 8011 registers for it and from
/// no other: 3 idle, 4 processing, 5 stopped. Any other value is an error that
/// names the attribute and the value.
pub proof fn a_printer_state_is_read_from_its_registered_value(value: i32)
    ensures
        printer_state_of(value) == Ok::<PrinterState, ErrorView>(PrinterState::Idle) <==> value
            == 3,
        printer_state_of(value) == Ok::<PrinterState, ErrorView>(PrinterState::Processing)
            <==> value == 4,
        printer_state_of(value) == Ok::<PrinterState, ErrorView>(PrinterState::Stopped) <==> value
            == 5,
        value < 3 || value > 5 ==> printer_state_of(value) == Err::<PrinterState, ErrorView>(
            ErrorView::Decode {
                attribute: "printer-state"@,
                detail: "unknown value "@ + decimal_int(value as int),
            },
        ),
{
}

/// Each quality is read from the value registered for it and from no other, and
/// is sent as that value: 3 draft, 4 normal, 5 high. Any other value is no
/// quality.
pub proof fn a_quality_has_its_registered_value(value: i32)
    ensures
        quality_of(value) == Some(PrintQuality::Draft) <==> value == 3,
        quality_of(value) == Some(PrintQuality::Normal) <==> value == 4,
        quality_of(value) == Some(PrintQuality::High) <==> value == 5,
        quality_of(value) is None <==> value < 3 || value > 5,
        PrintQuality::Draft.value() == 3,
        PrintQuality::Normal.value() == 4,
        PrintQuality::High.value() == 5,
{
}

/// Qualities are read in order: those of two lists, one behind the other, are
/// those of the first and then those of the second, and a list of one value has
/// the quality of that value or none.
pub proof fn qualities_are_read_in_order(before: Seq<i32>, after: Seq<i32>, value: i32)
    ensures
        qualities_of(before + after) == qualities_of(before) + qualities_of(after),
        3 <= value <= 5 ==> qualities_of(seq![value]) == seq![quality_of(value)->0],
        !(3 <= value <= 5) ==> qualities_of(seq![value]) == Seq::<PrintQuality>::empty(),
        qualities_of(Seq::empty()) == Seq::<PrintQuality>::empty(),
    decreases after.len(),
{
    reveal_with_fuel(qualities_of, 2);
    let single = seq![value];
    assert(single.drop_last() =~= Seq::empty());
    assert(single.last() == value);
    if 3 <= value <= 5 {
        assert(qualities_of(single) =~= seq![quality_of(value)->0]);
    }
    let all = before + after;
    if after.len() == 0 {
        assert(all =~= before);
        assert(qualities_of(before) + qualities_of(after) =~= qualities_of(before));
    } else {
        qualities_are_read_in_order(before, after.drop_last(), value);
        assert(all.drop_last() =~= before + after.drop_last());
        assert(all.last() == after.last());
        assert(qualities_of(all) =~= qualities_of(before) + qualities_of(after));
    }
}

/// `-error`, `-warning` and `-report` at the end of a keyword say how serious it
/// is and are no part of it, whatever the keyword is.
pub proof fn a_suffix_says_how_serious_a_reason_is(keyword: Seq<char>)
    ensures
        reason_of(keyword + "-error"@) == (StateReasonView { keyword, severity: Severity::Error }),
        reason_of(keyword + "-warning"@) == (StateReasonView {
            keyword,
            severity: Severity::Warning,
        }),
        reason_of(keyword + "-report"@) == (StateReasonView {
            keyword,
            severity: Severity::Report,
        }),
        Severity::Error.suffix() == "-error"@,
        Severity::Warning.suffix() == "-warning"@,
        Severity::Report.suffix() == "-report"@,
{
    crate::state::a_suffixed_keyword_is_split(keyword, Severity::Error);
    crate::state::a_suffixed_keyword_is_split(keyword, Severity::Warning);
    crate::state::a_suffixed_keyword_is_split(keyword, Severity::Report);
}

/// What is read from a keyword tells it apart: with the severity's suffix put
/// back it is the keyword again, or it was a report without one.
pub proof fn a_reason_loses_nothing_but_its_suffix(raw: Seq<char>)
    ensures
        ({
            let reason = reason_of(raw);
            ||| raw == reason.keyword + reason.severity.suffix()
            ||| raw == reason.keyword && reason.severity is Report
        }),
        reason_of(raw).severity is Error <==> ends_with(raw, "-error"@),
        reason_of(raw).severity is Warning <==> ends_with(raw, "-warning"@),
{
    reveal_strlit("-error");
    reveal_strlit("-warning");
    let reason = reason_of(raw);
    let n = reason.severity.suffix().len();
    if raw != reason.keyword {
        assert(raw.subrange(raw.len() - n, raw.len() as int) == reason.severity.suffix());
        assert(raw =~= reason.keyword + reason.severity.suffix());
    }
    if ends_with(raw, "-error"@) && ends_with(raw, "-warning"@) {
        assert(raw.subrange(raw.len() - 6, raw.len() as int).last() == raw.last());
        assert(raw.subrange(raw.len() - 8, raw.len() as int).last() == raw.last());
    }
}

/// An error is worse than a warning and a warning is worse than a report.
pub proof fn an_error_is_worse_than_a_warning()
    ensures
        Severity::Report.gravity() < Severity::Warning.gravity(),
        Severity::Warning.gravity() < Severity::Error.gravity(),
{
}

/// The worst of several reasons is an error where any is one, a warning where
/// any is one and none is an error, and a report where all are.
pub proof fn the_worst_reason_is_the_most_serious(reasons: Seq<StateReasonView>, i: int)
    requires
        0 <= i < reasons.len(),
    ensures
        reasons[i].severity is Error ==> is_worst(reasons, Severity::Error),
        reasons[i].severity is Warning && (forall|j: int|
            0 <= j < reasons.len() ==> !((#[trigger] reasons[j]).severity is Error)) ==> is_worst(
            reasons,
            Severity::Warning,
        ),
        (forall|j: int| 0 <= j < reasons.len() ==> (#[trigger] reasons[j]).severity is Report)
            ==> is_worst(reasons, Severity::Report),
        is_worst(reasons, Severity::Report) ==> reasons[i].severity is Report,
        is_worst(reasons, Severity::Warning) ==> !(reasons[i].severity is Error),
        forall|severity: Severity| #[trigger]
            is_worst(reasons, severity) ==> exists|j: int|
                0 <= j < reasons.len() && (#[trigger] reasons[j]).severity == severity,
{
}

/// Reasons are read in order: those of two lists, one behind the other, are
/// those of the first and then those of the second, and a list of one keyword
/// has the reason of that keyword, unless it is `none`.
pub proof fn reasons_are_read_in_order(
    before: Seq<Seq<char>>,
    after: Seq<Seq<char>>,
    raw: Seq<char>,
)
    ensures
        reasons_of(before + after) == reasons_of(before) + reasons_of(after),
        raw != "none"@ ==> reasons_of(seq![raw]) == seq![reason_of(raw)],
        raw == "none"@ ==> reasons_of(seq![raw]) == Seq::<StateReasonView>::empty(),
        reasons_of(Seq::empty()) == Seq::<StateReasonView>::empty(),
    decreases after.len(),
{
    reveal_with_fuel(reasons_of, 2);
    let single = seq![raw];
    assert(single.drop_last() =~= Seq::empty());
    assert(single.last() == raw);
    if raw != "none"@ {
        assert(reasons_of(single) =~= seq![reason_of(raw)]);
    }
    let all = before + after;
    if after.len() == 0 {
        assert(all =~= before);
        assert(reasons_of(before) + reasons_of(after) =~= reasons_of(before));
    } else {
        reasons_are_read_in_order(before, after.drop_last(), raw);
        assert(all.drop_last() =~= before + after.drop_last());
        assert(all.last() == after.last());
        assert(reasons_of(all) =~= reasons_of(before) + reasons_of(after));
    }
}

/// A level from 0 to 100 is that percentage, one above is full, and one below
/// is unknown.
pub proof fn a_level_is_its_percentage(level: i32, n: u8)
    ensures
        n < 100 ==> (level_of(level) == SupplyLevel::Percent(n) <==> level == n),
        level_of(level) == SupplyLevel::Percent(100) <==> level >= 100,
        level_of(level) == SupplyLevel::Unknown <==> level < 0,
        n > 100 ==> level_of(level) != SupplyLevel::Percent(n),
{
}

/// A count of seconds above zero is that many thousand million nanoseconds, and
/// zero or less is neither a time nor a length.
pub proof fn seconds_are_thousands_of_millions_of_nanoseconds(seconds: i32)
    ensures
        seconds > 0 ==> moment_at(Some(seconds)) == Some(seconds * 1_000_000_000),
        seconds > 0 ==> length_of(Some(seconds)) == Some((seconds * 1_000_000_000) as nat),
        seconds <= 0 ==> moment_at(Some(seconds)) is None && length_of(Some(seconds)) is None,
        moment_at(None) is None,
        length_of(None) is None,
{
}

/// Each operation goes on a request's header as the code RFC 8011, the IANA
/// registry or CUPS gives it.
pub proof fn an_operation_has_its_registered_code(operation: Operation)
    ensures
        operation == Operation::PrintJob <==> operation.opcode() == 0x0002,
        operation == Operation::ValidateJob <==> operation.opcode() == 0x0004,
        operation == Operation::CreateJob <==> operation.opcode() == 0x0005,
        operation == Operation::SendDocument <==> operation.opcode() == 0x0006,
        operation == Operation::CancelJob <==> operation.opcode() == 0x0008,
        operation == Operation::GetJobAttributes <==> operation.opcode() == 0x0009,
        operation == Operation::GetJobs <==> operation.opcode() == 0x000A,
        operation == Operation::GetPrinterAttributes <==> operation.opcode() == 0x000B,
        operation == Operation::HoldJob <==> operation.opcode() == 0x000C,
        operation == Operation::ReleaseJob <==> operation.opcode() == 0x000D,
        operation == Operation::RestartJob <==> operation.opcode() == 0x000E,
        operation == Operation::PausePrinter <==> operation.opcode() == 0x0010,
        operation == Operation::ResumePrinter <==> operation.opcode() == 0x0011,
        operation == Operation::PurgeJobs <==> operation.opcode() == 0x0012,
        operation == Operation::SetPrinterAttributes <==> operation.opcode() == 0x0013,
        operation == Operation::SetJobAttributes <==> operation.opcode() == 0x0014,
        operation == Operation::CreatePrinterSubscriptions <==> operation.opcode() == 0x0016,
        operation == Operation::GetSubscriptionAttributes <==> operation.opcode() == 0x0018,
        operation == Operation::GetSubscriptions <==> operation.opcode() == 0x0019,
        operation == Operation::RenewSubscription <==> operation.opcode() == 0x001A,
        operation == Operation::CancelSubscription <==> operation.opcode() == 0x001B,
        operation == Operation::GetNotifications <==> operation.opcode() == 0x001C,
        operation == Operation::EnablePrinter <==> operation.opcode() == 0x0022,
        operation == Operation::DisablePrinter <==> operation.opcode() == 0x0023,
        operation == Operation::HoldNewJobs <==> operation.opcode() == 0x0025,
        operation == Operation::ReleaseHeldNewJobs <==> operation.opcode() == 0x0026,
        operation == Operation::GetDocuments <==> operation.opcode() == 0x0035,
        operation == Operation::CancelJobs <==> operation.opcode() == 0x0038,
        operation == Operation::CancelMyJobs <==> operation.opcode() == 0x0039,
        operation == Operation::ResubmitJob <==> operation.opcode() == 0x003A,
        operation == Operation::CloseJob <==> operation.opcode() == 0x003B,
        operation == Operation::IdentifyPrinter <==> operation.opcode() == 0x003C,
        operation == Operation::ValidateDocument <==> operation.opcode() == 0x003D,
        operation == Operation::CupsGetDefault <==> operation.opcode() == 0x4001,
        operation == Operation::CupsGetPrinters <==> operation.opcode() == 0x4002,
        operation == Operation::CupsGetClasses <==> operation.opcode() == 0x4005,
        operation == Operation::CupsGetPPDs <==> operation.opcode() == 0x400C,
        operation == Operation::CupsMoveJob <==> operation.opcode() == 0x400D,
{
}

/// Each operation is called by its registered name.
pub proof fn an_operation_has_its_registered_name()
    ensures
        Operation::PrintJob.title() == "Print-Job"@,
        Operation::ValidateJob.title() == "Validate-Job"@,
        Operation::CreateJob.title() == "Create-Job"@,
        Operation::SendDocument.title() == "Send-Document"@,
        Operation::CancelJob.title() == "Cancel-Job"@,
        Operation::GetJobAttributes.title() == "Get-Job-Attributes"@,
        Operation::GetJobs.title() == "Get-Jobs"@,
        Operation::GetPrinterAttributes.title() == "Get-Printer-Attributes"@,
        Operation::HoldJob.title() == "Hold-Job"@,
        Operation::ReleaseJob.title() == "Release-Job"@,
        Operation::RestartJob.title() == "Restart-Job"@,
        Operation::PausePrinter.title() == "Pause-Printer"@,
        Operation::ResumePrinter.title() == "Resume-Printer"@,
        Operation::PurgeJobs.title() == "Purge-Jobs"@,
        Operation::SetPrinterAttributes.title() == "Set-Printer-Attributes"@,
        Operation::SetJobAttributes.title() == "Set-Job-Attributes"@,
        Operation::CreatePrinterSubscriptions.title() == "Create-Printer-Subscriptions"@,
        Operation::GetSubscriptionAttributes.title() == "Get-Subscription-Attributes"@,
        Operation::GetSubscriptions.title() == "Get-Subscriptions"@,
        Operation::RenewSubscription.title() == "Renew-Subscription"@,
        Operation::CancelSubscription.title() == "Cancel-Subscription"@,
        Operation::GetNotifications.title() == "Get-Notifications"@,
        Operation::EnablePrinter.title() == "Enable-Printer"@,
        Operation::DisablePrinter.title() == "Disable-Printer"@,
        Operation::HoldNewJobs.title() == "Hold-New-Jobs"@,
        Operation::ReleaseHeldNewJobs.title() == "Release-Held-New-Jobs"@,
        Operation::GetDocuments.title() == "Get-Documents"@,
        Operation::CancelJobs.title() == "Cancel-Jobs"@,
        Operation::CancelMyJobs.title() == "Cancel-My-Jobs"@,
        Operation::ResubmitJob.title() == "Resubmit-Job"@,
        Operation::CloseJob.title() == "Close-Job"@,
        Operation::IdentifyPrinter.title() == "Identify-Printer"@,
        Operation::ValidateDocument.title() == "Validate-Document"@,
        Operation::CupsGetDefault.title() == "CUPS-Get-Default"@,
        Operation::CupsGetPrinters.title() == "CUPS-Get-Printers"@,
        Operation::CupsGetClasses.title() == "CUPS-Get-Classes"@,
        Operation::CupsGetPPDs.title() == "CUPS-Get-PPDs"@,
        Operation::CupsMoveJob.title() == "CUPS-Move-Job"@,
{
}

/// Each event is told from its registered keyword, and any other keyword is kept
/// as it is.
pub proof fn an_event_has_its_registered_keyword(keyword: Seq<char>)
    ensures
        event_of(keyword) == NotifyEventView::PrinterStateChanged <==> keyword
            == "printer-state-changed"@,
        event_of(keyword) == NotifyEventView::PrinterStopped <==> keyword == "printer-stopped"@,
        event_of(keyword) == NotifyEventView::JobCreated <==> keyword == "job-created"@,
        event_of(keyword) == NotifyEventView::JobStateChanged <==> keyword == "job-state-changed"@,
        event_of(keyword) == NotifyEventView::JobCompleted <==> keyword == "job-completed"@,
        event_of(keyword) == NotifyEventView::JobStopped <==> keyword == "job-stopped"@,
        event_of(keyword) == NotifyEventView::All <==> keyword == "all"@,
        NotifyEventView::PrinterStateChanged.word() == "printer-state-changed"@,
        NotifyEventView::PrinterStopped.word() == "printer-stopped"@,
        NotifyEventView::JobCreated.word() == "job-created"@,
        NotifyEventView::JobStateChanged.word() == "job-state-changed"@,
        NotifyEventView::JobCompleted.word() == "job-completed"@,
        NotifyEventView::JobStopped.word() == "job-stopped"@,
        NotifyEventView::All.word() == "all"@,
        NotifyEventView::Other(keyword).word() == keyword,
        event_of(keyword) is Other ==> event_of(keyword) == NotifyEventView::Other(keyword),
{
    reveal_strlit("printer-state-changed");
    reveal_strlit("printer-stopped");
    reveal_strlit("job-created");
    reveal_strlit("job-state-changed");
    reveal_strlit("job-completed");
    reveal_strlit("job-stopped");
    reveal_strlit("all");
    assert("printer-state-changed"@.len() == 21);
    assert("printer-stopped"@.len() == 15);
    assert("job-created"@.len() == 11);
    assert("job-state-changed"@.len() == 17);
    assert("job-completed"@.len() == 13);
    assert("job-stopped"@.len() == 11);
    assert("all"@.len() == 3);
    assert("job-created"@[4] == 'c');
    assert("job-stopped"@[4] == 's');
}

/// The events of several keywords are those of each, one for one.
pub proof fn events_are_read_one_for_one(keywords: Seq<Seq<char>>, i: int)
    requires
        0 <= i < keywords.len(),
    ensures
        events_of(keywords).len() == keywords.len(),
        events_of(keywords)[i] == event_of(keywords[i]),
{
}

/// The keywords and attribute names of the choices a caller makes.
pub proof fn choices_have_their_keywords(text: String, value: &str)
    ensures
        WhichJobs::NotCompleted.word() == "not-completed"@,
        WhichJobs::Completed.word() == "completed"@,
        IdentifyAction::Flash.word() == "flash"@,
        IdentifyAction::Sound.word() == "sound"@,
        IdentifyAction::Display(text).word() == "display"@,
        PpdFilter::DeviceId(value).name() == "ppd-device-id"@,
        PpdFilter::DeviceId(value).value() == value@,
        PpdFilter::MakeAndModel(value).name() == "ppd-make-and-model"@,
        PpdFilter::MakeAndModel(value).value() == value@,
        PpdFilter::Make(value).name() == "ppd-make"@,
        PpdFilter::Make(value).value() == value@,
        Listing::Printers.word() == "printer"@,
        Listing::Classes.word() == "class"@,
        Listing::Drivers.word() == "driver"@,
        Listing::Jobs.word() == "job"@,
        Listing::Subscriptions.word() == "subscription"@,
        Listing::Notifications.word() == "notification"@,
{
}

/// The tags of the groups are those RFC 8010 and its extensions register, and
/// requests are of version 1.1.
pub proof fn groups_have_their_registered_tags()
    ensures
        GroupTag::Operation.code() == 0x01,
        GroupTag::Job.code() == 0x02,
        GroupTag::Printer.code() == 0x04,
        GroupTag::Subscription.code() == 0x06,
        GroupTag::EventNotification.code() == 0x07,
        GroupTag::Document.code() == 0x09,
        IPP_1_1 == 0x0101,
        NOT_FOUND == 0x0406,
{
}

/// The first three status codes are success whatever the operation, and every
/// other is an error that carries the operation and the status's own name.
pub proof fn only_the_first_three_codes_are_success(code: i16, operation: Seq<char>)
    ensures
        status_error(code, operation) is None <==> code == 0 || code == 1 || code == 2,
        status_error(code, operation) matches Some(e) ==> e == (ErrorView::Ipp {
            operation,
            status: status_name(code),
        }),
{
}

} // verus!
