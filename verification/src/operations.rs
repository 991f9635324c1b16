//! The IPP operations the library asks for, and the requests the `ipp` crate
//! has a ready-made form for.

use vstd::prelude::*;
use ipp::operation::cups::CupsGetPrinters;
use ipp::operation::{
    CreateJob, GetJobAttributes, GetJobs, GetPrinterAttributes, IppOperation, PrintJob, PurgeJobs,
    SendDocument,
};
use ipp::parser::IppParseError;
use ipp::payload::IppPayload;
use ipp::prelude::Uri;
use ipp::request::IppRequestResponse;
use crate::wire::{
    attribute, bare_request, message_payload, opening, overlong, parse_error_message,
    payload_bytes, request_of, text_or_empty, uri_written, Attribute, Content, Request,
};

verus! {

/// An IPP operation.
#[derive(Debug, Clone, Copy, PartialEq, Eq)]
pub enum Operation {
    PrintJob,
    ValidateJob,
    CreateJob,
    SendDocument,
    CancelJob,
    GetJobAttributes,
    GetJobs,
    GetPrinterAttributes,
    HoldJob,
    ReleaseJob,
    RestartJob,
    PausePrinter,
    ResumePrinter,
    PurgeJobs,
    SetPrinterAttributes,
    SetJobAttributes,
    CreatePrinterSubscriptions,
    GetSubscriptionAttributes,
    GetSubscriptions,
    RenewSubscription,
    CancelSubscription,
    GetNotifications,
    EnablePrinter,
    DisablePrinter,
    HoldNewJobs,
    ReleaseHeldNewJobs,
    GetDocuments,
    CancelJobs,
    CancelMyJobs,
    ResubmitJob,
    CloseJob,
    IdentifyPrinter,
    ValidateDocument,
    CupsGetDefault,
    CupsGetPrinters,
    CupsGetClasses,
    CupsGetPPDs,
    CupsMoveJob,
}

impl Operation {
    /// The operation's code, from RFC 8011 and the IANA registry, and from
    /// CUPS for its own.
    pub open spec fn opcode(self) -> i16 {
        match self {
            Operation::PrintJob => 0x0002,
            Operation::ValidateJob => 0x0004,
            Operation::CreateJob => 0x0005,
            Operation::SendDocument => 0x0006,
            Operation::CancelJob => 0x0008,
            Operation::GetJobAttributes => 0x0009,
            Operation::GetJobs => 0x000A,
            Operation::GetPrinterAttributes => 0x000B,
            Operation::HoldJob => 0x000C,
            Operation::ReleaseJob => 0x000D,
            Operation::RestartJob => 0x000E,
            Operation::PausePrinter => 0x0010,
            Operation::ResumePrinter => 0x0011,
            Operation::PurgeJobs => 0x0012,
            Operation::SetPrinterAttributes => 0x0013,
            Operation::SetJobAttributes => 0x0014,
            Operation::CreatePrinterSubscriptions => 0x0016,
            Operation::GetSubscriptionAttributes => 0x0018,
            Operation::GetSubscriptions => 0x0019,
            Operation::RenewSubscription => 0x001A,
            Operation::CancelSubscription => 0x001B,
            Operation::GetNotifications => 0x001C,
            Operation::EnablePrinter => 0x0022,
            Operation::DisablePrinter => 0x0023,
            Operation::HoldNewJobs => 0x0025,
            Operation::ReleaseHeldNewJobs => 0x0026,
            Operation::GetDocuments => 0x0035,
            Operation::CancelJobs => 0x0038,
            Operation::CancelMyJobs => 0x0039,
            Operation::ResubmitJob => 0x003A,
            Operation::CloseJob => 0x003B,
            Operation::IdentifyPrinter => 0x003C,
            Operation::ValidateDocument => 0x003D,
            Operation::CupsGetDefault => 0x4001,
            Operation::CupsGetPrinters => 0x4002,
            Operation::CupsGetClasses => 0x4005,
            Operation::CupsGetPPDs => 0x400C,
            Operation::CupsMoveJob => 0x400D,
        }
    }

    /// The operation's registered name.
    pub open spec fn title(self) -> Seq<char> {
        match self {
            Operation::PrintJob => "Print-Job"@,
            Operation::ValidateJob => "Validate-Job"@,
            Operation::CreateJob => "Create-Job"@,
            Operation::SendDocument => "Send-Document"@,
            Operation::CancelJob => "Cancel-Job"@,
            Operation::GetJobAttributes => "Get-Job-Attributes"@,
            Operation::GetJobs => "Get-Jobs"@,
            Operation::GetPrinterAttributes => "Get-Printer-Attributes"@,
            Operation::HoldJob => "Hold-Job"@,
            Operation::ReleaseJob => "Release-Job"@,
            Operation::RestartJob => "Restart-Job"@,
            Operation::PausePrinter => "Pause-Printer"@,
            Operation::ResumePrinter => "Resume-Printer"@,
            Operation::PurgeJobs => "Purge-Jobs"@,
            Operation::SetPrinterAttributes => "Set-Printer-Attributes"@,
            Operation::SetJobAttributes => "Set-Job-Attributes"@,
            Operation::CreatePrinterSubscriptions => "Create-Printer-Subscriptions"@,
            Operation::GetSubscriptionAttributes => "Get-Subscription-Attributes"@,
            Operation::GetSubscriptions => "Get-Subscriptions"@,
            Operation::RenewSubscription => "Renew-Subscription"@,
            Operation::CancelSubscription => "Cancel-Subscription"@,
            Operation::GetNotifications => "Get-Notifications"@,
            Operation::EnablePrinter => "Enable-Printer"@,
            Operation::DisablePrinter => "Disable-Printer"@,
            Operation::HoldNewJobs => "Hold-New-Jobs"@,
            Operation::ReleaseHeldNewJobs => "Release-Held-New-Jobs"@,
            Operation::GetDocuments => "Get-Documents"@,
            Operation::CancelJobs => "Cancel-Jobs"@,
            Operation::CancelMyJobs => "Cancel-My-Jobs"@,
            Operation::ResubmitJob => "Resubmit-Job"@,
            Operation::CloseJob => "Close-Job"@,
            Operation::IdentifyPrinter => "Identify-Printer"@,
            Operation::ValidateDocument => "Validate-Document"@,
            Operation::CupsGetDefault => "CUPS-Get-Default"@,
            Operation::CupsGetPrinters => "CUPS-Get-Printers"@,
            Operation::CupsGetClasses => "CUPS-Get-Classes"@,
            Operation::CupsGetPPDs => "CUPS-Get-PPDs"@,
            Operation::CupsMoveJob => "CUPS-Move-Job"@,
        }
    }

    /// The operation's code, as it goes on a request's header.
    pub fn code(self) -> (r: i16)
        ensures
            r == self.opcode(),
    {
        match self {
            Operation::PrintJob => 0x0002,
            Operation::ValidateJob => 0x0004,
            Operation::CreateJob => 0x0005,
            Operation::SendDocument => 0x0006,
            Operation::CancelJob => 0x0008,
            Operation::GetJobAttributes => 0x0009,
            Operation::GetJobs => 0x000A,
            Operation::GetPrinterAttributes => 0x000B,
            Operation::HoldJob => 0x000C,
            Operation::ReleaseJob => 0x000D,
            Operation::RestartJob => 0x000E,
            Operation::PausePrinter => 0x0010,
            Operation::ResumePrinter => 0x0011,
            Operation::PurgeJobs => 0x0012,
            Operation::SetPrinterAttributes => 0x0013,
            Operation::SetJobAttributes => 0x0014,
            Operation::CreatePrinterSubscriptions => 0x0016,
            Operation::GetSubscriptionAttributes => 0x0018,
            Operation::GetSubscriptions => 0x0019,
            Operation::RenewSubscription => 0x001A,
            Operation::CancelSubscription => 0x001B,
            Operation::GetNotifications => 0x001C,
            Operation::EnablePrinter => 0x0022,
            Operation::DisablePrinter => 0x0023,
            Operation::HoldNewJobs => 0x0025,
            Operation::ReleaseHeldNewJobs => 0x0026,
            Operation::GetDocuments => 0x0035,
            Operation::CancelJobs => 0x0038,
            Operation::CancelMyJobs => 0x0039,
            Operation::ResubmitJob => 0x003A,
            Operation::CloseJob => 0x003B,
            Operation::IdentifyPrinter => 0x003C,
            Operation::ValidateDocument => 0x003D,
            Operation::CupsGetDefault => 0x4001,
            Operation::CupsGetPrinters => 0x4002,
            Operation::CupsGetClasses => 0x4005,
            Operation::CupsGetPPDs => 0x400C,
            Operation::CupsMoveJob => 0x400D,
        }
    }

    /// The operation's name, as an error reports it.
    pub fn label(self) -> (r: &'static str)
        ensures
            r@ == self.title(),
    {
        match self {
            Operation::PrintJob => "Print-Job",
            Operation::ValidateJob => "Validate-Job",
            Operation::CreateJob => "Create-Job",
            Operation::SendDocument => "Send-Document",
            Operation::CancelJob => "Cancel-Job",
            Operation::GetJobAttributes => "Get-Job-Attributes",
            Operation::GetJobs => "Get-Jobs",
            Operation::GetPrinterAttributes => "Get-Printer-Attributes",
            Operation::HoldJob => "Hold-Job",
            Operation::ReleaseJob => "Release-Job",
            Operation::RestartJob => "Restart-Job",
            Operation::PausePrinter => "Pause-Printer",
            Operation::ResumePrinter => "Resume-Printer",
            Operation::PurgeJobs => "Purge-Jobs",
            Operation::SetPrinterAttributes => "Set-Printer-Attributes",
            Operation::SetJobAttributes => "Set-Job-Attributes",
            Operation::CreatePrinterSubscriptions => "Create-Printer-Subscriptions",
            Operation::GetSubscriptionAttributes => "Get-Subscription-Attributes",
            Operation::GetSubscriptions => "Get-Subscriptions",
            Operation::RenewSubscription => "Renew-Subscription",
            Operation::CancelSubscription => "Cancel-Subscription",
            Operation::GetNotifications => "Get-Notifications",
            Operation::EnablePrinter => "Enable-Printer",
            Operation::DisablePrinter => "Disable-Printer",
            Operation::HoldNewJobs => "Hold-New-Jobs",
            Operation::ReleaseHeldNewJobs => "Release-Held-New-Jobs",
            Operation::GetDocuments => "Get-Documents",
            Operation::CancelJobs => "Cancel-Jobs",
            Operation::CancelMyJobs => "Cancel-My-Jobs",
            Operation::ResubmitJob => "Resubmit-Job",
            Operation::CloseJob => "Close-Job",
            Operation::IdentifyPrinter => "Identify-Printer",
            Operation::ValidateDocument => "Validate-Document",
            Operation::CupsGetDefault => "CUPS-Get-Default",
            Operation::CupsGetPrinters => "CUPS-Get-Printers",
            Operation::CupsGetClasses => "CUPS-Get-Classes",
            Operation::CupsGetPPDs => "CUPS-Get-PPDs",
            Operation::CupsMoveJob => "CUPS-Move-Job",
        }
    }
}

/// No two operations share a code, so a request's header tells them apart.
pub proof fn operations_have_distinct_codes(a: Operation, b: Operation)
    requires
        a.opcode() == b.opcode(),
    ensures
        a == b,
{
}

/// The user a request is made for.
pub open spec fn requesting_user(user: Seq<char>) -> Attribute {
    attribute("requesting-user-name"@, Content::NameWithoutLanguage(user))
}

/// The job a request is about.
pub open spec fn job_id(id: i32) -> Attribute {
    attribute("job-id"@, Content::Integer(id))
}

/// The format a document is in, where it is given.
pub open spec fn document_format(format: Option<&str>) -> Seq<Attribute> {
    match format {
        Some(f) => seq![attribute("document-format"@, Content::MimeMediaType(f@))],
        None => Seq::empty(),
    }
}

/// What comes of a ready-made request: `request` where no field is over its
/// bound, and else the refusal of the first that is.
pub open spec fn ready_made(
    r: Result<IppRequestResponse, IppParseError>,
    fields: Seq<(Seq<char>, nat)>,
    request: Request,
) -> bool {
    match overlong(fields) {
        None => r matches Ok(message) && request_of(message) == request,
        Some(refusal) => r matches Err(error) && parse_error_message(error) == refusal,
    }
}

/// `GetJobs::new` and its request: the URI as written, and the user.
/// Refuses the first text that is too long.
#[verifier::external_body]
pub(crate) fn get_jobs(uri: Uri, user: &str) -> (r: Result<IppRequestResponse, IppParseError>)
    ensures
        ready_made(
            r,
            seq![(uri_written(uri), 1023), (user@, 255)],
            bare_request(
                0x000A,
                opening(Some(uri_written(uri))).push(requesting_user(user@)),
            ),
        ),
{
    GetJobs::new(uri, Some(user)).map(|op| op.into_ipp_request())
}

/// `GetJobAttributes::new` and its request: the URI as written, the job and
/// the user.
/// Refuses the first text that is too long.
#[verifier::external_body]
pub(crate) fn get_job_attributes(uri: Uri, id: i32, user: &str) -> (r: Result<
    IppRequestResponse,
    IppParseError,
>)
    ensures
        ready_made(
            r,
            seq![(uri_written(uri), 1023), (user@, 255)],
            bare_request(
                0x0009,
                opening(Some(uri_written(uri))).push(job_id(id)).push(requesting_user(user@)),
            ),
        ),
{
    GetJobAttributes::new(uri, id, Some(user)).map(|op| op.into_ipp_request())
}

/// `GetPrinterAttributes::new` and its request: the URI as written.
/// Refuses the first text that is too long.
#[verifier::external_body]
pub(crate) fn get_printer_attributes(uri: Uri) -> (r: Result<IppRequestResponse, IppParseError>)
    ensures
        ready_made(
            r,
            seq![(uri_written(uri), 1023)],
            bare_request(
                0x000B,
                opening(Some(uri_written(uri))),
            ),
        ),
{
    GetPrinterAttributes::new(uri).map(|op| op.into_ipp_request())
}

/// `PurgeJobs::new` and its request: the URI as written, and the user.
/// Refuses the first text that is too long.
#[verifier::external_body]
pub(crate) fn purge_jobs(uri: Uri, user: &str) -> (r: Result<IppRequestResponse, IppParseError>)
    ensures
        ready_made(
            r,
            seq![(uri_written(uri), 1023), (user@, 255)],
            bare_request(
                0x0012,
                opening(Some(uri_written(uri))).push(requesting_user(user@)),
            ),
        ),
{
    PurgeJobs::new(uri, Some(user)).map(|op| op.into_ipp_request())
}

/// `CreateJob::new` and its request: the URI as written, and the job's name.
/// Refuses the first text that is too long.
#[verifier::external_body]
pub(crate) fn create_job(uri: Uri, job_name: &str) -> (r: Result<IppRequestResponse, IppParseError>)
    ensures
        ready_made(
            r,
            seq![(uri_written(uri), 1023), (job_name@, 255)],
            bare_request(
                0x0005,
                opening(Some(uri_written(uri))).push(
                    attribute("job-name"@, Content::NameWithoutLanguage(job_name@)),
                ),
            ),
        ),
{
    CreateJob::new(uri, Some(job_name)).map(|op| op.into_ipp_request())
}

/// `CupsGetPrinters::new` and its request, which is addressed to no printer and
/// has no payload.
#[verifier::external_body]
pub(crate) fn cups_get_printers() -> (r: IppRequestResponse)
    ensures
        request_of(r) == bare_request(0x4002, opening(None)),
{
    CupsGetPrinters::new().into_ipp_request()
}

/// `SendDocument::new` and its request: the URI as written, the job, whether
/// this is its last document, the user, and the format where it is given.
/// Refuses the first text that is too long.
#[verifier::external_body]
pub(crate) fn send_document(
    uri: Uri,
    id: i32,
    payload: IppPayload,
    user: &str,
    format: Option<&str>,
    last: bool,
) -> (r: Result<IppRequestResponse, IppParseError>)
    ensures
        ready_made(
            r,
            seq![(uri_written(uri), 1023), (user@, 255), (text_or_empty(format), 255)],
            Request {
                document: payload_bytes(payload),
                ..bare_request(
                    0x0006,
                    opening(Some(uri_written(uri))).push(job_id(id)).push(
                        attribute("last-document"@, Content::Boolean(last)),
                    ).push(requesting_user(user@)) + document_format(format),
                )
            },
        ),
        r matches Ok(message) ==> message_payload(message) == payload,
{
    let op = SendDocument::new(uri, id, payload, Some(user), format, last);
    op.map(|op| op.into_ipp_request())
}

/// `PrintJob::new` and its request: the URI as written, the user, the format
/// and the job's name.
/// Refuses the first text that is too long.
#[verifier::external_body]
pub(crate) fn print_job(
    uri: Uri,
    payload: IppPayload,
    user: &str,
    job_name: &str,
    format: &str,
) -> (r: Result<IppRequestResponse, IppParseError>)
    ensures
        ready_made(
            r,
            seq![(uri_written(uri), 1023), (user@, 255), (job_name@, 255), (format@, 255)],
            Request {
                document: payload_bytes(payload),
                ..bare_request(
                    0x0002,
                    opening(Some(uri_written(uri))).push(requesting_user(user@)).push(
                        attribute("document-format"@, Content::MimeMediaType(format@)),
                    ).push(attribute("job-name"@, Content::NameWithoutLanguage(job_name@))),
                )
            },
        ),
        r matches Ok(message) ==> message_payload(message) == payload,
{
    let op = PrintJob::new(uri, payload, Some(user), Some(job_name), Some(format));
    op.map(|op| op.into_ipp_request())
}

/// `IppPayload::new` of a cursor over bytes held in memory yields those bytes.
#[verifier::external_body]
pub(crate) fn bytes_payload(bytes: Vec<u8>) -> (r: IppPayload)
    ensures
        payload_bytes(r) == bytes@,
{
    IppPayload::new(std::io::Cursor::new(bytes))
}

} // verus!
