//! Submitting a document that is streamed to the printer.
//!
//! `Create-Job` followed by `Send-Document`, rather than `Print-Job`, is what
//! allows the document to be streamed: `Print-Job` carries its payload in the
//! same request, so the whole thing has to exist before the request can be
//! built. The price is a job that exists before its document does, and has to
//! be taken back out where the document never arrives.

use vstd::prelude::*;
use ipp::request::IppRequestResponse;
use crate::client::IppClient;
use crate::error::{Error, ErrorView};
use crate::job::JobId;
use crate::operations::Operation;
use crate::replies::{job_id_in, reply_error};

verus! {

/// The format of a file that is left to the printer or the daemon to type,
/// which handles PDF, PostScript, plain text and images without guessing from
/// an extension.
pub const FILE_FORMAT: &'static str = "application/octet-stream";

/// The name of the job that prints a file: the file's own, where its path ends
/// in one.
pub fn file_job_name(file_name: Option<String>) -> (r: String)
    ensures
        r@ == (match file_name {
            Some(name) => name@,
            None => "document"@,
        }),
{
    match file_name {
        Some(name) => name,
        None => "document".to_string(),
    }
}

/// What to do next with a document that is being submitted.
pub enum PrintStep {
    /// Send the document to the job that was created.
    SendDocument(JobId),
    /// Take the job back out of the queue, since the document was not accepted
    /// and it would sit there indefinitely holding none.
    CancelJob {
        /// The job that was created.
        job: JobId,
        /// Why the document was not accepted.
        failure: Error,
    },
    /// Nothing: this is what came of it.
    Done(Result<JobId, Error>),
}

/// A [`PrintStep`], as it is viewed.
pub enum PrintStepView {
    SendDocument(JobId),
    CancelJob { job: JobId, failure: ErrorView },
    Done(Result<JobId, ErrorView>),
}

impl View for PrintStep {
    type V = PrintStepView;

    open spec fn view(&self) -> PrintStepView {
        match self {
            PrintStep::SendDocument(job) => PrintStepView::SendDocument(*job),
            PrintStep::CancelJob { job, failure } => PrintStepView::CancelJob {
                job: *job,
                failure: failure@,
            },
            PrintStep::Done(Ok(job)) => PrintStepView::Done(Ok(*job)),
            PrintStep::Done(Err(e)) => PrintStepView::Done(Err(e@)),
        }
    }
}

/// What follows the reply to `Create-Job`.
pub open spec fn created(reply: Result<IppRequestResponse, Error>) -> PrintStepView {
    match reply_error(reply, Operation::CreateJob) {
        Some(e) => PrintStepView::Done(Err(e)),
        None => match job_id_in(reply->Ok_0) {
            Ok(job) => PrintStepView::SendDocument(job),
            Err(e) => PrintStepView::Done(Err(e)),
        },
    }
}

/// What follows the reply to `Send-Document`.
pub open spec fn sent(job: JobId, reply: Result<IppRequestResponse, Error>) -> PrintStepView {
    match reply_error(reply, Operation::SendDocument) {
        Some(failure) => PrintStepView::CancelJob { job, failure },
        None => PrintStepView::Done(Ok(job)),
    }
}

/// Whether a submission printed, where the job was created as `job` and the
/// document was answered with `reply`: the job's id, or why the document was
/// not accepted. What came of the cleaning up in between does not show.
pub open spec fn submitted(job: JobId, reply: Result<IppRequestResponse, Error>) -> Result<
    JobId,
    ErrorView,
> {
    match sent(job, reply) {
        PrintStepView::CancelJob { failure, .. } => Err(failure),
        PrintStepView::Done(r) => r,
        PrintStepView::SendDocument(job) => Ok(job),
    }
}

/// A job is taken back out exactly where its document was not accepted, and
/// what is reported is then why it was not.
pub proof fn a_job_without_a_document_is_cancelled(
    job: JobId,
    reply: Result<IppRequestResponse, Error>,
)
    ensures
        sent(job, reply) is CancelJob <==> reply_error(reply, Operation::SendDocument) is Some,
        sent(job, reply) matches PrintStepView::CancelJob { job: cancelled, .. } ==> cancelled
            == job,
        submitted(job, reply) == (match reply_error(reply, Operation::SendDocument) {
            Some(failure) => Err(failure),
            None => Ok(job),
        }),
{
}

/// Takes in the reply to `Create-Job`.
pub fn after_create(reply: Result<IppRequestResponse, Error>) -> (r: PrintStep)
    ensures
        r@ == created(reply),
{
    match IppClient::checked(reply, Operation::CreateJob) {
        Ok(resp) => match IppClient::decode_job_id(&resp) {
            Ok(job) => PrintStep::SendDocument(job),
            Err(e) => PrintStep::Done(Err(e)),
        },
        Err(e) => PrintStep::Done(Err(e)),
    }
}

/// Takes in that no `Send-Document` request could be made, a format that is too
/// long being one reason. That is reported, and the job that was created is
/// left as it is.
pub fn unsendable(failure: Error) -> (r: PrintStep)
    ensures
        r@ == PrintStepView::Done(Err(failure@)),
{
    PrintStep::Done(Err(failure))
}

/// Takes in the reply to `Send-Document`.
pub fn after_send(job: JobId, reply: Result<IppRequestResponse, Error>) -> (r: PrintStep)
    ensures
        r@ == sent(job, reply),
{
    match IppClient::checked(reply, Operation::SendDocument) {
        Ok(_) => PrintStep::Done(Ok(job)),
        Err(failure) => PrintStep::CancelJob { job, failure },
    }
}

/// Takes in the reply to `Cancel-Job`. Whatever it is, the failure to report
/// is the one that led to it.
pub fn after_cancel(failure: Error, reply: Result<IppRequestResponse, Error>) -> (r: PrintStep)
    ensures
        r@ == PrintStepView::Done(Err(failure@)),
{
    PrintStep::Done(Err(failure))
}

} // verus!
