//! One printer, addressed by its own URI, and a job that is open on it.

use vstd::prelude::*;
use std::time::Duration;
use ipp::payload::IppPayload;
use ipp::prelude::Uri;
use ipp::request::IppRequestResponse;
use ipp::value::IppValue;
use crate::asking::{
    a_handles_request_says_whose_it_is, a_renewal_says_how_long, an_id_is_said_as_a_number,
    is_plain_request, is_request, says,
};
use crate::client::{IppClient, IppClientView};
use crate::clock::{in_nanos, SECOND};
use crate::error::{decode_failure, fails_with, Error, ErrorView};
use crate::job::JobId;
use crate::lists::viewed;
use crate::operations::{job_id, requesting_user, Operation};
use crate::requests::{
    address, asked, attach, attach_user, begin, create_asked, first_overlong, identify_asked,
    job_action_asked, keywords, lemma_group_extended, lemma_group_opened, lemma_operation_added,
    lemma_short_names, plain_request, printer_asked, purge_asked, send_asked, user_too_long,
    validate_asked, IdentifyAction,
};
use crate::subscription::{NotifyEvent, NotifyEventView};
use crate::text::{byte_len, lemma_byte_len_bound};
use crate::wire::{
    array_value, attribute, boolean_value, contents, integer_value, keyword_value, length_message,
    message_groups, message_payload, mime_value, opening, operation_group, payload_bytes,
    request_of, same_envelope, value_content, with_added, Attribute, Content, Group, GroupTag,
    Request,
};

verus! {

/// One printer, addressed by its own URI.
///
/// Every operation here is standard IPP, so the printer at the other end can
/// be a CUPS queue, a driverless network printer, or anything else that speaks
/// the protocol. Obtain one with [`IppClient::at`] for an arbitrary printer,
/// or [`IppClient::queue`] for a queue on the CUPS daemon this client is
/// connected to.
pub struct IppPrinter<'a> {
    client: &'a IppClient,
    uri: Uri,
}

/// An [`IppPrinter`]: the client it is reached through, and its URI.
pub struct IppPrinterView {
    pub client: IppClientView,
    pub uri: Uri,
}

impl<'a> View for IppPrinter<'a> {
    type V = IppPrinterView;

    closed spec fn view(&self) -> IppPrinterView {
        IppPrinterView { client: self.client@, uri: self.uri }
    }
}

/// A request that names the printer and the user, and carries `more` besides.
pub open spec fn printer_request(
    printer: IppPrinterView,
    operation: Operation,
    more: Seq<Attribute>,
) -> Result<Request, ErrorView> {
    match address(printer.uri) {
        Err(e) => Err(e),
        Ok(text) => if byte_len(printer.client.user) > 255 {
            Err(user_too_long())
        } else {
            Ok(
                plain_request(
                    operation,
                    opening(Some(text)).push(requesting_user(printer.client.user)) + more,
                ),
            )
        },
    }
}

/// `request`, where there is one, with a group of attributes behind it.
pub open spec fn with_group(
    request: Result<Request, ErrorView>,
    tag: GroupTag,
    attributes: Seq<Attribute>,
) -> Result<Request, ErrorView> {
    match request {
        Err(e) => Err(e),
        Ok(request) => if attributes.len() == 0 {
            Ok(request)
        } else {
            Ok(
                Request {
                    groups: request.groups.push(Group { tag: tag.code(), attributes }),
                    ..request
                },
            )
        },
    }
}

/// The subscription a request is about.
pub open spec fn subscription_id(id: i32) -> Attribute {
    attribute("notify-subscription-id"@, Content::Integer(id))
}

/// A lease in whole seconds, as the 32 bits of the request hold it.
pub open spec fn lease_seconds(lease: Duration) -> i32 {
    (in_nanos(lease) / SECOND as nat) as u64 as i32
}

/// The lease that is asked for, where one is.
pub open spec fn lease_attribute(lease: Option<Duration>) -> Seq<Attribute> {
    match lease {
        Some(d) => seq![attribute("notify-lease-duration"@, Content::Integer(lease_seconds(d)))],
        None => Seq::empty(),
    }
}

/// The keywords of several events.
pub open spec fn event_words(events: Seq<NotifyEventView>) -> Seq<Seq<char>> {
    events.map_values(|event: NotifyEventView| event.word())
}

/// The request for a subscription to several events. Subscription attributes go
/// in their own group, not with the operation attributes.
pub open spec fn subscribe_asked(
    printer: IppPrinterView,
    events: Seq<NotifyEventView>,
    lease: Option<Duration>,
) -> Result<Request, ErrorView> {
    match printer_request(printer, Operation::CreatePrinterSubscriptions, Seq::empty()) {
        Err(e) => Err(e),
        Ok(request) => if first_overlong(event_words(events)) is Some {
            Err(decode_failure("notify-events"@, "keyword too long"@))
        } else {
            with_group(
                Ok(request),
                GroupTag::Subscription,
                seq![
                    attribute("notify-events"@, Content::Array(keywords(event_words(events)))),
                    attribute("notify-pull-method"@, Content::Keyword("ippget"@)),
                ] + lease_attribute(lease),
            )
        },
    }
}

/// Several numbers, as values.
pub open spec fn numbers(ids: Seq<i32>) -> Seq<Content> {
    ids.map_values(|id: i32| Content::Integer(id))
}

/// The request for what several subscriptions have captured.
pub open spec fn notifications_asked(printer: IppPrinterView, ids: Seq<i32>) -> Result<
    Request,
    ErrorView,
> {
    printer_request(
        printer,
        Operation::GetNotifications,
        seq![
            attribute("notify-subscription-ids"@, Content::Array(numbers(ids))),
            attribute("notify-wait"@, Content::Boolean(false)),
        ],
    )
}

/// The question whether a document in this format would be accepted into a job.
pub open spec fn validate_document_asked(
    printer: IppPrinterView,
    job: JobId,
    format: Seq<char>,
) -> Result<Request, ErrorView> {
    match printer_request(
        printer,
        Operation::ValidateDocument,
        seq![job_id(job), attribute("document-format"@, Content::MimeMediaType(format))],
    ) {
        Err(e) => Err(e),
        Ok(request) => if byte_len(format) > 255 {
            Err(decode_failure("document-format"@, "value too long"@))
        } else {
            Ok(request)
        },
    }
}

/// Named values, as attributes.
pub open spec fn settings_of(attributes: Seq<(&str, IppValue)>) -> Seq<Attribute> {
    attributes.map_values(|pair: (&str, IppValue)| attribute(pair.0@, value_content(pair.1)))
}

/// The first of several attributes whose name is over 255 bytes, if any is.
pub open spec fn first_misnamed(attributes: Seq<Attribute>) -> Option<Seq<char>>
    decreases attributes.len(),
{
    if attributes.len() == 0 {
        None
    } else if byte_len(attributes[0].name) > 255 {
        Some(attributes[0].name)
    } else {
        first_misnamed(attributes.drop_first())
    }
}

/// A request with a group of attributes that the caller names.
pub open spec fn with_settings(
    request: Result<Request, ErrorView>,
    tag: GroupTag,
    attributes: Seq<Attribute>,
) -> Result<Request, ErrorView> {
    match request {
        Err(e) => Err(e),
        Ok(_) => match first_misnamed(attributes) {
            Some(name) => Err(decode_failure(name, length_message(byte_len(name), 255))),
            None => with_group(request, tag, attributes),
        },
    }
}

/// Puts the caller's attributes into a group of a request that has none but
/// operation attributes.
fn attach_settings(
    request: &mut IppRequestResponse,
    tag: GroupTag,
    attributes: &[(&str, IppValue)],
    Ghost(opened): Ghost<Seq<Attribute>>,
) -> (r: Result<(), Error>)
    requires
        tag != GroupTag::Operation,
        message_groups(*old(request)) == operation_group(opened),
    ensures
        same_envelope(*final(request), *old(request)),
        match first_misnamed(settings_of(attributes@)) {
            Some(name) => fails_with(
                r,
                decode_failure(name, length_message(byte_len(name), 255)),
            ),
            None => r is Ok && message_groups(*final(request)) == (if attributes@.len() == 0 {
                operation_group(opened)
            } else {
                operation_group(opened).push(
                    Group { tag: tag.code(), attributes: settings_of(attributes@) },
                )
            }),
        },
{
    let ghost all = settings_of(attributes@);
    let mut i: usize = 0;
    assert(all.skip(0) =~= all);
    while i < attributes.len()
        invariant
            i <= attributes.len(),
            all == settings_of(attributes@),
            tag != GroupTag::Operation,
            same_envelope(*request, *old(request)),
            first_misnamed(all) == first_misnamed(all.skip(i as int)),
            message_groups(*request) == (if i == 0 {
                operation_group(opened)
            } else {
                operation_group(opened).push(
                    Group { tag: tag.code(), attributes: all.take(i as int) },
                )
            }),
        decreases attributes.len() - i,
    {
        let (name, value) = (attributes[i].0, attributes[i].1.clone());
        proof {
            assert(all[i as int] == attribute(name@, value_content(value)));
            assert(all.skip(i as int)[0] == all[i as int]);
            assert(all.skip(i as int).drop_first() =~= all.skip(i + 1));
            assert(all.take(i + 1) =~= all.take(i as int).push(all[i as int]));
            if i == 0 {
                assert(all.take(1) =~= seq![all[0]]);
                lemma_group_opened(opened, tag.code(), all[0]);
            } else {
                lemma_group_extended(opened, tag.code(), all.take(i as int), all[i as int]);
            }
        }
        if let Err(e) = attach(request, tag, name, value) {
            return Err(e);
        }
        i += 1;
    }
    assert(all.skip(i as int) =~= Seq::empty());
    assert(all.take(i as int) =~= all);
    Ok(())
}

/// Keyword values of several events.
fn event_values(events: &[NotifyEvent]) -> (r: Result<Vec<IppValue>, Error>)
    ensures
        match first_overlong(event_words(viewed(events@))) {
            None => r matches Ok(values) && contents(values@) == keywords(
                event_words(viewed(events@)),
            ),
            Some(_) => fails_with(r, decode_failure("notify-events"@, "keyword too long"@)),
        },
{
    let ghost all = event_words(viewed(events@));
    let mut values: Vec<IppValue> = Vec::new();
    let mut i: usize = 0;
    assert(all.skip(0) =~= all);
    while i < events.len()
        invariant
            i <= events.len(),
            all == event_words(viewed(events@)),
            values.len() == i,
            forall|j: int|
                0 <= j < i ==> value_content(#[trigger] values@[j]) == Content::Keyword(all[j]),
            first_overlong(all) == first_overlong(all.skip(i as int)),
        decreases events.len() - i,
    {
        proof {
            assert(all.skip(i as int)[0] == events@[i as int]@.word());
            assert(all.skip(i as int).drop_first() =~= all.skip(i + 1));
        }
        match keyword_value(events[i].keyword()) {
            Ok(value) => values.push(value),
            Err(_) => {
                return Err(Error::decode("notify-events", "keyword too long"));
            },
        }
        i += 1;
    }
    assert(all.skip(i as int) =~= Seq::empty());
    assert(contents(values@) =~= keywords(all));
    Ok(values)
}

/// Integer values of several numbers.
fn number_values(ids: &[i32]) -> (r: Vec<IppValue>)
    ensures
        contents(r@) == numbers(ids@),
{
    let mut values: Vec<IppValue> = Vec::new();
    let mut i: usize = 0;
    while i < ids.len()
        invariant
            i <= ids.len(),
            values.len() == i,
            forall|j: int|
                0 <= j < i ==> value_content(#[trigger] values@[j]) == Content::Integer(ids@[j]),
        decreases ids.len() - i,
    {
        values.push(integer_value(ids[i]));
        i += 1;
    }
    assert(contents(values@) =~= numbers(ids@));
    values
}

/// Puts the lease that is asked for into a request, where one is.
fn attach_lease(request: &mut IppRequestResponse, lease: Option<Duration>) -> (r: Result<
    (),
    Error,
>)
    ensures
        r is Ok,
        same_envelope(*final(request), *old(request)),
        message_groups(*final(request)) == (match lease {
            Some(_) => with_added(
                message_groups(*old(request)),
                GroupTag::Subscription.code(),
                lease_attribute(lease)[0],
            ),
            None => message_groups(*old(request)),
        }),
{
    proof {
        lemma_short_names();
    }
    if let Some(lease) = lease {
        let seconds: i32 = #[verifier::truncate] (lease.as_secs() as i32);
        attach(
            request,
            GroupTag::Subscription,
            "notify-lease-duration",
            integer_value(seconds),
        )
    } else {
        Ok(())
    }
}

impl<'a> IppPrinter<'a> {
    /// The printer at `uri`, reached through `client`.
    pub(crate) fn new(client: &'a IppClient, uri: Uri) -> (r: IppPrinter<'a>)
        ensures
            r@ == (IppPrinterView { client: client@, uri }),
    {
        IppPrinter { client, uri }
    }

    /// The printer's URI.
    pub fn uri(&self) -> (r: &Uri)
        ensures
            *r == self@.uri,
    {
        &self.uri
    }

    /// A request that carries the printer URI and the requesting user, which is
    /// all that many operations need and every one of them needs.
    pub fn raw_request(&self, operation: Operation) -> (r: Result<IppRequestResponse, Error>)
        ensures
            asked(r) == printer_request(self@, operation, Seq::empty()),
    {
        broadcast use lemma_operation_added;

        let mut request = match begin(operation, self.uri.clone()) {
            Ok(request) => request,
            Err(e) => {
                return Err(e);
            },
        };
        proof {
            if let Ok(text) = address(self@.uri) {
                let opened = opening(Some(text)).push(requesting_user(self@.client.user));
                assert(opened + Seq::empty() =~= opened);
            }
        }
        match attach_user(&mut request, self.client.user()) {
            Ok(_) => Ok(request),
            Err(e) => Err(e),
        }
    }

    /// A request that names one number besides the printer and the user.
    fn numbered_request(&self, operation: Operation, name: &str, value: i32) -> (r: Result<
        IppRequestResponse,
        Error,
    >)
        requires
            byte_len(name@) <= 255,
        ensures
            asked(r) == printer_request(
                self@,
                operation,
                seq![attribute(name@, Content::Integer(value))],
            ),
    {
        broadcast use lemma_operation_added;

        let mut request = match self.raw_request(operation) {
            Ok(request) => request,
            Err(e) => {
                return Err(e);
            },
        };
        proof {
            if let Ok(text) = address(self@.uri) {
                let opened = opening(Some(text)).push(requesting_user(self@.client.user));
                let number = attribute(name@, Content::Integer(value));
                assert(opened + Seq::empty() =~= opened);
                assert(opened + seq![number] =~= opened.push(number));
            }
        }
        match attach(&mut request, GroupTag::Operation, name, integer_value(value)) {
            Ok(_) => Ok(request),
            Err(e) => Err(e),
        }
    }

    /// Builds the `Get-Printer-Attributes` request.
    pub fn attributes_request(&self) -> (r: Result<IppRequestResponse, Error>)
        ensures
            asked(r) == printer_asked(self@.uri),
    {
        self.client.printer_request(self.uri.clone())
    }

    /// Builds a request to do something to one job.
    pub fn job_action_request(&self, operation: Operation, id: JobId) -> (r: Result<
        IppRequestResponse,
        Error,
    >)
        ensures
            asked(r) == job_action_asked(self@.client.user, operation, self@.uri, id),
    {
        self.client.job_action_request(operation, self.uri.clone(), id)
    }

    /// Builds the `Purge-Jobs` request.
    pub fn purge_jobs_request(&self) -> (r: Result<IppRequestResponse, Error>)
        ensures
            asked(r) == purge_asked(self@.client.user, self@.uri),
    {
        self.client.purge_jobs_request(self.uri.clone())
    }

    /// Builds the `Validate-Job` request.
    pub fn validate_request(&self, document_format: &str) -> (r: Result<
        IppRequestResponse,
        Error,
    >)
        ensures
            asked(r) == validate_asked(self@.client.user, self@.uri, document_format@),
    {
        self.client.validate_job_request(self.uri.clone(), document_format)
    }

    /// Builds the `Identify-Printer` request.
    pub fn identify_request(&self, action: IdentifyAction) -> (r: Result<
        IppRequestResponse,
        Error,
    >)
        ensures
            asked(r) == identify_asked(self@.client.user, self@.uri, action),
    {
        self.client.identify_printer_request(self.uri.clone(), action)
    }

    /// Builds the `Create-Job` request.
    pub fn create_job_request(&self, job_name: &str) -> (r: Result<IppRequestResponse, Error>)
        ensures
            asked(r) == create_asked(self@.uri, job_name@),
    {
        self.client.create_job_request(self.uri.clone(), job_name)
    }

    /// Builds the `Get-Documents` request.
    pub fn documents_request(&self, job: JobId) -> (r: Result<IppRequestResponse, Error>)
        ensures
            asked(r) == printer_request(self@, Operation::GetDocuments, seq![job_id(job)]),
            r matches Ok(message) ==> is_plain_request(request_of(message), 0x0035, 5) && says(
                request_of(message),
                "job-id"@,
                Content::Integer(job),
            ),
    {
        proof {
            let more = seq![job_id(job)];
            a_handles_request_says_whose_it_is(self@, Operation::GetDocuments, more, 0);
            an_id_is_said_as_a_number(self@, Operation::GetDocuments, job);
            lemma_short_names();
        }
        self.numbered_request(Operation::GetDocuments, "job-id", job)
    }

    /// Builds the `Validate-Document` request.
    pub fn validate_document_request(&self, job: JobId, document_format: &str) -> (r: Result<
        IppRequestResponse,
        Error,
    >)
        ensures
            asked(r) == validate_document_asked(self@, job, document_format@),
    {
        broadcast use lemma_operation_added;

        proof {
            lemma_short_names();
        }
        let mut request = match self.numbered_request(Operation::ValidateDocument, "job-id", job) {
            Ok(request) => request,
            Err(e) => {
                return Err(e);
            },
        };
        let format = match mime_value(document_format) {
            Ok(format) => format,
            Err(_) => {
                return Err(Error::decode("document-format", "value too long"));
            },
        };
        proof {
            if let Ok(text) = address(self@.uri) {
                let opened = opening(Some(text)).push(requesting_user(self@.client.user));
                let last = attribute(
                    "document-format"@,
                    Content::MimeMediaType(document_format@),
                );
                assert(opened + seq![job_id(job), last] =~= (opened + seq![job_id(job)]).push(
                    last,
                ));
            }
        }
        match attach(&mut request, GroupTag::Operation, "document-format", format) {
            Ok(_) => Ok(request),
            Err(e) => Err(e),
        }
    }

    /// Builds the `Resubmit-Job` request.
    pub fn resubmit_job_request(&self, id: JobId) -> (r: Result<IppRequestResponse, Error>)
        ensures
            asked(r) == printer_request(self@, Operation::ResubmitJob, seq![job_id(id)]),
            r matches Ok(message) ==> is_plain_request(request_of(message), 0x003A, 5) && says(
                request_of(message),
                "job-id"@,
                Content::Integer(id),
            ),
    {
        proof {
            let more = seq![job_id(id)];
            a_handles_request_says_whose_it_is(self@, Operation::ResubmitJob, more, 0);
            an_id_is_said_as_a_number(self@, Operation::ResubmitJob, id);
            lemma_short_names();
        }
        self.numbered_request(Operation::ResubmitJob, "job-id", id)
    }

    /// Builds the `Set-Job-Attributes` request.
    ///
    /// Attributes are IPP names and values, as the printer advertises them:
    /// `job-priority` as an integer, `media` as a keyword.
    pub fn set_job_attributes_request(
        &self,
        id: JobId,
        attributes: &[(&str, IppValue)],
    ) -> (r: Result<IppRequestResponse, Error>)
        ensures
            asked(r) == with_settings(
                printer_request(self@, Operation::SetJobAttributes, seq![job_id(id)]),
                GroupTag::Job,
                settings_of(attributes@),
            ),
            r matches Ok(message) ==> {
                let request = request_of(message);
                &&& is_request(request, 0x0014, 5)
                &&& says(request, "job-id"@, Content::Integer(id))
                &&& attributes@.len() > 0 ==> request.groups.len() == 2 && request.groups[1] == (
                Group { tag: 0x02, attributes: settings_of(attributes@) })
            },
    {
        proof {
            let more = seq![job_id(id)];
            a_handles_request_says_whose_it_is(self@, Operation::SetJobAttributes, more, 0);
            an_id_is_said_as_a_number(self@, Operation::SetJobAttributes, id);
            lemma_short_names();
        }
        let mut request = match self.numbered_request(Operation::SetJobAttributes, "job-id", id) {
            Ok(request) => request,
            Err(e) => {
                return Err(e);
            },
        };
        let ghost opened = opening(Some(address(self@.uri)->Ok_0)).push(
            requesting_user(self@.client.user),
        ) + seq![job_id(id)];
        match attach_settings(&mut request, GroupTag::Job, attributes, Ghost(opened)) {
            Ok(_) => Ok(request),
            Err(e) => Err(e),
        }
    }

    /// Builds the `Set-Printer-Attributes` request.
    pub fn set_attributes_request(&self, attributes: &[(&str, IppValue)]) -> (r: Result<
        IppRequestResponse,
        Error,
    >)
        ensures
            asked(r) == with_settings(
                printer_request(self@, Operation::SetPrinterAttributes, Seq::empty()),
                GroupTag::Printer,
                settings_of(attributes@),
            ),
            r matches Ok(message) ==> {
                let request = request_of(message);
                &&& is_request(request, 0x0013, 4)
                &&& attributes@.len() > 0 ==> request.groups.len() == 2 && request.groups[1] == (
                Group { tag: 0x04, attributes: settings_of(attributes@) })
            },
    {
        proof {
            let more = Seq::empty();
            a_handles_request_says_whose_it_is(self@, Operation::SetPrinterAttributes, more, 0);
        }
        let mut request = match self.raw_request(Operation::SetPrinterAttributes) {
            Ok(request) => request,
            Err(e) => {
                return Err(e);
            },
        };
        let ghost opened = opening(Some(address(self@.uri)->Ok_0)).push(
            requesting_user(self@.client.user),
        ) + Seq::empty();
        match attach_settings(&mut request, GroupTag::Printer, attributes, Ghost(opened)) {
            Ok(_) => Ok(request),
            Err(e) => Err(e),
        }
    }

    /// Builds the `Create-Printer-Subscriptions` request.
    ///
    /// The lease is a request, not a guarantee: a server may grant less. `None`
    /// asks for no expiry, which many servers will not grant.
    pub fn subscribe_request(&self, events: &[NotifyEvent], lease: Option<Duration>) -> (r: Result<
        IppRequestResponse,
        Error,
    >)
        ensures
            asked(r) == subscribe_asked(self@, viewed(events@), lease),
    {
        broadcast use {lemma_group_opened, lemma_group_extended};

        proof {
            lemma_short_names();
            reveal_strlit("ippget");
            lemma_byte_len_bound("ippget"@);
        }
        let mut request = match self.raw_request(Operation::CreatePrinterSubscriptions) {
            Ok(request) => request,
            Err(e) => {
                return Err(e);
            },
        };
        let keywords = match event_values(events) {
            Ok(keywords) => keywords,
            Err(e) => {
                return Err(e);
            },
        };
        // `ippget` means the client collects; the alternative is the server
        // pushing to a URI, which needs somewhere to push to.
        let method = match keyword_value("ippget") {
            Ok(method) => method,
            Err(_) => {
                return Err(Error::decode("notify-pull-method", "keyword too long"));
            },
        };
        if let Err(e) = attach(
            &mut request,
            GroupTag::Subscription,
            "notify-events",
            array_value(keywords),
        ) {
            return Err(e);
        }
        if let Err(e) = attach(
            &mut request,
            GroupTag::Subscription,
            "notify-pull-method",
            method,
        ) {
            return Err(e);
        }
        proof {
            let first = attribute(
                "notify-events"@,
                Content::Array(crate::requests::keywords(event_words(viewed(events@)))),
            );
            let second = attribute("notify-pull-method"@, Content::Keyword("ippget"@));
            assert(seq![first].push(second) =~= seq![first, second]);
            match lease {
                Some(_) => {
                    assert(seq![first, second] + lease_attribute(lease) =~= seq![
                        first,
                        second,
                    ].push(lease_attribute(lease)[0]));
                },
                None => {
                    assert(seq![first, second] + lease_attribute(lease) =~= seq![first, second]);
                },
            }
        }
        match attach_lease(&mut request, lease) {
            Ok(_) => Ok(request),
            Err(e) => Err(e),
        }
    }

    /// Builds the `Get-Subscriptions` request.
    pub fn subscriptions_request(&self) -> (r: Result<IppRequestResponse, Error>)
        ensures
            asked(r) == printer_request(self@, Operation::GetSubscriptions, Seq::empty()),
            r matches Ok(message) ==> is_plain_request(request_of(message), 0x0019, 4),
    {
        proof {
            let more = Seq::empty();
            a_handles_request_says_whose_it_is(self@, Operation::GetSubscriptions, more, 0);
        }
        self.raw_request(Operation::GetSubscriptions)
    }

    /// Builds the `Get-Subscription-Attributes` request.
    pub fn subscription_request(&self, id: i32) -> (r: Result<IppRequestResponse, Error>)
        ensures
            asked(r) == printer_request(
                self@,
                Operation::GetSubscriptionAttributes,
                seq![subscription_id(id)],
            ),
            r matches Ok(message) ==> is_plain_request(request_of(message), 0x0018, 5) && says(
                request_of(message),
                "notify-subscription-id"@,
                Content::Integer(id),
            ),
    {
        proof {
            let operation = Operation::GetSubscriptionAttributes;
            a_handles_request_says_whose_it_is(self@, operation, seq![subscription_id(id)], 0);
            an_id_is_said_as_a_number(self@, operation, id);
            lemma_short_names();
        }
        self.numbered_request(
            Operation::GetSubscriptionAttributes,
            "notify-subscription-id",
            id,
        )
    }

    /// Builds the `Get-Notifications` request.
    pub fn notifications_request(&self, subscription_ids: &[i32]) -> (r: Result<
        IppRequestResponse,
        Error,
    >)
        ensures
            asked(r) == notifications_asked(self@, subscription_ids@),
    {
        broadcast use lemma_operation_added;

        proof {
            lemma_short_names();
        }
        let mut request = match self.raw_request(Operation::GetNotifications) {
            Ok(request) => request,
            Err(e) => {
                return Err(e);
            },
        };
        proof {
            let text = address(self@.uri)->Ok_0;
            let opened = opening(Some(text)).push(requesting_user(self@.client.user));
            let first = attribute(
                "notify-subscription-ids"@,
                Content::Array(numbers(subscription_ids@)),
            );
            let second = attribute("notify-wait"@, Content::Boolean(false));
            assert(opened + Seq::empty() =~= opened);
            assert(opened + seq![first, second] =~= opened.push(first).push(second));
        }
        let ids = number_values(subscription_ids);
        if let Err(e) = attach(
            &mut request,
            GroupTag::Operation,
            "notify-subscription-ids",
            array_value(ids),
        ) {
            return Err(e);
        }
        match attach(&mut request, GroupTag::Operation, "notify-wait", boolean_value(false)) {
            Ok(_) => Ok(request),
            Err(e) => Err(e),
        }
    }

    /// Builds the `Renew-Subscription` request.
    pub fn renew_subscription_request(&self, id: i32, lease: Option<Duration>) -> (r: Result<
        IppRequestResponse,
        Error,
    >)
        ensures
            asked(r) == with_group(
                printer_request(self@, Operation::RenewSubscription, seq![subscription_id(id)]),
                GroupTag::Subscription,
                lease_attribute(lease),
            ),
            r matches Ok(message) ==> is_request(request_of(message), 0x001A, 5) && says(
                request_of(message),
                "notify-subscription-id"@,
                Content::Integer(id),
            ),
    {
        broadcast use lemma_group_opened;

        proof {
            a_renewal_says_how_long(self@, id, lease);
            lemma_short_names();
        }
        let mut request = match self.numbered_request(
            Operation::RenewSubscription,
            "notify-subscription-id",
            id,
        ) {
            Ok(request) => request,
            Err(e) => {
                return Err(e);
            },
        };
        match attach_lease(&mut request, lease) {
            Ok(_) => Ok(request),
            Err(e) => Err(e),
        }
    }

    /// Builds the `Cancel-Subscription` request.
    pub fn cancel_subscription_request(&self, id: i32) -> (r: Result<IppRequestResponse, Error>)
        ensures
            asked(r) == printer_request(
                self@,
                Operation::CancelSubscription,
                seq![subscription_id(id)],
            ),
            r matches Ok(message) ==> is_plain_request(request_of(message), 0x001B, 5) && says(
                request_of(message),
                "notify-subscription-id"@,
                Content::Integer(id),
            ),
    {
        proof {
            let more = seq![subscription_id(id)];
            a_handles_request_says_whose_it_is(self@, Operation::CancelSubscription, more, 0);
            an_id_is_said_as_a_number(self@, Operation::CancelSubscription, id);
            lemma_short_names();
        }
        self.numbered_request(Operation::CancelSubscription, "notify-subscription-id", id)
    }

    /// The job with this id, open for documents.
    pub fn opened_job(&'a self, id: JobId) -> (r: IppJob<'a>)
        ensures
            r@ == (IppJobView { printer: self@, id, closed: false }),
    {
        IppJob { printer: self, id, closed: false }
    }
}

/// A job open for documents.
///
/// Dropping one without closing it leaves the job open on the printer, where
/// it will occupy the queue until the printer's own timeout expires. Close it,
/// or mark the final document as last.
pub struct IppJob<'a> {
    printer: &'a IppPrinter<'a>,
    id: JobId,
    closed: bool,
}

/// An [`IppJob`]: the printer it is on, its id, and whether it has been closed.
pub struct IppJobView {
    pub printer: IppPrinterView,
    pub id: JobId,
    pub closed: bool,
}

impl<'a> View for IppJob<'a> {
    type V = IppJobView;

    closed spec fn view(&self) -> IppJobView {
        IppJobView { printer: self.printer@, id: self.id, closed: self.closed }
    }
}

/// A job after the printer accepted a document, which closes it where it was
/// the last.
pub open spec fn with_document(job: IppJobView, last: bool) -> IppJobView {
    IppJobView { closed: job.closed || last, ..job }
}

/// The request that closes a job, where it is still open.
pub open spec fn close_asked(job: IppJobView) -> Result<Option<Request>, ErrorView> {
    if job.closed {
        Ok(None)
    } else {
        match job_action_asked(
            job.printer.client.user,
            Operation::CloseJob,
            job.printer.uri,
            job.id,
        ) {
            Ok(request) => Ok(Some(request)),
            Err(e) => Err(e),
        }
    }
}

/// The last document closes the job: nothing needs to be sent to close it
/// afterwards, whatever other documents were added before it or after.
pub proof fn the_last_document_closes_the_job(job: IppJobView, before: bool, after: bool)
    ensures
        close_asked(with_document(with_document(with_document(job, before), true), after)) == Ok::<
            Option<Request>,
            ErrorView,
        >(None),
{
}

impl<'a> IppJob<'a> {
    /// The job's id, as assigned by the printer.
    pub fn id(&self) -> (r: JobId)
        ensures
            r == self@.id,
    {
        self.id
    }

    /// Builds the `Send-Document` request that adds a document to the job.
    ///
    /// Set `last` on the final document, which closes the job in the same
    /// request and saves a round trip over closing it afterwards.
    pub fn document_request(
        &self,
        payload: IppPayload,
        document_format: Option<&str>,
        last: bool,
    ) -> (r: Result<IppRequestResponse, Error>)
        ensures
            asked(r) == send_asked(
                self@.printer.client.user,
                self@.printer.uri,
                self@.id,
                payload_bytes(payload),
                document_format,
                last,
            ),
            r matches Ok(request) ==> message_payload(request) == payload,
    {
        self.printer.client.send_document_request(
            self.printer.uri.clone(),
            self.id,
            payload,
            document_format,
            last,
        )
    }

    /// Takes note that the printer accepted a document. The last one closes
    /// the job.
    pub fn document_added(&mut self, last: bool)
        ensures
            final(self)@ == with_document(old(self)@, last),
    {
        if last {
            self.closed = true;
        }
    }

    /// Builds the `Close-Job` request, so the printer stops waiting for
    /// documents and starts printing. There is none where the last document
    /// was added as such, since that closed the job.
    pub fn close_request(&self) -> (r: Result<Option<IppRequestResponse>, Error>)
        ensures
            match r {
                Ok(Some(message)) => close_asked(self@) == Ok::<Option<Request>, ErrorView>(
                    Some(request_of(message)),
                ),
                Ok(None) => close_asked(self@) == Ok::<Option<Request>, ErrorView>(None),
                Err(e) => close_asked(self@) == Err::<Option<Request>, ErrorView>(e@),
            },
    {
        if self.closed {
            return Ok(None);
        }
        match self.printer.job_action_request(Operation::CloseJob, self.id) {
            Ok(request) => Ok(Some(request)),
            Err(e) => Err(e),
        }
    }

    /// Builds the `Cancel-Job` request that removes the job from the printer.
    pub fn cancel_request(&self) -> (r: Result<IppRequestResponse, Error>)
        ensures
            asked(r) == job_action_asked(
                self@.printer.client.user,
                Operation::CancelJob,
                self@.printer.uri,
                self@.id,
            ),
    {
        self.printer.job_action_request(Operation::CancelJob, self.id)
    }
}

} // verus!
