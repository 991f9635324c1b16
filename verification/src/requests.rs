//! The requests a client makes of a daemon.

use vstd::prelude::*;
use ipp::payload::IppPayload;
use ipp::prelude::Uri;
use ipp::request::IppRequestResponse;
use ipp::value::IppValue;
use crate::client::{joined, printer_address, queue_uri, Client};
use crate::error::{
    decode_failure, fails_with, transport_caused, transport_failure, Error, ErrorView,
};
use crate::job::JobId;
use crate::lists::viewed;
use crate::operations::{
    bytes_payload, create_job, cups_get_printers, document_format, get_job_attributes, get_jobs,
    get_printer_attributes, job_id, print_job, purge_jobs, requesting_user, send_document,
    Operation,
};
use crate::text::{byte_len, lemma_byte_len_bound};
use crate::wire::{
    add_attribute, array_value, attribute, bare_request, boolean_value, contents, delimiter,
    integer_value, keyword_value, length_message, message_groups, message_payload, mime_value,
    name_value, named_attribute, new_request, opening, operation_group, overlong, parse_error_text,
    parse_uri, payload_bytes, request_of, same_envelope, set_code, text_or_empty, text_value,
    uri_canonical, uri_parsed, uri_refusal, uri_text, uri_value, uri_written, value_content,
    with_added, Attribute, Content, Group, GroupTag, Request,
};

verus! {

/// What came of making a request.
pub open spec fn asked(r: Result<IppRequestResponse, Error>) -> Result<Request, ErrorView> {
    match r {
        Ok(message) => Ok(request_of(message)),
        Err(e) => Err(e@),
    }
}

/// A request of nothing but operation attributes, with no document.
pub open spec fn plain_request(
    operation: Operation,
    attributes: Seq<Attribute>,
) -> Request {
    bare_request(operation.opcode(), attributes)
}

/// How a request names the printer at `uri`, or why it cannot.
pub open spec fn address(uri: Uri) -> Result<Seq<char>, ErrorView> {
    let text = uri_written(uri_canonical(uri));
    if byte_len(text) <= 1023 {
        Ok(text)
    } else {
        Err(transport_caused(length_message(byte_len(text), 1023)))
    }
}

/// A user name is too long to go on a request.
pub open spec fn user_too_long() -> ErrorView {
    decode_failure("requesting-user-name"@, "name too long"@)
}

/// Several keywords, as values.
pub open spec fn keywords(names: Seq<Seq<char>>) -> Seq<Content> {
    names.map_values(|name: Seq<char>| Content::Keyword(name))
}

/// The attributes a reply should carry.
pub open spec fn requested(names: Seq<Seq<char>>) -> Attribute {
    attribute("requested-attributes"@, Content::Array(keywords(names)))
}

/// The first of several texts that is over 255 bytes, if any is.
pub open spec fn first_overlong(names: Seq<Seq<char>>) -> Option<Seq<char>>
    decreases names.len(),
{
    if names.len() == 0 {
        None
    } else if byte_len(names[0]) > 255 {
        Some(names[0])
    } else {
        first_overlong(names.drop_first())
    }
}

/// An attribute added to a message of operation attributes joins them.
pub broadcast proof fn lemma_operation_added(attributes: Seq<Attribute>, added: Attribute)
    ensures
        #[trigger] with_added(
            operation_group(attributes),
            GroupTag::Operation.code(),
            added,
        ) == operation_group(attributes.push(added)),
{
    assert(with_added(operation_group(attributes), GroupTag::Operation.code(), added)
        =~= operation_group(attributes.push(added)));
}

/// An attribute of another group added to a message of operation attributes
/// opens that group behind them.
pub broadcast proof fn lemma_group_opened(attributes: Seq<Attribute>, tag: int, added: Attribute)
    requires
        tag != GroupTag::Operation.code(),
    ensures
        #[trigger] with_added(operation_group(attributes), tag, added) == operation_group(
            attributes,
        ).push(Group { tag, attributes: seq![added] }),
{
    let groups = operation_group(attributes);
    reveal_with_fuel(with_added, 2);
    assert(groups.drop_first() =~= Seq::empty());
    assert(with_added(groups, tag, added) =~= groups.push(Group { tag, attributes: seq![added] }));
}

/// An attribute added to a message of operation attributes and one other group
/// joins that group, where it has its tag.
pub broadcast proof fn lemma_group_extended(
    attributes: Seq<Attribute>,
    tag: int,
    more: Seq<Attribute>,
    added: Attribute,
)
    requires
        tag != GroupTag::Operation.code(),
    ensures
        #[trigger] with_added(
            operation_group(attributes).push(Group { tag, attributes: more }),
            tag,
            added,
        ) == operation_group(attributes).push(Group { tag, attributes: more.push(added) }),
{
    let groups = operation_group(attributes).push(Group { tag, attributes: more });
    reveal_with_fuel(with_added, 2);
    assert(groups.drop_first() =~= seq![Group { tag, attributes: more }]);
    assert(with_added(groups, tag, added) =~= operation_group(attributes).push(
        Group { tag, attributes: more.push(added) },
    ));
}

/// The names of the attributes that requests carry are short enough.
pub proof fn lemma_short_names()
    ensures
        byte_len("requested-attributes"@) <= 255,
        byte_len("which-jobs"@) <= 255,
        byte_len("my-jobs"@) <= 255,
        byte_len("requesting-user-name"@) <= 255,
        byte_len("job-id"@) <= 255,
        byte_len("document-format"@) <= 255,
        byte_len("identify-actions"@) <= 255,
        byte_len("message"@) <= 255,
        byte_len("job-printer-uri"@) <= 255,
        byte_len("ppd-device-id"@) <= 255,
        byte_len("ppd-make-and-model"@) <= 255,
        byte_len("ppd-make"@) <= 255,
        byte_len("notify-events"@) <= 255,
        byte_len("notify-pull-method"@) <= 255,
        byte_len("notify-lease-duration"@) <= 255,
        byte_len("notify-subscription-id"@) <= 255,
        byte_len("notify-subscription-ids"@) <= 255,
        byte_len("notify-wait"@) <= 255,
{
    reveal_strlit("requested-attributes");
    reveal_strlit("which-jobs");
    reveal_strlit("my-jobs");
    reveal_strlit("requesting-user-name");
    reveal_strlit("job-id");
    reveal_strlit("document-format");
    reveal_strlit("identify-actions");
    reveal_strlit("message");
    reveal_strlit("job-printer-uri");
    reveal_strlit("ppd-device-id");
    reveal_strlit("ppd-make-and-model");
    reveal_strlit("ppd-make");
    reveal_strlit("notify-events");
    reveal_strlit("notify-pull-method");
    reveal_strlit("notify-lease-duration");
    reveal_strlit("notify-subscription-id");
    reveal_strlit("notify-subscription-ids");
    reveal_strlit("notify-wait");
    lemma_byte_len_bound("requested-attributes"@);
    lemma_byte_len_bound("which-jobs"@);
    lemma_byte_len_bound("my-jobs"@);
    lemma_byte_len_bound("requesting-user-name"@);
    lemma_byte_len_bound("job-id"@);
    lemma_byte_len_bound("document-format"@);
    lemma_byte_len_bound("identify-actions"@);
    lemma_byte_len_bound("message"@);
    lemma_byte_len_bound("job-printer-uri"@);
    lemma_byte_len_bound("ppd-device-id"@);
    lemma_byte_len_bound("ppd-make-and-model"@);
    lemma_byte_len_bound("ppd-make"@);
    lemma_byte_len_bound("notify-events"@);
    lemma_byte_len_bound("notify-pull-method"@);
    lemma_byte_len_bound("notify-lease-duration"@);
    lemma_byte_len_bound("notify-subscription-id"@);
    lemma_byte_len_bound("notify-subscription-ids"@);
    lemma_byte_len_bound("notify-wait"@);
}

/// Names that take at most 63 characters are short enough to be keywords.
pub proof fn lemma_short_keywords(names: Seq<Seq<char>>)
    requires
        forall|i: int| 0 <= i < names.len() ==> (#[trigger] names[i]).len() <= 63,
    ensures
        first_overlong(names) is None,
    decreases names.len(),
{
    if names.len() > 0 {
        lemma_byte_len_bound(names[0]);
        let rest = names.drop_first();
        assert forall|i: int| 0 <= i < rest.len() implies (#[trigger] rest[i]).len() <= 63 by {
            assert(rest[i] == names[i + 1]);
        }
        lemma_short_keywords(rest);
    }
}

/// Puts one attribute into a group of a request.
pub(crate) fn attach(
    request: &mut IppRequestResponse,
    tag: GroupTag,
    name: &str,
    value: IppValue,
) -> (r: Result<(), Error>)
    ensures
        same_envelope(*final(request), *old(request)),
        byte_len(name@) <= 255 ==> r is Ok && message_groups(*final(request)) == with_added(
            message_groups(*old(request)),
            tag.code(),
            attribute(name@, value_content(value)),
        ),
        byte_len(name@) > 255 ==> message_groups(*final(request)) == message_groups(*old(request))
            && fails_with(r, decode_failure(name@, length_message(byte_len(name@), 255))),
{
    match named_attribute(name, value) {
        Ok(a) => {
            add_attribute(request, delimiter(tag), a);
            Ok(())
        },
        Err(e) => Err(Error::decode(name, parse_error_text(&e).as_str())),
    }
}

/// Puts the user a request is made for into it.
pub(crate) fn attach_user(request: &mut IppRequestResponse, user: &str) -> (r: Result<(), Error>)
    ensures
        same_envelope(*final(request), *old(request)),
        byte_len(user@) <= 255 ==> r is Ok && message_groups(*final(request)) == with_added(
            message_groups(*old(request)),
            GroupTag::Operation.code(),
            requesting_user(user@),
        ),
        byte_len(user@) > 255 ==> fails_with(r, user_too_long()),
{
    proof {
        lemma_short_names();
    }
    match name_value(user) {
        Ok(value) => attach(request, GroupTag::Operation, "requesting-user-name", value),
        Err(_) => Err(Error::decode("requesting-user-name", "name too long")),
    }
}

/// The beginning of a request to the printer at `uri`.
pub(crate) fn begin(operation: Operation, uri: Uri) -> (r: Result<IppRequestResponse, Error>)
    ensures
        asked(r) == (match address(uri) {
            Ok(text) => Ok(plain_request(operation, opening(Some(text)))),
            Err(e) => Err(e),
        }),
{
    match new_request(Some(uri)) {
        Ok(message) => {
            let mut request = message;
            set_code(&mut request, operation.code());
            Ok(request)
        },
        Err(e) => Err(Error::unbuildable(e)),
    }
}

/// The beginning of a request that is addressed to no printer.
pub(crate) fn begin_unaddressed(operation: Operation) -> (r: Result<IppRequestResponse, Error>)
    ensures
        asked(r) == Ok::<Request, ErrorView>(plain_request(operation, opening(None))),
{
    match new_request(None) {
        Ok(message) => {
            let mut request = message;
            set_code(&mut request, operation.code());
            Ok(request)
        },
        Err(e) => Err(Error::unbuildable(e)),
    }
}

/// Keyword values of several texts, where each is short enough; the first
/// that is not is named in the error.
fn keyword_values(names: &[&str]) -> (r: Result<Vec<IppValue>, Error>)
    ensures
        match first_overlong(viewed(names@)) {
            None => r matches Ok(values) && contents(values@) == keywords(viewed(names@)),
            Some(name) => fails_with(r, decode_failure(name, "keyword too long"@)),
        },
{
    let ghost all = viewed(names@);
    let mut wanted: Vec<IppValue> = Vec::new();
    let mut i: usize = 0;
    assert(all.skip(0) =~= all);
    while i < names.len()
        invariant
            i <= names.len(),
            all == viewed(names@),
            wanted.len() == i,
            forall|j: int|
                0 <= j < i ==> value_content(#[trigger] wanted@[j]) == Content::Keyword(all[j]),
            first_overlong(all) == first_overlong(all.skip(i as int)),
        decreases names.len() - i,
    {
        proof {
            assert(all.skip(i as int)[0] == names@[i as int]@);
            assert(all.skip(i as int).drop_first() =~= all.skip(i + 1));
        }
        match keyword_value(names[i]) {
            Ok(value) => wanted.push(value),
            Err(_) => {
                return Err(Error::decode(names[i], "keyword too long"));
            },
        }
        i += 1;
    }
    assert(all.skip(i as int) =~= Seq::empty());
    assert(contents(wanted@) =~= keywords(all));
    Ok(wanted)
}

impl<const DETAILED: bool> Client<DETAILED> {
    /// Adds `requested-attributes` to an operation group. Without it CUPS
    /// answers with its own idea of a default set, which omits most of what
    /// the decoders need.
    pub fn request_attributes(request: &mut IppRequestResponse, names: &[&str]) -> (r: Result<
        (),
        Error,
    >)
        ensures
            same_envelope(*final(request), *old(request)),
            match first_overlong(viewed(names@)) {
                None => r is Ok && message_groups(*final(request)) == with_added(
                    message_groups(*old(request)),
                    GroupTag::Operation.code(),
                    requested(viewed(names@)),
                ),
                Some(name) => message_groups(*final(request)) == message_groups(*old(request))
                    && fails_with(r, decode_failure(name, "keyword too long"@)),
            },
    {
        proof {
            lemma_short_names();
        }
        match keyword_values(names) {
            Ok(wanted) => attach(
                request,
                GroupTag::Operation,
                "requested-attributes",
                array_value(wanted),
            ),
            Err(e) => Err(e),
        }
    }
}

/// The attributes a printer is decoded from. Without this list,
/// `CUPS-Get-Printers` returns every attribute CUPS knows about the queue.
pub open spec fn printer_attributes() -> Seq<Seq<char>> {
    seq![
        "printer-name"@,
        "printer-uri-supported"@,
        "device-uri"@,
        "printer-info"@,
        "printer-location"@,
        "printer-state"@,
        "printer-state-reasons"@,
        "printer-is-accepting-jobs"@,
        "marker-names"@,
        "marker-levels"@,
        "marker-types"@,
        "marker-colors"@,
        "marker-low-levels"@,
        "media-supported"@,
        "media-default"@,
        "sides-supported"@,
        "sides-default"@,
        "print-color-mode-supported"@,
        "print-color-mode-default"@,
        "print-quality-supported"@,
        "print-quality-default"@,
        "output-bin-supported"@,
        "output-bin-default"@,
    ]
}

/// The attributes a job is decoded from. CUPS returns only `job-id` without this list.
pub open spec fn job_attributes() -> Seq<Seq<char>> {
    seq![
        "job-id"@,
        "job-state"@,
        "job-state-reasons"@,
        "job-name"@,
        "job-printer-uri"@,
        "job-originating-user-name"@,
        "time-at-creation"@,
        "time-at-completed"@,
        "job-impressions"@,
        "job-impressions-completed"@,
    ]
}

/// The attributes a class is decoded from.
pub open spec fn class_attributes() -> Seq<Seq<char>> {
    seq![
        "printer-name"@,
        "member-names"@,
    ]
}

/// The attributes a driver is decoded from.
pub open spec fn ppd_attributes() -> Seq<Seq<char>> {
    seq![
        "ppd-name"@,
        "ppd-make-and-model"@,
        "ppd-device-id"@,
    ]
}

/// The attributes a printer is decoded from.
fn printer_attribute_names() -> (r: Vec<&'static str>)
    ensures
        viewed(r@) == printer_attributes(),
        first_overlong(printer_attributes()) is None,
{
    let names: Vec<&'static str> = vec![
        "printer-name",
        "printer-uri-supported",
        "device-uri",
        "printer-info",
        "printer-location",
        "printer-state",
        "printer-state-reasons",
        "printer-is-accepting-jobs",
        "marker-names",
        "marker-levels",
        "marker-types",
        "marker-colors",
        "marker-low-levels",
        "media-supported",
        "media-default",
        "sides-supported",
        "sides-default",
        "print-color-mode-supported",
        "print-color-mode-default",
        "print-quality-supported",
        "print-quality-default",
        "output-bin-supported",
        "output-bin-default",
    ];
    proof {
        reveal_strlit("printer-name");
        reveal_strlit("printer-uri-supported");
        reveal_strlit("device-uri");
        reveal_strlit("printer-info");
        reveal_strlit("printer-location");
        reveal_strlit("printer-state");
        reveal_strlit("printer-state-reasons");
        reveal_strlit("printer-is-accepting-jobs");
        reveal_strlit("marker-names");
        reveal_strlit("marker-levels");
        reveal_strlit("marker-types");
        reveal_strlit("marker-colors");
        reveal_strlit("marker-low-levels");
        reveal_strlit("media-supported");
        reveal_strlit("media-default");
        reveal_strlit("sides-supported");
        reveal_strlit("sides-default");
        reveal_strlit("print-color-mode-supported");
        reveal_strlit("print-color-mode-default");
        reveal_strlit("print-quality-supported");
        reveal_strlit("print-quality-default");
        reveal_strlit("output-bin-supported");
        reveal_strlit("output-bin-default");
        assert(viewed(names@) =~= printer_attributes());
        lemma_short_keywords(printer_attributes());
    }
    names
}

/// The attributes a job is decoded from.
fn job_attribute_names() -> (r: Vec<&'static str>)
    ensures
        viewed(r@) == job_attributes(),
        first_overlong(job_attributes()) is None,
{
    let names: Vec<&'static str> = vec![
        "job-id",
        "job-state",
        "job-state-reasons",
        "job-name",
        "job-printer-uri",
        "job-originating-user-name",
        "time-at-creation",
        "time-at-completed",
        "job-impressions",
        "job-impressions-completed",
    ];
    proof {
        reveal_strlit("job-id");
        reveal_strlit("job-state");
        reveal_strlit("job-state-reasons");
        reveal_strlit("job-name");
        reveal_strlit("job-printer-uri");
        reveal_strlit("job-originating-user-name");
        reveal_strlit("time-at-creation");
        reveal_strlit("time-at-completed");
        reveal_strlit("job-impressions");
        reveal_strlit("job-impressions-completed");
        assert(viewed(names@) =~= job_attributes());
        lemma_short_keywords(job_attributes());
    }
    names
}

/// The attributes a class is decoded from.
fn class_attribute_names() -> (r: Vec<&'static str>)
    ensures
        viewed(r@) == class_attributes(),
        first_overlong(class_attributes()) is None,
{
    let names: Vec<&'static str> = vec![
        "printer-name",
        "member-names",
    ];
    proof {
        reveal_strlit("printer-name");
        reveal_strlit("member-names");
        assert(viewed(names@) =~= class_attributes());
        lemma_short_keywords(class_attributes());
    }
    names
}

/// The attributes a driver is decoded from.
fn ppd_attribute_names() -> (r: Vec<&'static str>)
    ensures
        viewed(r@) == ppd_attributes(),
        first_overlong(ppd_attributes()) is None,
{
    let names: Vec<&'static str> = vec![
        "ppd-name",
        "ppd-make-and-model",
        "ppd-device-id",
    ];
    proof {
        reveal_strlit("ppd-name");
        reveal_strlit("ppd-make-and-model");
        reveal_strlit("ppd-device-id");
        assert(viewed(names@) =~= ppd_attributes());
        lemma_short_keywords(ppd_attributes());
    }
    names
}

/// How a printer should announce itself.
#[derive(Debug, PartialEq, Eq)]
pub enum IdentifyAction {
    /// Flash a light.
    Flash,
    /// Make a noise.
    Sound,
    /// Show a message on the printer's own display.
    Display(String),
}

impl Clone for IdentifyAction {
    fn clone(&self) -> (r: IdentifyAction)
        ensures
            r.word() == self.word(),
            r.message() == self.message(),
    {
        match self {
            IdentifyAction::Flash => IdentifyAction::Flash,
            IdentifyAction::Sound => IdentifyAction::Sound,
            IdentifyAction::Display(text) => IdentifyAction::Display(text.clone()),
        }
    }
}

impl IdentifyAction {
    /// The keyword for this action.
    pub open spec fn word(self) -> Seq<char> {
        match self {
            IdentifyAction::Flash => "flash"@,
            IdentifyAction::Sound => "sound"@,
            IdentifyAction::Display(_) => "display"@,
        }
    }

    /// The message that goes with this action.
    pub open spec fn message(self) -> Seq<Attribute> {
        match self {
            IdentifyAction::Display(text) => seq![
                attribute("message"@, Content::TextWithoutLanguage(text@)),
            ],
            _ => Seq::empty(),
        }
    }

    /// The IPP keyword for this action.
    pub fn keyword(&self) -> (r: &'static str)
        ensures
            r@ == self.word(),
    {
        match self {
            IdentifyAction::Flash => "flash",
            IdentifyAction::Sound => "sound",
            IdentifyAction::Display(_) => "display",
        }
    }
}

/// How to narrow a driver search. cupsd does the matching.
#[derive(Debug, Clone, Copy, PartialEq, Eq)]
pub enum PpdFilter<'a> {
    /// An IEEE-1284 device id, as reported by device discovery. The most
    /// precise filter, and the one worth trying first.
    DeviceId(&'a str),
    /// A description such as `HP OfficeJet Pro 8210`.
    MakeAndModel(&'a str),
    /// A manufacturer. Rarely narrow enough to be useful on its own.
    Make(&'a str),
}

impl<'a> PpdFilter<'a> {
    /// The attribute a filter is put in.
    pub open spec fn name(self) -> Seq<char> {
        match self {
            PpdFilter::DeviceId(_) => "ppd-device-id"@,
            PpdFilter::MakeAndModel(_) => "ppd-make-and-model"@,
            PpdFilter::Make(_) => "ppd-make"@,
        }
    }

    /// What is searched for.
    pub open spec fn value(self) -> Seq<char> {
        match self {
            PpdFilter::DeviceId(v) => v@,
            PpdFilter::MakeAndModel(v) => v@,
            PpdFilter::Make(v) => v@,
        }
    }

    /// The attribute a filter is put in, and its value.
    pub fn as_attribute(self) -> (r: (&'static str, &'a str))
        ensures
            r.0@ == self.name(),
            r.1@ == self.value(),
    {
        match self {
            PpdFilter::DeviceId(v) => ("ppd-device-id", v),
            PpdFilter::MakeAndModel(v) => ("ppd-make-and-model", v),
            PpdFilter::Make(v) => ("ppd-make", v),
        }
    }
}

/// Which jobs a listing should return.
#[derive(Debug, Clone, Copy, PartialEq, Eq)]
pub enum WhichJobs {
    /// Jobs still in the queue.
    NotCompleted,
    /// Jobs that have finished, been cancelled, or aborted.
    Completed,
}

impl WhichJobs {
    /// The keyword for this choice.
    pub open spec fn word(self) -> Seq<char> {
        match self {
            WhichJobs::NotCompleted => "not-completed"@,
            WhichJobs::Completed => "completed"@,
        }
    }

    /// The IPP keyword for this choice.
    pub fn as_keyword(&self) -> (r: &'static str)
        ensures
            r@ == self.word(),
    {
        match self {
            WhichJobs::NotCompleted => "not-completed",
            WhichJobs::Completed => "completed",
        }
    }
}

/// The request for every queue.
pub open spec fn printers_asked() -> Request {
    plain_request(
        Operation::CupsGetPrinters,
        opening(None).push(requested(printer_attributes())),
    )
}

/// The request for the server's default queue.
pub open spec fn default_asked() -> Request {
    plain_request(
        Operation::CupsGetDefault,
        opening(None).push(
            attribute("requested-attributes"@, Content::Keyword("printer-name"@)),
        ),
    )
}

/// The request for every class.
pub open spec fn classes_asked() -> Request {
    plain_request(
        Operation::CupsGetClasses,
        opening(None).push(requested(class_attributes())),
    )
}

/// The request for the drivers that match a filter, or for all of them.
pub open spec fn ppds_asked(filter: Option<PpdFilter>) -> Result<Request, ErrorView> {
    match filter {
        None => Ok(
            plain_request(
                Operation::CupsGetPPDs,
                opening(None).push(requested(ppd_attributes())),
            ),
        ),
        Some(filter) => if byte_len(filter.value()) > 1023 {
            Err(decode_failure(filter.name(), "filter value too long"@))
        } else {
            Ok(
                plain_request(
                    Operation::CupsGetPPDs,
                    opening(None).push(
                        attribute(filter.name(), Content::TextWithoutLanguage(filter.value())),
                    ).push(requested(ppd_attributes())),
                ),
            )
        },
    }
}

/// The request for the user's jobs on every queue.
pub open spec fn jobs_asked(base: Seq<char>, user: Seq<char>, which: WhichJobs) -> Result<
    Request,
    ErrorView,
> {
    match uri_parsed(base) {
        None => Err(transport_failure("bad CUPS uri: "@ + uri_refusal(base))),
        Some(root) => match overlong(seq![(uri_written(root), 1023), (user, 255)]) {
            Some(refusal) => Err(transport_caused(refusal)),
            None => Ok(
                plain_request(
                    Operation::GetJobs,
                    opening(Some(uri_written(root))).push(requesting_user(user)).push(
                        requested(job_attributes()),
                    ).push(attribute("which-jobs"@, Content::Keyword(which.word()))).push(
                        attribute("my-jobs"@, Content::Boolean(true)),
                    ),
                ),
            ),
        },
    }
}

/// The request for one job.
pub open spec fn job_asked(
    base: Seq<char>,
    user: Seq<char>,
    printer: Seq<char>,
    id: JobId,
) -> Result<Request, ErrorView> {
    match queue_uri(base, printer) {
        Err(e) => Err(e),
        Ok(uri) => match overlong(seq![(uri_written(uri), 1023), (user, 255)]) {
            Some(refusal) => Err(transport_caused(refusal)),
            None => Ok(
                plain_request(
                    Operation::GetJobAttributes,
                    opening(Some(uri_written(uri))).push(job_id(id)).push(
                        requesting_user(user),
                    ).push(requested(job_attributes())),
                ),
            ),
        },
    }
}

/// A request to do something to one job.
pub open spec fn job_action_asked(
    user: Seq<char>,
    operation: Operation,
    uri: Uri,
    id: JobId,
) -> Result<Request, ErrorView> {
    match address(uri) {
        Err(e) => Err(e),
        Ok(text) => if byte_len(user) > 255 {
            Err(user_too_long())
        } else {
            Ok(
                plain_request(
                    operation,
                    opening(Some(text)).push(job_id(id)).push(requesting_user(user)),
                ),
            )
        },
    }
}

/// The request to move a job to another queue. The destination goes in the job
/// group, not the operation group: it is an attribute of the job being changed,
/// not of the request.
pub open spec fn move_asked(
    base: Seq<char>,
    user: Seq<char>,
    printer: Seq<char>,
    id: JobId,
    destination: Seq<char>,
) -> Result<Request, ErrorView> {
    match queue_uri(base, printer) {
        Err(e) => Err(e),
        Ok(uri) => match job_action_asked(user, Operation::CupsMoveJob, uri, id) {
            Err(e) => Err(e),
            Ok(request) => match queue_uri(base, destination) {
                Err(e) => Err(e),
                Ok(target) => if byte_len(uri_written(target)) > 1023 {
                    Err(decode_failure("job-printer-uri"@, "uri too long"@))
                } else {
                    Ok(
                        Request {
                            groups: request.groups.push(
                                Group {
                                    tag: GroupTag::Job.code(),
                                    attributes: seq![
                                        attribute(
                                            "job-printer-uri"@,
                                            Content::Uri(uri_written(target)),
                                        ),
                                    ],
                                },
                            ),
                            ..request
                        },
                    )
                },
            },
        },
    }
}

/// The request that makes a printer announce itself.
pub open spec fn identify_asked(user: Seq<char>, uri: Uri, action: IdentifyAction) -> Result<
    Request,
    ErrorView,
> {
    match address(uri) {
        Err(e) => Err(e),
        Ok(text) => if byte_len(user) > 255 {
            Err(user_too_long())
        } else if action matches IdentifyAction::Display(message) && byte_len(message@) > 1023 {
            Err(decode_failure("message"@, "message too long"@))
        } else {
            Ok(
                plain_request(
                    Operation::IdentifyPrinter,
                    opening(Some(text)).push(requesting_user(user)).push(
                        attribute("identify-actions"@, Content::Keyword(action.word())),
                    ) + action.message(),
                ),
            )
        },
    }
}

/// The question whether a job with a document in this format would be accepted.
pub open spec fn validate_asked(user: Seq<char>, uri: Uri, format: Seq<char>) -> Result<
    Request,
    ErrorView,
> {
    match address(uri) {
        Err(e) => Err(e),
        Ok(text) => if byte_len(user) > 255 {
            Err(user_too_long())
        } else if byte_len(format) > 255 {
            Err(decode_failure("document-format"@, "value too long"@))
        } else {
            Ok(
                plain_request(
                    Operation::ValidateJob,
                    opening(Some(text)).push(requesting_user(user)).push(
                        attribute("document-format"@, Content::MimeMediaType(format)),
                    ),
                ),
            )
        },
    }
}

/// The request for what the printer at `uri` reports about itself.
pub open spec fn printer_asked(uri: Uri) -> Result<Request, ErrorView> {
    match overlong(seq![(uri_written(uri), 1023)]) {
        Some(refusal) => Err(transport_caused(refusal)),
        None => Ok(
            plain_request(Operation::GetPrinterAttributes, opening(Some(uri_written(uri)))),
        ),
    }
}

/// The request to remove every job from the printer at `uri`.
pub open spec fn purge_asked(user: Seq<char>, uri: Uri) -> Result<Request, ErrorView> {
    match overlong(seq![(uri_written(uri), 1023), (user, 255)]) {
        Some(refusal) => Err(transport_caused(refusal)),
        None => Ok(
            plain_request(
                Operation::PurgeJobs,
                opening(Some(uri_written(uri))).push(requesting_user(user)),
            ),
        ),
    }
}

/// The request that opens a job on the printer at `uri`.
pub open spec fn create_asked(uri: Uri, job_name: Seq<char>) -> Result<Request, ErrorView> {
    match overlong(seq![(uri_written(uri), 1023), (job_name, 255)]) {
        Some(refusal) => Err(transport_caused(refusal)),
        None => Ok(
            plain_request(
                Operation::CreateJob,
                opening(Some(uri_written(uri))).push(
                    attribute("job-name"@, Content::NameWithoutLanguage(job_name)),
                ),
            ),
        ),
    }
}

/// The request that adds a document to a job on the printer at `uri`.
pub open spec fn send_asked(
    user: Seq<char>,
    uri: Uri,
    id: JobId,
    document: Seq<u8>,
    format: Option<&str>,
    last: bool,
) -> Result<Request, ErrorView> {
    match overlong(seq![(uri_written(uri), 1023), (user, 255), (text_or_empty(format), 255)]) {
        Some(refusal) => Err(transport_caused(refusal)),
        None => Ok(
            Request {
                document,
                ..plain_request(
                    Operation::SendDocument,
                    opening(Some(uri_written(uri))).push(job_id(id)).push(
                        attribute("last-document"@, Content::Boolean(last)),
                    ).push(requesting_user(user)) + document_format(format),
                )
            },
        ),
    }
}

/// The request that prints a document held in memory on a queue.
pub open spec fn print_asked(
    base: Seq<char>,
    user: Seq<char>,
    printer: Seq<char>,
    document: Seq<u8>,
    format: Seq<char>,
    job_name: Seq<char>,
) -> Result<Request, ErrorView> {
    match queue_uri(base, printer) {
        Err(e) => Err(e),
        Ok(uri) => match overlong(
            seq![(uri_written(uri), 1023), (user, 255), (job_name, 255), (format, 255)],
        ) {
            Some(refusal) => Err(transport_caused(refusal)),
            None => Ok(
                Request {
                    document,
                    ..plain_request(
                        Operation::PrintJob,
                        opening(Some(uri_written(uri))).push(requesting_user(user)).push(
                            attribute("document-format"@, Content::MimeMediaType(format)),
                        ).push(attribute("job-name"@, Content::NameWithoutLanguage(job_name))),
                    )
                },
            ),
        },
    }
}

impl<const DETAILED: bool> Client<DETAILED> {
    /// Builds the `CUPS-Get-Printers` request.
    pub fn printers_request(&self) -> (r: Result<IppRequestResponse, Error>)
        ensures
            asked(r) == Ok::<Request, ErrorView>(printers_asked()),
    {
        broadcast use lemma_operation_added;

        let mut request = cups_get_printers();
        let names = printer_attribute_names();
        match Self::request_attributes(&mut request, names.as_slice()) {
            Ok(_) => Ok(request),
            Err(e) => Err(e),
        }
    }

    /// Builds the `CUPS-Get-Default` request.
    pub fn default_request(&self) -> (r: Result<IppRequestResponse, Error>)
        ensures
            asked(r) == Ok::<Request, ErrorView>(default_asked()),
    {
        broadcast use lemma_operation_added;

        proof {
            lemma_short_names();
            reveal_strlit("printer-name");
            lemma_byte_len_bound("printer-name"@);
        }
        let mut request = match begin_unaddressed(Operation::CupsGetDefault) {
            Ok(request) => request,
            Err(e) => {
                return Err(e);
            },
        };
        let wanted = match keyword_value("printer-name") {
            Ok(wanted) => wanted,
            Err(e) => {
                return Err(Error::unbuildable(e));
            },
        };
        match attach(&mut request, GroupTag::Operation, "requested-attributes", wanted) {
            Ok(_) => Ok(request),
            Err(e) => Err(e),
        }
    }

    /// Builds the `CUPS-Get-Classes` request.
    pub fn classes_request(&self) -> (r: Result<IppRequestResponse, Error>)
        ensures
            asked(r) == Ok::<Request, ErrorView>(classes_asked()),
    {
        broadcast use lemma_operation_added;

        let mut request = match begin_unaddressed(Operation::CupsGetClasses) {
            Ok(request) => request,
            Err(e) => {
                return Err(e);
            },
        };
        let names = class_attribute_names();
        match Self::request_attributes(&mut request, names.as_slice()) {
            Ok(_) => Ok(request),
            Err(e) => Err(e),
        }
    }

    /// Builds the `CUPS-Get-PPDs` request.
    ///
    /// Filtering is done by cupsd, not here.
    pub fn ppds_request(&self, filter: Option<PpdFilter<'_>>) -> (r: Result<
        IppRequestResponse,
        Error,
    >)
        ensures
            asked(r) == ppds_asked(filter),
    {
        broadcast use lemma_operation_added;

        proof {
            lemma_short_names();
        }
        let mut request = match begin_unaddressed(Operation::CupsGetPPDs) {
            Ok(request) => request,
            Err(e) => {
                return Err(e);
            },
        };
        if let Some(filter) = filter {
            let (name, text) = filter.as_attribute();
            let value = match text_value(text) {
                Ok(value) => value,
                Err(_) => {
                    return Err(Error::decode(name, "filter value too long"));
                },
            };
            if let Err(e) = attach(&mut request, GroupTag::Operation, name, value) {
                return Err(e);
            }
        }
        let names = ppd_attribute_names();
        match Self::request_attributes(&mut request, names.as_slice()) {
            Ok(_) => Ok(request),
            Err(e) => Err(e),
        }
    }

    /// Builds the `Get-Jobs` request.
    pub fn jobs_request(&self, which: WhichJobs) -> (r: Result<IppRequestResponse, Error>)
        ensures
            asked(r) == jobs_asked(self@.base, self@.user, which),
    {
        broadcast use lemma_operation_added;

        proof {
            lemma_short_names();
            reveal_strlit("not-completed");
            reveal_strlit("completed");
            lemma_byte_len_bound("not-completed"@);
            lemma_byte_len_bound("completed"@);
        }
        let root = match parse_uri(self.base()) {
            Ok(root) => root,
            Err(reason) => {
                let message = joined("bad CUPS uri: ", reason.as_str(), "", "");
                proof {
                    reveal_strlit("");
                    assert(message@ =~= "bad CUPS uri: "@ + reason@);
                }
                return Err(Error::transport_msg(message));
            },
        };
        let mut request = match get_jobs(root, self.user()) {
            Ok(request) => request,
            Err(e) => {
                return Err(Error::unbuildable(e));
            },
        };
        let names = job_attribute_names();
        if let Err(e) = Self::request_attributes(&mut request, names.as_slice()) {
            return Err(e);
        }
        let chosen = match keyword_value(which.as_keyword()) {
            Ok(chosen) => chosen,
            Err(_) => {
                return Err(Error::decode("which-jobs", "keyword too long"));
            },
        };
        if let Err(e) = attach(&mut request, GroupTag::Operation, "which-jobs", chosen) {
            return Err(e);
        }
        match attach(&mut request, GroupTag::Operation, "my-jobs", boolean_value(true)) {
            Ok(_) => Ok(request),
            Err(e) => Err(e),
        }
    }

    /// Builds the `Get-Job-Attributes` request.
    pub fn job_request(&self, printer: &str, id: JobId) -> (r: Result<IppRequestResponse, Error>)
        ensures
            asked(r) == job_asked(self@.base, self@.user, printer@, id),
    {
        broadcast use lemma_operation_added;

        let uri = match self.printer_uri(printer) {
            Ok(uri) => uri,
            Err(e) => {
                return Err(e);
            },
        };
        let mut request = match get_job_attributes(uri, id, self.user()) {
            Ok(request) => request,
            Err(e) => {
                return Err(Error::unbuildable(e));
            },
        };
        let names = job_attribute_names();
        match Self::request_attributes(&mut request, names.as_slice()) {
            Ok(_) => Ok(request),
            Err(e) => Err(e),
        }
    }

    /// Builds a request to do something to one job: cancel it, hold it,
    /// release it and so on.
    ///
    /// A queue's URI addresses a CUPS printer, not a CUPS *class*. A job queued
    /// against a class decodes with the member printer that actually picked it
    /// up, so an action on a class job has to be given the class URI.
    pub fn job_action_request(&self, operation: Operation, uri: Uri, id: JobId) -> (r: Result<
        IppRequestResponse,
        Error,
    >)
        ensures
            asked(r) == job_action_asked(self@.user, operation, uri, id),
    {
        broadcast use lemma_operation_added;

        proof {
            lemma_short_names();
        }
        let mut request = match begin(operation, uri) {
            Ok(request) => request,
            Err(e) => {
                return Err(e);
            },
        };
        if let Err(e) = attach(&mut request, GroupTag::Operation, "job-id", integer_value(id)) {
            return Err(e);
        }
        match attach_user(&mut request, self.user()) {
            Ok(_) => Ok(request),
            Err(e) => Err(e),
        }
    }

    /// Builds the `CUPS-Move-Job` request.
    ///
    /// The destination is named as a queue on this daemon, since moving a job
    /// to a printer the daemon does not know about is not a thing CUPS can do.
    pub fn move_job_request(&self, printer: &str, id: JobId, destination: &str) -> (r: Result<
        IppRequestResponse,
        Error,
    >)
        ensures
            asked(r) == move_asked(self@.base, self@.user, printer@, id, destination@),
    {
        broadcast use lemma_group_opened;

        proof {
            lemma_short_names();
        }
        let uri = match self.printer_uri(printer) {
            Ok(uri) => uri,
            Err(e) => {
                return Err(e);
            },
        };
        let mut request = match self.job_action_request(Operation::CupsMoveJob, uri, id) {
            Ok(request) => request,
            Err(e) => {
                return Err(e);
            },
        };
        let target = match self.printer_uri(destination) {
            Ok(target) => target,
            Err(e) => {
                return Err(e);
            },
        };
        let value = match uri_value(uri_text(&target).as_str()) {
            Ok(value) => value,
            Err(_) => {
                return Err(Error::decode("job-printer-uri", "uri too long"));
            },
        };
        match attach(&mut request, GroupTag::Job, "job-printer-uri", value) {
            Ok(_) => Ok(request),
            Err(e) => Err(e),
        }
    }

    /// Builds the `Identify-Printer` request.
    pub fn identify_printer_request(&self, uri: Uri, action: IdentifyAction) -> (r: Result<
        IppRequestResponse,
        Error,
    >)
        ensures
            asked(r) == identify_asked(self@.user, uri, action),
    {
        broadcast use lemma_operation_added;

        proof {
            lemma_short_names();
            reveal_strlit("flash");
            reveal_strlit("sound");
            reveal_strlit("display");
            lemma_byte_len_bound("flash"@);
            lemma_byte_len_bound("sound"@);
            lemma_byte_len_bound("display"@);
        }
        let mut request = match begin(Operation::IdentifyPrinter, uri) {
            Ok(request) => request,
            Err(e) => {
                return Err(e);
            },
        };
        if let Err(e) = attach_user(&mut request, self.user()) {
            return Err(e);
        }
        let keyword = match keyword_value(action.keyword()) {
            Ok(keyword) => keyword,
            Err(_) => {
                return Err(Error::decode("identify-actions", "keyword too long"));
            },
        };
        if let Err(e) = attach(&mut request, GroupTag::Operation, "identify-actions", keyword) {
            return Err(e);
        }
        let ghost so_far = opening(Some(uri_written(uri_canonical(uri)))).push(
            requesting_user(self@.user),
        ).push(attribute("identify-actions"@, Content::Keyword(action.word())));
        assert(message_groups(request) == operation_group(so_far));
        if let IdentifyAction::Display(message) = &action {
            let value = match text_value(message.as_str()) {
                Ok(value) => value,
                Err(_) => {
                    return Err(Error::decode("message", "message too long"));
                },
            };
            if let Err(e) = attach(&mut request, GroupTag::Operation, "message", value) {
                return Err(e);
            }
            assert(so_far + action.message() =~= so_far.push(action.message()[0]));
        } else {
            assert(so_far + action.message() =~= so_far);
        }
        Ok(request)
    }

    /// Builds the `Validate-Job` request.
    pub fn validate_job_request(&self, uri: Uri, document_format: &str) -> (r: Result<
        IppRequestResponse,
        Error,
    >)
        ensures
            asked(r) == validate_asked(self@.user, uri, document_format@),
    {
        broadcast use lemma_operation_added;

        proof {
            lemma_short_names();
        }
        let mut request = match begin(Operation::ValidateJob, uri) {
            Ok(request) => request,
            Err(e) => {
                return Err(e);
            },
        };
        if let Err(e) = attach_user(&mut request, self.user()) {
            return Err(e);
        }
        let format = match mime_value(document_format) {
            Ok(format) => format,
            Err(_) => {
                return Err(Error::decode("document-format", "value too long"));
            },
        };
        match attach(&mut request, GroupTag::Operation, "document-format", format) {
            Ok(_) => Ok(request),
            Err(e) => Err(e),
        }
    }

    /// Builds the `Get-Printer-Attributes` request for the printer at `uri`.
    pub fn printer_request(&self, uri: Uri) -> (r: Result<IppRequestResponse, Error>)
        ensures
            asked(r) == printer_asked(uri),
    {
        match get_printer_attributes(uri) {
            Ok(request) => Ok(request),
            Err(e) => Err(Error::unbuildable(e)),
        }
    }

    /// Builds the `Get-Printer-Attributes` request for a printer by its URI as
    /// text.
    pub fn printer_at_request(&self, uri: &str) -> (r: Result<IppRequestResponse, Error>)
        ensures
            asked(r) == (match printer_address(uri@) {
                Ok(parsed) => printer_asked(parsed),
                Err(e) => Err(e),
            }),
    {
        match parse_uri(uri) {
            Ok(parsed) => self.printer_request(parsed),
            Err(reason) => Err(
                Error::transport_msg(joined("bad printer uri ", uri, ": ", reason.as_str())),
            ),
        }
    }

    /// Builds the `Purge-Jobs` request.
    pub fn purge_jobs_request(&self, uri: Uri) -> (r: Result<IppRequestResponse, Error>)
        ensures
            asked(r) == purge_asked(self@.user, uri),
    {
        match purge_jobs(uri, self.user()) {
            Ok(request) => Ok(request),
            Err(e) => Err(Error::unbuildable(e)),
        }
    }

    /// Builds the `Create-Job` request.
    pub fn create_job_request(&self, uri: Uri, job_name: &str) -> (r: Result<
        IppRequestResponse,
        Error,
    >)
        ensures
            asked(r) == create_asked(uri, job_name@),
    {
        match create_job(uri, job_name) {
            Ok(request) => Ok(request),
            Err(e) => Err(Error::unbuildable(e)),
        }
    }

    /// Builds the `Send-Document` request, whose document is `payload`.
    pub fn send_document_request(
        &self,
        uri: Uri,
        id: JobId,
        payload: IppPayload,
        document_format: Option<&str>,
        last: bool,
    ) -> (r: Result<IppRequestResponse, Error>)
        ensures
            asked(r) == send_asked(
                self@.user,
                uri,
                id,
                payload_bytes(payload),
                document_format,
                last,
            ),
            r matches Ok(request) ==> message_payload(request) == payload,
    {
        match send_document(uri, id, payload, self.user(), document_format, last) {
            Ok(request) => Ok(request),
            Err(e) => Err(Error::unbuildable(e)),
        }
    }

    /// Builds the `Print-Job` request for already-prepared bytes.
    ///
    /// `document_format` is an IPP MIME type. Pass `application/octet-stream`
    /// to let CUPS auto-type the content, or a specific type when the caller
    /// has produced the document itself and knows better.
    pub fn print_bytes_request(
        &self,
        printer: &str,
        bytes: Vec<u8>,
        document_format: &str,
        job_name: &str,
    ) -> (r: Result<IppRequestResponse, Error>)
        ensures
            asked(r) == print_asked(
                self@.base,
                self@.user,
                printer@,
                bytes@,
                document_format@,
                job_name@,
            ),
    {
        let uri = match self.printer_uri(printer) {
            Ok(uri) => uri,
            Err(e) => {
                return Err(e);
            },
        };
        match print_job(uri, bytes_payload(bytes), self.user(), job_name, document_format) {
            Ok(request) => Ok(request),
            Err(e) => Err(Error::unbuildable(e)),
        }
    }
}

} // verus!
