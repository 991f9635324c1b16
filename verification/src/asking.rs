//! What each request says, read back from it: its header, the attributes under
//! their names, and when it can be made at all.

use std::time::Duration;
use vstd::prelude::*;
use ipp::prelude::Uri;
use ipp::value::IppValue;
use crate::clock::in_nanos;
use crate::error::ErrorView;
use crate::handle::{
    close_asked, event_words, first_misnamed, lease_attribute, lease_seconds,
    notifications_asked, numbers, printer_request, settings_of, subscribe_asked, subscription_id,
    validate_document_asked, with_document, with_group, with_settings, IppJobView, IppPrinterView,
};
use crate::job::JobId;
use crate::operations::{job_id, Operation};
use crate::reading::holds;
use crate::requests::{
    class_attributes, classes_asked, create_asked, default_asked, first_overlong, identify_asked,
    job_action_asked, job_asked, job_attributes, jobs_asked, keywords, move_asked, ppd_attributes,
    ppds_asked, print_asked, printer_asked, printer_attributes, printers_asked, purge_asked,
    send_asked, validate_asked, IdentifyAction, PpdFilter, WhichJobs,
};
use crate::subscription::NotifyEventView;
use crate::text::{byte_len, decimal};
use crate::wire::{
    overlong, text_or_empty, uri_canonical, uri_parsed, uri_refusal, uri_written, value_content,
    Attribute, Content, Group, GroupTag, Request,
};

verus! {

/// A request of IPP 1.1 with this operation code. Its operation attributes come
/// first: `count` of them, of which the first two are the character set and the
/// language.
pub open spec fn is_request(request: Request, code: int, count: int) -> bool {
    &&& request.version == 0x0101
    &&& request.code == code
    &&& request.id == 1
    &&& request.groups.len() > 0
    &&& request.groups[0].tag == 0x01
    &&& request.groups[0].attributes.len() == count
    &&& count >= 2
    &&& request.groups[0].attributes[0] == (Attribute {
        name: "attributes-charset"@,
        value: Content::Charset("utf-8"@),
    })
    &&& request.groups[0].attributes[1] == (Attribute {
        name: "attributes-natural-language"@,
        value: Content::NaturalLanguage("en"@),
    })
}

/// A request of nothing but operation attributes, with no document.
pub open spec fn is_plain_request(request: Request, code: int, count: int) -> bool {
    &&& is_request(request, code, count)
    &&& request.groups.len() == 1
    &&& request.document.len() == 0
}

/// What a request's operation attributes hold under a name.
pub open spec fn says(request: Request, name: Seq<char>, value: Content) -> bool {
    holds(request.groups[0].attributes, name, value)
}

/// A request is addressed to a printer: its URI comes right behind the character
/// set and the language.
pub open spec fn addressed(request: Request, uri: Seq<char>) -> bool {
    &&& says(request, "printer-uri"@, Content::Uri(uri))
    &&& request.groups[0].attributes[2].name == "printer-uri"@
}

/// A failure to reach the service, for no other reason.
pub open spec fn unreachable_for(message: Seq<char>) -> ErrorView {
    ErrorView::Transport { message, source: Seq::empty() }
}

/// A failure to put a request together, which is its own cause.
pub open spec fn unbuildable(error: ErrorView) -> bool {
    error matches ErrorView::Transport { message, source } && source == seq![message]
}

/// The failure to put a text that takes `len` bytes where only `max` fit.
pub open spec fn unfit(len: nat, max: nat) -> ErrorView {
    let message = "invalid string length: "@ + decimal(len) + ", max: "@ + decimal(max);
    ErrorView::Transport { message, source: seq![message] }
}

/// Of several fields, the first that takes more bytes than it may is refused,
/// with both numbers; where none does, none is.
pub proof fn the_first_field_too_long_is_refused(fields: Seq<(Seq<char>, nat)>, k: int)
    requires
        0 <= k <= fields.len(),
        forall|i: int| 0 <= i < k ==> byte_len((#[trigger] fields[i]).0) <= fields[i].1,
    ensures
        k == fields.len() ==> overlong(fields) is None,
        k < fields.len() && byte_len(fields[k].0) > fields[k].1 ==> overlong(fields) == Some(
            "invalid string length: "@ + decimal(byte_len(fields[k].0)) + ", max: "@ + decimal(
                fields[k].1,
            ),
        ),
    decreases k,
{
    if k > 0 {
        let rest = fields.drop_first();
        assert(byte_len(fields[0].0) <= fields[0].1);
        assert forall|i: int| 0 <= i < k - 1 implies byte_len((#[trigger] rest[i]).0)
            <= rest[i].1 by {
            assert(rest[i] == fields[i + 1]);
        }
        the_first_field_too_long_is_refused(rest, k - 1);
        if k < fields.len() {
            assert(rest[k - 1] == fields[k]);
        }
    }
}

/// None of up to four fields is refused exactly where each fits.
proof fn lemma_fits(fields: Seq<(Seq<char>, nat)>)
    requires
        fields.len() <= 4,
    ensures
        overlong(fields) is None <==> {
            &&& fields.len() > 0 ==> byte_len(fields[0].0) <= fields[0].1
            &&& fields.len() > 1 ==> byte_len(fields[1].0) <= fields[1].1
            &&& fields.len() > 2 ==> byte_len(fields[2].0) <= fields[2].1
            &&& fields.len() > 3 ==> byte_len(fields[3].0) <= fields[3].1
        },
{
    reveal_with_fuel(overlong, 5);
}

/// What stands at a place is held under its name, where no attribute before it
/// has that name.
proof fn lemma_says(a: Seq<Attribute>, i: int)
    requires
        0 <= i < a.len(),
        i <= 6,
        i > 0 ==> a[0].name != a[i].name,
        i > 1 ==> a[1].name != a[i].name,
        i > 2 ==> a[2].name != a[i].name,
        i > 3 ==> a[3].name != a[i].name,
        i > 4 ==> a[4].name != a[i].name,
        i > 5 ==> a[5].name != a[i].name,
    ensures
        holds(a, a[i].name, a[i].value),
{
    assert forall|j: int| 0 <= j < i implies (#[trigger] a[j]).name != a[i].name by {
        assert(j == 0 || j == 1 || j == 2 || j == 3 || j == 4 || j == 5);
    }
}

/// The names of operation attributes are all different: most have lengths of
/// their own.
proof fn lemma_names()
    ensures
        "attributes-charset"@.len() == 18,
        "attributes-natural-language"@.len() == 27,
        "printer-uri"@.len() == 11,
        "requesting-user-name"@.len() == 20,
        "requested-attributes"@.len() == 20,
        "requesting-user-name"@ != "requested-attributes"@,
        "job-id"@.len() == 6,
        "job-name"@.len() == 8,
        "document-format"@.len() == 15,
        "which-jobs"@.len() == 10,
        "my-jobs"@.len() == 7,
        "last-document"@.len() == 13,
        "identify-actions"@.len() == 16,
        "message"@.len() == 7,
        "ppd-device-id"@.len() == 13,
        "ppd-make-and-model"@.len() == 18,
        "ppd-make-and-model"@ != "attributes-charset"@,
        "ppd-make"@.len() == 8,
        "notify-subscription-id"@.len() == 22,
        "notify-subscription-ids"@.len() == 23,
        "notify-wait"@.len() == 11,
        "notify-wait"@ != "printer-uri"@,
        "notify-events"@.len() == 13,
        "notify-pull-method"@.len() == 18,
        "notify-lease-duration"@.len() == 21,
{
    reveal_strlit("attributes-charset");
    reveal_strlit("attributes-natural-language");
    reveal_strlit("printer-uri");
    reveal_strlit("requesting-user-name");
    reveal_strlit("requested-attributes");
    reveal_strlit("job-id");
    reveal_strlit("job-name");
    reveal_strlit("document-format");
    reveal_strlit("which-jobs");
    reveal_strlit("my-jobs");
    reveal_strlit("last-document");
    reveal_strlit("identify-actions");
    reveal_strlit("message");
    reveal_strlit("ppd-device-id");
    reveal_strlit("ppd-make-and-model");
    reveal_strlit("ppd-make");
    reveal_strlit("notify-subscription-id");
    reveal_strlit("notify-subscription-ids");
    reveal_strlit("notify-wait");
    reveal_strlit("notify-events");
    reveal_strlit("notify-pull-method");
    reveal_strlit("notify-lease-duration");
    assert("requesting-user-name"@[7] == 'i');
    assert("requested-attributes"@[7] == 'e');
    assert("ppd-make-and-model"@[0] == 'p');
    assert("attributes-charset"@[0] == 'a');
    assert("notify-wait"@[0] == 'n');
    assert("printer-uri"@[0] == 'p');
}

/// A request to print a document is made where the queue's address can be read
/// and every text fits. It is addressed to the queue that was named, by its path
/// on the daemon, and carries the user, the format, the job's name and the
/// document, each as it was given.
pub proof fn a_print_request_says_what_was_given(
    base: Seq<char>,
    user: Seq<char>,
    printer: Seq<char>,
    document: Seq<u8>,
    format: Seq<char>,
    job_name: Seq<char>,
)
    ensures
        ({
            let path = base + "/printers/"@ + printer;
            let r = print_asked(base, user, printer, document, format, job_name);
            match uri_parsed(path) {
                None => r == Err::<Request, ErrorView>(
                    unreachable_for(
                        "bad printer uri for "@ + printer + ": "@ + uri_refusal(path),
                    ),
                ),
                Some(uri) => {
                    &&& r is Ok <==> {
                        &&& byte_len(uri_written(uri)) <= 1023
                        &&& byte_len(user) <= 255
                        &&& byte_len(job_name) <= 255
                        &&& byte_len(format) <= 255
                    }
                    &&& r matches Err(e) ==> unbuildable(e)
                    &&& r matches Ok(request) ==> {
                        &&& is_request(request, 0x0002, 6)
                        &&& request.groups.len() == 1
                        &&& request.document == document
                        &&& addressed(request, uri_written(uri))
                        &&& says(
                            request,
                            "requesting-user-name"@,
                            Content::NameWithoutLanguage(user),
                        )
                        &&& says(request, "job-name"@, Content::NameWithoutLanguage(job_name))
                        &&& says(request, "document-format"@, Content::MimeMediaType(format))
                    }
                },
            }
        }),
{
    let path = base + "/printers/"@ + printer;
    if let Some(uri) = uri_parsed(path) {
        lemma_fits(seq![(uri_written(uri), 1023), (user, 255), (job_name, 255), (format, 255)]);
        if let Ok(request) = print_asked(base, user, printer, document, format, job_name) {
            lemma_names();
            let a = request.groups[0].attributes;
            lemma_says(a, 2);
            lemma_says(a, 3);
            lemma_says(a, 4);
            lemma_says(a, 5);
        }
    }
}

/// The request for every queue asks for what a printer is decoded from, and for
/// nothing else.
pub proof fn a_printers_request_asks_for_printers()
    ensures
        is_plain_request(printers_asked(), 0x4002, 3),
        says(
            printers_asked(),
            "requested-attributes"@,
            Content::Array(keywords(printer_attributes())),
        ),
        printer_attributes().len() == 23,
{
    lemma_names();
    lemma_says(printers_asked().groups[0].attributes, 2);
}

/// The request for the default queue asks for its name alone.
pub proof fn a_default_request_asks_for_a_name()
    ensures
        is_plain_request(default_asked(), 0x4001, 3),
        says(default_asked(), "requested-attributes"@, Content::Keyword("printer-name"@)),
{
    lemma_names();
    lemma_says(default_asked().groups[0].attributes, 2);
}

/// The request for every class asks for names and members.
pub proof fn a_classes_request_asks_for_classes()
    ensures
        is_plain_request(classes_asked(), 0x4005, 3),
        says(
            classes_asked(),
            "requested-attributes"@,
            Content::Array(
                seq![Content::Keyword("printer-name"@), Content::Keyword("member-names"@)],
            ),
        ),
{
    lemma_names();
    lemma_says(classes_asked().groups[0].attributes, 2);
    assert(keywords(class_attributes()) =~= seq![
        Content::Keyword("printer-name"@),
        Content::Keyword("member-names"@),
    ]);
}

/// What a request for drivers asks to be told of each.
pub open spec fn driver_names() -> Content {
    Content::Array(
        seq![
            Content::Keyword("ppd-name"@),
            Content::Keyword("ppd-make-and-model"@),
            Content::Keyword("ppd-device-id"@),
        ],
    )
}

/// The request for drivers names what to look for under the attribute of the
/// kind of search, and nothing where every driver is asked for.
pub proof fn a_drivers_request_says_what_to_look_for(value: &str)
    ensures
        ppds_asked(None) matches Ok(request) && is_plain_request(request, 0x400C, 3) && says(
            request,
            "requested-attributes"@,
            driver_names(),
        ),
        looks_for(ppds_asked(Some(PpdFilter::DeviceId(value))), "ppd-device-id"@, value@),
        looks_for(
            ppds_asked(Some(PpdFilter::MakeAndModel(value))),
            "ppd-make-and-model"@,
            value@,
        ),
        looks_for(ppds_asked(Some(PpdFilter::Make(value))), "ppd-make"@, value@),
{
    lemma_names();
    assert(Content::Array(keywords(ppd_attributes())) == driver_names()) by {
        assert(keywords(ppd_attributes()) =~= seq![
            Content::Keyword("ppd-name"@),
            Content::Keyword("ppd-make-and-model"@),
            Content::Keyword("ppd-device-id"@),
        ]);
    }
    let all = ppds_asked(None)->Ok_0;
    lemma_says(all.groups[0].attributes, 2);
    if byte_len(value@) <= 1023 {
        let a = ppds_asked(Some(PpdFilter::DeviceId(value)))->Ok_0.groups[0].attributes;
        lemma_says(a, 2);
        lemma_says(a, 3);
        let b = ppds_asked(Some(PpdFilter::MakeAndModel(value)))->Ok_0.groups[0].attributes;
        lemma_says(b, 2);
        lemma_says(b, 3);
        let c = ppds_asked(Some(PpdFilter::Make(value)))->Ok_0.groups[0].attributes;
        lemma_says(c, 2);
        lemma_says(c, 3);
    }
}

/// A request for drivers looks for a value under a name, where the value is not
/// too long.
pub open spec fn looks_for(
    r: Result<Request, ErrorView>,
    name: Seq<char>,
    value: Seq<char>,
) -> bool {
    if byte_len(value) > 1023 {
        r == Err::<Request, ErrorView>(
            ErrorView::Decode { attribute: name, detail: "filter value too long"@ },
        )
    } else {
        r matches Ok(request) && is_plain_request(request, 0x400C, 4) && says(
            request,
            name,
            Content::TextWithoutLanguage(value),
        ) && says(request, "requested-attributes"@, driver_names())
    }
}

/// The request for a user's jobs is addressed to the daemon, names the user, and
/// asks for that user's jobs alone, finished or not as was chosen.
pub proof fn a_jobs_request_says_whose_and_which(base: Seq<char>, user: Seq<char>, which: WhichJobs)
    ensures
        ({
            let r = jobs_asked(base, user, which);
            match uri_parsed(base) {
                None => r == Err::<Request, ErrorView>(
                    unreachable_for("bad CUPS uri: "@ + uri_refusal(base)),
                ),
                Some(uri) => {
                    &&& r is Ok <==> byte_len(uri_written(uri)) <= 1023 && byte_len(user) <= 255
                    &&& r matches Err(e) ==> unbuildable(e)
                    &&& r matches Ok(request) ==> {
                        &&& is_plain_request(request, 0x000A, 7)
                        &&& addressed(request, uri_written(uri))
                        &&& says(
                            request,
                            "requesting-user-name"@,
                            Content::NameWithoutLanguage(user),
                        )
                        &&& says(
                            request,
                            "requested-attributes"@,
                            Content::Array(keywords(job_attributes())),
                        )
                        &&& which is NotCompleted ==> says(
                            request,
                            "which-jobs"@,
                            Content::Keyword("not-completed"@),
                        )
                        &&& which is Completed ==> says(
                            request,
                            "which-jobs"@,
                            Content::Keyword("completed"@),
                        )
                        &&& says(request, "my-jobs"@, Content::Boolean(true))
                    }
                },
            }
        }),
        job_attributes().len() == 10,
{
    if let Some(uri) = uri_parsed(base) {
        lemma_fits(seq![(uri_written(uri), 1023), (user, 255)]);
        if let Ok(request) = jobs_asked(base, user, which) {
            lemma_names();
            let a = request.groups[0].attributes;
            lemma_says(a, 2);
            lemma_says(a, 3);
            lemma_says(a, 4);
            lemma_says(a, 5);
            lemma_says(a, 6);
        }
    }
}

/// The request for one job is addressed to the queue that was named, by its path
/// on the daemon, and names the job and the user.
pub proof fn a_job_request_says_which_job(
    base: Seq<char>,
    user: Seq<char>,
    printer: Seq<char>,
    id: JobId,
)
    ensures
        ({
            let path = base + "/printers/"@ + printer;
            let r = job_asked(base, user, printer, id);
            match uri_parsed(path) {
                None => r == Err::<Request, ErrorView>(
                    unreachable_for(
                        "bad printer uri for "@ + printer + ": "@ + uri_refusal(path),
                    ),
                ),
                Some(uri) => {
                    &&& r is Ok <==> byte_len(uri_written(uri)) <= 1023 && byte_len(user) <= 255
                    &&& r matches Err(e) ==> unbuildable(e)
                    &&& r matches Ok(request) ==> {
                        &&& is_plain_request(request, 0x0009, 6)
                        &&& addressed(request, uri_written(uri))
                        &&& says(request, "job-id"@, Content::Integer(id))
                        &&& says(
                            request,
                            "requesting-user-name"@,
                            Content::NameWithoutLanguage(user),
                        )
                        &&& says(
                            request,
                            "requested-attributes"@,
                            Content::Array(keywords(job_attributes())),
                        )
                    }
                },
            }
        }),
{
    let path = base + "/printers/"@ + printer;
    if let Some(uri) = uri_parsed(path) {
        lemma_fits(seq![(uri_written(uri), 1023), (user, 255)]);
        if let Ok(request) = job_asked(base, user, printer, id) {
            lemma_names();
            let a = request.groups[0].attributes;
            lemma_says(a, 2);
            lemma_says(a, 3);
            lemma_says(a, 4);
            lemma_says(a, 5);
        }
    }
}

/// The error of a user whose name takes more bytes than a name may.
pub open spec fn user_refused() -> ErrorView {
    ErrorView::Decode { attribute: "requesting-user-name"@, detail: "name too long"@ }
}

/// A request is refused for its address or its user where either is too long,
/// the address first; else it is made.
pub open spec fn made_if_fit(r: Result<Request, ErrorView>, uri: Uri, user: Seq<char>) -> bool {
    let len = byte_len(uri_written(uri_canonical(uri)));
    if len > 1023 {
        r == Err::<Request, ErrorView>(unfit(len, 1023))
    } else if byte_len(user) > 255 {
        r == Err::<Request, ErrorView>(user_refused())
    } else {
        r is Ok
    }
}

/// A request to do something to a job names that job, the user and the printer,
/// under the code of the operation it is for, and says nothing more.
pub proof fn a_job_action_says_what_it_is_about(
    user: Seq<char>,
    operation: Operation,
    uri: Uri,
    id: JobId,
)
    ensures
        made_if_fit(job_action_asked(user, operation, uri, id), uri, user),
        job_action_asked(user, operation, uri, id) matches Ok(request) ==> {
            &&& is_plain_request(request, operation.opcode() as int, 5)
            &&& addressed(request, uri_written(uri_canonical(uri)))
            &&& says(request, "job-id"@, Content::Integer(id))
            &&& says(request, "requesting-user-name"@, Content::NameWithoutLanguage(user))
        },
{
    if let Ok(request) = job_action_asked(user, operation, uri, id) {
        lemma_names();
        let a = request.groups[0].attributes;
        lemma_says(a, 2);
        lemma_says(a, 3);
        lemma_says(a, 4);
    }
}

/// A request to move a job is the request about that job on the queue it is on,
/// with the queue it goes to, by its path on the daemon, alone in a job group.
pub proof fn a_move_request_says_from_where_to_where(
    base: Seq<char>,
    user: Seq<char>,
    printer: Seq<char>,
    id: JobId,
    destination: Seq<char>,
)
    ensures
        move_asked(base, user, printer, id, destination) matches Ok(request) ==> {
            let from = uri_parsed(base + "/printers/"@ + printer);
            let to = uri_parsed(base + "/printers/"@ + destination);
            &&& from is Some
            &&& to is Some
            &&& byte_len(uri_written(to->0)) <= 1023
            &&& is_request(request, 0x400D, 5)
            &&& addressed(request, uri_written(uri_canonical(from->0)))
            &&& says(request, "job-id"@, Content::Integer(id))
            &&& says(request, "requesting-user-name"@, Content::NameWithoutLanguage(user))
            &&& request.groups.len() == 2
            &&& request.groups[1].tag == 0x02
            &&& request.groups[1].attributes == seq![
                Attribute {
                    name: "job-printer-uri"@,
                    value: Content::Uri(uri_written(to->0)),
                },
            ]
            &&& request.document.len() == 0
        },
{
    if let Ok(request) = move_asked(base, user, printer, id, destination) {
        let uri = uri_parsed(base + "/printers/"@ + printer)->0;
        a_job_action_says_what_it_is_about(user, Operation::CupsMoveJob, uri, id);
        let plain = job_action_asked(user, Operation::CupsMoveJob, uri, id)->Ok_0;
        assert(request.groups[0] == plain.groups[0]);
    }
}

/// A request to move a job is refused for the queue the job is on, for the user
/// and for the queue it goes to, in that order, and else is made.
pub proof fn a_move_is_refused_for_what_is_wrong_first(
    base: Seq<char>,
    user: Seq<char>,
    printer: Seq<char>,
    id: JobId,
    destination: Seq<char>,
)
    ensures
        ({
            let r = move_asked(base, user, printer, id, destination);
            let from = base + "/printers/"@ + printer;
            let to = base + "/printers/"@ + destination;
            match (uri_parsed(from), uri_parsed(to)) {
                (None, _) => r == Err::<Request, ErrorView>(
                    unreachable_for(
                        "bad printer uri for "@ + printer + ": "@ + uri_refusal(from),
                    ),
                ),
                (Some(uri), target) => {
                    let len = byte_len(uri_written(uri_canonical(uri)));
                    if len > 1023 {
                        r == Err::<Request, ErrorView>(unfit(len, 1023))
                    } else if byte_len(user) > 255 {
                        r == Err::<Request, ErrorView>(user_refused())
                    } else if target is None {
                        r == Err::<Request, ErrorView>(
                            unreachable_for(
                                "bad printer uri for "@ + destination + ": "@ + uri_refusal(to),
                            ),
                        )
                    } else if byte_len(uri_written(target->0)) > 1023 {
                        r == Err::<Request, ErrorView>(
                            ErrorView::Decode {
                                attribute: "job-printer-uri"@,
                                detail: "uri too long"@,
                            },
                        )
                    } else {
                        r is Ok
                    }
                },
            }
        }),
{
}

/// A request that a printer announce itself names the way to do it, and carries
/// a message where that is to show one and nowhere else.
pub proof fn an_identify_request_says_how(user: Seq<char>, uri: Uri, action: IdentifyAction)
    ensures
        ({
            let r = identify_asked(user, uri, action);
            &&& if action matches IdentifyAction::Display(m) && byte_len(m@) > 1023 {
                &&& r is Err
                &&& byte_len(uri_written(uri_canonical(uri))) <= 1023 && byte_len(user) <= 255
                    ==> r == Err::<Request, ErrorView>(
                    ErrorView::Decode { attribute: "message"@, detail: "message too long"@ },
                )
            } else {
                made_if_fit(r, uri, user)
            }
            &&& r matches Ok(request) ==> {
                &&& addressed(request, uri_written(uri_canonical(uri)))
                &&& says(request, "requesting-user-name"@, Content::NameWithoutLanguage(user))
                &&& match action {
                    IdentifyAction::Flash => is_plain_request(request, 0x003C, 5) && says(
                        request,
                        "identify-actions"@,
                        Content::Keyword("flash"@),
                    ),
                    IdentifyAction::Sound => is_plain_request(request, 0x003C, 5) && says(
                        request,
                        "identify-actions"@,
                        Content::Keyword("sound"@),
                    ),
                    IdentifyAction::Display(m) => is_plain_request(request, 0x003C, 6) && says(
                        request,
                        "identify-actions"@,
                        Content::Keyword("display"@),
                    ) && says(request, "message"@, Content::TextWithoutLanguage(m@)),
                }
            }
        }),
{
    if let Ok(request) = identify_asked(user, uri, action) {
        lemma_names();
        let a = request.groups[0].attributes;
        lemma_says(a, 2);
        lemma_says(a, 3);
        lemma_says(a, 4);
        if let IdentifyAction::Display(m) = action {
            assert(a[5] == action.message()[0]);
            lemma_says(a, 5);
        }
    }
}

/// The question whether a job would be accepted names the printer, the user and
/// the format.
pub proof fn a_validate_request_says_what_format(user: Seq<char>, uri: Uri, format: Seq<char>)
    ensures
        ({
            let r = validate_asked(user, uri, format);
            &&& byte_len(format) <= 255 ==> made_if_fit(r, uri, user)
            &&& byte_len(format) > 255 ==> r is Err
            &&& byte_len(format) > 255 && byte_len(uri_written(uri_canonical(uri))) <= 1023
                && byte_len(user) <= 255 ==> r == Err::<Request, ErrorView>(
                ErrorView::Decode { attribute: "document-format"@, detail: "value too long"@ },
            )
            &&& r matches Ok(request) ==> {
                &&& is_plain_request(request, 0x0004, 5)
                &&& addressed(request, uri_written(uri_canonical(uri)))
                &&& says(request, "requesting-user-name"@, Content::NameWithoutLanguage(user))
                &&& says(request, "document-format"@, Content::MimeMediaType(format))
            }
        }),
{
    if let Ok(request) = validate_asked(user, uri, format) {
        lemma_names();
        let a = request.groups[0].attributes;
        lemma_says(a, 2);
        lemma_says(a, 3);
        lemma_says(a, 4);
    }
}

/// The request for what a printer reports of itself names the printer and
/// nothing else.
pub proof fn a_printer_request_says_which_printer(uri: Uri)
    ensures
        ({
            let r = printer_asked(uri);
            &&& r is Ok <==> byte_len(uri_written(uri)) <= 1023
            &&& r matches Err(e) ==> unbuildable(e)
            &&& r matches Ok(request) ==> {
                &&& is_plain_request(request, 0x000B, 3)
                &&& addressed(request, uri_written(uri))
            }
        }),
{
    lemma_fits(seq![(uri_written(uri), 1023)]);
    if let Ok(request) = printer_asked(uri) {
        lemma_names();
        lemma_says(request.groups[0].attributes, 2);
    }
}

/// The request to remove every job names the printer and the user.
pub proof fn a_purge_request_says_whose_printer(user: Seq<char>, uri: Uri)
    ensures
        ({
            let r = purge_asked(user, uri);
            &&& r is Ok <==> byte_len(uri_written(uri)) <= 1023 && byte_len(user) <= 255
            &&& r matches Err(e) ==> unbuildable(e)
            &&& r matches Ok(request) ==> {
                &&& is_plain_request(request, 0x0012, 4)
                &&& addressed(request, uri_written(uri))
                &&& says(request, "requesting-user-name"@, Content::NameWithoutLanguage(user))
            }
        }),
{
    lemma_fits(seq![(uri_written(uri), 1023), (user, 255)]);
    if let Ok(request) = purge_asked(user, uri) {
        lemma_names();
        lemma_says(request.groups[0].attributes, 2);
        lemma_says(request.groups[0].attributes, 3);
    }
}

/// The request that opens a job names the printer and the job.
pub proof fn a_create_request_says_the_jobs_name(uri: Uri, job_name: Seq<char>)
    ensures
        ({
            let r = create_asked(uri, job_name);
            &&& r is Ok <==> byte_len(uri_written(uri)) <= 1023 && byte_len(job_name) <= 255
            &&& r matches Err(e) ==> unbuildable(e)
            &&& r matches Ok(request) ==> {
                &&& is_plain_request(request, 0x0005, 4)
                &&& addressed(request, uri_written(uri))
                &&& says(request, "job-name"@, Content::NameWithoutLanguage(job_name))
            }
        }),
{
    lemma_fits(seq![(uri_written(uri), 1023), (job_name, 255)]);
    if let Ok(request) = create_asked(uri, job_name) {
        lemma_names();
        lemma_says(request.groups[0].attributes, 2);
        lemma_says(request.groups[0].attributes, 3);
    }
}

/// The request that adds a document to a job names the printer, the job, the
/// user and whether the document is the last, the format where it is known, and
/// carries the document.
pub proof fn a_send_request_says_which_job_and_whether_it_is_the_last(
    user: Seq<char>,
    uri: Uri,
    id: JobId,
    document: Seq<u8>,
    format: Option<&str>,
    last: bool,
)
    ensures
        ({
            let r = send_asked(user, uri, id, document, format, last);
            &&& r is Ok <==> {
                &&& byte_len(uri_written(uri)) <= 1023
                &&& byte_len(user) <= 255
                &&& format matches Some(f) ==> byte_len(f@) <= 255
            }
            &&& r matches Err(e) ==> unbuildable(e)
            &&& r matches Ok(request) ==> {
                &&& request.groups.len() == 1
                &&& request.document == document
                &&& addressed(request, uri_written(uri))
                &&& says(request, "job-id"@, Content::Integer(id))
                &&& says(request, "last-document"@, Content::Boolean(last))
                &&& says(request, "requesting-user-name"@, Content::NameWithoutLanguage(user))
                &&& match format {
                    Some(f) => is_request(request, 0x0006, 7) && says(
                        request,
                        "document-format"@,
                        Content::MimeMediaType(f@),
                    ),
                    None => is_request(request, 0x0006, 6),
                }
            }
        }),
{
    let fields = seq![(uri_written(uri), 1023nat), (user, 255), (text_or_empty(format), 255)];
    lemma_fits(fields);
    if format is None {
        crate::text::lemma_byte_len_bound(Seq::empty());
    }
    if let Ok(request) = send_asked(user, uri, id, document, format, last) {
        lemma_names();
        let a = request.groups[0].attributes;
        lemma_says(a, 2);
        lemma_says(a, 3);
        lemma_says(a, 4);
        lemma_says(a, 5);
        if format is Some {
            lemma_says(a, 6);
        }
    }
}

/// A request made through a printer's handle names that printer and the
/// client's user, under the code of the operation it is for, and then says what
/// was added, in that order.
pub proof fn a_handles_request_says_whose_it_is(
    printer: IppPrinterView,
    operation: Operation,
    more: Seq<Attribute>,
    i: int,
)
    ensures
        made_if_fit(
            printer_request(printer, operation, more),
            printer.uri,
            printer.client.user,
        ),
        printer_request(printer, operation, more) matches Ok(request) ==> {
            &&& is_plain_request(request, operation.opcode() as int, more.len() + 4int)
            &&& addressed(request, uri_written(uri_canonical(printer.uri)))
            &&& says(
                request,
                "requesting-user-name"@,
                Content::NameWithoutLanguage(printer.client.user),
            )
            &&& 0 <= i < more.len() ==> request.groups[0].attributes[4 + i] == more[i]
        },
{
    if let Ok(request) = printer_request(printer, operation, more) {
        lemma_names();
        let a = request.groups[0].attributes;
        lemma_says(a, 2);
        lemma_says(a, 3);
    }
}

/// What a request about one job or one subscription adds is its id.
pub proof fn an_id_is_said_as_a_number(printer: IppPrinterView, operation: Operation, id: i32)
    ensures
        printer_request(printer, operation, seq![job_id(id)]) matches Ok(request) ==> says(
            request,
            "job-id"@,
            Content::Integer(id),
        ),
        printer_request(printer, operation, seq![subscription_id(id)]) matches Ok(request) ==> says(
            request,
            "notify-subscription-id"@,
            Content::Integer(id),
        ),
{
    lemma_names();
    if let Ok(request) = printer_request(printer, operation, seq![job_id(id)]) {
        lemma_says(request.groups[0].attributes, 4);
    }
    if let Ok(request) = printer_request(printer, operation, seq![subscription_id(id)]) {
        lemma_says(request.groups[0].attributes, 4);
    }
}

/// Attributes of another group go behind the operation attributes, in one group
/// of their own where there are any, and change nothing else.
pub proof fn a_group_goes_behind_the_operation_attributes(
    request: Request,
    tag: GroupTag,
    attributes: Seq<Attribute>,
    e: ErrorView,
)
    ensures
        with_group(Ok(request), tag, attributes) matches Ok(made) && {
            &&& made.version == request.version
            &&& made.code == request.code
            &&& made.id == request.id
            &&& made.document == request.document
            &&& attributes.len() == 0 ==> made.groups == request.groups
            &&& attributes.len() > 0 ==> made.groups == request.groups + seq![
                Group { tag: tag.code(), attributes },
            ]
        },
        with_group(Err(e), tag, attributes) == Err::<Request, ErrorView>(e),
{
    assert(request.groups.push(Group { tag: tag.code(), attributes }) =~= request.groups + seq![
        Group { tag: tag.code(), attributes },
    ]);
}

/// Attributes that a caller names are put into a request as they are, where
/// every name fits; else the first that does not is refused by name, with its
/// length.
pub proof fn settings_are_sent_as_they_are(
    request: Request,
    tag: GroupTag,
    attributes: Seq<Attribute>,
    k: int,
    e: ErrorView,
)
    requires
        0 <= k <= attributes.len(),
        forall|i: int| 0 <= i < k ==> byte_len((#[trigger] attributes[i]).name) <= 255,
    ensures
        k == attributes.len() ==> with_settings(Ok(request), tag, attributes) == with_group(
            Ok(request),
            tag,
            attributes,
        ),
        k < attributes.len() && byte_len(attributes[k].name) > 255 ==> with_settings(
            Ok(request),
            tag,
            attributes,
        ) == Err::<Request, ErrorView>(
            ErrorView::Decode {
                attribute: attributes[k].name,
                detail: "invalid string length: "@ + decimal(byte_len(attributes[k].name))
                    + ", max: "@ + decimal(255),
            },
        ),
        with_settings(Err(e), tag, attributes) == Err::<Request, ErrorView>(e),
{
    lemma_first_misnamed(attributes, k);
}

proof fn lemma_first_misnamed(attributes: Seq<Attribute>, k: int)
    requires
        0 <= k <= attributes.len(),
        forall|i: int| 0 <= i < k ==> byte_len((#[trigger] attributes[i]).name) <= 255,
    ensures
        k == attributes.len() ==> first_misnamed(attributes) is None,
        k < attributes.len() && byte_len(attributes[k].name) > 255 ==> first_misnamed(attributes)
            == Some(attributes[k].name),
    decreases k,
{
    if k > 0 {
        let rest = attributes.drop_first();
        assert(byte_len(attributes[0].name) <= 255);
        assert forall|i: int| 0 <= i < k - 1 implies byte_len((#[trigger] rest[i]).name)
            <= 255 by {
            assert(rest[i] == attributes[i + 1]);
        }
        lemma_first_misnamed(rest, k - 1);
        if k < attributes.len() {
            assert(rest[k - 1] == attributes[k]);
        }
    }
}

/// The settings a caller gives are attributes of those names and values, one for
/// one.
pub proof fn settings_keep_their_names_and_values(pairs: Seq<(&str, IppValue)>, i: int)
    requires
        0 <= i < pairs.len(),
    ensures
        settings_of(pairs).len() == pairs.len(),
        settings_of(pairs)[i].name == pairs[i].0@,
        settings_of(pairs)[i].value == value_content(pairs[i].1),
{
}

/// Some keyword takes more bytes than a keyword may.
proof fn lemma_first_overlong(words: Seq<Seq<char>>)
    ensures
        first_overlong(words) is None <==> forall|i: int|
            0 <= i < words.len() ==> byte_len(#[trigger] words[i]) <= 255,
    decreases words.len(),
{
    if words.len() > 0 {
        let rest = words.drop_first();
        lemma_first_overlong(rest);
        if first_overlong(words) is None {
            assert forall|i: int| 0 <= i < words.len() implies byte_len(#[trigger] words[i])
                <= 255 by {
                if i > 0 {
                    assert(rest[i - 1] == words[i]);
                }
            }
        } else if byte_len(words[0]) <= 255 {
            let i = choose|i: int| 0 <= i < rest.len() && byte_len(#[trigger] rest[i]) > 255;
            assert(words[i + 1] == rest[i]);
        }
    }
}

/// A request for a subscription names the printer and the user among the
/// operation attributes. Its events go in a group of their own, by keyword and
/// in order, with the method by which they are fetched and, where one is asked
/// for, the lease.
pub proof fn a_subscribe_request_says_which_events(
    printer: IppPrinterView,
    events: Seq<NotifyEventView>,
    lease: Option<Duration>,
    i: int,
)
    ensures
        ({
            let r = subscribe_asked(printer, events, lease);
            let fit = forall|k: int|
                0 <= k < events.len() ==> byte_len((#[trigger] events[k]).word()) <= 255;
            &&& fit ==> made_if_fit(r, printer.uri, printer.client.user)
            &&& !fit ==> r is Err
            &&& !fit && byte_len(uri_written(uri_canonical(printer.uri))) <= 1023 && byte_len(
                printer.client.user,
            ) <= 255 ==> r == Err::<Request, ErrorView>(
                ErrorView::Decode { attribute: "notify-events"@, detail: "keyword too long"@ },
            )
            &&& r matches Ok(request) ==> {
                let group = request.groups[1].attributes;
                &&& is_request(request, 0x0016, 4)
                &&& addressed(request, uri_written(uri_canonical(printer.uri)))
                &&& says(
                    request,
                    "requesting-user-name"@,
                    Content::NameWithoutLanguage(printer.client.user),
                )
                &&& request.document.len() == 0
                &&& request.groups.len() == 2
                &&& request.groups[1].tag == 0x06
                &&& group[0].name == "notify-events"@
                &&& group[0].value matches Content::Array(words) && words.len() == events.len()
                    && (0 <= i < events.len() ==> words[i] == Content::Keyword(events[i].word()))
                &&& group[1] == (Attribute {
                    name: "notify-pull-method"@,
                    value: Content::Keyword("ippget"@),
                })
                &&& lease is None ==> group.len() == 2
                &&& lease matches Some(d) ==> group.len() == 3 && group[2] == (Attribute {
                    name: "notify-lease-duration"@,
                    value: Content::Integer(lease_seconds(d)),
                })
            }
        }),
{
    let words = event_words(events);
    lemma_first_overlong(words);
    a_handles_request_says_whose_it_is(
        printer,
        Operation::CreatePrinterSubscriptions,
        Seq::empty(),
        0,
    );
    let fit = forall|k: int|
        0 <= k < events.len() ==> byte_len((#[trigger] events[k]).word()) <= 255;
    if fit {
        assert forall|k: int| 0 <= k < words.len() implies byte_len(#[trigger] words[k])
            <= 255 by {
            assert(words[k] == events[k].word());
        }
    } else {
        let k = choose|k: int|
            0 <= k < events.len() && byte_len((#[trigger] events[k]).word()) > 255;
        assert(words[k] == events[k].word());
    }
    if let Ok(request) = subscribe_asked(printer, events, lease) {
        let plain = printer_request(
            printer,
            Operation::CreatePrinterSubscriptions,
            Seq::empty(),
        )->Ok_0;
        assert(request.groups[0] == plain.groups[0]);
    }
}

/// A lease is sent in whole seconds, where they fit in the 32 bits there are.
pub proof fn a_lease_is_sent_in_whole_seconds(lease: Duration)
    requires
        in_nanos(lease) < 0x8000_0000 * 1_000_000_000,
    ensures
        lease_seconds(lease) * 1_000_000_000 <= in_nanos(lease),
        in_nanos(lease) < (lease_seconds(lease) + 1) * 1_000_000_000,
{
}

/// A request to renew a subscription names it among the operation attributes,
/// and carries the lease, where one is asked for, in a group of its own.
pub proof fn a_renewal_says_how_long(printer: IppPrinterView, id: i32, lease: Option<Duration>)
    ensures
        with_group(
            printer_request(printer, Operation::RenewSubscription, seq![subscription_id(id)]),
            GroupTag::Subscription,
            lease_attribute(lease),
        ) matches Ok(request) ==> {
            &&& is_request(request, 0x001A, 5)
            &&& says(request, "notify-subscription-id"@, Content::Integer(id))
            &&& lease is None ==> request.groups.len() == 1
            &&& lease matches Some(d) ==> request.groups.len() == 2 && request.groups[1] == (Group {
                tag: 0x06,
                attributes: seq![
                    Attribute {
                        name: "notify-lease-duration"@,
                        value: Content::Integer(lease_seconds(d)),
                    },
                ],
            })
        },
{
    let more = seq![subscription_id(id)];
    a_handles_request_says_whose_it_is(printer, Operation::RenewSubscription, more, 0);
    an_id_is_said_as_a_number(printer, Operation::RenewSubscription, id);
    if let Ok(plain) = printer_request(printer, Operation::RenewSubscription, more) {
        let request = with_group(
            Ok(plain),
            GroupTag::Subscription,
            lease_attribute(lease),
        )->Ok_0;
        assert(request.groups[0] == plain.groups[0]);
    }
}

/// The request for what subscriptions have captured names each of them, in
/// order, and asks for an answer at once.
pub proof fn a_notifications_request_says_which_subscriptions(
    printer: IppPrinterView,
    ids: Seq<i32>,
    i: int,
)
    ensures
        made_if_fit(notifications_asked(printer, ids), printer.uri, printer.client.user),
        notifications_asked(printer, ids) matches Ok(request) ==> {
            &&& is_plain_request(request, 0x001C, 6)
            &&& addressed(request, uri_written(uri_canonical(printer.uri)))
            &&& says(
                request,
                "requesting-user-name"@,
                Content::NameWithoutLanguage(printer.client.user),
            )
            &&& says(
                request,
                "notify-subscription-ids"@,
                Content::Array(Seq::new(ids.len(), |k: int| Content::Integer(ids[k]))),
            )
            &&& says(request, "notify-wait"@, Content::Boolean(false))
        },
{
    let more = seq![
        Attribute {
            name: "notify-subscription-ids"@,
            value: Content::Array(numbers(ids)),
        },
        Attribute { name: "notify-wait"@, value: Content::Boolean(false) },
    ];
    a_handles_request_says_whose_it_is(printer, Operation::GetNotifications, more, 0);
    if let Ok(request) = notifications_asked(printer, ids) {
        lemma_names();
        let a = request.groups[0].attributes;
        lemma_says(a, 4);
        lemma_says(a, 5);
        assert(numbers(ids) =~= Seq::new(ids.len(), |k: int| Content::Integer(ids[k])));
    }
}

/// The question whether a document would be accepted names the job and the
/// format.
pub proof fn a_validate_document_request_says_what_format(
    printer: IppPrinterView,
    job: JobId,
    format: Seq<char>,
)
    ensures
        ({
            let r = validate_document_asked(printer, job, format);
            &&& byte_len(format) <= 255 ==> made_if_fit(r, printer.uri, printer.client.user)
            &&& byte_len(format) > 255 ==> r is Err
            &&& byte_len(format) > 255 && byte_len(uri_written(uri_canonical(printer.uri))) <= 1023
                && byte_len(printer.client.user) <= 255 ==> r == Err::<Request, ErrorView>(
                ErrorView::Decode { attribute: "document-format"@, detail: "value too long"@ },
            )
            &&& r matches Ok(request) ==> {
                &&& is_plain_request(request, 0x003D, 6)
                &&& addressed(request, uri_written(uri_canonical(printer.uri)))
                &&& says(
                    request,
                    "requesting-user-name"@,
                    Content::NameWithoutLanguage(printer.client.user),
                )
                &&& says(request, "job-id"@, Content::Integer(job))
                &&& says(request, "document-format"@, Content::MimeMediaType(format))
            }
        }),
{
    if let Ok(request) = validate_document_asked(printer, job, format) {
        lemma_names();
        let a = request.groups[0].attributes;
        lemma_says(a, 2);
        lemma_says(a, 3);
        lemma_says(a, 4);
        lemma_says(a, 5);
    }
}

/// Closing a job sends nothing where it is closed already, and else names the
/// job and its printer.
pub proof fn only_an_open_job_is_closed(job: IppJobView)
    ensures
        job.closed ==> close_asked(job) == Ok::<Option<Request>, ErrorView>(None),
        !job.closed ==> match close_asked(job) {
            Err(e) => made_if_fit(Err(e), job.printer.uri, job.printer.client.user),
            Ok(None) => false,
            Ok(Some(request)) => {
                &&& made_if_fit(Ok(request), job.printer.uri, job.printer.client.user)
                &&& is_plain_request(request, 0x003B, 5)
                &&& addressed(request, uri_written(uri_canonical(job.printer.uri)))
                &&& says(request, "job-id"@, Content::Integer(job.id))
                &&& says(
                    request,
                    "requesting-user-name"@,
                    Content::NameWithoutLanguage(job.printer.client.user),
                )
            },
        },
{
    a_job_action_says_what_it_is_about(
        job.printer.client.user,
        Operation::CloseJob,
        job.printer.uri,
        job.id,
    );
}

/// A job is closed by its last document and by no other, stays closed, and
/// remains the same job on the same printer.
pub proof fn only_the_last_document_closes(job: IppJobView, last: bool)
    ensures
        with_document(job, last).closed <==> job.closed || last,
        with_document(job, last).id == job.id,
        with_document(job, last).printer == job.printer,
{
}

} // verus!
