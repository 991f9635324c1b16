//! What is put into a request is what is read out of one, and what is asked for
//! is what the decoders read.

use vstd::prelude::*;
use ipp::prelude::Uri;
use crate::attrs::{int_at, text_at};
use crate::client::queue_uri;
use crate::job::{job_of, JobId};
use crate::operations::Operation;
use crate::options::options_of;
use crate::printer::{class_of, ppd_of, printer_of};
use crate::requests::{
    class_attributes, identify_asked, job_action_asked, job_asked, job_attributes, jobs_asked,
    keywords, move_asked, ppd_attributes, printer_attributes, printers_asked, requested,
    IdentifyAction, WhichJobs,
};
use crate::wire::{lookup, uri_canonical, uri_written, Attribute, Content, GroupTag, Request};

verus! {

/// Two groups hold the same under each of several names.
pub open spec fn agree_on(a: Seq<Attribute>, b: Seq<Attribute>, names: Seq<Seq<char>>) -> bool {
    forall|i: int| 0 <= i < names.len() ==> lookup(a, #[trigger] names[i]) == lookup(b, names[i])
}

/// Two groups that hold the same under the names of the options offer the same.
proof fn lemma_same_options(a: Seq<Attribute>, b: Seq<Attribute>)
    requires
        lookup(a, "media-supported"@) == lookup(b, "media-supported"@),
        lookup(a, "media-default"@) == lookup(b, "media-default"@),
        lookup(a, "sides-supported"@) == lookup(b, "sides-supported"@),
        lookup(a, "sides-default"@) == lookup(b, "sides-default"@),
        lookup(a, "print-color-mode-supported"@) == lookup(b, "print-color-mode-supported"@),
        lookup(a, "print-color-mode-default"@) == lookup(b, "print-color-mode-default"@),
        lookup(a, "print-quality-supported"@) == lookup(b, "print-quality-supported"@),
        lookup(a, "print-quality-default"@) == lookup(b, "print-quality-default"@),
        lookup(a, "output-bin-supported"@) == lookup(b, "output-bin-supported"@),
        lookup(a, "output-bin-default"@) == lookup(b, "output-bin-default"@),
    ensures
        options_of(a) == options_of(b),
{
}

/// `names` are those of the attributes a printer is decoded from.
spec fn names_a_printer(names: Seq<Seq<char>>) -> bool {
    &&& names.len() == 23
    &&& names[0] == "printer-name"@
    &&& names[1] == "printer-uri-supported"@
    &&& names[2] == "device-uri"@
    &&& names[3] == "printer-info"@
    &&& names[4] == "printer-location"@
    &&& names[5] == "printer-state"@
    &&& names[6] == "printer-state-reasons"@
    &&& names[7] == "printer-is-accepting-jobs"@
    &&& names[8] == "marker-names"@
    &&& names[9] == "marker-levels"@
    &&& names[10] == "marker-types"@
    &&& names[11] == "marker-colors"@
    &&& names[12] == "marker-low-levels"@
    &&& names[13] == "media-supported"@
    &&& names[14] == "media-default"@
    &&& names[15] == "sides-supported"@
    &&& names[16] == "sides-default"@
    &&& names[17] == "print-color-mode-supported"@
    &&& names[18] == "print-color-mode-default"@
    &&& names[19] == "print-quality-supported"@
    &&& names[20] == "print-quality-default"@
    &&& names[21] == "output-bin-supported"@
    &&& names[22] == "output-bin-default"@
}

/// A printer is read from the attributes of these names and no others.
proof fn lemma_same_printer(a: Seq<Attribute>, b: Seq<Attribute>, names: Seq<Seq<char>>)
    requires
        names_a_printer(names),
        agree_on(a, b, names),
    ensures
        printer_of(a) == printer_of(b),
{
    lemma_same_options(a, b);
}

/// A printer is read from the attributes that are requested and no others: a
/// reply that carries those says all there is to say.
pub proof fn a_printer_is_read_from_what_is_requested(a: Seq<Attribute>, b: Seq<Attribute>)
    requires
        agree_on(a, b, printer_attributes()),
    ensures
        printer_of(a) == printer_of(b),
{
    assert(names_a_printer(printer_attributes()));
    lemma_same_printer(a, b, printer_attributes());
}

/// A job is read from the attributes that are requested and no others.
pub proof fn a_job_is_read_from_what_is_requested(a: Seq<Attribute>, b: Seq<Attribute>)
    requires
        agree_on(a, b, job_attributes()),
    ensures
        job_of(a) == job_of(b),
{
    let names = job_attributes();
    assert(names[0] == "job-id"@);
    assert(names[1] == "job-state"@);
    assert(names[2] == "job-state-reasons"@);
    assert(names[3] == "job-name"@);
    assert(names[4] == "job-printer-uri"@);
    assert(names[5] == "job-originating-user-name"@);
    assert(names[6] == "time-at-creation"@);
    assert(names[7] == "time-at-completed"@);
    assert(names[8] == "job-impressions"@);
    assert(names[9] == "job-impressions-completed"@);
}

/// A class is read from the attributes that are requested and no others.
pub proof fn a_class_is_read_from_what_is_requested(a: Seq<Attribute>, b: Seq<Attribute>)
    requires
        agree_on(a, b, class_attributes()),
    ensures
        class_of(a) == class_of(b),
{
    let names = class_attributes();
    assert(names[0] == "printer-name"@);
    assert(names[1] == "member-names"@);
}

/// A driver is read from the attributes that are requested and no others.
pub proof fn a_driver_is_read_from_what_is_requested(a: Seq<Attribute>, b: Seq<Attribute>)
    requires
        agree_on(a, b, ppd_attributes()),
    ensures
        ppd_of(a) == ppd_of(b),
{
    let names = ppd_attributes();
    assert(names[0] == "ppd-name"@);
    assert(names[1] == "ppd-make-and-model"@);
    assert(names[2] == "ppd-device-id"@);
}

/// The attributes a request asks for.
pub open spec fn asks_for(request: Request) -> Option<Content> {
    lookup(request.groups[0].attributes, "requested-attributes"@)
}

/// The first attribute of a name is found where it stands, if no other before
/// it has that name.
proof fn lemma_lookup(attributes: Seq<Attribute>, name: Seq<char>, at: int)
    requires
        0 <= at < attributes.len(),
        attributes[at].name == name,
        forall|i: int| 0 <= i < at ==> (#[trigger] attributes[i]).name != name,
    ensures
        lookup(attributes, name) == Some(attributes[at].value),
    decreases at,
{
    if at > 0 {
        assert(attributes[0].name != name);
        let rest = attributes.drop_first();
        assert(rest[at - 1] == attributes[at]);
        assert forall|i: int| 0 <= i < at - 1 implies (#[trigger] rest[i]).name != name by {
            assert(rest[i] == attributes[i + 1]);
        }
        lemma_lookup(rest, name, at - 1);
    }
}

/// The names that stand before `requested-attributes` are others.
proof fn lemma_names_before()
    ensures
        "attributes-charset"@ != "requested-attributes"@,
        "attributes-natural-language"@ != "requested-attributes"@,
        "printer-uri"@ != "requested-attributes"@,
        "job-id"@ != "requested-attributes"@,
        "requesting-user-name"@ != "requested-attributes"@,
{
    reveal_strlit("attributes-charset");
    reveal_strlit("attributes-natural-language");
    reveal_strlit("printer-uri");
    reveal_strlit("job-id");
    reveal_strlit("requesting-user-name");
    reveal_strlit("requested-attributes");
    assert("attributes-charset"@[0] != "requested-attributes"@[0]);
    assert("attributes-natural-language"@[0] != "requested-attributes"@[0]);
    assert("printer-uri"@[0] != "requested-attributes"@[0]);
    assert("job-id"@[0] != "requested-attributes"@[0]);
    assert("requesting-user-name"@[7] != "requested-attributes"@[7]);
}

/// Listing the jobs and reading one ask for the same attributes, those a job is
/// decoded from, so a job decodes the same whichever way it was read.
pub proof fn job_requests_ask_for_the_same(
    base: Seq<char>,
    user: Seq<char>,
    which: WhichJobs,
    printer: Seq<char>,
    id: JobId,
)
    ensures
        jobs_asked(base, user, which) matches Ok(request) ==> asks_for(request) == Some(
            Content::Array(keywords(job_attributes())),
        ),
        job_asked(base, user, printer, id) matches Ok(request) ==> asks_for(request) == Some(
            Content::Array(keywords(job_attributes())),
        ),
{
    lemma_names_before();
    if let Ok(request) = jobs_asked(base, user, which) {
        let attributes = request.groups[0].attributes;
        assert(attributes[4] == requested(job_attributes()));
        lemma_lookup(attributes, "requested-attributes"@, 4);
    }
    if let Ok(request) = job_asked(base, user, printer, id) {
        let attributes = request.groups[0].attributes;
        assert(attributes[5] == requested(job_attributes()));
        lemma_lookup(attributes, "requested-attributes"@, 5);
    }
}

/// Listing the printers asks for the attributes a printer is decoded from.
pub proof fn the_printers_request_asks_for_what_is_read()
    ensures
        asks_for(printers_asked()) == Some(Content::Array(keywords(printer_attributes()))),
{
    lemma_names_before();
    let attributes = printers_asked().groups[0].attributes;
    assert(attributes[2] == requested(printer_attributes()));
    lemma_lookup(attributes, "requested-attributes"@, 2);
}

/// A request to do something to a job reads back as naming that job, the user
/// and the printer, under a header of its own operation.
pub proof fn a_job_action_names_what_it_is_about(
    user: Seq<char>,
    operation: Operation,
    uri: Uri,
    id: JobId,
)
    ensures
        job_action_asked(user, operation, uri, id) matches Ok(request) ==> {
            let attributes = request.groups[0].attributes;
            &&& request.code == operation.opcode()
            &&& int_at(attributes, "job-id"@) == Some(id)
            &&& text_at(attributes, "requesting-user-name"@) == Some(user)
            &&& text_at(attributes, "printer-uri"@) == Some(uri_written(uri_canonical(uri)))
        },
{
    reveal_strlit("attributes-charset");
    reveal_strlit("attributes-natural-language");
    reveal_strlit("printer-uri");
    reveal_strlit("job-id");
    reveal_strlit("requesting-user-name");
    assert("attributes-charset"@.len() == 18);
    assert("attributes-natural-language"@.len() == 27);
    assert("printer-uri"@.len() == 11);
    assert("job-id"@.len() == 6);
    assert("requesting-user-name"@.len() == 20);
    if let Ok(request) = job_action_asked(user, operation, uri, id) {
        let attributes = request.groups[0].attributes;
        lemma_lookup(attributes, "printer-uri"@, 2);
        lemma_lookup(attributes, "job-id"@, 3);
        lemma_lookup(attributes, "requesting-user-name"@, 4);
    }
}

/// A request to move a job names the job in the operation group and where it
/// goes in the job group, and nothing else goes there.
pub proof fn a_move_names_its_destination_in_the_job_group(
    base: Seq<char>,
    user: Seq<char>,
    printer: Seq<char>,
    id: JobId,
    destination: Seq<char>,
)
    ensures
        move_asked(base, user, printer, id, destination) matches Ok(request) ==> {
            &&& request.groups.len() == 2
            &&& request.code == Operation::CupsMoveJob.opcode()
            &&& int_at(request.groups[0].attributes, "job-id"@) == Some(id)
            &&& request.groups[1].tag == GroupTag::Job.code()
            &&& request.groups[1].attributes.len() == 1
            &&& queue_uri(base, destination) matches Ok(target) && text_at(
                request.groups[1].attributes,
                "job-printer-uri"@,
            ) == Some(uri_written(target))
        },
{
    if let Ok(request) = move_asked(base, user, printer, id, destination) {
        let uri = queue_uri(base, printer)->Ok_0;
        a_job_action_names_what_it_is_about(user, Operation::CupsMoveJob, uri, id);
        lemma_lookup(request.groups[1].attributes, "job-printer-uri"@, 0);
    }
}

/// A request that a printer show a message carries that message, and one that
/// it flash or make a noise carries none.
pub proof fn only_a_display_carries_a_message(
    user: Seq<char>,
    uri: Uri,
    action: IdentifyAction,
)
    ensures
        identify_asked(user, uri, action) matches Ok(request) ==> {
            let attributes = request.groups[0].attributes;
            &&& request.code == Operation::IdentifyPrinter.opcode()
            &&& text_at(attributes, "identify-actions"@) == Some(action.word())
            &&& text_at(attributes, "message"@) == (match action {
                IdentifyAction::Display(text) => Some(text@),
                _ => None,
            })
        },
{
    reveal_strlit("attributes-charset");
    reveal_strlit("attributes-natural-language");
    reveal_strlit("printer-uri");
    reveal_strlit("requesting-user-name");
    reveal_strlit("identify-actions");
    reveal_strlit("message");
    assert("attributes-charset"@.len() == 18);
    assert("attributes-natural-language"@.len() == 27);
    assert("printer-uri"@.len() == 11);
    assert("requesting-user-name"@.len() == 20);
    assert("identify-actions"@.len() == 16);
    assert("message"@.len() == 7);
    if let Ok(request) = identify_asked(user, uri, action) {
        let attributes = request.groups[0].attributes;
        lemma_lookup(attributes, "identify-actions"@, 4);
        if action is Display {
            assert(attributes[5] == action.message()[0]);
            lemma_lookup(attributes, "message"@, 5);
        } else {
            assert(attributes.len() == 5);
            lemma_absent(attributes, "message"@);
        }
    }
}

/// Nothing is found under a name that no attribute has.
proof fn lemma_absent(attributes: Seq<Attribute>, name: Seq<char>)
    requires
        forall|i: int| 0 <= i < attributes.len() ==> (#[trigger] attributes[i]).name != name,
    ensures
        lookup(attributes, name) is None,
    decreases attributes.len(),
{
    if attributes.len() > 0 {
        assert(attributes[0].name != name);
        let rest = attributes.drop_first();
        assert forall|i: int| 0 <= i < rest.len() implies (#[trigger] rest[i]).name != name by {
            assert(rest[i] == attributes[i + 1]);
        }
        lemma_absent(rest, name);
    }
}

} // verus!
