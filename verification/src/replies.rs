//! What a client makes of the replies it gets.

use vstd::prelude::*;
use ipp::attribute::IppAttributeGroup;
use ipp::request::IppRequestResponse;
use crate::attrs::{int_at, text_at, Attrs};
use crate::client::Client;
use crate::clock::{duration_of, length_of};
use crate::error::{decode_failure, fails_with, outcome, Error, ErrorView};
use crate::job::{brief_job_of, job_of, Job, JobId, JobView};
use crate::lists::viewed;
use crate::operations::Operation;
use crate::printer::{
    class_of, ppd_of, printer_of, Class, ClassView, Ppd, PpdView, Printer, PrinterView,
};
use crate::subscription::{
    decode_all, decode_errors, missing, notification_of, readable, subscription_of, unreadable,
    Notification, NotificationView, Notifications, NotificationsView, Subscription,
    SubscriptionView,
};
use crate::text::{same_text, view_of};
use crate::wire::{
    code_of, delimiter, group_attributes, groups_of, is_success, message_code, message_groups,
    status_name, status_text, tagged, Attribute, Group, GroupTag,
};

verus! {

/// The status `client-error-not-found`.
pub const NOT_FOUND: i16 = 0x0406;

/// What a status says of an operation: nothing where it succeeded, and else
/// that it was refused, and how.
pub open spec fn status_error(code: i16, operation: Seq<char>) -> Option<ErrorView> {
    if 0 <= code <= 2 {
        None
    } else {
        Some(ErrorView::Ipp { operation, status: status_name(code) })
    }
}

/// What a reply to an operation comes to: nothing where it arrived and reports
/// success, and else what went wrong.
pub open spec fn reply_error(
    reply: Result<IppRequestResponse, Error>,
    operation: Operation,
) -> Option<ErrorView> {
    match reply {
        Ok(message) => status_error(message_code(message), operation.title()),
        Err(e) => Some(e@),
    }
}

/// The groups of a message with this tag.
pub open spec fn groups_in(message: IppRequestResponse, tag: GroupTag) -> Seq<Group> {
    tagged(message_groups(message), tag.code())
}

/// A list of groups holds these, in order.
pub open spec fn holds_groups(list: Seq<&IppAttributeGroup>, groups: Seq<Group>) -> bool {
    &&& list.len() == groups.len()
    &&& forall|i: int|
        0 <= i < list.len() ==> group_attributes(*#[trigger] list[i]) == groups[i].attributes
}

/// What a printer group describes.
pub open spec fn reading_printer() -> spec_fn(Seq<Attribute>) -> Result<PrinterView, ErrorView> {
    |a: Seq<Attribute>| printer_of(a)
}

/// What a job group describes, in full or in brief.
pub open spec fn reading_job(detailed: bool) -> spec_fn(Seq<Attribute>) -> Result<
    JobView,
    ErrorView,
> {
    |a: Seq<Attribute>|
        if detailed {
            job_of(a)
        } else {
            brief_job_of(a)
        }
}

/// What a class group describes.
pub open spec fn reading_class() -> spec_fn(Seq<Attribute>) -> Result<ClassView, ErrorView> {
    |a: Seq<Attribute>| class_of(a)
}

/// What a driver group describes.
pub open spec fn reading_ppd() -> spec_fn(Seq<Attribute>) -> Result<PpdView, ErrorView> {
    |a: Seq<Attribute>| ppd_of(a)
}

/// What a subscription group describes.
pub open spec fn reading_subscription() -> spec_fn(Seq<Attribute>) -> Result<
    SubscriptionView,
    ErrorView,
> {
    |a: Seq<Attribute>| subscription_of(a)
}

/// What a notification group describes.
pub open spec fn reading_notification() -> spec_fn(Seq<Attribute>) -> Result<
    NotificationView,
    ErrorView,
> {
    |a: Seq<Attribute>| notification_of(a)
}

/// A printer, marked as the default where it has the default's name.
pub open spec fn marked(printer: PrinterView, default: Option<Seq<char>>) -> PrinterView {
    PrinterView { is_default: default == Some(printer.name), ..printer }
}

/// Several printers, of which those with the default's name are marked.
pub open spec fn all_marked(printers: Seq<PrinterView>, default: Option<Seq<char>>) -> Seq<
    PrinterView,
> {
    printers.map_values(|printer: PrinterView| marked(printer, default))
}

/// The printers in a reply.
pub open spec fn printers_in(message: IppRequestResponse, default: Option<&str>) -> Seq<
    PrinterView,
> {
    all_marked(
        readable(groups_in(message, GroupTag::Printer), reading_printer()),
        match default {
            Some(name) => Some(name@),
            None => None,
        },
    )
}

/// The jobs in a reply, in full or in brief.
pub open spec fn jobs_in(message: IppRequestResponse, detailed: bool) -> Seq<JobView> {
    readable(groups_in(message, GroupTag::Job), reading_job(detailed))
}

/// The first printer in a reply, or why there is none.
pub open spec fn printer_in(message: IppRequestResponse) -> Result<PrinterView, ErrorView> {
    let groups = groups_in(message, GroupTag::Printer);
    if groups.len() == 0 {
        Err(decode_failure("printer-attributes"@, "no printer group in response"@))
    } else {
        printer_of(groups[0].attributes)
    }
}

/// The default queue a reply names.
pub open spec fn default_in(message: IppRequestResponse) -> Option<Seq<char>> {
    let groups = groups_in(message, GroupTag::Printer);
    if groups.len() == 0 {
        None
    } else {
        text_at(groups[0].attributes, "printer-name"@)
    }
}

/// The id of the job a reply reports, or why there is none.
pub open spec fn job_id_in(message: IppRequestResponse) -> Result<JobId, ErrorView> {
    let groups = groups_in(message, GroupTag::Job);
    let id = if groups.len() == 0 {
        None
    } else {
        int_at(groups[0].attributes, "job-id"@)
    };
    match id {
        Some(id) => Ok(id),
        None => Err(decode_failure("job-id"@, "absent from the Print-Job reply"@)),
    }
}

/// The subscriptions in a reply.
pub open spec fn subscriptions_in(message: IppRequestResponse) -> Seq<SubscriptionView> {
    readable(groups_in(message, GroupTag::Subscription), reading_subscription())
}

/// The first subscription in a reply, or why there is none.
pub open spec fn subscription_in(message: IppRequestResponse) -> Result<
    SubscriptionView,
    ErrorView,
> {
    let all = subscriptions_in(message);
    if all.len() == 0 {
        Err(decode_failure("notify-subscription-id"@, "not present in the response"@))
    } else {
        Ok(all[0])
    }
}

/// The notifications in a reply, and how long it asks to wait before the next.
pub open spec fn notifications_in(message: IppRequestResponse) -> NotificationsView {
    let operation = groups_in(message, GroupTag::Operation);
    NotificationsView {
        events: readable(
            groups_in(message, GroupTag::EventNotification),
            reading_notification(),
        ),
        poll_after: if operation.len() == 0 {
            None
        } else {
            length_of(int_at(operation[0].attributes, "notify-get-interval"@))
        },
    }
}

/// What a reply lists, one group each.
#[derive(Debug, Clone, Copy, PartialEq, Eq)]
pub enum Listing {
    Printers,
    Classes,
    Drivers,
    Jobs,
    Subscriptions,
    Notifications,
}

impl Listing {
    /// What one of those listed is called.
    pub open spec fn word(self) -> Seq<char> {
        match self {
            Listing::Printers => "printer"@,
            Listing::Classes => "class"@,
            Listing::Drivers => "driver"@,
            Listing::Jobs => "job"@,
            Listing::Subscriptions => "subscription"@,
            Listing::Notifications => "notification"@,
        }
    }

    /// What one of those listed is called.
    pub fn noun(self) -> (r: &'static str)
        ensures
            r@ == self.word(),
    {
        match self {
            Listing::Printers => "printer",
            Listing::Classes => "class",
            Listing::Drivers => "driver",
            Listing::Jobs => "job",
            Listing::Subscriptions => "subscription",
            Listing::Notifications => "notification",
        }
    }
}

/// Why each group of a listing that was left out of it was, in order.
pub open spec fn skipped_in(message: IppRequestResponse, listing: Listing) -> Seq<ErrorView> {
    match listing {
        Listing::Printers => unreadable(
            groups_in(message, GroupTag::Printer),
            reading_printer(),
        ),
        Listing::Classes => unreadable(groups_in(message, GroupTag::Printer), reading_class()),
        Listing::Drivers => unreadable(groups_in(message, GroupTag::Printer), reading_ppd()),
        Listing::Jobs => unreadable(groups_in(message, GroupTag::Job), reading_job(true)),
        Listing::Subscriptions => unreadable(
            groups_in(message, GroupTag::Subscription),
            reading_subscription(),
        ),
        Listing::Notifications => unreadable(
            groups_in(message, GroupTag::EventNotification),
            reading_notification(),
        ),
    }
}

/// Why each group of a listing that cannot be read was left out of it, in
/// order, so that a caller can say so.
pub fn skipped(resp: &IppRequestResponse, listing: Listing) -> (r: Vec<Error>)
    ensures
        viewed(r@) == skipped_in(*resp, listing),
{
    match listing {
        Listing::Printers => decode_errors(
            resp,
            GroupTag::Printer,
            Printer::decode,
            Ghost(reading_printer()),
        ),
        Listing::Classes => decode_errors(
            resp,
            GroupTag::Printer,
            Class::decode,
            Ghost(reading_class()),
        ),
        Listing::Drivers => decode_errors(
            resp,
            GroupTag::Printer,
            Ppd::decode,
            Ghost(reading_ppd()),
        ),
        Listing::Jobs => decode_errors(
            resp,
            GroupTag::Job,
            Job::decode,
            Ghost(reading_job(true)),
        ),
        Listing::Subscriptions => decode_errors(
            resp,
            GroupTag::Subscription,
            Subscription::decode,
            Ghost(reading_subscription()),
        ),
        Listing::Notifications => decode_errors(
            resp,
            GroupTag::EventNotification,
            Notification::decode,
            Ghost(reading_notification()),
        ),
    }
}

/// Jobs read in brief and jobs read in full leave out the same groups, for the
/// same reasons.
pub proof fn brief_jobs_are_skipped_alike(groups: Seq<Group>)
    ensures
        unreadable(groups, reading_job(false)) == unreadable(groups, reading_job(true)),
    decreases groups.len(),
{
    if groups.len() > 0 {
        brief_jobs_are_skipped_alike(groups.drop_last());
    }
}

/// The first group with this tag.
fn first_group(resp: &IppRequestResponse, tag: GroupTag) -> (r: Option<&IppAttributeGroup>)
    ensures
        r is Some <==> groups_in(*resp, tag).len() > 0,
        r matches Some(group) ==> group_attributes(*group) == groups_in(*resp, tag)[0].attributes,
{
    let groups = groups_of(resp, delimiter(tag));
    if groups.len() > 0 {
        Some(groups[0])
    } else {
        None
    }
}

/// The first of several values.
fn first_of<T>(values: Vec<T>) -> (r: Option<T>)
    ensures
        r == (if values@.len() > 0 {
            Some(values@[0])
        } else {
            None
        }),
{
    let mut rest = values;
    if rest.len() > 0 {
        Some(rest.remove(0))
    } else {
        None
    }
}

impl<const DETAILED: bool> Client<DETAILED> {
    /// Fails where the reply reports that `op` was refused.
    pub fn check_status(resp: &IppRequestResponse, op: &str) -> (r: Result<(), Error>)
        ensures
            match status_error(message_code(*resp), op@) {
                None => r is Ok,
                Some(e) => fails_with(r, e),
            },
    {
        if is_success(resp) {
            Ok(())
        } else {
            Err(Error::Ipp { operation: op.to_string(), status: status_text(resp) })
        }
    }

    /// A reply that arrived and reports success, or what went wrong.
    pub fn checked(
        reply: Result<IppRequestResponse, Error>,
        operation: Operation,
    ) -> (r: Result<IppRequestResponse, Error>)
        ensures
            match reply_error(reply, operation) {
                None => r == reply,
                Some(e) => fails_with(r, e),
            },
    {
        match reply {
            Ok(resp) => match Self::check_status(&resp, operation.label()) {
                Ok(_) => Ok(resp),
                Err(e) => Err(e),
            },
            Err(e) => Err(e),
        }
    }

    /// Decodes every printer group, skipping ones that fail, and marks the
    /// default.
    pub fn decode_printers(resp: &IppRequestResponse, default: Option<&str>) -> (r: Vec<Printer>)
        ensures
            viewed(r@) == printers_in(*resp, default),
    {
        let mut printers = decode_all(
            resp,
            GroupTag::Printer,
            Printer::decode,
            Ghost(reading_printer()),
        );
        let ghost plain = viewed(printers@);
        let ghost name = match default {
            Some(name) => Some(name@),
            None => None,
        };
        let mut out: Vec<Printer> = Vec::new();
        let mut i: usize = 0;
        while i < printers.len()
            invariant
                i <= printers.len(),
                plain == viewed(printers@),
                name == (match default {
                    Some(name) => Some(name@),
                    None => None,
                }),
                out.len() == i,
                forall|j: int| 0 <= j < i ==> (#[trigger] out@[j])@ == marked(plain[j], name),
            decreases printers.len() - i,
        {
            let mut printer = printers[i].clone();
            printer.is_default = match default {
                Some(chosen) => same_text(chosen, printer.name.as_str()),
                None => false,
            };
            assert(plain[i as int] == printers@[i as int]@);
            out.push(printer);
            i += 1;
        }
        assert(viewed(out@) =~= all_marked(plain, name));
        out
    }

    /// Decodes every job group, skipping ones that fail, in full or in brief as
    /// the client reads jobs.
    pub fn decode_jobs(resp: &IppRequestResponse) -> (r: Vec<Job>)
        ensures
            viewed(r@) == jobs_in(*resp, DETAILED),
    {
        if DETAILED {
            decode_all(resp, GroupTag::Job, Job::decode, Ghost(reading_job(DETAILED)))
        } else {
            decode_all(resp, GroupTag::Job, Job::decode_brief, Ghost(reading_job(DETAILED)))
        }
    }

    /// Reads the job id CUPS assigned from a `Print-Job` reply.
    pub fn decode_job_id(resp: &IppRequestResponse) -> (r: Result<JobId, Error>)
        ensures
            match job_id_in(*resp) {
                Ok(id) => r == Ok::<JobId, Error>(id),
                Err(e) => fails_with(r, e),
            },
    {
        let id = match first_group(resp, GroupTag::Job) {
            Some(group) => Attrs::new(group).integer("job-id"),
            None => None,
        };
        match id {
            Some(id) => Ok(id),
            None => Err(Error::decode("job-id", "absent from the Print-Job reply")),
        }
    }

    /// What a `CUPS-Get-Printers` reply says.
    pub fn printers_reply(resp: &IppRequestResponse, default: Option<&str>) -> (r: Result<
        Vec<Printer>,
        Error,
    >)
        ensures
            match status_error(message_code(*resp), "CUPS-Get-Printers"@) {
                None => r matches Ok(printers) && viewed(printers@) == printers_in(
                    *resp,
                    default,
                ),
                Some(e) => fails_with(r, e),
            },
    {
        match Self::check_status(resp, "CUPS-Get-Printers") {
            Ok(_) => Ok(Self::decode_printers(resp, default)),
            Err(e) => Err(e),
        }
    }

    /// What a `CUPS-Get-Default` reply says.
    pub fn default_reply(resp: &IppRequestResponse) -> (r: Result<Option<String>, Error>)
        ensures
            match status_error(message_code(*resp), "CUPS-Get-Default"@) {
                None => r matches Ok(name) && view_of(name) == default_in(*resp),
                Some(e) => fails_with(r, e),
            },
    {
        match Self::check_status(resp, "CUPS-Get-Default") {
            Ok(_) => Ok(
                match first_group(resp, GroupTag::Printer) {
                    Some(group) => Attrs::new(group).text("printer-name"),
                    None => None,
                },
            ),
            Err(e) => Err(e),
        }
    }

    /// What a `CUPS-Get-Classes` reply says.
    pub fn classes_reply(resp: &IppRequestResponse) -> (r: Result<Vec<Class>, Error>)
        ensures
            match status_error(message_code(*resp), "CUPS-Get-Classes"@) {
                None => r matches Ok(classes) && viewed(classes@) == readable(
                    groups_in(*resp, GroupTag::Printer),
                    reading_class(),
                ),
                Some(e) => fails_with(r, e),
            },
    {
        match Self::check_status(resp, "CUPS-Get-Classes") {
            Ok(_) => Ok(
                decode_all(resp, GroupTag::Printer, Class::decode, Ghost(reading_class())),
            ),
            Err(e) => Err(e),
        }
    }

    /// What a `CUPS-Get-PPDs` reply says.
    pub fn ppds_reply(resp: &IppRequestResponse) -> (r: Result<Vec<Ppd>, Error>)
        ensures
            match status_error(message_code(*resp), "CUPS-Get-PPDs"@) {
                None => r matches Ok(ppds) && viewed(ppds@) == readable(
                    groups_in(*resp, GroupTag::Printer),
                    reading_ppd(),
                ),
                Some(e) => fails_with(r, e),
            },
    {
        match Self::check_status(resp, "CUPS-Get-PPDs") {
            Ok(_) => Ok(decode_all(resp, GroupTag::Printer, Ppd::decode, Ghost(reading_ppd()))),
            Err(e) => Err(e),
        }
    }

    /// What a `Get-Jobs` reply says.
    pub fn jobs_reply(resp: &IppRequestResponse) -> (r: Result<Vec<Job>, Error>)
        ensures
            match status_error(message_code(*resp), "Get-Jobs"@) {
                None => r matches Ok(jobs) && viewed(jobs@) == jobs_in(*resp, DETAILED),
                Some(e) => fails_with(r, e),
            },
    {
        match Self::check_status(resp, "Get-Jobs") {
            Ok(_) => Ok(Self::decode_jobs(resp)),
            Err(e) => Err(e),
        }
    }

    /// What a `Get-Job-Attributes` reply says.
    ///
    /// `Ok(None)` when CUPS no longer knows the job, so a caller can tell
    /// "gone" from "the daemon is unreachable" and stay silent rather than
    /// guess at an outcome. A job aged out of the history is a normal outcome,
    /// not a failure.
    pub fn job_reply(resp: &IppRequestResponse) -> (r: Result<Option<Job>, Error>)
        ensures
            message_code(*resp) == NOT_FOUND ==> r == Ok::<Option<Job>, Error>(None),
            message_code(*resp) != NOT_FOUND ==> match status_error(
                message_code(*resp),
                "Get-Job-Attributes"@,
            ) {
                None => match r {
                    Ok(Some(job)) => jobs_in(*resp, DETAILED).len() > 0 && job@ == jobs_in(
                        *resp,
                        DETAILED,
                    )[0],
                    Ok(None) => jobs_in(*resp, DETAILED).len() == 0,
                    Err(_) => false,
                },
                Some(e) => fails_with(r, e),
            },
    {
        if code_of(resp) == NOT_FOUND {
            return Ok(None);
        }
        match Self::check_status(resp, "Get-Job-Attributes") {
            Ok(_) => {
                let jobs = Self::decode_jobs(resp);
                proof {
                    if jobs@.len() > 0 {
                        assert(viewed(jobs@)[0] == jobs@[0]@);
                    }
                }
                Ok(first_of(jobs))
            },
            Err(e) => Err(e),
        }
    }

    /// What a `Get-Printer-Attributes` reply says.
    pub fn printer_reply(resp: &IppRequestResponse) -> (r: Result<Printer, Error>)
        ensures
            match status_error(message_code(*resp), "Get-Printer-Attributes"@) {
                None => outcome(r) == printer_in(*resp),
                Some(e) => fails_with(r, e),
            },
    {
        match Self::check_status(resp, "Get-Printer-Attributes") {
            Ok(_) => match first_group(resp, GroupTag::Printer) {
                Some(group) => Printer::decode(group),
                None => Err(Error::decode("printer-attributes", "no printer group in response")),
            },
            Err(e) => Err(e),
        }
    }

    /// The id of the job that a reply to `operation` reports.
    pub fn job_id_reply(resp: &IppRequestResponse, operation: Operation) -> (r: Result<
        JobId,
        Error,
    >)
        ensures
            match status_error(message_code(*resp), operation.title()) {
                None => match job_id_in(*resp) {
                    Ok(id) => r == Ok::<JobId, Error>(id),
                    Err(e) => fails_with(r, e),
                },
                Some(e) => fails_with(r, e),
            },
    {
        match Self::check_status(resp, operation.label()) {
            Ok(_) => Self::decode_job_id(resp),
            Err(e) => Err(e),
        }
    }

    /// The subscriptions that a reply to `operation` reports.
    pub fn subscriptions_reply(resp: &IppRequestResponse, operation: Operation) -> (r: Result<
        Vec<Subscription>,
        Error,
    >)
        ensures
            match status_error(message_code(*resp), operation.title()) {
                None => r matches Ok(all) && viewed(all@) == subscriptions_in(*resp),
                Some(e) => fails_with(r, e),
            },
    {
        match Self::check_status(resp, operation.label()) {
            Ok(_) => Ok(
                decode_all(
                    resp,
                    GroupTag::Subscription,
                    Subscription::decode,
                    Ghost(reading_subscription()),
                ),
            ),
            Err(e) => Err(e),
        }
    }

    /// The one subscription that a reply to `operation` reports.
    pub fn subscription_reply(resp: &IppRequestResponse, operation: Operation) -> (r: Result<
        Subscription,
        Error,
    >)
        ensures
            match status_error(message_code(*resp), operation.title()) {
                None => outcome(r) == subscription_in(*resp),
                Some(e) => fails_with(r, e),
            },
    {
        match Self::subscriptions_reply(resp, operation) {
            Ok(all) => {
                proof {
                    if all@.len() > 0 {
                        assert(viewed(all@)[0] == all@[0]@);
                    }
                }
                match first_of(all) {
                    Some(subscription) => Ok(subscription),
                    None => Err(missing("notify-subscription-id")),
                }
            },
            Err(e) => Err(e),
        }
    }

    /// The groups of a `Get-Documents` reply that describe a document each.
    ///
    /// Part of IPP's Document Object extension, which many printers do not
    /// implement - CUPS included. An unsupporting server's answer is an error
    /// rather than an empty list, so "no documents" and "cannot tell you" stay
    /// distinguishable.
    pub fn documents_reply(resp: &IppRequestResponse) -> (r: Result<
        Vec<&IppAttributeGroup>,
        Error,
    >)
        ensures
            match status_error(message_code(*resp), "Get-Documents"@) {
                None => r matches Ok(groups) && holds_groups(
                    groups@,
                    groups_in(*resp, GroupTag::Document),
                ),
                Some(e) => fails_with(r, e),
            },
    {
        match Self::check_status(resp, "Get-Documents") {
            Ok(_) => Ok(groups_of(resp, delimiter(GroupTag::Document))),
            Err(e) => Err(e),
        }
    }

    /// What a `Get-Notifications` reply says.
    pub fn notifications_reply(resp: &IppRequestResponse) -> (r: Result<Notifications, Error>)
        ensures
            match status_error(message_code(*resp), "Get-Notifications"@) {
                None => outcome(r) == Ok::<NotificationsView, ErrorView>(notifications_in(*resp)),
                Some(e) => fails_with(r, e),
            },
    {
        match Self::check_status(resp, "Get-Notifications") {
            Ok(_) => {
                let events = decode_all(
                    resp,
                    GroupTag::EventNotification,
                    Notification::decode,
                    Ghost(reading_notification()),
                );
                let interval = match first_group(resp, GroupTag::Operation) {
                    Some(group) => Attrs::new(group).integer("notify-get-interval"),
                    None => None,
                };
                let r = Notifications { events, poll_after: duration_of(interval) };
                assert(r@.events =~= viewed(events@));
                Ok(r)
            },
            Err(e) => Err(e),
        }
    }
}

/// The printers that are marked as the default are those with its name, and
/// marking changes nothing else.
pub proof fn only_the_default_is_marked(
    printers: Seq<PrinterView>,
    default: Option<Seq<char>>,
    i: int,
)
    requires
        0 <= i < printers.len(),
    ensures
        all_marked(printers, default).len() == printers.len(),
        all_marked(printers, default)[i].is_default <==> default == Some(printers[i].name),
        (PrinterView { is_default: printers[i].is_default, ..all_marked(printers, default)[i] })
            == printers[i],
{
}

/// Where no two printers share a name, the one that is named is marked and no
/// other.
pub proof fn the_default_is_marked_once(printers: Seq<PrinterView>, i: int, j: int)
    requires
        forall|a: int, b: int|
            0 <= a < b < printers.len() ==> (#[trigger] printers[a]).name != (
            #[trigger] printers[b]).name,
        0 <= i < printers.len(),
        0 <= j < printers.len(),
    ensures
        all_marked(printers, Some(printers[i].name))[j].is_default <==> j == i,
{
}

} // verus!
