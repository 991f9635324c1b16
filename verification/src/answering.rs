//! What each reply comes to: how one more group changes what is read from it,
//! which group counts where only one does, and what a refusal is reported as.

use vstd::prelude::*;
use ipp::attribute::IppAttributeGroup;
use ipp::request::IppRequestResponse;
use crate::error::{Error, ErrorView};
use crate::job::{brief_job_of, job_of, JobId};
use crate::operations::Operation;
use crate::printer::{class_of, ppd_of, printer_of, PrinterView};
use crate::reading::{holds_number, is_text, no_number};
use crate::replies::{
    default_in, groups_in, holds_groups, job_id_in, jobs_in, notifications_in, printer_in,
    printers_in, reading_class, reading_job, reading_notification, reading_ppd, reading_printer,
    reading_subscription, reply_error, skipped_in, subscription_in, subscriptions_in, Listing,
};
use crate::submission::{created, sent, submitted, PrintStepView};
use crate::subscription::{
    notification_of, readable, subscription_of, unreadable, SubscriptionView,
};
use crate::wire::{
    group_attributes, message_code, message_groups, status_name, tagged, Attribute, Group,
    GroupTag,
};

verus! {

/// One message is another with one more group at its end.
pub open spec fn extends(
    longer: IppRequestResponse,
    shorter: IppRequestResponse,
    group: Group,
) -> bool {
    message_groups(longer) == message_groups(shorter).push(group)
}

/// `list` with what was read behind it, where it could be read.
pub open spec fn with_read<V>(list: Seq<V>, read: Result<V, ErrorView>) -> Seq<V> {
    match read {
        Ok(value) => list.push(value),
        Err(_) => list,
    }
}

/// `list` with the error behind it, where something could not be read.
pub open spec fn with_error<V>(list: Seq<ErrorView>, read: Result<V, ErrorView>) -> Seq<
    ErrorView,
> {
    match read {
        Ok(_) => list,
        Err(e) => list.push(e),
    }
}

/// The groups of a tag are picked out in order: those of two lists, one behind
/// the other, are those of the first and then those of the second, and one group
/// is picked out exactly where it has the tag.
pub proof fn groups_are_picked_out_in_order(
    before: Seq<Group>,
    after: Seq<Group>,
    group: Group,
    tag: int,
)
    ensures
        tagged(before + after, tag) == tagged(before, tag) + tagged(after, tag),
        group.tag == tag ==> tagged(seq![group], tag) == seq![group],
        group.tag != tag ==> tagged(seq![group], tag) == Seq::<Group>::empty(),
        tagged(Seq::empty(), tag) == Seq::<Group>::empty(),
    decreases after.len(),
{
    reveal_with_fuel(tagged, 2);
    let single = seq![group];
    assert(single.drop_last() =~= Seq::empty());
    assert(single.last() == group);
    if group.tag == tag {
        assert(tagged(single, tag) =~= seq![group]);
    }
    let all = before + after;
    if after.len() == 0 {
        assert(all =~= before);
        assert(tagged(before, tag) + tagged(after, tag) =~= tagged(before, tag));
    } else {
        groups_are_picked_out_in_order(before, after.drop_last(), group, tag);
        assert(all.drop_last() =~= before + after.drop_last());
        assert(all.last() == after.last());
        assert(tagged(all, tag) =~= tagged(before, tag) + tagged(after, tag));
    }
}

/// Groups are read in order: what is read from two lists, one behind the other,
/// is what is read from the first and then what is read from the second, and the
/// same goes for the errors of those that cannot be read.
pub proof fn groups_are_read_in_order<V>(
    before: Seq<Group>,
    after: Seq<Group>,
    group: Group,
    read: spec_fn(Seq<Attribute>) -> Result<V, ErrorView>,
)
    ensures
        readable(before + after, read) == readable(before, read) + readable(after, read),
        unreadable(before + after, read) == unreadable(before, read) + unreadable(after, read),
        readable(seq![group], read) == with_read(Seq::empty(), read(group.attributes)),
        unreadable(seq![group], read) == with_error(Seq::empty(), read(group.attributes)),
        readable(Seq::empty(), read) == Seq::<V>::empty(),
        unreadable(Seq::empty(), read) == Seq::<ErrorView>::empty(),
    decreases after.len(),
{
    reveal_with_fuel(readable, 2);
    reveal_with_fuel(unreadable, 2);
    let single = seq![group];
    assert(single.drop_last() =~= Seq::empty());
    assert(single.last() == group);
    let all = before + after;
    if after.len() == 0 {
        assert(all =~= before);
        assert(readable(before, read) + readable(after, read) =~= readable(before, read));
        assert(unreadable(before, read) + unreadable(after, read) =~= unreadable(before, read));
    } else {
        groups_are_read_in_order(before, after.drop_last(), group, read);
        assert(all.drop_last() =~= before + after.drop_last());
        assert(all.last() == after.last());
        assert(readable(all, read) =~= readable(before, read) + readable(after, read));
        assert(unreadable(all, read) =~= unreadable(before, read) + unreadable(after, read));
    }
}

/// The groups of a message with one more.
proof fn lemma_extended(
    longer: IppRequestResponse,
    shorter: IppRequestResponse,
    group: Group,
    tag: GroupTag,
)
    requires
        extends(longer, shorter, group),
    ensures
        group.tag == tag.code() ==> groups_in(longer, tag) == groups_in(shorter, tag).push(group),
        group.tag != tag.code() ==> groups_in(longer, tag) == groups_in(shorter, tag),
{
    let all = message_groups(longer);
    assert(all.drop_last() =~= message_groups(shorter));
    assert(all.last() == group);
}

/// What is read from groups with one more.
proof fn lemma_one_more_read<V>(
    groups: Seq<Group>,
    group: Group,
    read: spec_fn(Seq<Attribute>) -> Result<V, ErrorView>,
)
    ensures
        readable(groups.push(group), read) == with_read(
            readable(groups, read),
            read(group.attributes),
        ),
        unreadable(groups.push(group), read) == with_error(
            unreadable(groups, read),
            read(group.attributes),
        ),
{
    let all = groups.push(group);
    assert(all.drop_last() =~= groups);
    assert(all.last() == group);
}

/// One more group adds one more printer to a reply where it is a printer group
/// that can be read, marked as the default where it has its name, and changes
/// nothing else. A reply without groups has none.
pub proof fn a_printer_group_is_one_more_printer(
    longer: IppRequestResponse,
    shorter: IppRequestResponse,
    group: Group,
    default: Option<&str>,
)
    requires
        extends(longer, shorter, group),
    ensures
        ({
            let before = printers_in(shorter, default);
            let after = printers_in(longer, default);
            match printer_of(group.attributes) {
                Ok(printer) if group.tag == 0x04 => {
                    &&& after.len() == before.len() + 1
                    &&& after.drop_last() == before
                    &&& after.last() == (PrinterView {
                        is_default: default matches Some(name) && name@ == printer.name,
                        ..printer
                    })
                },
                _ => after == before,
            }
        }),
        message_groups(shorter).len() == 0 ==> printers_in(shorter, default).len() == 0,
{
    lemma_extended(longer, shorter, group, GroupTag::Printer);
    let groups = groups_in(shorter, GroupTag::Printer);
    lemma_one_more_read(groups, group, reading_printer());
    let before = printers_in(shorter, default);
    let after = printers_in(longer, default);
    if group.tag == 0x04 && printer_of(group.attributes) is Ok {
        assert(after.drop_last() =~= before);
    }
}

/// One more group adds one more job to a reply where it is a job group that can
/// be read, in full where the detail is asked for and in brief where it is not,
/// and changes nothing else.
pub proof fn a_job_group_is_one_more_job(
    longer: IppRequestResponse,
    shorter: IppRequestResponse,
    group: Group,
)
    requires
        extends(longer, shorter, group),
    ensures
        group.tag == 0x02 ==> jobs_in(longer, true) == with_read(
            jobs_in(shorter, true),
            job_of(group.attributes),
        ),
        group.tag == 0x02 ==> jobs_in(longer, false) == with_read(
            jobs_in(shorter, false),
            brief_job_of(group.attributes),
        ),
        group.tag != 0x02 ==> jobs_in(longer, true) == jobs_in(shorter, true),
        group.tag != 0x02 ==> jobs_in(longer, false) == jobs_in(shorter, false),
        message_groups(shorter).len() == 0 ==> jobs_in(shorter, true).len() == 0 && jobs_in(
            shorter,
            false,
        ).len() == 0,
{
    lemma_extended(longer, shorter, group, GroupTag::Job);
    let groups = groups_in(shorter, GroupTag::Job);
    lemma_one_more_read(groups, group, reading_job(true));
    lemma_one_more_read(groups, group, reading_job(false));
}

/// One more group adds one more class or driver to a reply where it is a printer
/// group that can be read as one, and changes nothing else.
pub proof fn a_printer_group_is_one_more_class_or_driver(
    longer: IppRequestResponse,
    shorter: IppRequestResponse,
    group: Group,
)
    requires
        extends(longer, shorter, group),
    ensures
        ({
            let classes = |m: IppRequestResponse|
                readable(groups_in(m, GroupTag::Printer), reading_class());
            let drivers = |m: IppRequestResponse|
                readable(groups_in(m, GroupTag::Printer), reading_ppd());
            &&& group.tag == 0x04 ==> classes(longer) == with_read(
                classes(shorter),
                class_of(group.attributes),
            )
            &&& group.tag == 0x04 ==> drivers(longer) == with_read(
                drivers(shorter),
                ppd_of(group.attributes),
            )
            &&& group.tag != 0x04 ==> classes(longer) == classes(shorter)
            &&& group.tag != 0x04 ==> drivers(longer) == drivers(shorter)
        }),
{
    lemma_extended(longer, shorter, group, GroupTag::Printer);
    let groups = groups_in(shorter, GroupTag::Printer);
    lemma_one_more_read(groups, group, reading_class());
    lemma_one_more_read(groups, group, reading_ppd());
}

/// One more group adds one more subscription to a reply where it is a
/// subscription group that can be read, and one more notification where it is an
/// event group that can be read, and changes nothing else.
pub proof fn a_group_is_one_more_subscription_or_notification(
    longer: IppRequestResponse,
    shorter: IppRequestResponse,
    group: Group,
)
    requires
        extends(longer, shorter, group),
    ensures
        group.tag == 0x06 ==> subscriptions_in(longer) == with_read(
            subscriptions_in(shorter),
            subscription_of(group.attributes),
        ),
        group.tag != 0x06 ==> subscriptions_in(longer) == subscriptions_in(shorter),
        group.tag == 0x07 ==> notifications_in(longer).events == with_read(
            notifications_in(shorter).events,
            notification_of(group.attributes),
        ),
        group.tag != 0x07 ==> notifications_in(longer).events == notifications_in(shorter).events,
        message_groups(shorter).len() == 0 ==> subscriptions_in(shorter).len() == 0
            && notifications_in(shorter).events.len() == 0,
{
    lemma_extended(longer, shorter, group, GroupTag::Subscription);
    lemma_extended(longer, shorter, group, GroupTag::EventNotification);
    lemma_one_more_read(
        groups_in(shorter, GroupTag::Subscription),
        group,
        reading_subscription(),
    );
    lemma_one_more_read(
        groups_in(shorter, GroupTag::EventNotification),
        group,
        reading_notification(),
    );
}

/// One more group that cannot be read adds one more error to the listing it
/// belongs to, that of reading it, and changes nothing else.
pub proof fn a_group_left_out_is_one_more_error(
    longer: IppRequestResponse,
    shorter: IppRequestResponse,
    group: Group,
)
    requires
        extends(longer, shorter, group),
    ensures
        skipped_in(longer, Listing::Printers) == (if group.tag == 0x04 {
            with_error(skipped_in(shorter, Listing::Printers), printer_of(group.attributes))
        } else {
            skipped_in(shorter, Listing::Printers)
        }),
        skipped_in(longer, Listing::Classes) == (if group.tag == 0x04 {
            with_error(skipped_in(shorter, Listing::Classes), class_of(group.attributes))
        } else {
            skipped_in(shorter, Listing::Classes)
        }),
        skipped_in(longer, Listing::Drivers) == (if group.tag == 0x04 {
            with_error(skipped_in(shorter, Listing::Drivers), ppd_of(group.attributes))
        } else {
            skipped_in(shorter, Listing::Drivers)
        }),
        skipped_in(longer, Listing::Jobs) == (if group.tag == 0x02 {
            with_error(skipped_in(shorter, Listing::Jobs), job_of(group.attributes))
        } else {
            skipped_in(shorter, Listing::Jobs)
        }),
        skipped_in(longer, Listing::Subscriptions) == (if group.tag == 0x06 {
            with_error(
                skipped_in(shorter, Listing::Subscriptions),
                subscription_of(group.attributes),
            )
        } else {
            skipped_in(shorter, Listing::Subscriptions)
        }),
        skipped_in(longer, Listing::Notifications) == (if group.tag == 0x07 {
            with_error(
                skipped_in(shorter, Listing::Notifications),
                notification_of(group.attributes),
            )
        } else {
            skipped_in(shorter, Listing::Notifications)
        }),
{
    lemma_extended(longer, shorter, group, GroupTag::Printer);
    lemma_extended(longer, shorter, group, GroupTag::Job);
    lemma_extended(longer, shorter, group, GroupTag::Subscription);
    lemma_extended(longer, shorter, group, GroupTag::EventNotification);
    lemma_one_more_read(groups_in(shorter, GroupTag::Printer), group, reading_printer());
    lemma_one_more_read(groups_in(shorter, GroupTag::Printer), group, reading_class());
    lemma_one_more_read(groups_in(shorter, GroupTag::Printer), group, reading_ppd());
    lemma_one_more_read(groups_in(shorter, GroupTag::Job), group, reading_job(true));
    lemma_one_more_read(
        groups_in(shorter, GroupTag::Subscription),
        group,
        reading_subscription(),
    );
    lemma_one_more_read(
        groups_in(shorter, GroupTag::EventNotification),
        group,
        reading_notification(),
    );
}

/// The group at `k` is the first of a message with its tag.
pub open spec fn leads(message: IppRequestResponse, k: int, tag: int) -> bool {
    let groups = message_groups(message);
    &&& 0 <= k < groups.len()
    &&& groups[k].tag == tag
    &&& forall|j: int| 0 <= j < k ==> (#[trigger] groups[j]).tag != tag
}

/// No group of a message has this tag.
pub open spec fn without(message: IppRequestResponse, tag: int) -> bool {
    let groups = message_groups(message);
    forall|j: int| 0 <= j < groups.len() ==> (#[trigger] groups[j]).tag != tag
}

proof fn lemma_none_tagged(groups: Seq<Group>, tag: int)
    requires
        forall|j: int| 0 <= j < groups.len() ==> (#[trigger] groups[j]).tag != tag,
    ensures
        tagged(groups, tag).len() == 0,
    decreases groups.len(),
{
    if groups.len() > 0 {
        assert(groups.last().tag == groups[groups.len() - 1].tag);
        lemma_none_tagged(groups.drop_last(), tag);
    }
}

proof fn lemma_first_tagged(groups: Seq<Group>, tag: int, k: int)
    requires
        0 <= k < groups.len(),
        groups[k].tag == tag,
        forall|j: int| 0 <= j < k ==> (#[trigger] groups[j]).tag != tag,
    ensures
        tagged(groups, tag).len() > 0,
        tagged(groups, tag)[0] == groups[k],
    decreases groups.len(),
{
    let rest = groups.drop_last();
    if k == groups.len() - 1 {
        lemma_none_tagged(rest, tag);
    } else {
        lemma_first_tagged(rest, tag, k);
    }
}

/// What a printer reports of itself is read from the first printer group of its
/// reply; a reply without one is an error that says so.
pub proof fn a_printer_is_read_from_the_first_printer_group(message: IppRequestResponse, k: int)
    ensures
        leads(message, k, 0x04) ==> printer_in(message) == printer_of(
            message_groups(message)[k].attributes,
        ),
        without(message, 0x04) ==> printer_in(message) == Err::<PrinterView, ErrorView>(
            ErrorView::Decode {
                attribute: "printer-attributes"@,
                detail: "no printer group in response"@,
            },
        ),
{
    if leads(message, k, 0x04) {
        lemma_first_tagged(message_groups(message), 0x04, k);
    }
    if without(message, 0x04) {
        lemma_none_tagged(message_groups(message), 0x04);
    }
}

/// The default queue is what the first printer group of the reply holds as its
/// name, and none where there is no such group.
pub proof fn the_default_is_named_by_the_first_printer_group(message: IppRequestResponse, k: int)
    ensures
        leads(message, k, 0x04) ==> is_text(
            message_groups(message)[k].attributes,
            "printer-name"@,
            default_in(message),
        ),
        without(message, 0x04) ==> default_in(message) is None,
{
    if leads(message, k, 0x04) {
        let a = message_groups(message)[k].attributes;
        lemma_first_tagged(message_groups(message), 0x04, k);
        crate::reading::a_value_is_read_from_the_attribute_of_its_name(a, "printer-name"@);
    }
    if without(message, 0x04) {
        lemma_none_tagged(message_groups(message), 0x04);
    }
}

/// The error of a reply that does not say which job it is about.
pub open spec fn no_job_id() -> ErrorView {
    ErrorView::Decode { attribute: "job-id"@, detail: "absent from the Print-Job reply"@ }
}

/// The id of a job that was submitted is what the first job group of the reply
/// holds as its id; a reply that holds none there is an error that says so.
pub proof fn a_job_id_is_read_from_the_first_job_group(message: IppRequestResponse, k: int, id: i32)
    ensures
        leads(message, k, 0x02) ==> (job_id_in(message) == Ok::<JobId, ErrorView>(id)
            <==> holds_number(message_groups(message)[k].attributes, "job-id"@, id)),
        leads(message, k, 0x02) && no_number(message_groups(message)[k].attributes, "job-id"@)
            ==> job_id_in(message) == Err::<JobId, ErrorView>(no_job_id()),
        without(message, 0x02) ==> job_id_in(message) == Err::<JobId, ErrorView>(no_job_id()),
{
    if leads(message, k, 0x02) {
        let a = message_groups(message)[k].attributes;
        lemma_first_tagged(message_groups(message), 0x02, k);
        crate::reading::a_value_is_read_from_the_attribute_of_its_name(a, "job-id"@);
        crate::reading::a_name_holds_one_thing(
            a,
            "job-id"@,
            Seq::empty(),
            Seq::empty(),
            None,
            None,
        );
        assert(holds_number(a, "job-id"@, id) <==> crate::attrs::int_at(a, "job-id"@) == Some(id));
    }
    if without(message, 0x02) {
        lemma_none_tagged(message_groups(message), 0x02);
    }
}

/// The subscription a reply is about is the first that can be read, and an error
/// where none can.
pub proof fn a_subscription_is_the_first_that_can_be_read(message: IppRequestResponse)
    ensures
        subscriptions_in(message).len() > 0 ==> subscription_in(message) == Ok::<
            SubscriptionView,
            ErrorView,
        >(subscriptions_in(message)[0]),
        subscriptions_in(message).len() == 0 ==> subscription_in(message) == Err::<
            SubscriptionView,
            ErrorView,
        >(
            ErrorView::Decode {
                attribute: "notify-subscription-id"@,
                detail: "not present in the response"@,
            },
        ),
{
}

/// How long to wait before asking again is what the first group of operation
/// attributes holds as its interval, in seconds, where that is more than none.
pub proof fn the_wait_is_read_from_the_operation_attributes(
    message: IppRequestResponse,
    k: int,
    n: i32,
)
    ensures
        leads(message, k, 0x01) ==> {
            let a = message_groups(message)[k].attributes;
            let wait = notifications_in(message).poll_after;
            &&& holds_number(a, "notify-get-interval"@, n) && n > 0 ==> wait == Some(
                (n * 1_000_000_000) as nat,
            )
            &&& holds_number(a, "notify-get-interval"@, n) && n <= 0 ==> wait is None
            &&& no_number(a, "notify-get-interval"@) ==> wait is None
        },
        without(message, 0x01) ==> notifications_in(message).poll_after is None,
{
    if leads(message, k, 0x01) {
        let a = message_groups(message)[k].attributes;
        let name = "notify-get-interval"@;
        lemma_first_tagged(message_groups(message), 0x01, k);
        crate::reading::a_value_is_read_from_the_attribute_of_its_name(a, name);
        crate::reading::a_name_holds_one_thing(a, name, Seq::empty(), Seq::empty(), None, None);
        assert(holds_number(a, name, n) <==> crate::attrs::int_at(a, name) == Some(n));
    }
    if without(message, 0x01) {
        lemma_none_tagged(message_groups(message), 0x01);
    }
}

/// A list holds groups where it has as many, and each in its place has the same
/// attributes.
pub proof fn groups_are_held_one_for_one(
    list: Seq<&IppAttributeGroup>,
    groups: Seq<Group>,
    i: int,
)
    requires
        holds_groups(list, groups),
        0 <= i < list.len(),
    ensures
        list.len() == groups.len(),
        group_attributes(*list[i]) == groups[i].attributes,
{
}

/// A reply that never came is the failure that kept it; one that came is an
/// error unless its status is one of the first three, and the error names the
/// operation and the status.
pub proof fn a_reply_fails_by_its_status(
    reply: Result<IppRequestResponse, Error>,
    operation: Operation,
)
    ensures
        reply matches Err(e) ==> reply_error(reply, operation) == Some(e@),
        reply matches Ok(m) ==> (reply_error(reply, operation) is None <==> {
            ||| message_code(m) == 0
            ||| message_code(m) == 1
            ||| message_code(m) == 2
        }),
        reply matches Ok(m) ==> (reply_error(reply, operation) matches Some(e) ==> e == (
        ErrorView::Ipp { operation: operation.title(), status: status_name(message_code(m)) })),
{
}

/// A job that was created is sent its document; where it was not, or the reply
/// does not say which job it is, that is what came of it.
pub proof fn a_created_job_is_sent_its_document(message: IppRequestResponse, e: Error)
    ensures
        created(Err(e)) == PrintStepView::Done(Err(e@)),
        !(0 <= message_code(message) <= 2) ==> created(Ok(message)) == PrintStepView::Done(
            Err(
                ErrorView::Ipp {
                    operation: "Create-Job"@,
                    status: status_name(message_code(message)),
                },
            ),
        ),
        0 <= message_code(message) <= 2 ==> match job_id_in(message) {
            Ok(job) => created(Ok(message)) == PrintStepView::SendDocument(job),
            Err(e) => created(Ok(message)) == PrintStepView::Done(Err(e)),
        },
{
}

/// A job whose document was accepted is printed under its id; where the document
/// was not accepted, or nothing came back, that job is cancelled, and why is
/// what came of it.
pub proof fn a_job_is_printed_or_cancelled(job: JobId, message: IppRequestResponse, e: Error)
    ensures
        sent(job, Err(e)) == (PrintStepView::CancelJob { job, failure: e@ }),
        submitted(job, Err(e)) == Err::<JobId, ErrorView>(e@),
        ({
            let refusal = ErrorView::Ipp {
                operation: "Send-Document"@,
                status: status_name(message_code(message)),
            };
            if 0 <= message_code(message) <= 2 {
                &&& sent(job, Ok(message)) == PrintStepView::Done(Ok(job))
                &&& submitted(job, Ok(message)) == Ok::<JobId, ErrorView>(job)
            } else {
                &&& sent(job, Ok(message)) == (PrintStepView::CancelJob { job, failure: refusal })
                &&& submitted(job, Ok(message)) == Err::<JobId, ErrorView>(refusal)
            }
        }),
{
}

} // verus!
