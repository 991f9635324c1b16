//! Asking a printer to report what happens, instead of asking repeatedly.
//!
//! A subscription tells a printer which events to remember for you; a later
//! `Get-Notifications` collects them. This is IPP's alternative to polling, and
//! how much it saves depends entirely on the server: a printer may hold a
//! request open until something happens, while CUPS answers immediately and
//! tells you how long to wait before asking again. [`Notifications::poll_after`]
//! carries that advice when it is given.

use vstd::prelude::*;
use std::time::Duration;
use ipp::attribute::IppAttributeGroup;
use ipp::request::IppRequestResponse;
use crate::attrs::{int_at, required_int, text_at, texts_at, Attrs};
use crate::clock::{duration_of, length, length_of};
use crate::error::{decode_failure, outcome, Error, ErrorView};
use crate::job::JobId;
use crate::lists::viewed;
use crate::text::{same_text, view_of};
use crate::wire::{
    delimiter, group_attributes, groups_of, message_groups, tagged, Attribute, Group, GroupTag,
};

verus! {

/// An event worth being told about.
///
/// IPP names these as keywords and servers accept more than are listed here,
/// so [`NotifyEvent::Other`] carries anything unrecognised rather than
/// discarding it.
#[derive(Debug, PartialEq, Eq)]
pub enum NotifyEvent {
    /// The printer's state changed.
    PrinterStateChanged,
    /// The printer stopped.
    PrinterStopped,
    /// A job was submitted.
    JobCreated,
    /// A job's state changed.
    JobStateChanged,
    /// A job finished, whether it printed or not.
    JobCompleted,
    /// A job stopped part way.
    JobStopped,
    /// Every event the printer offers.
    All,
    /// A keyword not named here.
    Other(String),
}

/// A [`NotifyEvent`], with its keyword as characters.
pub enum NotifyEventView {
    PrinterStateChanged,
    PrinterStopped,
    JobCreated,
    JobStateChanged,
    JobCompleted,
    JobStopped,
    All,
    Other(Seq<char>),
}

impl View for NotifyEvent {
    type V = NotifyEventView;

    open spec fn view(&self) -> NotifyEventView {
        match self {
            NotifyEvent::PrinterStateChanged => NotifyEventView::PrinterStateChanged,
            NotifyEvent::PrinterStopped => NotifyEventView::PrinterStopped,
            NotifyEvent::JobCreated => NotifyEventView::JobCreated,
            NotifyEvent::JobStateChanged => NotifyEventView::JobStateChanged,
            NotifyEvent::JobCompleted => NotifyEventView::JobCompleted,
            NotifyEvent::JobStopped => NotifyEventView::JobStopped,
            NotifyEvent::All => NotifyEventView::All,
            NotifyEvent::Other(keyword) => NotifyEventView::Other(keyword@),
        }
    }
}

impl NotifyEventView {
    /// The keyword of an event.
    pub open spec fn word(self) -> Seq<char> {
        match self {
            NotifyEventView::PrinterStateChanged => "printer-state-changed"@,
            NotifyEventView::PrinterStopped => "printer-stopped"@,
            NotifyEventView::JobCreated => "job-created"@,
            NotifyEventView::JobStateChanged => "job-state-changed"@,
            NotifyEventView::JobCompleted => "job-completed"@,
            NotifyEventView::JobStopped => "job-stopped"@,
            NotifyEventView::All => "all"@,
            NotifyEventView::Other(keyword) => keyword,
        }
    }
}

/// The event a keyword stands for.
pub open spec fn event_of(keyword: Seq<char>) -> NotifyEventView {
    if keyword == "printer-state-changed"@ {
        NotifyEventView::PrinterStateChanged
    } else if keyword == "printer-stopped"@ {
        NotifyEventView::PrinterStopped
    } else if keyword == "job-created"@ {
        NotifyEventView::JobCreated
    } else if keyword == "job-state-changed"@ {
        NotifyEventView::JobStateChanged
    } else if keyword == "job-completed"@ {
        NotifyEventView::JobCompleted
    } else if keyword == "job-stopped"@ {
        NotifyEventView::JobStopped
    } else if keyword == "all"@ {
        NotifyEventView::All
    } else {
        NotifyEventView::Other(keyword)
    }
}

/// No keyword is lost: what is read from one is written back as it was.
pub proof fn a_keyword_is_kept_intact(keyword: Seq<char>)
    ensures
        event_of(keyword).word() == keyword,
{
}

/// An event is read back from its own keyword, except one that carries as
/// unrecognised a keyword that is recognised.
pub proof fn an_event_is_read_back_from_its_keyword(event: NotifyEventView)
    requires
        event matches NotifyEventView::Other(keyword) ==> event_of(keyword) is Other,
    ensures
        event_of(event.word()) == event,
{
    reveal_strlit("printer-state-changed");
    reveal_strlit("printer-stopped");
    reveal_strlit("job-created");
    reveal_strlit("job-state-changed");
    reveal_strlit("job-completed");
    reveal_strlit("job-stopped");
    reveal_strlit("all");
    assert("printer-state-changed"@.len() == 21);
    assert("printer-stopped"@.len() == 15);
    assert("job-created"@.len() == 11);
    assert("job-state-changed"@.len() == 17);
    assert("job-completed"@.len() == 13);
    assert("job-stopped"@.len() == 11);
    assert("all"@.len() == 3);
    assert("job-created"@[4] != "job-stopped"@[4]);
}

impl NotifyEvent {
    /// The IPP keyword for this event.
    pub fn keyword(&self) -> (r: &str)
        ensures
            r@ == self@.word(),
    {
        match self {
            NotifyEvent::PrinterStateChanged => "printer-state-changed",
            NotifyEvent::PrinterStopped => "printer-stopped",
            NotifyEvent::JobCreated => "job-created",
            NotifyEvent::JobStateChanged => "job-state-changed",
            NotifyEvent::JobCompleted => "job-completed",
            NotifyEvent::JobStopped => "job-stopped",
            NotifyEvent::All => "all",
            NotifyEvent::Other(keyword) => keyword.as_str(),
        }
    }

    /// Reads an IPP keyword, keeping unrecognised ones intact.
    pub fn from_keyword(keyword: &str) -> (r: NotifyEvent)
        ensures
            r@ == event_of(keyword@),
    {
        if same_text(keyword, "printer-state-changed") {
            NotifyEvent::PrinterStateChanged
        } else if same_text(keyword, "printer-stopped") {
            NotifyEvent::PrinterStopped
        } else if same_text(keyword, "job-created") {
            NotifyEvent::JobCreated
        } else if same_text(keyword, "job-state-changed") {
            NotifyEvent::JobStateChanged
        } else if same_text(keyword, "job-completed") {
            NotifyEvent::JobCompleted
        } else if same_text(keyword, "job-stopped") {
            NotifyEvent::JobStopped
        } else if same_text(keyword, "all") {
            NotifyEvent::All
        } else {
            NotifyEvent::Other(keyword.to_string())
        }
    }
}

impl Clone for NotifyEvent {
    fn clone(&self) -> (r: NotifyEvent)
        ensures
            r@ == self@,
    {
        match self {
            NotifyEvent::PrinterStateChanged => NotifyEvent::PrinterStateChanged,
            NotifyEvent::PrinterStopped => NotifyEvent::PrinterStopped,
            NotifyEvent::JobCreated => NotifyEvent::JobCreated,
            NotifyEvent::JobStateChanged => NotifyEvent::JobStateChanged,
            NotifyEvent::JobCompleted => NotifyEvent::JobCompleted,
            NotifyEvent::JobStopped => NotifyEvent::JobStopped,
            NotifyEvent::All => NotifyEvent::All,
            NotifyEvent::Other(keyword) => NotifyEvent::Other(keyword.clone()),
        }
    }
}

/// The events several keywords stand for.
pub open spec fn events_of(keywords: Seq<Seq<char>>) -> Seq<NotifyEventView> {
    keywords.map_values(|k: Seq<char>| event_of(k))
}

/// A standing request to be told about events.
///
/// Subscriptions expire. A server may shorten a requested lease or refuse to
/// let one last forever, so [`Subscription::lease`] is what was actually
/// granted rather than what was asked for.
#[derive(Debug, PartialEq, Eq)]
pub struct Subscription {
    /// The server's identifier for it, needed to collect or cancel.
    pub id: i32,
    /// The events it covers. Servers commonly widen this beyond what was
    /// requested.
    pub events: Vec<NotifyEvent>,
    /// How long it lasts from when it was granted. `None` means no expiry.
    pub lease: Option<Duration>,
    /// Who it belongs to.
    pub subscriber: Option<String>,
}

/// A [`Subscription`], with its texts as characters and its lease in nanoseconds.
pub struct SubscriptionView {
    pub id: i32,
    pub events: Seq<NotifyEventView>,
    pub lease: Option<nat>,
    pub subscriber: Option<Seq<char>>,
}

impl View for Subscription {
    type V = SubscriptionView;

    open spec fn view(&self) -> SubscriptionView {
        SubscriptionView {
            id: self.id,
            events: viewed(self.events@),
            lease: length(self.lease),
            subscriber: view_of(self.subscriber),
        }
    }
}

impl Clone for Subscription {
    fn clone(&self) -> (r: Subscription)
        ensures
            r@ == self@,
    {
        let events = self.events.clone();
        assert(viewed(events@) =~= viewed(self.events@));
        Subscription {
            id: self.id,
            events,
            lease: self.lease,
            subscriber: self.subscriber.clone(),
        }
    }
}

/// The subscription a group describes. An id has to be there. A lease of zero
/// means "no expiry" in IPP, not "already expired".
pub open spec fn subscription_of(a: Seq<Attribute>) -> Result<SubscriptionView, ErrorView> {
    match required_int(a, "notify-subscription-id"@) {
        Err(e) => Err(e),
        Ok(id) => Ok(
            SubscriptionView {
                id,
                events: events_of(texts_at(a, "notify-events"@)),
                lease: length_of(int_at(a, "notify-lease-duration"@)),
                subscriber: text_at(a, "notify-subscriber-user-name"@),
            },
        ),
    }
}

/// The events several keywords stand for.
fn read_events(keywords: &Vec<String>) -> (r: Vec<NotifyEvent>)
    ensures
        viewed(r@) == events_of(viewed(keywords@)),
{
    let mut out: Vec<NotifyEvent> = Vec::new();
    let mut i: usize = 0;
    while i < keywords.len()
        invariant
            i <= keywords.len(),
            out.len() == i,
            forall|j: int| 0 <= j < i ==> (#[trigger] out@[j])@ == event_of(keywords@[j]@),
        decreases keywords.len() - i,
    {
        out.push(NotifyEvent::from_keyword(keywords[i].as_str()));
        i += 1;
    }
    assert(viewed(out@) =~= events_of(viewed(keywords@)));
    out
}

impl Subscription {
    /// Reads a subscription from an IPP subscription-attributes group.
    pub fn decode(group: &IppAttributeGroup) -> (r: Result<Subscription, Error>)
        ensures
            outcome(r) == subscription_of(group_attributes(*group)),
    {
        let a = Attrs::new(group);
        let id: i32 = match a.require_int("notify-subscription-id") {
            Ok(id) => id,
            Err(e) => {
                return Err(e);
            },
        };
        let keywords = a.texts("notify-events");
        Ok(
            Subscription {
                id,
                events: read_events(&keywords),
                lease: duration_of(a.integer("notify-lease-duration")),
                subscriber: a.text("notify-subscriber-user-name"),
            },
        )
    }
}

/// One thing that happened.
#[derive(Debug, PartialEq, Eq)]
pub struct Notification {
    /// The subscription that captured it.
    pub subscription_id: i32,
    /// What happened.
    pub event: NotifyEvent,
    /// The job it concerns, for job events.
    pub job_id: Option<JobId>,
    /// The server's own description, where it gives one.
    pub text: Option<String>,
    /// Position in the subscription's sequence, for spotting gaps.
    pub sequence: Option<i32>,
}

/// A [`Notification`], with its texts as characters.
pub struct NotificationView {
    pub subscription_id: i32,
    pub event: NotifyEventView,
    pub job_id: Option<JobId>,
    pub text: Option<Seq<char>>,
    pub sequence: Option<i32>,
}

impl View for Notification {
    type V = NotificationView;

    open spec fn view(&self) -> NotificationView {
        NotificationView {
            subscription_id: self.subscription_id,
            event: self.event@,
            job_id: self.job_id,
            text: view_of(self.text),
            sequence: self.sequence,
        }
    }
}

impl Clone for Notification {
    fn clone(&self) -> (r: Notification)
        ensures
            r@ == self@,
    {
        Notification {
            subscription_id: self.subscription_id,
            event: self.event.clone(),
            job_id: self.job_id,
            text: self.text.clone(),
            sequence: self.sequence,
        }
    }
}

/// The notification a group describes. A subscription id has to be there.
pub open spec fn notification_of(a: Seq<Attribute>) -> Result<NotificationView, ErrorView> {
    match required_int(a, "notify-subscription-id"@) {
        Err(e) => Err(e),
        Ok(subscription_id) => Ok(
            NotificationView {
                subscription_id,
                event: match text_at(a, "notify-subscribed-event"@) {
                    Some(keyword) => event_of(keyword),
                    None => NotifyEventView::Other(Seq::empty()),
                },
                job_id: int_at(a, "notify-job-id"@),
                text: text_at(a, "notify-text"@),
                sequence: int_at(a, "notify-sequence-number"@),
            },
        ),
    }
}

impl Notification {
    /// Reads a notification from an IPP event-notification-attributes group.
    pub fn decode(group: &IppAttributeGroup) -> (r: Result<Notification, Error>)
        ensures
            outcome(r) == notification_of(group_attributes(*group)),
    {
        let a = Attrs::new(group);
        let subscription_id: i32 = match a.require_int("notify-subscription-id") {
            Ok(id) => id,
            Err(e) => {
                return Err(e);
            },
        };
        Ok(
            Notification {
                subscription_id,
                event: match a.text("notify-subscribed-event") {
                    Some(keyword) => NotifyEvent::from_keyword(keyword.as_str()),
                    None => NotifyEvent::Other(String::new()),
                },
                job_id: a.integer("notify-job-id"),
                text: a.text("notify-text"),
                sequence: a.integer("notify-sequence-number"),
            },
        )
    }
}

/// What a `Get-Notifications` call returned.
pub struct Notifications {
    /// The events waiting, oldest first.
    pub events: Vec<Notification>,
    /// How long the server suggests waiting before asking again.
    ///
    /// CUPS answers immediately and sets this, which is what makes its
    /// subscriptions a polling mechanism with a server-chosen interval rather
    /// than a push one. A printer that holds the request open may omit it.
    pub poll_after: Option<Duration>,
}

/// [`Notifications`], as they are viewed.
pub struct NotificationsView {
    pub events: Seq<NotificationView>,
    pub poll_after: Option<nat>,
}

impl View for Notifications {
    type V = NotificationsView;

    open spec fn view(&self) -> NotificationsView {
        NotificationsView {
            events: self.events@.map_values(|n: Notification| n@),
            poll_after: length(self.poll_after),
        }
    }
}

/// What is read from each of several groups, leaving out those that cannot be read.
pub open spec fn readable<V>(
    groups: Seq<Group>,
    read: spec_fn(Seq<Attribute>) -> Result<V, ErrorView>,
) -> Seq<V>
    decreases groups.len(),
{
    if groups.len() == 0 {
        Seq::empty()
    } else {
        let before = readable(groups.drop_last(), read);
        match read(groups.last().attributes) {
            Ok(value) => before.push(value),
            Err(_) => before,
        }
    }
}

/// Why each of several groups that cannot be read cannot, in order.
pub open spec fn unreadable<V>(
    groups: Seq<Group>,
    read: spec_fn(Seq<Attribute>) -> Result<V, ErrorView>,
) -> Seq<ErrorView>
    decreases groups.len(),
{
    if groups.len() == 0 {
        Seq::empty()
    } else {
        let before = unreadable(groups.drop_last(), read);
        match read(groups.last().attributes) {
            Ok(_) => before,
            Err(e) => before.push(e),
        }
    }
}

/// Every group is either read or accounted for by an error, and none by both.
pub proof fn every_group_is_read_or_accounted_for<V>(
    groups: Seq<Group>,
    read: spec_fn(Seq<Attribute>) -> Result<V, ErrorView>,
)
    ensures
        readable(groups, read).len() + unreadable(groups, read).len() == groups.len(),
    decreases groups.len(),
{
    if groups.len() > 0 {
        every_group_is_read_or_accounted_for(groups.drop_last(), read);
    }
}

/// Reads every group with this tag, leaving out those that cannot be read,
/// since one unreadable group is not a reason to lose the rest.
///
/// `meaning` says what `decode` makes of a group.
pub(crate) fn decode_all<T: View, F: Fn(&IppAttributeGroup) -> Result<T, Error>>(
    resp: &IppRequestResponse,
    tag: GroupTag,
    decode: F,
    Ghost(meaning): Ghost<spec_fn(Seq<Attribute>) -> Result<T::V, ErrorView>>,
) -> (r: Vec<T>)
    requires
        forall|group: &IppAttributeGroup| #[trigger] decode.requires((group,)),
        forall|group: &IppAttributeGroup, result: Result<T, Error>| #[trigger]
            decode.ensures((group,), result) ==> outcome(result) == meaning(
                group_attributes(*group),
            ),
    ensures
        viewed(r@) == readable(tagged(message_groups(*resp), tag.code()), meaning),
{
    let groups = groups_of(resp, delimiter(tag));
    let ghost all = tagged(message_groups(*resp), tag.code());
    let mut out: Vec<T> = Vec::new();
    let mut i: usize = 0;
    assert(all.take(0) =~= Seq::empty());
    assert(viewed(out@) =~= Seq::empty());
    while i < groups.len()
        invariant
            i <= groups.len(),
            groups@.len() == all.len(),
            forall|j: int|
                0 <= j < groups@.len() ==> group_attributes(*#[trigger] groups@[j])
                    == all[j].attributes,
            forall|group: &IppAttributeGroup| #[trigger] decode.requires((group,)),
            forall|group: &IppAttributeGroup, result: Result<T, Error>| #[trigger]
                decode.ensures((group,), result) ==> outcome(result) == meaning(
                    group_attributes(*group),
                ),
            viewed(out@) == readable(all.take(i as int), meaning),
        decreases groups.len() - i,
    {
        proof {
            assert(all.take(i + 1).drop_last() =~= all.take(i as int));
            assert(all.take(i + 1).last() == all[i as int]);
        }
        let ghost before = out@;
        if let Ok(value) = decode(groups[i]) {
            out.push(value);
            assert(viewed(out@) =~= viewed(before).push(value@));
        }
        i += 1;
    }
    assert(all.take(i as int) =~= all);
    out
}

/// Why each of the groups with this tag that cannot be read cannot, in order.
///
/// `meaning` says what `decode` makes of a group.
pub(crate) fn decode_errors<T: View, F: Fn(&IppAttributeGroup) -> Result<T, Error>>(
    resp: &IppRequestResponse,
    tag: GroupTag,
    decode: F,
    Ghost(meaning): Ghost<spec_fn(Seq<Attribute>) -> Result<T::V, ErrorView>>,
) -> (r: Vec<Error>)
    requires
        forall|group: &IppAttributeGroup| #[trigger] decode.requires((group,)),
        forall|group: &IppAttributeGroup, result: Result<T, Error>| #[trigger]
            decode.ensures((group,), result) ==> outcome(result) == meaning(
                group_attributes(*group),
            ),
    ensures
        viewed(r@) == unreadable(tagged(message_groups(*resp), tag.code()), meaning),
{
    let groups = groups_of(resp, delimiter(tag));
    let ghost all = tagged(message_groups(*resp), tag.code());
    let mut out: Vec<Error> = Vec::new();
    let mut i: usize = 0;
    assert(all.take(0) =~= Seq::empty());
    assert(viewed(out@) =~= Seq::empty());
    while i < groups.len()
        invariant
            i <= groups.len(),
            groups@.len() == all.len(),
            forall|j: int|
                0 <= j < groups@.len() ==> group_attributes(*#[trigger] groups@[j])
                    == all[j].attributes,
            forall|group: &IppAttributeGroup| #[trigger] decode.requires((group,)),
            forall|group: &IppAttributeGroup, result: Result<T, Error>| #[trigger]
                decode.ensures((group,), result) ==> outcome(result) == meaning(
                    group_attributes(*group),
                ),
            viewed(out@) == unreadable(all.take(i as int), meaning),
        decreases groups.len() - i,
    {
        proof {
            assert(all.take(i + 1).drop_last() =~= all.take(i as int));
            assert(all.take(i + 1).last() == all[i as int]);
        }
        let ghost before = out@;
        if let Err(e) = decode(groups[i]) {
            out.push(e);
            assert(viewed(out@) =~= viewed(before).push(e@));
        }
        i += 1;
    }
    assert(all.take(i as int) =~= all);
    out
}

/// An attribute that a reply has to carry and does not.
pub(crate) fn missing(what: &str) -> (r: Error)
    ensures
        r@ == decode_failure(what@, "not present in the response"@),
{
    Error::decode(what, "not present in the response")
}

/// One group that cannot be read loses nothing but itself.
pub proof fn an_unreadable_group_loses_nothing_else<V>(
    before: Seq<Group>,
    unreadable: Group,
    after: Seq<Group>,
    read: spec_fn(Seq<Attribute>) -> Result<V, ErrorView>,
)
    requires
        read(unreadable.attributes) is Err,
    ensures
        readable(before + seq![unreadable] + after, read) == readable(before + after, read),
    decreases after.len(),
{
    let with = before + seq![unreadable] + after;
    if after.len() == 0 {
        assert(with.last() == unreadable);
        assert(with.drop_last() =~= before);
        assert(before + after =~= before);
    } else {
        an_unreadable_group_loses_nothing_else(before, unreadable, after.drop_last(), read);
        assert(with.drop_last() =~= before + seq![unreadable] + after.drop_last());
        assert((before + after).drop_last() =~= before + after.drop_last());
        assert(with.last() == after.last());
        assert((before + after).last() == after.last());
    }
}

} // verus!
