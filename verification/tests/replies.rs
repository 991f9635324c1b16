use cups_client::events::Snapshot;
use cups_client::replies::{skipped, Listing};
use cups_client::submission::{
    after_cancel, after_create, after_send, file_job_name, unsendable, PrintStep,
};
use cups_client::{Cause, CupsClient, Error, IppClient, Job, NotifyEvent, Operation, PrinterEvent};
use ipp::attribute::{IppAttribute, IppAttributeGroup};
use ipp::model::{DelimiterTag, IppVersion, StatusCode};
use ipp::request::IppRequestResponse;
use ipp::value::IppValue;
use std::time::Duration;

fn reply(status: StatusCode) -> IppRequestResponse {
    IppRequestResponse::new_response(IppVersion::v1_1(), status, 1).unwrap()
}

fn with_group(
    mut resp: IppRequestResponse,
    tag: DelimiterTag,
    attributes: Vec<(&str, IppValue)>,
) -> IppRequestResponse {
    let mut group = IppAttributeGroup::new(tag);
    for (name, value) in attributes {
        group
            .attributes_mut()
            .push(IppAttribute::with_name(name, value).unwrap());
    }
    resp.attributes_mut().groups_mut().push(group);
    resp
}

fn name(text: &str) -> IppValue {
    IppValue::NameWithoutLanguage(text.try_into().unwrap())
}

fn keyword(text: &str) -> IppValue {
    IppValue::Keyword(text.try_into().unwrap())
}

fn printer(resp: IppRequestResponse, called: &str) -> IppRequestResponse {
    with_group(
        resp,
        DelimiterTag::PrinterAttributes,
        vec![("printer-name", name(called)), ("printer-state", IppValue::Enum(4))],
    )
}

fn job(resp: IppRequestResponse, id: i32) -> IppRequestResponse {
    with_group(
        resp,
        DelimiterTag::JobAttributes,
        vec![("job-id", IppValue::Integer(id)), ("job-state", IppValue::Enum(5))],
    )
}

#[test]
fn all_three_success_codes_pass() {
    for status in [
        StatusCode::SuccessfulOk,
        StatusCode::SuccessfulOkIgnoredOrSubstitutedAttributes,
        StatusCode::SuccessfulOkConflictingAttributes,
    ] {
        assert!(IppClient::check_status(&reply(status), "Get-Jobs").is_ok());
    }
}

#[test]
fn a_refusal_names_the_status() {
    let resp = reply(StatusCode::ClientErrorNotAuthorized);
    let err = IppClient::check_status(&resp, "Pause-Printer").unwrap_err();
    assert_eq!(
        err.to_string(),
        "CUPS returned ClientErrorNotAuthorized for Pause-Printer"
    );
    let mut resp = reply(StatusCode::SuccessfulOk);
    resp.header_mut().operation_or_status = 0x0003;
    let err = IppClient::check_status(&resp, "Get-Jobs").unwrap_err();
    assert_eq!(err.to_string(), "CUPS returned UnknownStatusCode for Get-Jobs");
}

#[test]
fn a_failed_exchange_is_passed_on() {
    let failed = Error::transport(Cause::new("connection refused".into()));
    let err = IppClient::checked(Err(failed), Operation::HoldJob).err().unwrap();
    assert_eq!(
        err.to_string(),
        "cannot reach the print service: connection refused"
    );
    let err = IppClient::checked(Ok(reply(StatusCode::ServerErrorBusy)), Operation::HoldJob)
        .err()
        .unwrap();
    assert_eq!(err.to_string(), "CUPS returned ServerErrorBusy for Hold-Job");
    assert!(IppClient::checked(Ok(reply(StatusCode::SuccessfulOk)), Operation::HoldJob).is_ok());
}

#[test]
fn one_unreadable_printer_does_not_lose_the_rest() {
    let resp = printer(reply(StatusCode::SuccessfulOk), "First");
    let resp = with_group(
        resp,
        DelimiterTag::PrinterAttributes,
        vec![("printer-name", name("Broken")), ("printer-state", IppValue::Enum(99))],
    );
    let resp = printer(resp, "Last");
    let printers = IppClient::printers_reply(&resp, Some("Last")).unwrap();
    let seen: Vec<_> = printers.iter().map(|p| (p.name.as_str(), p.is_default)).collect();
    assert_eq!(seen, vec![("First", false), ("Last", true)]);
}

#[test]
fn what_is_left_out_of_a_listing_is_accounted_for() {
    let resp = printer(reply(StatusCode::SuccessfulOk), "First");
    let resp = with_group(
        resp,
        DelimiterTag::PrinterAttributes,
        vec![("printer-name", name("Broken")), ("printer-state", IppValue::Enum(99))],
    );
    let resp = with_group(resp, DelimiterTag::PrinterAttributes, vec![]);
    let resp = with_group(
        resp,
        DelimiterTag::JobAttributes,
        vec![("job-state", IppValue::Enum(3))],
    );
    let resp = with_group(resp, DelimiterTag::SubscriptionAttributes, vec![]);
    let resp = with_group(resp, DelimiterTag::EventNotificationAttributes, vec![]);
    let why = |listing: Listing| {
        skipped(&resp, listing)
            .iter()
            .map(|e| e.to_string())
            .collect::<Vec<_>>()
    };
    assert_eq!(
        why(Listing::Printers),
        vec![
            "cannot decode attribute printer-state: unknown value 99",
            "cannot decode attribute printer-name: missing or not a text value",
        ]
    );
    assert_eq!(
        why(Listing::Classes),
        vec!["cannot decode attribute printer-name: missing or not a text value"]
    );
    assert_eq!(why(Listing::Drivers).len(), 3);
    assert_eq!(
        why(Listing::Jobs),
        vec!["cannot decode attribute job-id: missing or not an integer value"]
    );
    assert!(why(Listing::Subscriptions)[0].contains("notify-subscription-id"));
    assert!(why(Listing::Notifications)[0].contains("notify-subscription-id"));
    assert_eq!(
        IppClient::decode_printers(&resp, None).len() + why(Listing::Printers).len(),
        3
    );
    assert!(skipped(&reply(StatusCode::SuccessfulOk), Listing::Jobs).is_empty());
    assert_eq!(Listing::Drivers.noun(), "driver");
}

#[test]
fn a_refused_listing_is_an_error() {
    let resp = printer(reply(StatusCode::ServerErrorOperationNotSupported), "HP");
    let err = IppClient::printers_reply(&resp, None).unwrap_err();
    assert!(err.to_string().contains("CUPS-Get-Printers"));
    assert!(IppClient::jobs_reply(&resp).unwrap_err().to_string().contains("Get-Jobs"));
    assert!(IppClient::classes_reply(&resp).is_err());
    assert!(IppClient::ppds_reply(&resp).is_err());
    assert!(IppClient::default_reply(&resp).is_err());
    assert!(IppClient::printer_reply(&resp).is_err());
    assert!(IppClient::notifications_reply(&resp).is_err());
    assert!(IppClient::documents_reply(&resp).is_err());
}

#[test]
fn the_default_is_the_first_printer_named() {
    let resp = printer(printer(reply(StatusCode::SuccessfulOk), "HP"), "Other");
    assert_eq!(IppClient::default_reply(&resp).unwrap().as_deref(), Some("HP"));
    assert_eq!(IppClient::default_reply(&reply(StatusCode::SuccessfulOk)).unwrap(), None);
}

#[test]
fn a_job_the_daemon_no_longer_knows_is_none_not_an_error() {
    let gone = reply(StatusCode::ClientErrorNotFound);
    assert!(IppClient::job_reply(&gone).unwrap().is_none());

    let refused = reply(StatusCode::ClientErrorNotPossible);
    assert!(IppClient::job_reply(&refused).is_err());

    let found = job(reply(StatusCode::SuccessfulOk), 42);
    assert_eq!(IppClient::job_reply(&found).unwrap().unwrap().id, 42);
    assert!(IppClient::job_reply(&reply(StatusCode::SuccessfulOk)).unwrap().is_none());
}

#[test]
fn a_printer_reply_without_a_printer_is_a_decode_error() {
    let err = IppClient::printer_reply(&reply(StatusCode::SuccessfulOk)).unwrap_err();
    assert_eq!(
        err.to_string(),
        "cannot decode attribute printer-attributes: no printer group in response"
    );
    let resp = printer(reply(StatusCode::SuccessfulOk), "HP");
    assert_eq!(IppClient::printer_reply(&resp).unwrap().name, "HP");
}

#[test]
fn classes_and_drivers_are_listed() {
    let resp = with_group(
        reply(StatusCode::SuccessfulOk),
        DelimiterTag::PrinterAttributes,
        vec![
            ("printer-name", name("Upstairs")),
            ("member-names", IppValue::Array(vec![name("A"), name("B")])),
            ("ppd-name", name("driver.ppd")),
            ("ppd-device-id", IppValue::TextWithoutLanguage("MFG:HP;".try_into().unwrap())),
        ],
    );
    let classes = IppClient::classes_reply(&resp).unwrap();
    assert_eq!(classes[0].members, vec!["A", "B"]);
    let ppds = IppClient::ppds_reply(&resp).unwrap();
    assert_eq!(ppds[0].name, "driver.ppd");
    assert_eq!(ppds[0].device_id, "MFG:HP;");
    assert_eq!(ppds[0].make_and_model, "");
}

#[test]
fn job_ids_come_from_the_first_job_group() {
    let resp = job(job(reply(StatusCode::SuccessfulOk), 7), 8);
    assert_eq!(IppClient::job_id_reply(&resp, Operation::PrintJob).unwrap(), 7);
    let refused = job(reply(StatusCode::ServerErrorNotAcceptingJobs), 7);
    let err = IppClient::job_id_reply(&refused, Operation::PrintJob).unwrap_err();
    assert_eq!(
        err.to_string(),
        "CUPS returned ServerErrorNotAcceptingJobs for Print-Job"
    );
}

fn subscription(resp: IppRequestResponse, id: i32, lease: i32) -> IppRequestResponse {
    with_group(
        resp,
        DelimiterTag::SubscriptionAttributes,
        vec![
            ("notify-subscription-id", IppValue::Integer(id)),
            (
                "notify-events",
                IppValue::Array(vec![keyword("job-created"), keyword("x-vendor-event")]),
            ),
            ("notify-lease-duration", IppValue::Integer(lease)),
            ("notify-subscriber-user-name", name("alice")),
        ],
    )
}

#[test]
fn subscriptions_are_read_from_their_own_groups() {
    let operation = Operation::CreatePrinterSubscriptions;
    let resp = subscription(reply(StatusCode::SuccessfulOk), 5, 3600);
    let granted = IppClient::subscription_reply(&resp, operation).unwrap();
    assert_eq!(granted.id, 5);
    assert_eq!(
        granted.events,
        vec![NotifyEvent::JobCreated, NotifyEvent::Other("x-vendor-event".into())]
    );
    assert_eq!(granted.lease, Some(Duration::from_secs(3600)));
    assert_eq!(granted.subscriber.as_deref(), Some("alice"));

    let resp = subscription(resp, 6, 0);
    let all = IppClient::subscriptions_reply(&resp, Operation::GetSubscriptions).unwrap();
    assert_eq!(all.len(), 2);
    // Zero means no expiry, not already expired.
    assert_eq!(all[1].lease, None);

    let err = IppClient::subscription_reply(&reply(StatusCode::SuccessfulOk), operation)
        .unwrap_err();
    assert_eq!(
        err.to_string(),
        "cannot decode attribute notify-subscription-id: not present in the response"
    );
}

#[test]
fn notifications_carry_the_advice_to_wait() {
    let mut resp = reply(StatusCode::SuccessfulOk);
    resp.attributes_mut().add(
        DelimiterTag::OperationAttributes,
        IppAttribute::with_name("notify-get-interval", IppValue::Integer(60)).unwrap(),
    );
    let resp = with_group(
        resp,
        DelimiterTag::EventNotificationAttributes,
        vec![
            ("notify-subscription-id", IppValue::Integer(5)),
            ("notify-subscribed-event", keyword("job-completed")),
            ("notify-job-id", IppValue::Integer(42)),
            ("notify-sequence-number", IppValue::Integer(1)),
        ],
    );
    let resp = with_group(
        resp,
        DelimiterTag::EventNotificationAttributes,
        vec![("notify-subscription-id", IppValue::Integer(5))],
    );
    let got = IppClient::notifications_reply(&resp).unwrap();
    assert_eq!(got.poll_after, Some(Duration::from_secs(60)));
    assert_eq!(got.events.len(), 2);
    assert_eq!(got.events[0].event, NotifyEvent::JobCompleted);
    assert_eq!(got.events[0].job_id, Some(42));
    assert_eq!(got.events[0].sequence, Some(1));
    assert_eq!(got.events[1].event, NotifyEvent::Other(String::new()));

    let quiet = IppClient::notifications_reply(&reply(StatusCode::SuccessfulOk)).unwrap();
    assert_eq!(quiet.poll_after, None);
    assert!(quiet.events.is_empty());
}

#[test]
fn documents_come_one_to_a_group() {
    let resp = with_group(
        reply(StatusCode::SuccessfulOk),
        DelimiterTag::DocumentAttributes,
        vec![("document-number", IppValue::Integer(1))],
    );
    let groups = IppClient::documents_reply(&resp).unwrap();
    assert_eq!(groups.len(), 1);
    assert_eq!(groups[0].attributes()[0].name().as_str(), "document-number");
}

#[test]
fn event_keywords_are_kept_intact() {
    for keyword in [
        "printer-state-changed",
        "printer-stopped",
        "job-created",
        "job-state-changed",
        "job-completed",
        "job-stopped",
        "all",
        "x-vendor-event",
        "",
    ] {
        assert_eq!(NotifyEvent::from_keyword(keyword).keyword(), keyword);
    }
    for event in [NotifyEvent::All, NotifyEvent::JobStopped, NotifyEvent::PrinterStopped] {
        assert_eq!(NotifyEvent::from_keyword(event.keyword()), event);
    }
}

#[test]
fn a_document_follows_a_job_that_was_created() {
    let step = after_create(Ok(job(reply(StatusCode::SuccessfulOk), 7)));
    assert!(matches!(step, PrintStep::SendDocument(7)));
    let step = after_create(Ok(reply(StatusCode::SuccessfulOk)));
    match step {
        PrintStep::Done(Err(e)) => assert_eq!(
            e.to_string(),
            "cannot decode attribute job-id: absent from the Print-Job reply"
        ),
        _ => panic!("nothing to send a document to"),
    }
    match after_create(Ok(reply(StatusCode::ServerErrorNotAcceptingJobs))) {
        PrintStep::Done(Err(e)) => assert!(e.to_string().contains("Create-Job")),
        _ => panic!("no job was created"),
    }
}

#[test]
fn a_job_whose_document_fails_is_cancelled_and_the_failure_reported() {
    let step = after_send(7, Ok(reply(StatusCode::SuccessfulOk)));
    assert!(matches!(step, PrintStep::Done(Ok(7))));

    let refused = reply(StatusCode::ClientErrorDocumentFormatNotSupported);
    match after_send(7, Ok(refused)) {
        PrintStep::CancelJob { job, failure } => {
            assert_eq!(job, 7);
            assert!(failure.to_string().contains("Send-Document"));
            // Whatever came of the cleaning up, the first failure is reported.
            let cleanup = Err(Error::transport_msg("gone".into()));
            match after_cancel(failure, cleanup) {
                PrintStep::Done(Err(e)) => assert_eq!(
                    e.to_string(),
                    "CUPS returned ClientErrorDocumentFormatNotSupported for Send-Document"
                ),
                _ => panic!("nothing is left to do"),
            }
        }
        _ => panic!("the job has to go"),
    }
}

#[test]
fn a_document_that_cannot_be_sent_is_reported() {
    match unsendable(Error::decode("document-format", "value too long")) {
        PrintStep::Done(Err(e)) => assert!(e.to_string().contains("document-format")),
        _ => panic!("nothing was sent"),
    }
}

#[test]
fn a_file_gives_its_job_a_name() {
    assert_eq!(file_job_name(Some("report.pdf".into())), "report.pdf");
    assert_eq!(file_job_name(None), "document");
}

/// A listing of one job that has printed some pages and ended at some time.
fn ended(pages: i32, at: i32) -> IppRequestResponse {
    with_group(
        reply(StatusCode::SuccessfulOk),
        DelimiterTag::JobAttributes,
        vec![
            ("job-id", IppValue::Integer(7)),
            ("job-state", IppValue::Enum(5)),
            ("job-impressions-completed", IppValue::Integer(pages)),
            ("time-at-completed", IppValue::Integer(at)),
        ],
    )
}

fn snapshot(jobs: Vec<Job>) -> Snapshot {
    Snapshot { printers: Vec::new(), jobs }
}

#[test]
fn a_cups_client_reads_jobs_in_brief() {
    let jobs = CupsClient::jobs_reply(&ended(3, 1_700_000_000)).unwrap();
    assert_eq!(jobs[0].id, 7);
    assert_eq!(jobs[0].pages_printed, None);
    assert_eq!(jobs[0].completed, None);
    let job = CupsClient::job_reply(&ended(3, 1_700_000_000)).unwrap().unwrap();
    assert_eq!(job, jobs[0]);

    let full = IppClient::jobs_reply(&ended(3, 1_700_000_000)).unwrap();
    assert_eq!(full[0].pages_printed, Some(3));
    assert!(full[0].completed.is_some());
}

#[test]
fn printed_pages_are_a_change_to_an_ipp_client_alone() {
    for (before, after) in [((3, 0), (4, 0)), ((3, 0), (3, 1_700_000_000))] {
        let read = |(pages, at)| snapshot(CupsClient::decode_jobs(&ended(pages, at)));
        assert!(read(before).diff(&read(after)).is_empty());

        let read = |(pages, at)| snapshot(IppClient::decode_jobs(&ended(pages, at)));
        let events = read(before).diff(&read(after));
        assert_eq!(events.len(), 1);
        assert!(matches!(&events[0], PrinterEvent::JobChanged(j) if j.id == 7));
    }
}

#[test]
fn page_progress_is_a_change_to_either_client() {
    let printing = |done: i32| {
        with_group(
            reply(StatusCode::SuccessfulOk),
            DelimiterTag::JobAttributes,
            vec![
                ("job-id", IppValue::Integer(7)),
                ("job-state", IppValue::Enum(5)),
                ("job-impressions", IppValue::Integer(10)),
                ("job-impressions-completed", IppValue::Integer(done)),
            ],
        )
    };
    let before = snapshot(CupsClient::decode_jobs(&printing(1)));
    let after = snapshot(CupsClient::decode_jobs(&printing(2)));
    assert_eq!(before.diff(&after).len(), 1);
    let before = snapshot(IppClient::decode_jobs(&printing(1)));
    let after = snapshot(IppClient::decode_jobs(&printing(2)));
    assert_eq!(before.diff(&after).len(), 1);
}

#[test]
fn a_cups_client_asks_what_an_ipp_client_asks() {
    let cups = CupsClient::builder("http://localhost:631").user("tester").build("x").unwrap();
    let ipp = IppClient::with_uri("http://localhost:631", "tester").unwrap();
    let which = cups_client::WhichJobs::Completed;
    assert_eq!(
        cups.jobs_request(which).unwrap().to_bytes(),
        ipp.jobs_request(which).unwrap().to_bytes()
    );
    assert_eq!(
        CupsClient::local("tester").unwrap().printers_request().unwrap().to_bytes(),
        ipp.printers_request().unwrap().to_bytes()
    );
}
