use cups_client::attrs::Attrs;
use cups_client::client::is_confidential;
use cups_client::{IdentifyAction, IppClient, Operation, WhichJobs};
use ipp::attribute::{IppAttribute, IppAttributeGroup};
use ipp::model::{DelimiterTag, IppVersion, StatusCode};
use ipp::request::IppRequestResponse;
use ipp::value::IppValue;

/// A printer group with a name and a state.
fn printer_group(name: &str) -> IppAttributeGroup {
    let mut group = IppAttributeGroup::new(DelimiterTag::PrinterAttributes);
    for (attribute, value) in [
        ("printer-name", IppValue::NameWithoutLanguage(name.try_into().unwrap())),
        ("printer-state", IppValue::Enum(3)),
        ("printer-is-accepting-jobs", IppValue::Boolean(true)),
    ] {
        group
            .attributes_mut()
            .push(IppAttribute::with_name(attribute, value).unwrap());
    }
    group
}

/// A `CUPS-Get-Printers` response that lists two queues.
fn fixture() -> IppRequestResponse {
    let mut resp =
        IppRequestResponse::new_response(IppVersion::v1_1(), StatusCode::SuccessfulOk, 1).unwrap();
    for name in ["HP-OfficeJet-Pro-8210", "Office-Laser"] {
        resp.attributes_mut().groups_mut().push(printer_group(name));
    }
    resp
}

#[test]
fn decodes_every_printer_in_a_real_response() {
    let printers = IppClient::decode_printers(&fixture(), None);
    assert!(
        !printers.is_empty(),
        "fixture should contain at least one printer"
    );
    assert!(printers.iter().all(|p| !p.name.is_empty()));
    assert!(
        printers.iter().all(|p| !p.is_default),
        "no default was supplied"
    );
}

#[test]
fn the_named_default_is_the_one_marked_default() {
    let all = IppClient::decode_printers(&fixture(), None);
    let name = all.first().expect("fixture has a printer").name.clone();

    let marked = IppClient::decode_printers(&fixture(), Some(&name));
    assert_eq!(marked.iter().filter(|p| p.is_default).count(), 1);
    assert!(marked.iter().find(|p| p.is_default).unwrap().name == name);
}

#[test]
fn a_submitted_job_reports_the_id_cups_assigned() {
    // The caller needs the id to follow the job in the queue afterwards.
    let mut resp =
        IppRequestResponse::new_response(IppVersion::v1_1(), StatusCode::SuccessfulOk, 1)
            .unwrap();
    resp.attributes_mut().add(
        DelimiterTag::JobAttributes,
        IppAttribute::with_name("job-id", IppValue::Integer(42)).unwrap(),
    );

    assert_eq!(IppClient::decode_job_id(&resp).unwrap(), 42);
}

#[test]
fn a_reply_without_a_job_id_is_a_decode_error() {
    // Rather than inventing an id the caller would then fail to find.
    let resp =
        IppRequestResponse::new_response(IppVersion::v1_1(), StatusCode::SuccessfulOk, 1)
            .unwrap();
    let err = IppClient::decode_job_id(&resp).unwrap_err();
    assert!(err.to_string().contains("job-id"));
}

#[test]
fn success_status_passes_the_check() {
    assert!(IppClient::check_status(&fixture(), "CUPS-Get-Printers").is_ok());
}

#[test]
fn error_status_names_the_operation() {
    let mut resp = fixture();
    // 0x0400 = client-error-bad-request
    resp.header_mut().operation_or_status = 0x0400;
    let err = IppClient::check_status(&resp, "CUPS-Get-Printers").unwrap_err();
    assert!(err.to_string().contains("CUPS-Get-Printers"));
}

#[test]
fn which_jobs_maps_to_the_ipp_keyword() {
    assert_eq!(WhichJobs::NotCompleted.as_keyword(), "not-completed");
    assert_eq!(WhichJobs::Completed.as_keyword(), "completed");
}

#[test]
fn the_jobs_request_asks_for_every_attribute_the_decoder_needs() {
    let client = IppClient::with_uri("http://localhost:631", "tester").unwrap();
    let request = client.jobs_request(WhichJobs::NotCompleted).unwrap();

    let group = request
        .attributes()
        .first_of(DelimiterTag::OperationAttributes)
        .unwrap();
    let attrs = Attrs::new(group);

    let requested = attrs.texts("requested-attributes");
    // Without these, CUPS answers with job-id alone and every job is skipped.
    for needed in ["job-id", "job-state", "job-printer-uri", "job-impressions"] {
        assert!(requested.contains(&needed.to_string()), "missing {needed}");
    }
    assert_eq!(attrs.text("which-jobs").as_deref(), Some("not-completed"));
    assert_eq!(attrs.bool("my-jobs"), Some(true));
}

#[test]
fn a_response_with_no_job_groups_yields_no_jobs() {
    // CUPS answers an empty queue with operation attributes only.
    assert!(IppClient::decode_jobs(&fixture()).is_empty());
}

#[test]
fn the_job_request_asks_for_every_attribute_the_decoder_needs() {
    let client = IppClient::with_uri("http://localhost:631", "tester").unwrap();
    let request = client.job_request("HP-8210", 42).unwrap();

    assert_eq!(
        request.header().operation_or_status,
        ipp::model::Operation::GetJobAttributes as i16
    );

    let group = request
        .attributes()
        .first_of(DelimiterTag::OperationAttributes)
        .unwrap();
    let attrs = Attrs::new(group);

    assert_eq!(attrs.integer("job-id"), Some(42));
    assert!(
        attrs
            .text("printer-uri")
            .unwrap()
            .ends_with("/printers/HP-8210")
    );

    let requested = attrs.texts("requested-attributes");
    // job-state is the whole point: it is how a finished job's outcome is read.
    for needed in ["job-id", "job-state", "job-name", "job-printer-uri"] {
        assert!(requested.contains(&needed.to_string()), "missing {needed}");
    }
    // The two requests must agree, or a job would decode differently
    // depending on which call produced it.
    let listed = {
        let listing = client.jobs_request(WhichJobs::NotCompleted).unwrap();
        let group = listing
            .attributes()
            .first_of(DelimiterTag::OperationAttributes)
            .unwrap();
        Attrs::new(group).texts("requested-attributes")
    };
    assert_eq!(requested, listed);
}

#[test]
fn move_job_names_the_destination_in_the_job_group() {
    let client = IppClient::with_uri("http://localhost:631", "tester").unwrap();
    let request = client
        .move_job_request("HP-8210", 42, "Office-Laser")
        .unwrap();

    assert_eq!(
        request.header().operation_or_status,
        ipp::model::Operation::CupsMoveJob as i16
    );

    // The source printer and the job are operation attributes; the
    // destination is an attribute of the job itself.
    let operation = Attrs::new(
        request
            .attributes()
            .first_of(DelimiterTag::OperationAttributes)
            .unwrap(),
    );
    assert_eq!(operation.integer("job-id"), Some(42));
    assert!(
        operation
            .text("printer-uri")
            .unwrap()
            .ends_with("/printers/HP-8210")
    );

    let job = Attrs::new(
        request
            .attributes()
            .first_of(DelimiterTag::JobAttributes)
            .unwrap(),
    );
    assert!(
        job.text("job-printer-uri")
            .unwrap()
            .ends_with("/printers/Office-Laser"),
        "the destination queue is where the job is moved to"
    );
}

#[test]
fn loopback_and_tls_are_confidential_but_plain_remote_is_not() {
    let confidential = |u: &str| is_confidential(&u.parse().unwrap());

    // Never leaves the machine.
    assert!(confidential("http://localhost:631"));
    assert!(confidential("http://127.0.0.1:631"));
    // Encrypted on the wire.
    assert!(confidential("ipps://printer.example:631"));
    assert!(confidential("https://printer.example:631"));
    // A password here is readable by anything on the path.
    assert!(!confidential("http://printer.example:631"));
    assert!(!confidential("ipp://192.168.1.10:631"));
}

#[test]
fn identify_printer_uses_the_right_opcode_not_the_placeholder() {
    let client = IppClient::with_uri("http://localhost:631", "tester").unwrap();
    let request = client
        .identify_printer_request(
            client.printer_uri("HP-8210").unwrap(),
            IdentifyAction::Flash,
        )
        .unwrap();

    // Built from GetPrinterAttributes and overwritten. If the overwrite
    // were ever dropped this would silently query attributes instead.
    assert_eq!(request.header().operation_or_status, 0x003C);
    assert_ne!(
        request.header().operation_or_status,
        ipp::model::Operation::GetPrinterAttributes as i16
    );

    let attrs = Attrs::new(
        request
            .attributes()
            .first_of(DelimiterTag::OperationAttributes)
            .unwrap(),
    );
    assert_eq!(attrs.text("identify-actions").as_deref(), Some("flash"));
    assert_eq!(attrs.text("message"), None, "flash carries no message");
}

#[test]
fn identifying_by_display_carries_the_message() {
    let client = IppClient::with_uri("http://localhost:631", "tester").unwrap();
    let request = client
        .identify_printer_request(
            client.printer_uri("HP-8210").unwrap(),
            IdentifyAction::Display("collect your pages".into()),
        )
        .unwrap();

    let attrs = Attrs::new(
        request
            .attributes()
            .first_of(DelimiterTag::OperationAttributes)
            .unwrap(),
    );
    assert_eq!(attrs.text("identify-actions").as_deref(), Some("display"));
    assert_eq!(
        attrs.text("message").as_deref(),
        Some("collect your pages"),
        "display without a message would say nothing"
    );
}

#[test]
fn validate_job_asks_about_a_document_format() {
    let client = IppClient::with_uri("http://localhost:631", "tester").unwrap();
    let request = client
        .validate_job_request(client.printer_uri("HP-8210").unwrap(), "application/pdf")
        .unwrap();

    assert_eq!(
        request.header().operation_or_status,
        ipp::model::Operation::ValidateJob as i16
    );
    let attrs = Attrs::new(
        request
            .attributes()
            .first_of(DelimiterTag::OperationAttributes)
            .unwrap(),
    );
    assert_eq!(
        attrs.text("document-format").as_deref(),
        Some("application/pdf")
    );
    assert_eq!(
        attrs.text("requesting-user-name").as_deref(),
        Some("tester")
    );
}

#[test]
fn job_action_request_carries_id_user_and_operation() {
    let client = IppClient::with_uri("http://localhost:631", "tester").unwrap();
    let request = client
        .job_action_request(
            Operation::HoldJob,
            client.printer_uri("HP-8210").unwrap(),
            42,
        )
        .unwrap();

    assert_eq!(
        request.header().operation_or_status,
        ipp::model::Operation::HoldJob as i16
    );

    let group = request
        .attributes()
        .first_of(DelimiterTag::OperationAttributes)
        .unwrap();
    let attrs = Attrs::new(group);
    assert_eq!(attrs.integer("job-id"), Some(42));
    assert_eq!(
        attrs.text("requesting-user-name").as_deref(),
        Some("tester")
    );
    assert!(
        attrs
            .text("printer-uri")
            .unwrap()
            .ends_with("/printers/HP-8210")
    );
}

#[test]
fn release_uses_its_own_operation_code() {
    let client = IppClient::with_uri("http://localhost:631", "tester").unwrap();
    let request = client
        .job_action_request(
            Operation::ReleaseJob,
            client.printer_uri("HP-8210").unwrap(),
            7,
        )
        .unwrap();
    assert_eq!(
        request.header().operation_or_status,
        ipp::model::Operation::ReleaseJob as i16
    );
}
