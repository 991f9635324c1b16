use cups_client::{Cause, Error};

#[test]
fn decode_error_names_the_offending_attribute() {
    let err = Error::Decode {
        attribute: "marker-levels".into(),
        detail: "length mismatch".into(),
    };
    assert!(err.to_string().contains("marker-levels"));
    assert!(err.to_string().contains("length mismatch"));
}

#[test]
fn each_error_reads_in_its_own_way() {
    let reached = Error::transport_msg("bad uri".into());
    assert_eq!(reached.to_string(), "cannot reach the print service: bad uri");
    let refused = Error::Ipp {
        operation: "Hold-Job".into(),
        status: "ClientErrorNotPossible".into(),
    };
    assert_eq!(refused.to_string(), "CUPS returned ClientErrorNotPossible for Hold-Job");
    let unread = Error::decode("job-id", "missing");
    assert_eq!(unread.to_string(), "cannot decode attribute job-id: missing");
    let lost = Error::Io(Cause::new("no such file".into()));
    assert_eq!(lost.to_string(), "io error: no such file");
}

#[test]
fn a_transport_failure_keeps_its_cause() {
    let cause = Cause {
        message: "error sending request".into(),
        source: Some(Box::new(Cause::new("connection refused".into()))),
    };
    match Error::transport(cause) {
        Error::Transport { message, source } => {
            assert_eq!(message, "error sending request");
            let inner = source.unwrap().source.unwrap();
            assert_eq!(inner.message, "connection refused");
        }
        other => panic!("expected a transport failure, got {other:?}"),
    }
}

#[test]
fn a_rejected_certificate_is_found_however_deep_it_lies() {
    let chain = |texts: &[&str]| {
        let mut cause = None;
        for text in texts.iter().rev() {
            cause = Some(Box::new(Cause {
                message: text.to_string(),
                source: cause,
            }));
        }
        *cause.unwrap()
    };
    for texts in [
        vec!["invalid peer certificate: UnknownIssuer"],
        vec!["error sending request", "client error", "InvalidCertificate(CertificateError)"],
    ] {
        assert!(Error::transport(chain(&texts)).is_certificate_error());
        assert!(Error::Io(chain(&texts)).is_certificate_error());
    }
    let refused = chain(&["error sending request", "connection refused"]);
    assert!(!Error::transport(refused).is_certificate_error());
    assert!(!Error::transport_msg("Certificate".into()).is_certificate_error());
    assert!(Error::transport_msg("bad certificate".into()).is_certificate_error());
    assert!(!Error::decode("job-id", "missing").is_certificate_error());
    assert!(Error::decode("certificate", "missing").is_certificate_error());
}
