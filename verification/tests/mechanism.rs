use cups_client::mechanism::translate;
use cups_client::{CupsPk, CupsPkError, PrinterSpec, MECHANISM_BUS_NAME};
use std::time::Duration;

#[test]
fn an_empty_error_string_is_success() {
    assert!(translate(String::new()).is_ok());
}

#[test]
fn a_non_empty_error_string_is_a_mechanism_failure() {
    let err = translate("\"nope\" is not a valid printer name.".to_string()).unwrap_err();
    match &err {
        CupsPkError::Mechanism(msg) => {
            assert!(msg.contains("not a valid printer name"));
        }
        other => panic!("expected Mechanism, got {other:?}"),
    }
}

#[test]
fn the_mechanisms_own_wording_is_preserved_verbatim() {
    // CUPS' messages are more precise than any paraphrase, and users
    // search for them.
    let raw = "Cannot open \"/etc/cups/ppd/x.ppd\": Permission denied";
    let err = translate(raw.to_string()).unwrap_err();
    assert_eq!(err.to_string(), raw);
}

#[test]
fn whitespace_only_is_a_failure_not_a_success() {
    // Defensive: only a genuinely empty string means success.
    assert!(translate(" ".to_string()).is_err());
}

#[test]
fn authorization_failure_is_its_own_variant() {
    // Dismissing a polkit prompt must never read as breakage.
    let err = CupsPkError::AuthorizationFailed;
    assert!(!matches!(err, CupsPkError::Mechanism(_)));
    assert!(err.to_string().to_lowercase().contains("authoriz"));
}

#[test]
fn a_refusal_by_polkit_is_an_authorization_failure() {
    for text in [
        "org.opensuse.CupsPkHelper.Mechanism.NotPrivileged: no",
        "org.freedesktop.DBus.Error.AccessDenied: no",
        "the caller is not authorized",
    ] {
        let err = CupsPk::call_failed(zbus::Error::Failure(text.into()));
        assert!(matches!(err, CupsPkError::AuthorizationFailed), "{text}");
    }
}

#[test]
fn any_other_failure_of_the_bus_is_one_of_transport() {
    let err = CupsPk::call_failed(zbus::Error::InterfaceNotFound);
    assert_eq!(
        err.to_string(),
        "cannot reach cups-pk-helper: Interface not found"
    );
}

#[test]
fn a_call_is_judged_by_its_error_string() {
    assert!(CupsPk::completed(Ok(String::new())).is_ok());
    let err = CupsPk::completed(Ok("no such printer".into())).unwrap_err();
    assert_eq!(err.to_string(), "no such printer");
    let err = CupsPk::completed(Err(zbus::Error::Failure("gone".into()))).unwrap_err();
    assert_eq!(err.to_string(), "cannot reach cups-pk-helper: gone");
}

#[test]
fn discovered_devices_are_decoded_unless_the_call_failed() {
    let raw = || vec![("device-uri:0".to_string(), "usb://x".to_string())];
    let devices = CupsPk::discovered(Ok((String::new(), raw()))).unwrap();
    assert_eq!(devices[0].uri, "usb://x");
    let err = CupsPk::discovered(Ok(("scan failed".into(), raw()))).unwrap_err();
    assert_eq!(err.to_string(), "scan failed");
    assert!(CupsPk::discovered(Err(zbus::Error::Failure("AccessDenied".into()))).is_err());
}

#[test]
fn a_scan_is_bounded_in_whole_seconds() {
    assert_eq!(CupsPk::scan_bounds(Duration::from_millis(5900), 3), (5, 3));
    assert_eq!(CupsPk::scan_bounds(Duration::ZERO, 0), (0, 0));
    assert_eq!(CupsPk::scan_bounds(Duration::from_secs(1), u32::MAX), (1, -1));
}

#[test]
fn the_mechanism_goes_by_its_well_known_name() {
    assert_eq!(CupsPk::mechanism().bus_name(), "org.opensuse.CupsPkHelper.Mechanism");
    assert_eq!(CupsPk::mechanism().bus_name(), MECHANISM_BUS_NAME);
    assert_eq!(CupsPk::named("org.example.Fake").bus_name(), "org.example.Fake");
}

#[test]
fn a_driverless_printer_is_an_everywhere_printer() {
    let spec = PrinterSpec::driverless("Office", "ipp://printer.local/ipp/print");
    assert_eq!(spec.name, "Office");
    assert_eq!(spec.uri, "ipp://printer.local/ipp/print");
    assert_eq!(spec.ppd, "everywhere");
}
