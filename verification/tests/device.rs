use cups_client::device::decode_devices;
use cups_client::Device;

fn raw(pairs: &[(&str, &str)]) -> Vec<(String, String)> {
    pairs
        .iter()
        .map(|(k, v)| (k.to_string(), v.to_string()))
        .collect()
}

#[test]
fn groups_a_flat_dictionary_by_its_index_suffix() {
    let devices = decode_devices(raw(&[
        ("device-uri:0", "ipp://printer.local/ipp/print"),
        ("device-class:0", "network"),
        ("device-info:0", "Office Printer"),
        ("device-make-and-model:0", "HP OfficeJet Pro 8210"),
        ("device-uri:1", "usb://Brother/HL-2030"),
        ("device-class:1", "direct"),
    ]));

    assert_eq!(devices.len(), 2);
    assert_eq!(devices[0].uri, "ipp://printer.local/ipp/print");
    assert_eq!(devices[0].make_and_model, "HP OfficeJet Pro 8210");
    assert_eq!(devices[1].uri, "usb://Brother/HL-2030");
}

#[test]
fn devices_come_back_in_index_order() {
    // The dictionary has no ordering of its own.
    let devices = decode_devices(raw(&[
        ("device-uri:2", "c"),
        ("device-uri:0", "a"),
        ("device-uri:1", "b"),
    ]));
    assert_eq!(
        devices.iter().map(|d| d.uri.as_str()).collect::<Vec<_>>(),
        vec!["a", "b", "c"]
    );
}

#[test]
fn a_missing_field_becomes_empty_not_a_dropped_device() {
    let devices = decode_devices(raw(&[("device-uri:0", "usb://x/y")]));
    assert_eq!(devices.len(), 1);
    assert_eq!(devices[0].uri, "usb://x/y");
    assert_eq!(devices[0].info, "");
    assert_eq!(devices[0].location, "");
}

#[test]
fn an_entry_with_no_uri_is_dropped() {
    // A device we cannot address is useless to the caller.
    let devices = decode_devices(raw(&[("device-info:0", "Ghost")]));
    assert!(devices.is_empty());
}

#[test]
fn a_malformed_key_is_ignored_rather_than_panicking() {
    let devices = decode_devices(raw(&[
        ("device-uri", "no-index"),
        ("device-uri:notanumber", "bad-index"),
        ("device-uri:0", "good"),
    ]));
    assert_eq!(devices.len(), 1);
    assert_eq!(devices[0].uri, "good");
}

#[test]
fn an_empty_reply_yields_no_devices() {
    assert!(decode_devices(Vec::new()).is_empty());
}

#[test]
fn network_devices_are_distinguished_from_local_ones() {
    let network = Device {
        class: "network".into(),
        uri: "ipp://x".into(),
        ..Device::default()
    };
    let direct = Device {
        class: "direct".into(),
        uri: "usb://x".into(),
        ..Device::default()
    };
    assert!(network.is_network());
    assert!(!direct.is_network());
}

#[test]
fn every_field_is_taken_up() {
    let devices = decode_devices(raw(&[
        ("device-location:7", "Hall"),
        ("device-id:7", "MFG:HP;"),
        ("device-make-and-model:7", "HP"),
        ("device-info:7", "Office"),
        ("device-class:7", "network"),
        ("device-uri:7", "ipp://x"),
        ("device-colour:7", "grey"),
    ]));
    assert_eq!(
        devices,
        vec![Device {
            uri: "ipp://x".into(),
            class: "network".into(),
            info: "Office".into(),
            make_and_model: "HP".into(),
            device_id: "MFG:HP;".into(),
            location: "Hall".into(),
        }]
    );
}

#[test]
fn the_order_of_entries_does_not_matter() {
    let pairs = [
        ("device-uri:1", "b"),
        ("device-class:0", "network"),
        ("device-uri:0", "a"),
        ("device-info:1", "B"),
    ];
    let mut reversed = pairs;
    reversed.reverse();
    assert_eq!(decode_devices(raw(&pairs)), decode_devices(raw(&reversed)));
}

#[test]
fn an_index_is_a_number_of_thirty_two_bits() {
    let devices = decode_devices(raw(&[
        ("device-uri:4294967295", "last"),
        ("device-uri:4294967296", "too large"),
        ("device-uri:99999999999999999999", "far too large"),
        ("device-uri:-1", "negative"),
        ("device-uri:+3", "signed"),
        ("device-uri:", "empty"),
        ("device-uri:+", "only a sign"),
        ("device-uri: 5", "spaced"),
        ("device-uri:007", "padded"),
    ]));
    assert_eq!(
        devices.iter().map(|d| d.uri.as_str()).collect::<Vec<_>>(),
        vec!["signed", "padded", "last"]
    );
}

#[test]
fn a_key_is_split_at_its_last_colon() {
    let devices = decode_devices(raw(&[("device-uri:0:1", "x"), ("a:device-uri:2", "y")]));
    assert!(devices.is_empty());
}
