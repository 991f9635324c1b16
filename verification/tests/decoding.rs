use cups_client::attrs::Attrs;
use cups_client::{
    Job, JobProgress, JobState, MediaSize, PrintQuality, Printer, PrinterOptions, PrinterState,
    Severity, StateReason, Supply, SupplyLevel,
};
use ipp::attribute::{IppAttribute, IppAttributeGroup};
use ipp::model::DelimiterTag;
use ipp::value::IppValue;
use std::time::{Duration, UNIX_EPOCH};

fn group(attributes: Vec<(&str, IppValue)>) -> IppAttributeGroup {
    let mut g = IppAttributeGroup::new(DelimiterTag::PrinterAttributes);
    for (name, value) in attributes {
        g.attributes_mut()
            .push(IppAttribute::with_name(name, value).unwrap());
    }
    g
}

fn keyword(text: &str) -> IppValue {
    IppValue::Keyword(text.try_into().unwrap())
}

#[test]
fn every_kind_of_text_is_read() {
    let g = group(vec![
        ("a", IppValue::TextWithoutLanguage("text".try_into().unwrap())),
        ("b", IppValue::NameWithoutLanguage("name".try_into().unwrap())),
        (
            "c",
            IppValue::TextWithLanguage {
                language: "en".try_into().unwrap(),
                text: "spoken text".try_into().unwrap(),
            },
        ),
        (
            "d",
            IppValue::NameWithLanguage {
                language: "en".try_into().unwrap(),
                name: "spoken name".try_into().unwrap(),
            },
        ),
        ("e", keyword("keyword")),
        ("f", IppValue::Uri("ipp://x".try_into().unwrap())),
        ("g", IppValue::MimeMediaType("text/plain".try_into().unwrap())),
        ("h", IppValue::Charset("utf-8".try_into().unwrap())),
        ("i", IppValue::Integer(3)),
    ]);
    let a = Attrs::new(&g);
    let read: Vec<_> = ["a", "b", "c", "d", "e", "f", "g", "h", "i"]
        .iter()
        .map(|name| a.text(name))
        .collect();
    assert_eq!(read[0].as_deref(), Some("text"));
    assert_eq!(read[1].as_deref(), Some("name"));
    assert_eq!(read[2].as_deref(), Some("spoken text"));
    assert_eq!(read[3].as_deref(), Some("spoken name"));
    assert_eq!(read[4].as_deref(), Some("keyword"));
    assert_eq!(read[5].as_deref(), Some("ipp://x"));
    assert_eq!(read[6].as_deref(), Some("text/plain"));
    assert_eq!(read[7], None);
    assert_eq!(read[8], None);
}

#[test]
fn numbers_are_integers_or_enums() {
    let g = group(vec![
        ("a", IppValue::Integer(-5)),
        ("b", IppValue::Enum(4)),
        ("c", IppValue::Boolean(true)),
        (
            "d",
            IppValue::Array(vec![IppValue::Integer(1), keyword("x"), IppValue::Enum(2)]),
        ),
    ]);
    let a = Attrs::new(&g);
    assert_eq!(a.integer("a"), Some(-5));
    assert_eq!(a.integer("b"), Some(4));
    assert_eq!(a.integer("c"), None);
    assert_eq!(a.integer("d"), None);
    assert_eq!(a.bool("c"), Some(true));
    assert_eq!(a.bool("a"), None);
    // What is not a number is left out of a list of numbers.
    assert_eq!(a.ints("d"), vec![1, 2]);
    assert_eq!(a.texts("d"), vec!["x"]);
    assert_eq!(a.ints("a"), vec![-5]);
    assert!(a.ints("missing").is_empty());
    assert!(a.texts("missing").is_empty());
}

#[test]
fn the_first_attribute_of_a_name_counts() {
    let g = group(vec![("a", IppValue::Integer(1)), ("a", IppValue::Integer(2))]);
    assert_eq!(Attrs::new(&g).integer("a"), Some(1));
}

#[test]
fn a_missing_number_is_named() {
    let g = group(vec![("job-id", keyword("seven"))]);
    let err = Attrs::new(&g).require_int("job-id").unwrap_err();
    assert_eq!(
        err.to_string(),
        "cannot decode attribute job-id: missing or not an integer value"
    );
    let err = Attrs::new(&g).require_text("job-name").unwrap_err();
    assert_eq!(
        err.to_string(),
        "cannot decode attribute job-name: missing or not a text value"
    );
}

#[test]
fn an_unknown_state_is_named_with_its_value() {
    for (value, shown) in [(0, "0"), (-7, "-7"), (i32::MIN, "-2147483648"), (1024, "1024")] {
        let err = PrinterState::from_ipp(value).unwrap_err();
        assert_eq!(
            err.to_string(),
            format!("cannot decode attribute printer-state: unknown value {shown}")
        );
        let err = JobState::from_ipp(value).unwrap_err();
        assert_eq!(
            err.to_string(),
            format!("cannot decode attribute job-state: unknown value {shown}")
        );
    }
}

#[test]
fn a_suffix_is_split_off_once() {
    let reason = StateReason::parse("media-jam-error-report");
    assert_eq!(reason.keyword, "media-jam-error");
    assert_eq!(reason.severity, Severity::Report);
    let reason = StateReason::parse("-error");
    assert_eq!(reason.keyword, "");
    assert_eq!(reason.severity, Severity::Error);
    let reason = StateReason::parse("error");
    assert_eq!(reason.keyword, "error");
    assert_eq!(reason.severity, Severity::Report);
}

#[test]
fn none_is_left_out_wherever_it_stands() {
    let raw: Vec<String> = ["toner-low-warning", "none", "cover-open"]
        .iter()
        .map(|r| r.to_string())
        .collect();
    let reasons = StateReason::parse_list(&raw);
    assert_eq!(reasons.len(), 2);
    assert_eq!(reasons[0].keyword, "toner-low");
    assert_eq!(reasons[1].keyword, "cover-open");
}

#[test]
fn levels_are_percentages_or_unknown() {
    let names = vec!["Ink".to_string()];
    for (level, expected) in [
        (-3, SupplyLevel::Unknown),
        (0, SupplyLevel::Percent(0)),
        (100, SupplyLevel::Percent(100)),
        (101, SupplyLevel::Percent(100)),
        (i32::MAX, SupplyLevel::Percent(100)),
    ] {
        let supplies = Supply::decode_list(&names, &[level], &[], &[], &[]);
        assert_eq!(supplies[0].level, expected);
    }
}

#[test]
fn more_levels_than_names_are_cut_off_too() {
    let names = vec!["A".to_string()];
    let supplies = Supply::decode_list(&names, &[1, 2], &[], &[], &[7, 8]);
    assert_eq!(supplies.len(), 1);
    assert_eq!(supplies[0].low_threshold, Some(7));
}

#[test]
fn qualities_survive_the_way_there_and_back() {
    for quality in [PrintQuality::Draft, PrintQuality::Normal, PrintQuality::High] {
        assert_eq!(PrintQuality::from_ipp(quality.to_ipp()), Some(quality));
    }
    assert_eq!(PrintQuality::High.to_ipp(), 5);
}

#[test]
fn unknown_qualities_are_dropped_from_what_is_supported() {
    let g = group(vec![
        (
            "print-quality-supported",
            IppValue::Array(vec![IppValue::Enum(3), IppValue::Enum(9), IppValue::Enum(5)]),
        ),
        ("print-quality-default", IppValue::Enum(9)),
        ("sides-default", keyword("one-sided")),
        ("print-color-mode-supported", keyword("color")),
    ]);
    let options = PrinterOptions::decode(&Attrs::new(&g));
    assert_eq!(options.quality.supported, vec![PrintQuality::Draft, PrintQuality::High]);
    assert_eq!(options.quality.default, None);
    assert_eq!(options.sides.default.as_deref(), Some("one-sided"));
    assert_eq!(options.color_mode.supported, vec!["color"]);
    assert!(options.media.supported.is_empty());
}

#[test]
fn a_size_is_made_of_its_class_name_and_dimensions() {
    let size = MediaSize::parse("oe_photo_l_3.5x5in").unwrap();
    assert_eq!(size.class, "oe");
    assert_eq!(size.name, "photo_l");
    assert_eq!(size.dimensions, "3.5x5in");
    assert_eq!(
        size.keyword,
        format!("{}_{}_{}", size.class, size.name, size.dimensions)
    );
    for shapeless in ["_a4_210x297mm", "iso__210x297mm", "iso_a4_", "iso_a4", "_", "__"] {
        assert!(MediaSize::parse(shapeless).is_none(), "{shapeless}");
    }
}

#[test]
fn a_printer_is_read_in_full() {
    let g = group(vec![
        ("printer-name", IppValue::NameWithoutLanguage("HP".try_into().unwrap())),
        ("printer-state", IppValue::Enum(5)),
        ("printer-is-accepting-jobs", IppValue::Boolean(false)),
        ("device-uri", IppValue::Uri("usb://HP/8210".try_into().unwrap())),
        ("printer-location", IppValue::TextWithoutLanguage("Hall".try_into().unwrap())),
    ]);
    let printer = Printer::decode(&g).unwrap();
    assert_eq!(printer.state, PrinterState::Stopped);
    assert!(!printer.accepting_jobs);
    assert_eq!(printer.device_uri, "usb://HP/8210");
    assert_eq!(printer.uri, "");
    assert_eq!(printer.location.as_deref(), Some("Hall"));
    assert_eq!(printer, printer.clone());

    let nameless = group(vec![("printer-state", IppValue::Enum(99))]);
    assert!(Printer::decode(&nameless).unwrap_err().to_string().contains("printer-name"));
    let stateless = group(vec![(
        "printer-name",
        IppValue::NameWithoutLanguage("HP".try_into().unwrap()),
    )]);
    assert_eq!(
        Printer::decode(&stateless).unwrap_err().to_string(),
        "cannot decode attribute printer-state: missing or not an integer value"
    );
}

#[test]
fn a_printer_that_does_not_say_is_accepting() {
    let g = group(vec![
        ("printer-name", IppValue::NameWithoutLanguage("HP".try_into().unwrap())),
        ("printer-state", IppValue::Enum(3)),
    ]);
    assert!(Printer::decode(&g).unwrap().accepting_jobs);
}

#[test]
fn a_job_is_read_in_full() {
    let g = group(vec![
        ("job-id", IppValue::Integer(3)),
        ("job-state", IppValue::Enum(6)),
        ("job-name", IppValue::NameWithoutLanguage("doc".try_into().unwrap())),
        (
            "job-originating-user-name",
            IppValue::NameWithoutLanguage("alice".try_into().unwrap()),
        ),
        ("job-printer-uri", IppValue::Uri("ipp://localhost/printers/".try_into().unwrap())),
        ("time-at-creation", IppValue::Integer(1_700_000_000)),
        ("job-state-reasons", keyword("job-printing")),
    ]);
    let job = Job::decode(&g).unwrap();
    assert_eq!(job.state, JobState::ProcessingStopped);
    assert_eq!(job.name.as_deref(), Some("doc"));
    assert_eq!(job.user.as_deref(), Some("alice"));
    // A URI that ends in a slash names no queue.
    assert_eq!(job.printer, "");
    assert_eq!(job.created, Some(UNIX_EPOCH + Duration::from_secs(1_700_000_000)));
    assert_eq!(job.reasons[0].keyword, "job-printing");
    assert_eq!(job, job.clone());

    let anonymous = group(vec![("job-state", IppValue::Enum(3))]);
    assert!(Job::decode(&anonymous).unwrap_err().to_string().contains("job-id"));
}

#[test]
fn completion_is_kept_within_the_total() {
    let pages = |done, total| JobProgress::Pages { done, total }.completion();
    assert_eq!(pages(3, 10), Some((3, 10)));
    assert_eq!(pages(-1, 10), Some((0, 10)));
    assert_eq!(pages(12, 10), Some((10, 10)));
    assert_eq!(pages(3, 0), None);
    assert_eq!(JobProgress::Indeterminate.completion(), None);
}

#[test]
fn a_queue_is_read_back_from_its_address() {
    let client = cups_client::IppClient::with_uri("http://localhost:631/", "tester").unwrap();
    let uri = client.printer_uri("Office-Laser").unwrap().to_string();
    assert_eq!(
        cups_client::printer_name_from_uri(&uri).as_deref(),
        Some("Office-Laser")
    );
    assert_eq!(
        cups_client::printer_name_from_uri("no-slash").as_deref(),
        Some("no-slash")
    );
}

#[test]
fn only_what_is_requested_is_read() {
    // An attribute that is not asked for changes nothing.
    let base = vec![("job-id", IppValue::Integer(3)), ("job-state", IppValue::Enum(5))];
    let mut more = base.clone();
    more.push(("job-k-octets", IppValue::Integer(100)));
    assert_eq!(Job::decode(&group(base)).unwrap(), Job::decode(&group(more)).unwrap());
}
