use cups_client::{
    printer_name_from_uri, Class, Job, JobProgress, JobState, MediaSize, OptionValues, Ppd,
    PrintQuality, Printer, PrinterState, Severity, StateReason, Supply, SupplyLevel,
};
use ipp::attribute::{IppAttribute, IppAttributeGroup};
use ipp::model::DelimiterTag;
use ipp::value::IppValue;
use std::time::{Duration, UNIX_EPOCH};

fn printer_group(extra: Vec<(&str, IppValue)>) -> IppAttributeGroup {
    let mut g = IppAttributeGroup::new(DelimiterTag::PrinterAttributes);
    let mut base = vec![
        (
            "printer-name",
            IppValue::NameWithoutLanguage("HP-8210".try_into().unwrap()),
        ),
        (
            "printer-uri-supported",
            IppValue::Uri("ipp://localhost/printers/HP-8210".try_into().unwrap()),
        ),
        ("printer-state", IppValue::Enum(3)),
        ("printer-is-accepting-jobs", IppValue::Boolean(true)),
    ];
    base.extend(extra);
    for (name, value) in base {
        g.attributes_mut()
            .push(IppAttribute::with_name(name, value).unwrap());
    }
    g
}

fn kw(v: &str) -> IppValue {
    IppValue::Keyword(v.try_into().unwrap())
}

fn ppd_group(extra: Vec<(&str, IppValue)>) -> IppAttributeGroup {
    let mut g = IppAttributeGroup::new(DelimiterTag::PrinterAttributes);
    for (name, value) in extra {
        g.attributes_mut()
            .push(IppAttribute::with_name(name, value).unwrap());
    }
    g
}

#[test]
fn decodes_a_class_and_its_members() {
    let mut g = IppAttributeGroup::new(DelimiterTag::PrinterAttributes);
    for (name, value) in [
        (
            "printer-name",
            IppValue::NameWithoutLanguage("Upstairs".try_into().unwrap()),
        ),
        (
            "member-names",
            IppValue::Array(vec![
                IppValue::NameWithoutLanguage("HP-8210".try_into().unwrap()),
                IppValue::NameWithoutLanguage("Office-Laser".try_into().unwrap()),
            ]),
        ),
    ] {
        g.attributes_mut()
            .push(IppAttribute::with_name(name, value).unwrap());
    }

    let class = Class::decode(&g).unwrap();
    assert_eq!(class.name, "Upstairs");
    assert_eq!(class.members, vec!["HP-8210", "Office-Laser"]);
}

#[test]
fn a_class_with_no_members_is_not_an_error() {
    // CUPS keeps a class whose printers have all been removed.
    let mut g = IppAttributeGroup::new(DelimiterTag::PrinterAttributes);
    g.attributes_mut().push(
        IppAttribute::with_name(
            "printer-name",
            IppValue::NameWithoutLanguage("Empty".try_into().unwrap()),
        )
        .unwrap(),
    );
    assert!(Class::decode(&g).unwrap().members.is_empty());
}

#[test]
fn decodes_a_driver() {
    let ppd = Ppd::decode(&ppd_group(vec![
        (
            "ppd-name",
            IppValue::NameWithoutLanguage(
                "lsb/usr/HP/hp-officejet_pro_8210-ps.ppd.gz"
                    .try_into()
                    .unwrap(),
            ),
        ),
        (
            "ppd-make-and-model",
            IppValue::TextWithoutLanguage(
                "HP OfficeJet Pro 8210 Postscript".try_into().unwrap(),
            ),
        ),
    ]))
    .unwrap();
    assert_eq!(ppd.name, "lsb/usr/HP/hp-officejet_pro_8210-ps.ppd.gz");
    assert_eq!(ppd.make_and_model, "HP OfficeJet Pro 8210 Postscript");
    // Not every driver declares one, and that is not an error.
    assert!(ppd.device_id.is_empty());
}

#[test]
fn a_driver_without_a_name_is_a_decode_error() {
    // ppd-name is the only field a caller cannot do without: it is what
    // gets written when the printer is added.
    assert!(Ppd::decode(&ppd_group(vec![])).is_err());
}

#[test]
fn print_quality_maps_the_ipp_enums() {
    assert_eq!(PrintQuality::from_ipp(3), Some(PrintQuality::Draft));
    assert_eq!(PrintQuality::from_ipp(4), Some(PrintQuality::Normal));
    assert_eq!(PrintQuality::from_ipp(5), Some(PrintQuality::High));
    // Unknown values are dropped rather than guessed at.
    assert_eq!(PrintQuality::from_ipp(9), None);
}

#[test]
fn options_decode_supported_values_and_the_current_default() {
    let p = Printer::decode(&printer_group(vec![
        (
            "media-supported",
            IppValue::Array(vec![kw("iso_a4_210x297mm"), kw("na_letter_8.5x11in")]),
        ),
        ("media-default", kw("iso_a4_210x297mm")),
        (
            "print-quality-supported",
            IppValue::Array(vec![IppValue::Enum(3), IppValue::Enum(4)]),
        ),
        ("print-quality-default", IppValue::Enum(4)),
    ]))
    .unwrap();

    assert_eq!(p.options.media.supported.len(), 2);
    assert_eq!(p.options.media.default.as_deref(), Some("iso_a4_210x297mm"));
    assert_eq!(
        p.options.quality.supported,
        vec![PrintQuality::Draft, PrintQuality::Normal]
    );
    assert_eq!(p.options.quality.default, Some(PrintQuality::Normal));
}

#[test]
fn an_option_the_queue_does_not_advertise_is_empty_not_an_error() {
    // A queue that offers no choice of output bin simply says nothing.
    let p = Printer::decode(&printer_group(vec![])).unwrap();
    assert!(p.options.output_bin.supported.is_empty());
    assert_eq!(p.options.output_bin.default, None);
}

#[test]
fn a_scalar_supported_value_reads_as_one_choice() {
    // Measured against cupsd: output-bin-supported comes back as a bare
    // keyword, not a 1setOf, when the printer has exactly one bin.
    let p = Printer::decode(&printer_group(vec![
        ("output-bin-supported", kw("face-up")),
        ("output-bin-default", kw("face-up")),
    ]))
    .unwrap();
    assert_eq!(p.options.output_bin.supported, vec!["face-up".to_string()]);
    assert!(!p.options.output_bin.is_choice());
}

#[test]
fn an_option_is_a_choice_only_with_two_or_more_values() {
    let one = OptionValues {
        supported: vec!["face-up".to_string()],
        default: None,
    };
    let two = OptionValues {
        supported: vec!["one-sided".to_string(), "two-sided-long-edge".to_string()],
        default: None,
    };
    assert!(!one.is_choice());
    assert!(two.is_choice());
}

#[test]
fn media_names_parse_into_class_dimensions_and_borderless() {
    let a4 = MediaSize::parse("iso_a4_210x297mm").unwrap();
    assert_eq!(a4.class, "iso");
    assert_eq!(a4.dimensions, "210x297mm");
    assert!(!a4.borderless);

    let bl = MediaSize::parse("om_a-4.borderless_210x297mm").unwrap();
    assert!(bl.borderless);
    assert_eq!(bl.dimensions, "210x297mm");
}

#[test]
fn a_size_and_its_borderless_twin_share_dimensions() {
    // Vendors vary the name part - a4 vs a-4, hagaki vs postcard - so the
    // dimension suffix is the only reliable way to pair the two.
    for (plain, borderless) in [
        ("iso_a4_210x297mm", "om_a-4.borderless_210x297mm"),
        ("na_letter_8.5x11in", "oe_letter.borderless_8.5x11in"),
        ("jpn_hagaki_100x148mm", "om_postcard.borderless_100x148mm"),
    ] {
        let a = MediaSize::parse(plain).unwrap();
        let b = MediaSize::parse(borderless).unwrap();
        assert_eq!(a.dimensions, b.dimensions, "{plain} vs {borderless}");
        assert!(!a.borderless && b.borderless);
    }
}

#[test]
fn the_two_16k_sizes_are_not_confused() {
    // Same vendor name, different sizes: pairing on the name would merge
    // them, pairing on dimensions keeps them apart.
    let small = MediaSize::parse("om_16k_184x260mm").unwrap();
    let large = MediaSize::parse("om_16k_195x270mm").unwrap();
    assert_ne!(small.dimensions, large.dimensions);
}

#[test]
fn custom_range_markers_are_identifiable() {
    // custom_min/custom_max describe the range a printer accepts, they are
    // not sizes anyone can pick.
    assert_eq!(
        MediaSize::parse("custom_min_3x5in").unwrap().class,
        "custom"
    );
    assert_eq!(
        MediaSize::parse("custom_max_8.5x14in").unwrap().class,
        "custom"
    );
}

#[test]
fn a_name_without_the_pwg_shape_is_rejected() {
    assert!(MediaSize::parse("A4").is_none());
    assert!(MediaSize::parse("").is_none());
}

#[test]
fn decodes_a_minimal_printer() {
    let p = Printer::decode(&printer_group(vec![])).unwrap();
    assert_eq!(p.name, "HP-8210");
    assert_eq!(p.state, PrinterState::Idle);
    assert!(p.accepting_jobs);
    assert!(p.reasons.is_empty());
    assert!(p.supplies.is_empty());
    assert_eq!(p.info, None);
    assert!(!p.is_default);
}

#[test]
fn decodes_reasons_and_supplies() {
    let p = Printer::decode(&printer_group(vec![
        (
            "printer-state-reasons",
            IppValue::Array(vec![
                IppValue::Keyword("toner-low-warning".try_into().unwrap()),
                IppValue::Keyword("media-jam-error".try_into().unwrap()),
            ]),
        ),
        (
            "marker-names",
            IppValue::NameWithoutLanguage("Black Ink".try_into().unwrap()),
        ),
        ("marker-levels", IppValue::Integer(42)),
        (
            "printer-info",
            IppValue::TextWithoutLanguage("Office printer".try_into().unwrap()),
        ),
    ]))
    .unwrap();

    assert_eq!(p.reasons.len(), 2);
    assert_eq!(p.reasons[1].severity, Severity::Error);
    assert_eq!(p.supplies.len(), 1);
    assert_eq!(p.supplies[0].level, SupplyLevel::Percent(42));
    assert_eq!(p.info.as_deref(), Some("Office printer"));
}

#[test]
fn missing_printer_name_is_a_decode_error() {
    let mut g = IppAttributeGroup::new(DelimiterTag::PrinterAttributes);
    g.attributes_mut()
        .push(IppAttribute::with_name("printer-state", IppValue::Enum(3)).unwrap());
    let err = Printer::decode(&g).unwrap_err();
    assert!(err.to_string().contains("printer-name"));
}

#[test]
fn highest_severity_reports_the_worst_reason() {
    let p = Printer::decode(&printer_group(vec![(
        "printer-state-reasons",
        IppValue::Array(vec![
            IppValue::Keyword("cover-open-report".try_into().unwrap()),
            IppValue::Keyword("media-empty-warning".try_into().unwrap()),
        ]),
    )]))
    .unwrap();
    assert_eq!(p.highest_severity(), Some(Severity::Warning));

    let quiet = Printer::decode(&printer_group(vec![])).unwrap();
    assert_eq!(quiet.highest_severity(), None);
}

fn job_group(extra: Vec<(&str, IppValue)>) -> IppAttributeGroup {
    let mut g = IppAttributeGroup::new(DelimiterTag::JobAttributes);
    let mut base = vec![
        ("job-id", IppValue::Integer(42)),
        ("job-state", IppValue::Enum(5)),
        (
            "job-printer-uri",
            IppValue::Uri("ipp://localhost:631/printers/HP-8210".try_into().unwrap()),
        ),
    ];
    base.extend(extra);
    for (name, value) in base {
        g.attributes_mut()
            .push(IppAttribute::with_name(name, value).unwrap());
    }
    g
}

#[test]
fn a_finished_job_keeps_its_page_count_without_a_total() {
    // CUPS drops job-impressions once a job finishes but keeps the
    // completed count, so progress goes indeterminate while the number of
    // pages actually printed is still known.
    let job = Job::decode(&job_group(vec![
        ("job-state", IppValue::Enum(9)),
        ("job-impressions-completed", IppValue::Integer(2)),
    ]))
    .unwrap();
    assert_eq!(job.pages_printed, Some(2));
    assert_eq!(job.progress, JobProgress::Indeterminate);
}

#[test]
fn a_job_that_printed_nothing_reports_no_page_count() {
    let job = Job::decode(&job_group(vec![(
        "job-impressions-completed",
        IppValue::Integer(0),
    )]))
    .unwrap();
    assert_eq!(job.pages_printed, None);
}

#[test]
fn a_completed_job_carries_its_completion_time() {
    let job = Job::decode(&job_group(vec![
        ("job-state", IppValue::Enum(9)),
        ("time-at-completed", IppValue::Integer(1787935946)),
    ]))
    .unwrap();
    assert_eq!(
        job.completed,
        Some(UNIX_EPOCH + Duration::from_secs(1787935946))
    );
}

#[test]
fn a_job_still_running_has_no_completion_time() {
    let job = Job::decode(&job_group(vec![])).unwrap();
    assert_eq!(job.completed, None);
}

#[test]
fn a_zero_completion_time_reads_as_absent() {
    // CUPS uses 0 for "not yet", which as an epoch would render as 1970.
    let job = Job::decode(&job_group(vec![(
        "time-at-completed",
        IppValue::Integer(0),
    )]))
    .unwrap();
    assert_eq!(job.completed, None);
}

#[test]
fn decodes_a_minimal_job() {
    let j = Job::decode(&job_group(vec![])).unwrap();
    assert_eq!(j.id, 42);
    assert_eq!(j.state, JobState::Processing);
    assert_eq!(j.printer, "HP-8210");
    assert_eq!(j.name, None);
    assert_eq!(j.progress, JobProgress::Indeterminate);
}

#[test]
fn absent_impressions_means_indeterminate_not_zero() {
    let j = Job::decode(&job_group(vec![(
        "job-impressions-completed",
        IppValue::Integer(3),
    )]))
    .unwrap();
    assert_eq!(j.progress, JobProgress::Indeterminate);
}

#[test]
fn both_impression_counts_give_page_progress() {
    let j = Job::decode(&job_group(vec![
        ("job-impressions", IppValue::Integer(10)),
        ("job-impressions-completed", IppValue::Integer(3)),
    ]))
    .unwrap();
    assert_eq!(j.progress, JobProgress::Pages { done: 3, total: 10 });
    let (done, total) = j.progress.completion().unwrap();
    assert_eq!(done as f32 / total as f32, 0.3);
}

#[test]
fn zero_total_impressions_is_indeterminate() {
    let j = Job::decode(&job_group(vec![
        ("job-impressions", IppValue::Integer(0)),
        ("job-impressions-completed", IppValue::Integer(0)),
    ]))
    .unwrap();
    assert_eq!(j.progress, JobProgress::Indeterminate);
}

#[test]
fn printer_name_is_the_last_uri_segment() {
    assert_eq!(
        printer_name_from_uri("ipp://localhost:631/printers/HP-8210").as_deref(),
        Some("HP-8210")
    );
    assert_eq!(printer_name_from_uri("").as_deref(), None);
}

#[test]
fn printer_state_maps_known_values() {
    assert_eq!(PrinterState::from_ipp(3).unwrap(), PrinterState::Idle);
    assert_eq!(PrinterState::from_ipp(4).unwrap(), PrinterState::Processing);
    assert_eq!(PrinterState::from_ipp(5).unwrap(), PrinterState::Stopped);
}

#[test]
fn printer_state_rejects_unknown_rather_than_defaulting() {
    assert!(PrinterState::from_ipp(99).is_err());
}

#[test]
fn job_state_maps_known_values() {
    assert_eq!(JobState::from_ipp(3).unwrap(), JobState::Pending);
    assert_eq!(JobState::from_ipp(4).unwrap(), JobState::PendingHeld);
    assert_eq!(JobState::from_ipp(9).unwrap(), JobState::Completed);
}

#[test]
fn active_jobs_are_the_unfinished_ones() {
    assert!(JobState::Processing.is_active());
    assert!(JobState::Pending.is_active());
    assert!(JobState::PendingHeld.is_active());
    assert!(!JobState::Completed.is_active());
    assert!(!JobState::Canceled.is_active());
    assert!(!JobState::Aborted.is_active());
}

#[test]
fn reason_severity_comes_from_the_suffix() {
    let r = StateReason::parse("media-jam-error");
    assert_eq!(r.keyword, "media-jam");
    assert_eq!(r.severity, Severity::Error);

    let r = StateReason::parse("toner-low-warning");
    assert_eq!(r.keyword, "toner-low");
    assert_eq!(r.severity, Severity::Warning);

    let r = StateReason::parse("cover-open-report");
    assert_eq!(r.keyword, "cover-open");
    assert_eq!(r.severity, Severity::Report);
}

#[test]
fn bare_reason_defaults_to_report() {
    let r = StateReason::parse("connecting-to-device");
    assert_eq!(r.keyword, "connecting-to-device");
    assert_eq!(r.severity, Severity::Report);
}

#[test]
fn none_keyword_yields_no_reasons() {
    let list = vec!["none".to_string()];
    assert!(StateReason::parse_list(&list).is_empty());
}

fn s(v: &[&str]) -> Vec<String> {
    v.iter().map(|x| x.to_string()).collect()
}

#[test]
fn supplies_pair_names_with_levels() {
    let supplies = Supply::decode_list(
        &s(&["Black Ink", "Cyan Ink"]),
        &[80, 5],
        &s(&["ink-cartridge", "ink-cartridge"]),
        &s(&["#000000", "#00FFFF"]),
        &[10, 10],
    );

    assert_eq!(supplies.len(), 2);
    assert_eq!(supplies[0].name, "Black Ink");
    assert_eq!(supplies[0].level, SupplyLevel::Percent(80));
    assert_eq!(supplies[0].colour.as_deref(), Some("#000000"));
    assert_eq!(supplies[1].level, SupplyLevel::Percent(5));
    assert_eq!(supplies[1].low_threshold, Some(10));
}

#[test]
fn negative_level_is_unknown_not_zero() {
    let supplies = Supply::decode_list(&s(&["Drum"]), &[-1], &[], &[], &[]);
    assert_eq!(supplies[0].level, SupplyLevel::Unknown);
    assert_eq!(supplies[0].kind, None);
    assert_eq!(supplies[0].colour, None);
    assert_eq!(supplies[0].low_threshold, None);
}

#[test]
fn level_above_100_is_clamped() {
    let supplies = Supply::decode_list(&s(&["Weird"]), &[150], &[], &[], &[]);
    assert_eq!(supplies[0].level, SupplyLevel::Percent(100));
}

#[test]
fn mismatched_names_and_levels_truncates_rather_than_erroring() {
    // One malformed attribute never blanks the whole queue.
    let supplies = Supply::decode_list(&s(&["A", "B"]), &[50], &[], &[], &[]);
    assert_eq!(supplies.len(), 1);
    assert_eq!(supplies[0].name, "A");
    assert_eq!(supplies[0].level, SupplyLevel::Percent(50));
}

#[test]
fn no_markers_yields_no_supplies() {
    assert!(Supply::decode_list(&[], &[], &[], &[], &[]).is_empty());
}

#[test]
fn multi_valued_printer_uri_takes_the_first_value() {
    // `printer_group` already seeds a scalar printer-uri-supported, and
    // IppAttributeGroup::get returns the first match by name, so this
    // builds the group by hand to put the Array value where the decoder
    // will actually see it.
    let mut g = IppAttributeGroup::new(DelimiterTag::PrinterAttributes);
    for (name, value) in [
        (
            "printer-name",
            IppValue::NameWithoutLanguage("HP-8210".try_into().unwrap()),
        ),
        (
            "printer-uri-supported",
            IppValue::Array(vec![
                IppValue::Uri("ipp://localhost/printers/HP-8210".try_into().unwrap()),
                IppValue::Uri("ipps://localhost/printers/HP-8210".try_into().unwrap()),
            ]),
        ),
        ("printer-state", IppValue::Enum(3)),
        ("printer-is-accepting-jobs", IppValue::Boolean(true)),
    ] {
        g.attributes_mut()
            .push(IppAttribute::with_name(name, value).unwrap());
    }

    let p = Printer::decode(&g).unwrap();
    assert_eq!(p.uri, "ipp://localhost/printers/HP-8210");
}
