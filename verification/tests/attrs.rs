use cups_client::attrs::Attrs;
use ipp::attribute::{IppAttribute, IppAttributeGroup};
use ipp::model::DelimiterTag;
use ipp::value::IppValue;

fn group(attrs: Vec<(&str, IppValue)>) -> IppAttributeGroup {
    let mut g = IppAttributeGroup::new(DelimiterTag::PrinterAttributes);
    for (name, value) in attrs {
        g.attributes_mut()
            .push(IppAttribute::with_name(name, value).unwrap());
    }
    g
}

#[test]
fn reads_single_text_and_int_values() {
    let g = group(vec![
        ("printer-name", IppValue::NameWithoutLanguage("HP".try_into().unwrap())),
        ("printer-state", IppValue::Enum(3)),
    ]);
    let a = Attrs::new(&g);
    assert_eq!(a.text("printer-name").as_deref(), Some("HP"));
    assert_eq!(a.integer("printer-state"), Some(3));
    assert_eq!(a.text("missing"), None);
}

#[test]
fn flattens_arrays_into_lists() {
    let g = group(vec![(
        "printer-state-reasons",
        IppValue::Array(vec![
            IppValue::Keyword("toner-low".try_into().unwrap()),
            IppValue::Keyword("cover-open".try_into().unwrap()),
        ]),
    )]);
    let a = Attrs::new(&g);
    assert_eq!(a.texts("printer-state-reasons"), vec!["toner-low", "cover-open"]);
}

#[test]
fn a_single_value_reads_as_a_one_element_list() {
    let g = group(vec![(
        "printer-state-reasons",
        IppValue::Keyword("none".try_into().unwrap()),
    )]);
    let a = Attrs::new(&g);
    assert_eq!(a.texts("printer-state-reasons"), vec!["none"]);
}

#[test]
fn require_names_the_missing_attribute() {
    let g = group(vec![]);
    let a = Attrs::new(&g);
    let err = a.require_text("printer-name").unwrap_err();
    assert!(err.to_string().contains("printer-name"));
}
