use cups_client::default_printer_from;
use cups_client::lpoptions::parse_default;

#[test]
fn reads_the_default_destination() {
    assert_eq!(
        parse_default("Default HP-8210 media=a4 sides=one-sided\n").as_deref(),
        Some("HP-8210")
    );
}

#[test]
fn strips_the_instance_suffix() {
    assert_eq!(
        parse_default("Default HP-8210/duplex media=a4\n").as_deref(),
        Some("HP-8210")
    );
}

#[test]
fn ignores_dest_lines_and_blank_lines() {
    let contents = "\nDest Other-Printer media=a4\nDefault HP-8210\n";
    assert_eq!(parse_default(contents).as_deref(), Some("HP-8210"));
}

#[test]
fn malformed_input_yields_none() {
    assert_eq!(parse_default(""), None);
    assert_eq!(parse_default("Default\n"), None);
    assert_eq!(parse_default("garbage garbage\n"), None);
}

#[test]
fn user_file_wins_over_system_file() {
    let user = Some("Default UserChoice\n");
    let system = Some("Default SystemChoice\n");

    assert_eq!(default_printer_from(user, system).as_deref(), Some("UserChoice"));
    assert_eq!(default_printer_from(None, system).as_deref(), Some("SystemChoice"));
}

#[test]
fn no_files_at_all_yields_none() {
    assert_eq!(default_printer_from(None, None), None);
}

#[test]
fn the_last_default_line_counts() {
    let contents = "Default First\nDefault Second/draft\nDefault /none\n";
    assert_eq!(parse_default(contents).as_deref(), Some("Second"));
}

#[test]
fn white_space_of_every_kind_ends_a_name() {
    assert_eq!(parse_default("Default \t HP\u{2003}x").as_deref(), Some("HP"));
    assert_eq!(parse_default("Default HP\r\nDest X\r\n").as_deref(), Some("HP"));
    assert_eq!(parse_default("Default HP\r").as_deref(), Some("HP"));
    assert_eq!(parse_default("Default    \n"), None);
    assert_eq!(parse_default(" Default HP\n"), None);
    assert_eq!(parse_default("Defaults HP\n"), None);
}

#[test]
fn a_user_file_without_a_default_defers_to_the_system() {
    let system = Some("Default SystemChoice");
    assert_eq!(
        default_printer_from(Some("Dest Other\n"), system).as_deref(),
        Some("SystemChoice")
    );
    assert_eq!(
        default_printer_from(Some("Default UserChoice"), None).as_deref(),
        Some("UserChoice")
    );
}
