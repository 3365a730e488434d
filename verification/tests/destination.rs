use cups_rs::destination::{keep_enumerated, media_name_field, pick_default};
use cups_rs::{Destination, Error, OptionMap, PrintOptions, PrinterState, DEST_FLAGS_REMOVED};

fn dest(name: &str, is_default: bool) -> Destination {
    Destination {
        name: name.to_string(),
        instance: None,
        is_default,
        options: OptionMap::new(),
    }
}

#[test]
fn test_destination_creation() {
    let mut options = OptionMap::new();
    options.insert("printer-state".to_string(), "3".to_string());
    options.insert("printer-info".to_string(), "Test Printer".to_string());
    options.insert("printer-is-accepting-jobs".to_string(), "true".to_string());

    let dest = Destination {
        name: "TestPrinter".to_string(),
        instance: None,
        is_default: false,
        options,
    };

    assert_eq!(dest.name, "TestPrinter");
    assert_eq!(dest.full_name(), "TestPrinter");
    assert_eq!(dest.state(), PrinterState::Idle);
    assert!(dest.is_accepting_jobs());
    assert_eq!(dest.info(), Some(&"Test Printer".to_string()));
}

#[test]
fn test_destination_with_instance() {
    let dest = Destination {
        name: "TestPrinter".to_string(),
        instance: Some("instance1".to_string()),
        is_default: true,
        options: OptionMap::new(),
    };

    assert_eq!(dest.full_name(), "TestPrinter/instance1");
    assert!(dest.is_default);
}

#[test]
fn test_destination_state_parsing() {
    let mut options = OptionMap::new();

    // Test different printer states
    options.insert("printer-state".to_string(), "4".to_string());
    let dest = Destination {
        name: "Test".to_string(),
        instance: None,
        is_default: false,
        options: options.clone(),
    };
    assert_eq!(dest.state(), PrinterState::Processing);

    options.insert("printer-state".to_string(), "5".to_string());
    let dest = Destination {
        name: "Test".to_string(),
        instance: None,
        is_default: false,
        options: options.clone(),
    };
    assert_eq!(dest.state(), PrinterState::Stopped);
}

#[test]
fn test_destination_state_reasons() {
    let mut options = OptionMap::new();
    options.insert(
        "printer-state-reasons".to_string(),
        "media-tray-empty-error,toner-low-warning".to_string(),
    );

    let dest = Destination {
        name: "Test".to_string(),
        instance: None,
        is_default: false,
        options,
    };

    let reasons = dest.state_reasons();
    assert_eq!(reasons.len(), 2);
    assert!(reasons.contains(&"media-tray-empty-error".to_string()));
    assert!(reasons.contains(&"toner-low-warning".to_string()));
}

#[test]
fn state_reasons_are_trimmed_and_keep_empty_pieces() {
    let mut d = dest("P", false);
    assert!(d.state_reasons().is_empty());
    d.options.insert(
        "printer-state-reasons".to_string(),
        " none ,\u{3000}paused\t,,".to_string(),
    );
    assert_eq!(d.state_reasons(), vec!["none", "paused", "", ""]);
    d.options.insert("printer-state-reasons".to_string(), "".to_string());
    assert_eq!(d.state_reasons(), vec![""]);
}

#[test]
fn unknown_or_missing_state_is_unknown() {
    let mut d = dest("P", false);
    assert_eq!(d.state(), PrinterState::Unknown);
    d.options.insert("printer-state".to_string(), "03".to_string());
    assert_eq!(d.state(), PrinterState::Unknown);
    d.options.insert("printer-state".to_string(), "0".to_string());
    assert_eq!(d.state(), PrinterState::Unknown);
}

#[test]
fn accepting_jobs_only_for_exact_true() {
    let mut d = dest("P", false);
    assert!(!d.is_accepting_jobs());
    d.options.insert("printer-is-accepting-jobs".to_string(), "TRUE".to_string());
    assert!(!d.is_accepting_jobs());
    d.options.insert("printer-is-accepting-jobs".to_string(), "true".to_string());
    assert!(d.is_accepting_jobs());
}

#[test]
fn named_option_getters() {
    let mut d = dest("P", false);
    assert_eq!(d.location(), None);
    d.options.insert("printer-location".to_string(), "Room 1".to_string());
    d.options.insert("printer-make-and-model".to_string(), "Acme 9000".to_string());
    d.options.insert("printer-uri-supported".to_string(), "ipp://h/printers/P".to_string());
    d.options.insert("device-uri".to_string(), "usb://Acme".to_string());
    assert_eq!(d.location().map(|s| s.as_str()), Some("Room 1"));
    assert_eq!(d.make_and_model().map(|s| s.as_str()), Some("Acme 9000"));
    assert_eq!(d.uri().map(|s| s.as_str()), Some("ipp://h/printers/P"));
    assert_eq!(d.device_uri().map(|s| s.as_str()), Some("usb://Acme"));
    assert!(d.has_option("device-uri"));
    assert!(!d.has_option("printer-info"));
    assert_eq!(d.get_option("device-uri").map(|s| s.as_str()), Some("usb://Acme"));
    assert_eq!(d.get_options().len(), 4);
}

#[test]
fn printer_state_values_round_trip() {
    for s in [
        PrinterState::Idle,
        PrinterState::Processing,
        PrinterState::Stopped,
        PrinterState::Unknown,
    ] {
        assert_eq!(PrinterState::from_cups_state(s.to_cups_value()), s);
    }
    assert_eq!(PrinterState::Idle.to_cups_value(), "3");
    assert_eq!(PrinterState::Unknown.to_cups_value(), "0");
    assert!(PrinterState::Idle.is_available());
    assert!(PrinterState::Processing.is_available());
    assert!(!PrinterState::Stopped.is_available());
    assert!(!PrinterState::Unknown.is_available());
    assert_eq!(PrinterState::Stopped.to_string(), "Stopped");
}

#[test]
fn option_map_replaces_and_counts_keys() {
    let mut m = OptionMap::new();
    assert!(m.is_empty());
    m.insert("a".to_string(), "1".to_string());
    m.insert("b".to_string(), "2".to_string());
    m.insert("a".to_string(), "3".to_string());
    assert_eq!(m.len(), 2);
    assert_eq!(m.get("a"), Some(&"3".to_string()));
    assert!(m.contains_key("b"));
    assert!(!m.contains_key("c"));
    let mut pairs: Vec<(String, String)> = m.pairs().to_vec();
    pairs.sort();
    assert_eq!(
        pairs,
        vec![("a".to_string(), "3".to_string()), ("b".to_string(), "2".to_string())]
    );
}

#[test]
fn pick_default_takes_the_first_default() {
    let entries = vec![
        (false, Ok(dest("A", false))),
        (false, Err(Error::NullPointer)),
        (true, Ok(dest("B", true))),
        (true, Ok(dest("C", true))),
    ];
    let d = pick_default(entries).unwrap();
    assert_eq!(d.name, "B");
    match pick_default(vec![(false, Ok(dest("A", false))), (false, Err(Error::NullPointer))]) {
        Err(Error::DestinationNotFound(name)) => assert_eq!(name, "Default printer"),
        other => panic!("unexpected {:?}", other),
    }
    assert!(matches!(pick_default(vec![]), Err(Error::DestinationNotFound(_))));
}

#[test]
fn unreadable_first_default_gives_its_error() {
    let entries = vec![
        (false, Ok(dest("A", false))),
        (true, Err(Error::NullPointer)),
        (true, Ok(dest("C", true))),
    ];
    assert!(matches!(pick_default(entries), Err(Error::NullPointer)));
}

#[test]
fn print_option_lengths_follow_new_keys() {
    let o = PrintOptions::new().copies(2);
    assert_eq!(o.len(), 1);
    let o = o.copies(3);
    assert_eq!(o.len(), 1);
    let pairs = o.as_cups_options();
    assert_eq!(pairs, vec![("copies", "3")]);
    let o = o.custom_option("job-priority", "50").custom_option("copies", "4");
    assert_eq!(o.len(), 2);
    let mut pairs = o.as_cups_options();
    pairs.sort();
    assert_eq!(pairs, vec![("copies", "4"), ("job-priority", "50")]);
    assert!(PrintOptions::new().as_cups_options().is_empty());
}

#[test]
fn removed_destinations_are_not_kept() {
    let mut found = Vec::new();
    assert!(keep_enumerated(0, dest("A", false), &mut found));
    assert!(keep_enumerated(DEST_FLAGS_REMOVED, dest("B", false), &mut found));
    assert!(keep_enumerated(0x02, dest("C", false), &mut found));
    let names: Vec<String> = found.into_iter().map(|d| d.name).collect();
    assert_eq!(names, vec!["A", "C"]);
}

#[test]
fn media_name_field_truncates_to_127_bytes() {
    let f = media_name_field("iso_a4_210x297mm");
    assert_eq!(f.len(), 128);
    assert_eq!(&f[..16], b"iso_a4_210x297mm");
    assert!(f[16..].iter().all(|&b| b == 0));
    let long = "x".repeat(200);
    let f = media_name_field(&long);
    assert!(f[..127].iter().all(|&b| b == b'x'));
    assert_eq!(f[127], 0);
}
