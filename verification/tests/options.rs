use cups_rs::{add_integer_option, add_option, get_integer_option, get_option, remove_option};

#[test]
fn test_add_option() {
    let options = vec![];
    let options = add_option("copies", "2", options);
    assert_eq!(options.len(), 1);
    assert_eq!(options[0], ("copies".to_string(), "2".to_string()));

    // Replace existing option
    let options = add_option("copies", "3", options);
    assert_eq!(options.len(), 1);
    assert_eq!(options[0], ("copies".to_string(), "3".to_string()));
}

#[test]
fn test_add_integer_option() {
    let options = vec![];
    let options = add_integer_option("copies", 5, options);
    assert_eq!(options.len(), 1);
    assert_eq!(options[0], ("copies".to_string(), "5".to_string()));
}

#[test]
fn test_remove_option() {
    let options = vec![
        ("copies".to_string(), "2".to_string()),
        ("media".to_string(), "a4".to_string()),
    ];

    let (options, removed) = remove_option("copies", options);
    assert!(removed);
    assert_eq!(options.len(), 1);
    assert_eq!(options[0], ("media".to_string(), "a4".to_string()));

    let (options, removed) = remove_option("nonexistent", options);
    assert!(!removed);
    assert_eq!(options.len(), 1);
}

#[test]
fn test_get_option() {
    let options = vec![
        ("copies".to_string(), "2".to_string()),
        ("media".to_string(), "a4".to_string()),
    ];

    assert_eq!(get_option("copies", &options), Some("2"));
    assert_eq!(get_option("media", &options), Some("a4"));
    assert_eq!(get_option("nonexistent", &options), None);
}

#[test]
fn test_get_integer_option() {
    let options = vec![
        ("copies".to_string(), "2".to_string()),
        ("media".to_string(), "a4".to_string()),
    ];

    assert_eq!(get_integer_option("copies", &options), Some(2));
    assert_eq!(get_integer_option("media", &options), None);
    assert_eq!(get_integer_option("nonexistent", &options), None);
}

#[test]
fn add_option_moves_replaced_option_to_the_end() {
    let options = vec![
        ("copies".to_string(), "2".to_string()),
        ("media".to_string(), "a4".to_string()),
        ("copies".to_string(), "4".to_string()),
    ];
    let options = add_option("copies", "7", options);
    assert_eq!(
        options,
        vec![
            ("media".to_string(), "a4".to_string()),
            ("copies".to_string(), "7".to_string()),
        ]
    );
}

#[test]
fn get_option_returns_first_match() {
    let options = vec![
        ("sides".to_string(), "one-sided".to_string()),
        ("sides".to_string(), "two-sided-long-edge".to_string()),
    ];
    assert_eq!(get_option("sides", &options), Some("one-sided"));
    assert_eq!(get_option("Sides", &options), None);
}

#[test]
fn remove_option_removes_every_match() {
    let options = vec![
        ("copies".to_string(), "2".to_string()),
        ("media".to_string(), "a4".to_string()),
        ("copies".to_string(), "3".to_string()),
    ];
    let (options, removed) = remove_option("copies", options);
    assert!(removed);
    assert_eq!(options, vec![("media".to_string(), "a4".to_string())]);
    assert_eq!(get_option("copies", &options), None);
}

#[test]
fn integer_options_read_back_at_the_extremes() {
    for value in [0, 1, -1, 42, -42, 1000, i32::MAX, i32::MIN] {
        let options = add_integer_option("n", value, vec![]);
        assert_eq!(options[0].1, value.to_string());
        assert_eq!(get_integer_option("n", &options), Some(value));
    }
}

#[test]
fn integer_option_parsing_follows_str_parse() {
    let cases = [
        "+5", "-0", "007", "", "-", "+", " 5", "5 ", "5x", "2147483647", "2147483648",
        "-2147483648", "-2147483649", "99999999999999999999", "+-1", "١٢",
    ];
    for text in cases {
        let options = vec![("n".to_string(), text.to_string())];
        assert_eq!(get_integer_option("n", &options), text.parse::<i32>().ok(), "{:?}", text);
    }
}
