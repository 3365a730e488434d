use cups_rs::auth::{client_certificate_from_callback, password_from_callback, server_certificate_verdict};
use cups_rs::compat::{count_to_usize, cups_bool, usize_to_count};
use cups_rs::config::{server_or_default, user_agent_or_default, user_or_default};
use cups_rs::connection::resource_len;
use cups_rs::text::{i64_text, parse_i32, str_eq, trimmed, u64_text};
use cups_rs::{ConfigSummary, ConnectionFlags, EncryptionMode, Error, ErrorCategory, MediaSize};

#[test]
fn test_encryption_mode_conversion() {
    let modes = [
        EncryptionMode::Never,
        EncryptionMode::IfRequested,
        EncryptionMode::Required,
        EncryptionMode::Always,
    ];

    for mode in &modes {
        let cups_mode: u32 = (*mode).into();
        let converted_back = EncryptionMode::from(cups_mode);
        assert_eq!(*mode, converted_back);
    }
}

#[test]
fn test_connection_flags() {
    assert_eq!(u32::from(ConnectionFlags::Scheduler), 0);
    assert_eq!(u32::from(ConnectionFlags::Device), 1);
}

#[test]
fn encryption_values_match_cups() {
    assert_eq!(u32::from(EncryptionMode::IfRequested), 0);
    assert_eq!(u32::from(EncryptionMode::Never), 1);
    assert_eq!(u32::from(EncryptionMode::Required), 2);
    assert_eq!(u32::from(EncryptionMode::Always), 3);
    assert_eq!(EncryptionMode::from(17u32), EncryptionMode::IfRequested);
}

#[test]
fn error_classification() {
    let cases = vec![
        (Error::ServerUnavailable, true, ErrorCategory::Network),
        (Error::NetworkError("x".into()), true, ErrorCategory::Network),
        (Error::Timeout, true, ErrorCategory::Network),
        (Error::PrinterOffline("p".into()), true, ErrorCategory::Printer),
        (Error::PrinterNotAccepting("p".into(), "r".into()), false, ErrorCategory::Printer),
        (Error::AuthenticationRequired("p".into()), false, ErrorCategory::Authentication),
        (Error::PermissionDenied("p".into()), false, ErrorCategory::Authentication),
        (Error::InvalidFormat("f".into(), "p".into()), false, ErrorCategory::Document),
        (Error::DocumentTooLarge(10, 5), false, ErrorCategory::Document),
        (Error::JobCreationFailed("x".into()), false, ErrorCategory::Job),
        (Error::JobManagementFailed("x".into()), false, ErrorCategory::Job),
        (Error::ConfigurationError("x".into()), false, ErrorCategory::Configuration),
        (Error::NullPointer, false, ErrorCategory::General),
        (Error::DestinationListFailed, false, ErrorCategory::General),
    ];
    for (e, recoverable, category) in cases {
        assert_eq!(e.is_recoverable(), recoverable, "{:?}", e);
        assert_eq!(e.error_category(), category, "{:?}", e);
    }
}

#[test]
fn error_suggestions() {
    assert_eq!(
        Error::ServerUnavailable.suggested_action(),
        "Check if CUPS service is running: sudo systemctl status cups"
    );
    assert_eq!(
        Error::PrinterNotAccepting("p".into(), "r".into()).suggested_action(),
        "Enable job acceptance: cupsaccept <printer>"
    );
    assert_eq!(
        Error::Timeout.suggested_action(),
        "Retry the operation or increase timeout value"
    );
    assert_eq!(
        Error::NullPointer.suggested_action(),
        "Check CUPS logs for more details: sudo tail /var/log/cups/error_log"
    );
}

#[test]
fn config_summary_line() {
    let summary = ConfigSummary {
        server: "localhost".to_string(),
        user: "alice".to_string(),
        encryption: EncryptionMode::IfRequested,
        user_agent: "App/1".to_string(),
    };
    assert_eq!(
        summary.to_string(),
        "Server: localhost, User: alice, Encryption: IfRequested, User-Agent: App/1"
    );
}

#[test]
fn setting_defaults() {
    assert_eq!(server_or_default(None), "localhost");
    assert_eq!(server_or_default(Some("h:8631".to_string())), "h:8631");
    assert_eq!(user_or_default(Some("a".into()), Some("b".into()), None), "a");
    assert_eq!(user_or_default(None, Some("b".into()), Some("c".into())), "b");
    assert_eq!(user_or_default(None, None, Some("c".into())), "c");
    assert_eq!(user_or_default(None, None, None), "anonymous");
    assert_eq!(user_agent_or_default(None, "0.1.0"), "CUPS/2.4 (cups-rs/0.1.0)");
    assert_eq!(user_agent_or_default(Some("X".into()), "0.1.0"), "X");
}

#[test]
fn resource_path_length() {
    assert_eq!(resource_len(b"/printers/P\0\0\0"), 11);
    assert_eq!(resource_len(b"\0abc"), 0);
    assert_eq!(resource_len(b"no-terminator"), 0);
    assert_eq!(resource_len(b""), 0);
}

#[test]
fn c_integer_conversions() {
    assert!(cups_bool(1));
    assert!(cups_bool(-3));
    assert!(!cups_bool(0));
    assert_eq!(count_to_usize(-1), 0);
    assert_eq!(count_to_usize(12), 12);
    assert_eq!(usize_to_count(12), 12);
    assert_eq!(usize_to_count(usize::MAX), i32::MAX);
}

#[test]
fn printable_area() {
    let media = MediaSize {
        name: "na_letter_8.5x11in".to_string(),
        width: 21590,
        length: 27940,
        bottom: 635,
        left: 635,
        right: 635,
        top: 635,
    };
    assert_eq!(media.printable_width(), 21590 - 635 - 635);
    assert_eq!(media.printable_length(), 27940 - 635 - 635);
}

#[test]
fn text_helpers() {
    assert_eq!(trimmed("  a b \u{a0}\n"), "a b");
    assert_eq!(trimmed("\u{2003}"), "");
    assert_eq!(trimmed("x"), "x");
    assert!(str_eq("abc", "abc"));
    assert!(!str_eq("abc", "abd"));
    assert_eq!(i64_text(i64::MIN), i64::MIN.to_string());
    assert_eq!(i64_text(-907), "-907");
    assert_eq!(u64_text(u64::MAX), u64::MAX.to_string());
    assert_eq!(u64_text(0), "0");
    assert_eq!(parse_i32("-12"), Some(-12));
    assert_eq!(parse_i32("+12"), Some(12));
    assert_eq!(parse_i32("1_000"), None);
}

#[test]
fn certificate_callbacks_decide() {
    let cert_data = vec![1u8, 2, 3, 4, 5];
    let client = |server_name: &str| {
        if server_name == "test.example.com" {
            Some(cert_data.clone())
        } else {
            None
        }
    };
    assert_eq!(client_certificate_from_callback(Some(&client), "test.example.com"), Some(cert_data.clone()));
    assert_eq!(client_certificate_from_callback(Some(&client), "other.example.com"), None);
    assert_eq!(client_certificate_from_callback::<fn(&str) -> Option<Vec<u8>>>(None, "test.example.com"), None);

    let server = |server_name: &str, cert: &[u8]| server_name == "trusted.example.com" && !cert.is_empty();
    assert!(server_certificate_verdict(Some(&server), "trusted.example.com", &[1, 2, 3]));
    assert!(!server_certificate_verdict(Some(&server), "untrusted.example.com", &[1, 2, 3]));
    assert!(!server_certificate_verdict(Some(&server), "trusted.example.com", &[]));
    assert!(!server_certificate_verdict::<fn(&str, &[u8]) -> bool>(None, "trusted.example.com", &[1, 2, 3]));

    let password = |_p: &str, _h: Option<&str>, _m: &str, _r: &str| Some("test_password".to_string());
    assert_eq!(
        password_from_callback(Some(&password), "Enter password:", None, "GET", "/"),
        Some("test_password".to_string())
    );
    assert_eq!(
        password_from_callback::<fn(&str, Option<&str>, &str, &str) -> Option<String>>(None, "Enter password:", None, "GET", "/"),
        None
    );
}

#[test]
fn trimming_matches_str_trim_on_every_character() {
    for code in 0u32..0x11000 {
        if let Some(c) = char::from_u32(code) {
            let text = format!("{c}a{c}b{c}");
            assert_eq!(trimmed(&text), text.trim(), "U+{:04X}", code);
        }
    }
}
