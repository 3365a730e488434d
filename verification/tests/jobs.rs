use cups_rs::job::{
    document_chunks, document_finish_result, document_start_result, document_write_result, find_job,
    job_not_found,
};
use cups_rs::{
    ColorMode, DuplexMode, Error, Job, JobInfo, JobStatus, Orientation, PrintOptions,
    PrintQuality, MEDIA_A4,
};

#[test]
fn test_job_status_from_cups_state() {
    assert_eq!(JobStatus::from_cups_state(3), JobStatus::Pending);
    assert_eq!(JobStatus::from_cups_state(4), JobStatus::Processing);
    assert_eq!(JobStatus::from_cups_state(5), JobStatus::Completed);
    assert_eq!(JobStatus::from_cups_state(6), JobStatus::Canceled);
    assert_eq!(JobStatus::from_cups_state(7), JobStatus::Aborted);
    assert_eq!(JobStatus::from_cups_state(8), JobStatus::Held);
    assert_eq!(JobStatus::from_cups_state(9), JobStatus::Stopped);
    assert_eq!(JobStatus::from_cups_state(999), JobStatus::Unknown);
}

#[test]
fn test_job_status_to_cups_value() {
    assert_eq!(JobStatus::Pending.to_cups_value(), 3);
    assert_eq!(JobStatus::Processing.to_cups_value(), 4);
    assert_eq!(JobStatus::Completed.to_cups_value(), 5);
    assert_eq!(JobStatus::Canceled.to_cups_value(), 6);
    assert_eq!(JobStatus::Aborted.to_cups_value(), 7);
    assert_eq!(JobStatus::Held.to_cups_value(), 8);
    assert_eq!(JobStatus::Stopped.to_cups_value(), 9);
    assert_eq!(JobStatus::Unknown.to_cups_value(), 0);
}

#[test]
fn test_job_status_display() {
    assert_eq!(JobStatus::Pending.to_string(), "Pending");
    assert_eq!(JobStatus::Processing.to_string(), "Processing");
    assert_eq!(JobStatus::Completed.to_string(), "Completed");
    assert_eq!(JobStatus::Canceled.to_string(), "Canceled");
    assert_eq!(JobStatus::Aborted.to_string(), "Aborted");
    assert_eq!(JobStatus::Held.to_string(), "Held");
    assert_eq!(JobStatus::Stopped.to_string(), "Stopped");
    assert_eq!(JobStatus::Unknown.to_string(), "Unknown");
}

fn info(id: i32, title: &str, status: JobStatus) -> JobInfo {
    JobInfo {
        id,
        title: title.to_string(),
        user: "testuser".to_string(),
        dest: "TestPrinter".to_string(),
        status,
        size: 1024,
        priority: 50,
        creation_time: 1640995200,
        processing_time: 1640995260,
        completed_time: 0,
    }
}

#[test]
fn test_job_info_creation() {
    let job_info = JobInfo {
        id: 123,
        title: "Test Job".to_string(),
        user: "testuser".to_string(),
        dest: "TestPrinter".to_string(),
        status: JobStatus::Processing,
        size: 1024,
        priority: 50,
        creation_time: 1640995200,
        processing_time: 1640995260,
        completed_time: 0,
    };

    assert_eq!(job_info.id, 123);
    assert_eq!(job_info.title, "Test Job");
    assert_eq!(job_info.status, JobStatus::Processing);
}

#[test]
fn job_status_numbers_round_trip() {
    for state in -2..12 {
        let s = JobStatus::from_cups_state(state);
        if (3..=9).contains(&state) {
            assert_eq!(s.to_cups_value(), state);
        } else {
            assert_eq!(s, JobStatus::Unknown);
        }
        assert_eq!(JobStatus::from_cups_state(s.to_cups_value()), s);
    }
}

#[test]
fn job_new_keeps_its_fields() {
    let job = Job::new(7, "Office".to_string(), "Report".to_string());
    assert_eq!(job.id, 7);
    assert_eq!(job.dest_name, "Office");
    assert_eq!(job.title, "Report");
}

#[test]
fn find_job_takes_the_first_with_the_id() {
    let jobs = vec![
        info(1, "a", JobStatus::Pending),
        info(2, "b", JobStatus::Held),
        info(2, "c", JobStatus::Completed),
    ];
    let found = find_job(jobs.clone(), 2).unwrap();
    assert_eq!(found.title, "b");
    assert!(find_job(jobs, 3).is_none());
}

#[test]
fn job_not_found_reports_the_counts() {
    match job_not_found(42, 3, 10) {
        Error::JobManagementFailed(msg) => {
            assert_eq!(msg, "Job 42 not found (active: 3, completed: 10)")
        }
        other => panic!("unexpected {:?}", other),
    }
    match job_not_found(-5, 0, 0) {
        Error::JobManagementFailed(msg) => {
            assert_eq!(msg, "Job -5 not found (active: 0, completed: 0)")
        }
        other => panic!("unexpected {:?}", other),
    }
}

#[test]
fn documents_are_sent_in_8192_byte_pieces() {
    assert!(document_chunks(0).is_empty());
    assert_eq!(document_chunks(1), vec![(0, 1)]);
    assert_eq!(document_chunks(8192), vec![(0, 8192)]);
    assert_eq!(
        document_chunks(20000),
        vec![(0, 8192), (8192, 16384), (16384, 20000)]
    );
    let chunks = document_chunks(100_000);
    assert_eq!(chunks.first().unwrap().0, 0);
    assert_eq!(chunks.last().unwrap().1, 100_000);
    for w in chunks.windows(2) {
        assert_eq!(w[0].1, w[1].0);
    }
}

fn sorted(opts: &PrintOptions) -> Vec<(String, String)> {
    let mut v: Vec<(String, String)> = opts
        .as_cups_options()
        .into_iter()
        .map(|(k, v)| (k.to_string(), v.to_string()))
        .collect();
    v.sort();
    v
}

#[test]
fn print_options_table_values() {
    let options = PrintOptions::new()
        .copies(2)
        .color_mode(ColorMode::Color)
        .quality(PrintQuality::High)
        .duplex(DuplexMode::TwoSidedPortrait)
        .media(MEDIA_A4)
        .orientation(Orientation::Landscape);
    assert_eq!(options.len(), 6);
    assert!(!options.is_empty());
    let pairs = sorted(&options);
    let expected: Vec<(String, String)> = vec![
        ("copies", "2"),
        ("media", "iso_a4_210x297mm"),
        ("orientation-requested", "4"),
        ("print-color-mode", "color"),
        ("print-quality", "5"),
        ("sides", "two-sided-long-edge"),
    ]
    .into_iter()
    .map(|(k, v)| (k.to_string(), v.to_string()))
    .collect();
    assert_eq!(pairs, expected);
}

#[test]
fn print_option_enum_values() {
    assert_eq!(ColorMode::Auto.to_string(), "auto");
    assert_eq!(ColorMode::Monochrome.to_string(), "monochrome");
    assert_eq!(PrintQuality::Draft.to_string(), "3");
    assert_eq!(PrintQuality::Normal.to_string(), "4");
    assert_eq!(DuplexMode::OneSided.to_string(), "one-sided");
    assert_eq!(DuplexMode::TwoSidedLandscape.to_string(), "two-sided-short-edge");
    assert_eq!(Orientation::Portrait.to_string(), "3");
}

#[test]
fn setting_an_option_again_replaces_it() {
    let options = PrintOptions::default()
        .copies(1)
        .custom_option("job-priority", "50")
        .copies(3);
    assert_eq!(options.len(), 2);
    assert_eq!(
        sorted(&options),
        vec![
            ("copies".to_string(), "3".to_string()),
            ("job-priority".to_string(), "50".to_string()),
        ]
    );
    assert!(PrintOptions::new().is_empty());
}

#[test]
fn job_creation_outcomes() {
    let job = cups_rs::job::job_creation_result(0, 12, "P".to_string(), "T".to_string(), "")
        .unwrap();
    assert_eq!((job.id, job.dest_name.as_str(), job.title.as_str()), (12, "P", "T"));
    match cups_rs::job::job_creation_result(1030, 0, "P".to_string(), "T".to_string(), "Not found") {
        Err(Error::JobCreationFailed(msg)) => {
            assert_eq!(msg, "CUPS job creation failed with status 1030: Not found")
        }
        other => panic!("unexpected {:?}", other),
    }
}

#[test]
fn job_management_outcomes() {
    assert!(cups_rs::job::job_management_result("close", 0, 5, "").is_ok());
    match cups_rs::job::job_management_result("cancel", 1, 5, "denied") {
        Err(Error::JobManagementFailed(msg)) => assert_eq!(msg, "Failed to cancel job 5: denied"),
        other => panic!("unexpected {:?}", other),
    }
}

#[test]
fn document_request_outcomes() {
    assert!(document_start_result(100).is_ok());
    assert!(matches!(document_start_result(500), Err(Error::DocumentSubmissionFailed(m)) if m == "Failed to start document"));
    assert!(document_write_result(100, 8192).is_ok());
    assert!(matches!(document_write_result(400, 8192), Err(Error::DocumentSubmissionFailed(m)) if m == "Failed to write data at byte 8192"));
    assert!(document_finish_result(0).is_ok());
    assert!(matches!(document_finish_result(1), Err(Error::DocumentSubmissionFailed(m)) if m == "Failed to finish document"));
}
