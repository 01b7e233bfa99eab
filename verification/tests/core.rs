use pulsar_installer::checksum::FileVerifier;
use pulsar_installer::download::compute_percent;
use pulsar_installer::download::is_success_status;
use pulsar_installer::download::overall_percent;
use pulsar_installer::download::remote_size_from_header;
use pulsar_installer::download::BatchTransfer;
use pulsar_installer::download::DownloadTask;
use pulsar_installer::download::Transfer;
use pulsar_installer::error::InstallerError;
use pulsar_installer::progress::Progress;
use pulsar_installer::text::parse_u64;
use pulsar_installer::text::path_is_absolute;
use pulsar_installer::text::str_contains_ci;
use pulsar_installer::text::str_ends_with;
use pulsar_installer::text::str_eq;
use pulsar_installer::text::str_eq_ci;
use pulsar_installer::text::str_starts_with;
use pulsar_installer::text::u64_to_string;

#[test]
fn progress_new_clamps_percent() {
    let p = Progress::new(150);
    assert_eq!(p.current, 100);
    let p = Progress::new(42);
    assert_eq!(p.current, 42);
    assert_eq!(p.total_bytes, None);
    assert_eq!(p.processed_bytes, 0);
    assert_eq!(p.message, None);
}

#[test]
fn progress_builders_set_fields() {
    let p = Progress::new(10)
        .with_total_bytes(1000)
        .with_processed_bytes(100)
        .with_message(String::from("downloading"));
    assert_eq!(p.current, 10);
    assert_eq!(p.total_bytes, Some(1000));
    assert_eq!(p.processed_bytes, 100);
    assert_eq!(p.message.as_deref(), Some("downloading"));
}

#[test]
fn percent_exact_formula() {
    assert_eq!(compute_percent(0, Some(1_000_000)), 0);
    assert_eq!(compute_percent(250_000, Some(1_000_000)), 25);
    assert_eq!(compute_percent(999_999, Some(1_000_000)), 99);
    assert_eq!(compute_percent(1_000_000, Some(1_000_000)), 100);
    assert_eq!(compute_percent(2_000_000, Some(1_000_000)), 100);
    assert_eq!(compute_percent(123, None), 0);
    assert_eq!(compute_percent(123, Some(0)), 0);
}

#[test]
fn transfer_progress_is_monotone_and_ends_at_100() {
    let mut t = Transfer::begin(Some(1_000_000));
    let mut last = 0u64;
    let mut emitted = Vec::new();
    for chunk in [300_000u64, 300_000, 300_000, 100_000] {
        let p = t.record_chunk(chunk);
        assert!(p.current >= last);
        last = p.current;
        emitted.push(p.current);
    }
    assert_eq!(emitted, vec![30, 60, 90, 100]);
    assert_eq!(t.processed, 1_000_000);
    assert_eq!(t.percent(), 100);
}

#[test]
fn transfer_without_total_reports_zero_percent() {
    let mut t = Transfer::begin(None);
    let p = t.record_chunk(8192);
    assert_eq!(p.current, 0);
    assert_eq!(p.processed_bytes, 8192);
    assert_eq!(p.total_bytes, None);
}

#[test]
fn overall_percent_accumulates_batches() {
    assert_eq!(overall_percent(500_000, 250_000, 1_000_000), 75);
    assert_eq!(overall_percent(0, 0, 0), 0);
    assert_eq!(overall_percent(u64::MAX, 1, 100), 100);
}

#[test]
fn batch_transfer_banks_finished_items() {
    let mut batch = BatchTransfer::new(1_000_000);
    assert_eq!(batch.overall(0), 0);
    assert_eq!(batch.overall(400_000), 40);
    batch.complete_item(400_000);
    assert_eq!(batch.downloaded, 400_000);
    assert_eq!(batch.overall(600_000), 100);
    batch.complete_item(600_000);
    assert_eq!(batch.overall(0), 100);
    batch.complete_item(u64::MAX);
    assert_eq!(batch.downloaded, u64::MAX, "the counter saturates");
}

#[test]
fn download_task_holds_fields() {
    let t = DownloadTask::new(
        String::from("https://example.invalid/app.tar.gz"),
        String::from("/tmp/app.tar.gz"),
        Some(String::from("abc123")),
    );
    assert_eq!(t.url, "https://example.invalid/app.tar.gz");
    assert_eq!(t.destination, "/tmp/app.tar.gz");
    assert_eq!(t.expected_checksum.as_deref(), Some("abc123"));
}

#[test]
fn status_codes_partition_success() {
    assert!(is_success_status(200));
    assert!(is_success_status(204));
    assert!(is_success_status(299));
    assert!(!is_success_status(199));
    assert!(!is_success_status(300));
    assert!(!is_success_status(404));
}

#[test]
fn parse_u64_accepts_exactly_decimal_numerals() {
    assert_eq!(parse_u64("0"), Some(0));
    assert_eq!(parse_u64("1000000"), Some(1_000_000));
    assert_eq!(parse_u64("18446744073709551615"), Some(u64::MAX));
    assert_eq!(parse_u64("18446744073709551616"), None);
    assert_eq!(parse_u64(""), None);
    assert_eq!(parse_u64("12a"), None);
    assert_eq!(parse_u64("-5"), None);
}

#[test]
fn remote_size_requires_a_content_length() {
    assert_eq!(remote_size_from_header(Some(&String::from("1048576"))).unwrap(), 1_048_576);
    let missing = remote_size_from_header(None);
    assert!(matches!(missing, Err(InstallerError::Download(_))));
    let garbled = remote_size_from_header(Some(&String::from("10MB")));
    assert!(matches!(garbled, Err(InstallerError::Download(_))));
}

#[test]
fn sha256_digest_of_known_inputs() {
    let v = FileVerifier::new();
    assert_eq!(
        v.calculate_sha256(b""),
        "e3b0c44298fc1c149afbf4c8996fb92427ae41e4649b934ca495991b7852b855"
    );
    assert_eq!(
        v.calculate_sha256(b"abc"),
        "ba7816bf8f01cfea414140de5dae2223b00361a396177a9cb410ff61f20015ad"
    );
}

#[test]
fn verification_round_trip_succeeds() {
    let v = FileVerifier::new();
    let data = b"downloaded bytes".to_vec();
    let digest = v.calculate_sha256(&data);
    assert!(v.verify_sha256(&data, "/tmp/file.bin", &digest).is_ok());
    let uppercase = digest.to_uppercase();
    assert!(v.verify_sha256(&data, "/tmp/file.bin", &uppercase).is_ok());
}

#[test]
fn verification_mismatch_reports_true_digest() {
    let v = FileVerifier::new();
    let data = b"downloaded bytes".to_vec();
    let truth = v.calculate_sha256(&data);
    let wrong = "0000000000000000000000000000000000000000000000000000000000000000";
    match v.verify_sha256(&data, "/tmp/file.bin", wrong) {
        Err(InstallerError::ChecksumMismatch { file, expected, actual }) => {
            assert_eq!(file, "/tmp/file.bin");
            assert_eq!(expected, wrong);
            assert_eq!(actual, truth);
        },
        other => panic!("expected a checksum mismatch, got {:?}", other),
    }
}

#[test]
fn string_comparisons() {
    assert!(str_eq("abc", "abc"));
    assert!(!str_eq("abc", "abd"));
    assert!(str_eq_ci("PuLsAr", "pulsar"));
    assert!(!str_eq_ci("pulsar", "pulsar2"));
    assert!(str_contains_ci("Pulsar-Linux-X86_64.tar.gz", "linux-x86_64"));
    assert!(!str_contains_ci("pulsar-macos.tar.gz", "linux"));
    assert!(str_starts_with("/usr/bin/pulsar", "/usr"));
    assert!(!str_starts_with("/opt/pulsar", "/usr"));
    assert!(str_ends_with("app.tar.gz", ".tar.gz"));
    assert!(!str_ends_with("app.zip", ".tar.gz"));
}

#[test]
fn absolute_path_shapes() {
    assert!(path_is_absolute("/usr/local"));
    assert!(path_is_absolute("C:\\Program Files\\Pulsar"));
    assert!(path_is_absolute("D:/games"));
    assert!(!path_is_absolute("relative/path"));
    assert!(!path_is_absolute(""));
}

#[test]
fn number_rendering_round_trips_through_parsing() {
    assert_eq!(u64_to_string(0), "0");
    assert_eq!(u64_to_string(7), "7");
    assert_eq!(u64_to_string(12345), "12345");
    assert_eq!(u64_to_string(u64::MAX), "18446744073709551615");
    assert_eq!(parse_u64(&u64_to_string(987654321)), Some(987654321));
}

#[test]
fn error_messages_render_their_context() {
    assert_eq!(
        InstallerError::InsufficientSpace { needed: 2048, available: 100 }.message(),
        "Insufficient disk space: need 2048 bytes, available 100 bytes"
    );
    assert_eq!(
        InstallerError::ChecksumMismatch {
            file: String::from("/tmp/a"),
            expected: String::from("aa"),
            actual: String::from("bb"),
        }
        .message(),
        "Checksum mismatch for /tmp/a: expected aa, got bb"
    );
    assert_eq!(
        InstallerError::ComponentFailed {
            component: String::from("core"),
            reason: String::from("copy failed"),
        }
        .message(),
        "Failed to install component 'core': copy failed"
    );
    assert_eq!(
        InstallerError::InvalidPath(String::from("relative")).message(),
        "Invalid installation path: relative"
    );
    assert_eq!(InstallerError::Other(String::from("boom")).message(), "boom");
}

#[test]
fn error_kind_names() {
    assert_eq!(InstallerError::Io(String::from("x")).kind_name(), "io error");
    assert_eq!(InstallerError::Download(String::from("x")).kind_name(), "download failed");
    assert_eq!(
        InstallerError::ChecksumMismatch {
            file: String::new(),
            expected: String::new(),
            actual: String::new(),
        }
        .kind_name(),
        "checksum mismatch"
    );
    assert_eq!(
        InstallerError::InsufficientSpace { needed: 2, available: 1 }.kind_name(),
        "insufficient space"
    );
    assert_eq!(
        InstallerError::RequirementsNotMet(String::from("x")).kind_name(),
        "requirements not met"
    );
    assert_eq!(InstallerError::InvalidPath(String::from("x")).kind_name(), "invalid path");
    assert_eq!(
        InstallerError::ComponentFailed { component: String::new(), reason: String::new() }
            .kind_name(),
        "component failed"
    );
    assert_eq!(InstallerError::Config(String::from("x")).kind_name(), "configuration error");
    assert_eq!(
        InstallerError::UnsupportedPlatform(String::from("x")).kind_name(),
        "unsupported platform"
    );
    assert_eq!(InstallerError::Json(String::from("x")).kind_name(), "json error");
    assert_eq!(InstallerError::Other(String::from("x")).kind_name(), "error");
}
