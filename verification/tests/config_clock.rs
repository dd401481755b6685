use fastfreeze::clock::adjust_timespecs;
use fastfreeze::clock::initial_offsets;
use fastfreeze::config::checkpoint_config;
use fastfreeze::config::cold_start_config;
use fastfreeze::config::contains_path;
use fastfreeze::config::merge_for_restore;
use fastfreeze::config::missing_config_error;
use fastfreeze::config::AppConfig;
use fastfreeze::consts::EXIT_CODE_FAILURE;
use fastfreeze::consts::EXIT_CODE_RESTORE_FAILURE;
use fastfreeze::error::ErrorKind;
use fastfreeze::clock::time_conf_content;
use fastfreeze::decimal::i64_to_string;
use fastfreeze::decimal::u32_to_string;
use fastfreeze::decimal::u64_to_string;
use fastfreeze::logger::log_file_name;
use fastfreeze::manifest::not_found_message;
use fastfreeze::manifest::version_mismatch_message;

fn paths(ps: &[&str]) -> Vec<String> {
    ps.iter().map(|p| String::from(*p)).collect()
}

fn sorted(mut ps: Vec<String>) -> Vec<String> {
    ps.sort();
    ps
}

#[test]
fn cold_start_config_starts_the_clock_at_zero() {
    let c = cold_start_config(String::from("file:/tmp/img"), &paths(&["/a", "/b"]));
    assert_eq!(c.app_clock, 0);
    assert_eq!(c.image_url, "file:/tmp/img");
    assert_eq!(sorted(c.preserved_paths), paths(&["/a", "/b"]));
}

#[test]
fn cold_start_config_drops_duplicate_paths() {
    let c = cold_start_config(String::from("file:/tmp/img"), &paths(&["/a", "/b", "/a"]));
    assert_eq!(sorted(c.preserved_paths), paths(&["/a", "/b"]));
}

#[test]
fn merge_unions_preserved_paths() {
    let image_cfg = AppConfig {
        image_url: String::from("file:/old"),
        preserved_paths: paths(&["/a", "/b"]),
        app_clock: 7,
    };
    let merged = merge_for_restore(image_cfg, String::from("file:/tmp/img"), &paths(&["/b", "/c"]));
    assert_eq!(merged.image_url, "file:/tmp/img");
    assert_eq!(merged.app_clock, 7);
    assert_eq!(sorted(merged.preserved_paths), paths(&["/a", "/b", "/c"]));
}

#[test]
fn merge_with_no_caller_paths_keeps_the_image_set() {
    let image_cfg = AppConfig {
        image_url: String::from("file:/old"),
        preserved_paths: paths(&["/a"]),
        app_clock: 0,
    };
    let merged = merge_for_restore(image_cfg, String::from("file:/new"), &paths(&[]));
    assert_eq!(sorted(merged.preserved_paths), paths(&["/a"]));
}

#[test]
fn contains_path_finds_members() {
    let ps = paths(&["/a", "/b"]);
    assert!(contains_path(&ps, &String::from("/a")));
    assert!(!contains_path(&ps, &String::from("/c")));
}

#[test]
fn checkpoint_advances_the_clock() {
    let c = cold_start_config(String::from("file:/tmp/img"), &paths(&[]));
    let c = checkpoint_config(c, 5_000_000_000);
    assert_eq!(c.app_clock, 5_000_000_000);
    let c = checkpoint_config(c, 0);
    assert_eq!(c.app_clock, 5_000_000_000);
}

#[test]
fn round_trip_keeps_url_and_never_rewinds_the_clock() {
    let c0 = cold_start_config(String::from("file:/first"), &paths(&["/a"]));
    assert_eq!(c0.app_clock, 0);
    let c1 = checkpoint_config(c0, 42);
    let c2 = merge_for_restore(c1, String::from("file:/second"), &paths(&["/b"]));
    assert_eq!(c2.image_url, "file:/second");
    assert!(c2.app_clock >= 0);
    assert_eq!(c2.app_clock, 42);
    assert_eq!(sorted(c2.preserved_paths), paths(&["/a", "/b"]));
}

#[test]
fn missing_config_is_a_pre_ready_config_error() {
    let e = missing_config_error();
    assert_eq!(e.kind, ErrorKind::ConfigError);
    assert_eq!(e.exit_code, EXIT_CODE_FAILURE);
}

#[test]
fn initial_offsets_are_zero() {
    let o = initial_offsets();
    assert_eq!(o.monotonic_offset, 0);
    assert_eq!(o.boottime_offset, 0);
}

#[test]
fn adjusted_offsets_continue_the_application_clock() {
    let o = adjust_timespecs(5_000, 2_000, 3_000).unwrap();
    assert_eq!(o.monotonic_offset, 3_000);
    assert_eq!(o.boottime_offset, 2_000);
    assert_eq!(2_000 + o.monotonic_offset, 5_000);
    assert_eq!(3_000 + o.boottime_offset, 5_000);
}

#[test]
fn adjusted_offsets_may_be_negative() {
    let o = adjust_timespecs(1_000, 4_000, 1_000).unwrap();
    assert_eq!(o.monotonic_offset, -3_000);
    assert_eq!(o.boottime_offset, 0);
}

#[test]
fn offset_overflow_is_a_restore_failure() {
    let e = adjust_timespecs(i64::MIN, 1, 0).unwrap_err();
    assert_eq!(e.kind, ErrorKind::ConfigError);
    assert_eq!(e.exit_code, EXIT_CODE_RESTORE_FAILURE);
}

#[test]
fn decimal_formatting() {
    assert_eq!(u32_to_string(0), "0");
    assert_eq!(u32_to_string(7), "7");
    assert_eq!(u32_to_string(1234567), "1234567");
    assert_eq!(u64_to_string(u64::MAX), "18446744073709551615");
    assert_eq!(i64_to_string(-3000), "-3000");
    assert_eq!(i64_to_string(0), "0");
    assert_eq!(i64_to_string(i64::MIN), "-9223372036854775808");
}

#[test]
fn time_conf_content_format() {
    let o = adjust_timespecs(5_000, 2_000, 8_000).unwrap();
    assert_eq!(time_conf_content(&o), "monotonic 3000\nboottime -3000\n");
}

#[test]
fn manifest_log_messages() {
    assert_eq!(
        not_found_message(),
        "Image manifest not found, running application from scratch"
    );
    assert_eq!(
        version_mismatch_message(2, 1),
        "Image manifest found, but has version 2 while the expected version is 1. \
         You may try again with --allow-bad-image-version. Running application from scratch"
    );
}

#[test]
fn log_file_name_format() {
    let name = log_file_name("20200101-010203", "run", "abc123");
    assert_eq!(name, "ff-20200101-010203-run-abc123.log");
}
