use version_service::build_info::BuildInfo;
use version_service::version::{info_handler, version_info, Timestamp};

fn sample_build() -> BuildInfo {
    BuildInfo {
        pkg_version: "0.3.1".to_string(),
        short_commit: "a1b2c3d".to_string(),
        build_time: "2024-05-01 10:00:00 +00:00".to_string(),
        rust_version: "rustc 1.78.0".to_string(),
        rust_channel: "stable-x86_64-unknown-linux-gnu".to_string(),
        cargo_version: "cargo 1.78.0".to_string(),
    }
}

#[test]
fn app_version_joins_build_fields() {
    assert_eq!(
        sample_build().app_version(),
        "0.3.1 (a1b2c3d 2024-05-01 10:00:00 +00:00), build_env: rustc 1.78.0, \
         stable-x86_64-unknown-linux-gnu, cargo 1.78.0"
    );
}

#[test]
fn app_version_of_empty_fields() {
    let b = BuildInfo {
        pkg_version: String::new(),
        short_commit: String::new(),
        build_time: String::new(),
        rust_version: String::new(),
        rust_channel: String::new(),
        cargo_version: String::new(),
    };
    assert_eq!(b.app_version(), " ( ), build_env: , , ");
}

#[test]
fn version_info_keeps_given_time() {
    let ts = Timestamp { secs: 1_714_557_600, nanos: 123_456_789 };
    let info = version_info(&sample_build(), ts);
    assert_eq!(info.version, sample_build().app_version());
    assert_eq!(info.current_timestamp, ts);
}

#[test]
fn info_handler_stamps_wall_clock_time() {
    let before = chrono::Utc::now();
    let info = info_handler(&sample_build());
    let after = chrono::Utc::now();
    assert!(!info.version.is_empty());
    assert_eq!(info.version, sample_build().app_version());
    let ts = info.current_timestamp;
    assert!(ts.nanos < 1_000_000_000);
    let at = chrono::DateTime::from_timestamp(ts.secs, ts.nanos).unwrap();
    assert!(before <= at && at <= after);
    let text = at.to_rfc3339();
    let parsed = chrono::DateTime::parse_from_rfc3339(&text).unwrap();
    assert_eq!(parsed, at);
}
