use trauso::decimal::{parse_u64, render_i64, render_u64};
use trauso::status::{DownloadInfo, DownloadStatus, RawFile, RawStatus};

fn record(total: Option<&str>, done: Option<&str>, speed: Option<&str>, files: Option<Vec<&str>>) -> RawStatus {
    RawStatus {
        gid: "2089b05ecca3d829".to_string(),
        status: "active".to_string(),
        total_length: total.map(|s| s.to_string()),
        completed_length: done.map(|s| s.to_string()),
        download_speed: speed.map(|s| s.to_string()),
        error_message: None,
        files: files.map(|v| v.into_iter().map(|p| RawFile { path: p.to_string() }).collect()),
    }
}

#[test]
fn parses_plain_decimals() {
    assert_eq!(parse_u64("0"), Some(0));
    assert_eq!(parse_u64("1048576"), Some(1048576));
    assert_eq!(parse_u64("+42"), Some(42));
    assert_eq!(parse_u64("18446744073709551615"), Some(u64::MAX));
}

#[test]
fn rejects_what_is_not_a_decimal() {
    assert_eq!(parse_u64(""), None);
    assert_eq!(parse_u64("+"), None);
    assert_eq!(parse_u64("-1"), None);
    assert_eq!(parse_u64("12a"), None);
    assert_eq!(parse_u64(" 12"), None);
    assert_eq!(parse_u64("18446744073709551616"), None);
}

#[test]
fn parse_agrees_with_std() {
    for s in ["7", "007", "+0", "99999999999999999999", "3.5", "", "abc", "1_000"] {
        assert_eq!(parse_u64(s), s.parse::<u64>().ok(), "{}", s);
    }
}

#[test]
fn renders_decimals() {
    assert_eq!(render_u64(0), "0");
    assert_eq!(render_u64(7), "7");
    assert_eq!(render_u64(1024), "1024");
    assert_eq!(render_u64(u64::MAX), "18446744073709551615");
}

#[test]
fn translates_a_full_record() {
    let raw = RawStatus {
        error_message: Some("none yet".to_string()),
        ..record(Some("1000"), Some("250"), Some("64"), Some(vec!["/data/videos/clip.mp4", "/data/other.bin"]))
    };
    let info = DownloadInfo::from_status(&raw);
    assert_eq!(info.gid, "2089b05ecca3d829");
    assert_eq!(info.filename, "clip.mp4");
    assert_eq!(info.total_size, 1000);
    assert_eq!(info.downloaded, 250);
    assert_eq!(info.speed, 64);
    assert_eq!(info.status, DownloadStatus::Active);
    assert_eq!(info.error_message, Some("none yet".to_string()));
    assert_eq!(info.progress(), 2500);
}

#[test]
fn unparsable_counters_read_as_zero() {
    let raw = record(Some("lots"), Some("-5"), Some("1.5"), Some(vec!["a.bin"]));
    let info = DownloadInfo::from_status(&raw);
    assert_eq!(info.downloaded, 0);
    assert_eq!(info.total_size, 0);
    assert_eq!(info.speed, 0);
    assert_eq!(info.progress(), 0);
}

#[test]
fn missing_counters_read_as_zero() {
    let info = DownloadInfo::from_status(&record(None, None, None, None));
    assert_eq!((info.total_size, info.downloaded, info.speed), (0, 0, 0));
}

#[test]
fn record_without_files_gets_sentinel_name() {
    let info = DownloadInfo::from_status(&record(Some("10"), Some("1"), Some("0"), Some(vec![])));
    assert_eq!(info.filename, "unknown");
    let info = DownloadInfo::from_status(&record(Some("10"), Some("1"), Some("0"), None));
    assert_eq!(info.filename, "unknown");
}

#[test]
fn file_without_final_component_keeps_its_path() {
    let info = DownloadInfo::from_status(&record(None, None, None, Some(vec!["/"])));
    assert_eq!(info.filename, "/");
    let info = DownloadInfo::from_status(&record(None, None, None, Some(vec!["dir/.."])));
    assert_eq!(info.filename, "dir/..");
}

#[test]
fn status_words() {
    assert_eq!(DownloadStatus::from_name("active"), DownloadStatus::Active);
    assert_eq!(DownloadStatus::from_name("waiting"), DownloadStatus::Waiting);
    assert_eq!(DownloadStatus::from_name("paused"), DownloadStatus::Paused);
    assert_eq!(DownloadStatus::from_name("error"), DownloadStatus::Error);
    assert_eq!(DownloadStatus::from_name("complete"), DownloadStatus::Complete);
    assert_eq!(DownloadStatus::from_name("removed"), DownloadStatus::Removed);
    assert_eq!(DownloadStatus::from_name("Active"), DownloadStatus::Unknown);
    assert_eq!(DownloadStatus::from_name(""), DownloadStatus::Unknown);
}

#[test]
fn progress_is_the_downloaded_share() {
    let mut info = DownloadInfo::from_status(&record(Some("3"), Some("1"), None, None));
    assert_eq!(info.progress(), 3333);
    assert!((info.progress() as f64 / 100.0 - 100.0 / 3.0).abs() < 0.01);
    info.downloaded = 3;
    assert_eq!(info.progress(), 10000);
    info.downloaded = 0;
    assert_eq!(info.progress(), 0);
    info.total_size = u64::MAX;
    info.downloaded = u64::MAX;
    assert_eq!(info.progress(), 10000);
}

#[test]
fn progress_without_total_is_zero() {
    let mut info = DownloadInfo::from_status(&record(Some("0"), Some("500"), None, None));
    assert_eq!(info.progress(), 0);
    info.downloaded = u64::MAX;
    assert_eq!(info.progress(), 0);
}

#[test]
fn renders_signed_decimals() {
    assert_eq!(render_i64(0), "0");
    assert_eq!(render_i64(-1), "-1");
    assert_eq!(render_i64(i64::MIN), "-9223372036854775808");
    assert_eq!(render_i64(i64::MAX), "9223372036854775807");
}
