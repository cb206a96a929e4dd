//! The daemon's raw status records and the progress view derived from them.
use vstd::prelude::*;
use vstd::string::*;

use crate::decimal::{parse_u64, parse_u64_spec};
use crate::text::same_text;

verus! {

/// The state of a download, as the daemon names it.
#[derive(Debug, Clone, Copy, PartialEq, Eq, Structural)]
pub enum DownloadStatus {
    Active,
    Waiting,
    Paused,
    Error,
    Complete,
    Removed,
    Unknown,
}

/// The state that a daemon status word stands for.
pub open spec fn status_of(s: Seq<char>) -> DownloadStatus {
    if s == "active"@ {
        DownloadStatus::Active
    } else if s == "waiting"@ {
        DownloadStatus::Waiting
    } else if s == "paused"@ {
        DownloadStatus::Paused
    } else if s == "error"@ {
        DownloadStatus::Error
    } else if s == "complete"@ {
        DownloadStatus::Complete
    } else if s == "removed"@ {
        DownloadStatus::Removed
    } else {
        DownloadStatus::Unknown
    }
}

impl DownloadStatus {
    /// Reads a daemon status word; any word the daemon does not use gives `Unknown`.
    pub fn from_name(s: &str) -> (r: DownloadStatus)
        ensures
            r == status_of(s@),
    {
        if same_text(s, "active") {
            DownloadStatus::Active
        } else if same_text(s, "waiting") {
            DownloadStatus::Waiting
        } else if same_text(s, "paused") {
            DownloadStatus::Paused
        } else if same_text(s, "error") {
            DownloadStatus::Error
        } else if same_text(s, "complete") {
            DownloadStatus::Complete
        } else if same_text(s, "removed") {
            DownloadStatus::Removed
        } else {
            DownloadStatus::Unknown
        }
    }
}

/// One file of a download, as the daemon lists it.
#[derive(Debug, Clone)]
pub struct RawFile {
    pub path: String,
}

/// A status record as the daemon sends it: counters are decimal strings.
#[derive(Debug, Clone)]
pub struct RawStatus {
    pub gid: String,
    pub status: String,
    pub total_length: Option<String>,
    pub completed_length: Option<String>,
    pub download_speed: Option<String>,
    pub error_message: Option<String>,
    pub files: Option<Vec<RawFile>>,
}

/// What a download looks like to callers.
#[derive(Debug, Clone)]
pub struct DownloadInfo {
    pub gid: String,
    pub filename: String,
    pub total_size: u64,
    pub downloaded: u64,
    pub speed: u64,
    pub status: DownloadStatus,
    pub error_message: Option<String>,
}

/// The name shown for a download whose record lists no file.
pub open spec fn unknown_filename() -> Seq<char> {
    "unknown"@
}

/// The final component of a path, as `std::path::Path::file_name` gives it.
pub uninterp spec fn file_name_of(path: Seq<char>) -> Option<Seq<char>>;

/// Relies on `std::path::Path::file_name`: the last component of the path,
/// or none where the path ends in `..` or is a root.
#[verifier::external_body]
fn path_file_name(path: &str) -> (r: Option<String>)
    ensures
        match r {
            Some(n) => file_name_of(path@) == Some(n@),
            None => file_name_of(path@) == None::<Seq<char>>,
        },
{
    std::path::Path::new(path).file_name().map(|n| n.to_string_lossy().to_string())
}

/// A counter field read as a number; missing or unreadable text counts as zero.
pub open spec fn counter_value(field: Option<String>) -> u64 {
    match field {
        Some(s) => match parse_u64_spec(s@) {
            Some(v) => v,
            None => 0,
        },
        None => 0,
    }
}

/// The display name of a file path: its last component, or the whole path
/// where it has none.
pub open spec fn display_name(path: Seq<char>) -> Seq<char> {
    match file_name_of(path) {
        Some(n) => n,
        None => path,
    }
}

/// The name shown for a record: that of its first file, else the sentinel.
pub open spec fn filename_of(raw: RawStatus) -> Seq<char> {
    match raw.files {
        Some(files) => if files@.len() > 0 {
            display_name(files@[0].path@)
        } else {
            unknown_filename()
        },
        None => unknown_filename(),
    }
}

/// `info` is the caller-facing view of `raw`.
pub open spec fn describes(info: DownloadInfo, raw: RawStatus) -> bool {
    &&& info.gid == raw.gid
    &&& info.filename@ == filename_of(raw)
    &&& info.total_size == counter_value(raw.total_length)
    &&& info.downloaded == counter_value(raw.completed_length)
    &&& info.speed == counter_value(raw.download_speed)
    &&& info.status == status_of(raw.status@)
    &&& info.error_message == raw.error_message
}

/// Progress in hundredths of a percent, rounded down; zero for an unknown total.
pub open spec fn progress_spec(downloaded: u64, total: u64) -> int {
    if total == 0 {
        0
    } else {
        (downloaded as int) * 10000 / (total as int)
    }
}

fn read_counter(field: &Option<String>) -> (r: u64)
    ensures
        r == counter_value(*field),
{
    match field {
        Some(s) => match parse_u64(s.as_str()) {
            Some(v) => v,
            None => 0,
        },
        None => 0,
    }
}

fn copy_text(field: &Option<String>) -> (r: Option<String>)
    ensures
        r == *field,
{
    match field {
        Some(s) => Some(s.clone()),
        None => None,
    }
}

impl DownloadInfo {
    /// Translates a daemon status record. Unreadable counters read as zero and
    /// a record without files gets the sentinel name; translation never fails.
    pub fn from_status(raw: &RawStatus) -> (r: DownloadInfo)
        ensures
            describes(r, *raw),
    {
        let filename = match &raw.files {
            Some(files) => {
                if files.len() > 0 {
                    let path = &files[0].path;
                    match path_file_name(path.as_str()) {
                        Some(n) => n,
                        None => path.clone(),
                    }
                } else {
                    String::from_str("unknown")
                }
            },
            None => String::from_str("unknown"),
        };
        DownloadInfo {
            gid: raw.gid.clone(),
            filename,
            total_size: read_counter(&raw.total_length),
            downloaded: read_counter(&raw.completed_length),
            speed: read_counter(&raw.download_speed),
            status: DownloadStatus::from_name(raw.status.as_str()),
            error_message: copy_text(&raw.error_message),
        }
    }

    /// Progress in hundredths of a percent (10000 is complete), rounded down;
    /// zero where the total size is not known.
    pub fn progress(&self) -> (r: u128)
        ensures
            r as int == progress_spec(self.downloaded, self.total_size),
    {
        if self.total_size == 0 {
            0
        } else {
            (self.downloaded as u128) * 10000 / (self.total_size as u128)
        }
    }
}

/// For a known total, progress lies between 0 and 100 percent whenever no more
/// than the total has been downloaded, and it is the downloaded share of the
/// total, to the hundredth of a percent below.
pub proof fn progress_bounds(downloaded: u64, total: u64)
    requires
        total > 0,
        downloaded <= total,
    ensures
        0 <= progress_spec(downloaded, total) <= 10000,
        progress_spec(downloaded, total) * (total as int) <= (downloaded as int) * 10000,
        (downloaded as int) * 10000 < (progress_spec(downloaded, total) + 1) * (total as int),
{
    let d = downloaded as int;
    let t = total as int;
    let p = d * 10000 / t;
    assert(0 <= p <= 10000) by (nonlinear_arith)
        requires
            p == d * 10000 / t,
            0 <= d <= t,
            t > 0,
    ;
    assert(p * t <= d * 10000 && d * 10000 < (p + 1) * t) by (nonlinear_arith)
        requires
            p == d * 10000 / t,
            0 <= d,
            t > 0,
    ;
}

/// With no known total, progress is zero whatever has been downloaded.
pub proof fn progress_without_total(downloaded: u64)
    ensures
        progress_spec(downloaded, 0) == 0,
{
}

} // verus!
