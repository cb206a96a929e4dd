//! The application's settings and its list of past downloads.
use vstd::prelude::*;
use vstd::string::*;

verus! {

/// The application's settings.
#[derive(Debug, Clone)]
pub struct AppSettings {
    pub download_dir: String,
    pub max_connections: u32,
    pub split_count: u32,
    pub min_split_size: String,
    pub user_agent: String,
    pub auto_start_aria2: bool,
    pub theme: String,
    pub max_overall_download_limit_kb_per_sec: u64,
    pub max_download_limit_kb_per_sec: u64,
}

impl Default for AppSettings {
    /// Downloads go to `downloads`, sixteen connections and pieces of at least
    /// 1 MiB, the daemon starts with the application, the system theme, and no
    /// bandwidth limits.
    fn default() -> (r: Self)
        ensures
            r.download_dir@ == "downloads"@,
            r.max_connections == 16,
            r.split_count == 16,
            r.min_split_size@ == "1M"@,
            r.user_agent@ == "Mozilla/5.0 (Windows NT 10.0; Win64; x64) AppleWebKit/537.36"@,
            r.auto_start_aria2,
            r.theme@ == "system"@,
            r.max_overall_download_limit_kb_per_sec == 0,
            r.max_download_limit_kb_per_sec == 0,
    {
        AppSettings {
            download_dir: String::from_str("downloads"),
            max_connections: 16,
            split_count: 16,
            min_split_size: String::from_str("1M"),
            user_agent: String::from_str("Mozilla/5.0 (Windows NT 10.0; Win64; x64) AppleWebKit/537.36"),
            auto_start_aria2: true,
            theme: String::from_str("system"),
            max_overall_download_limit_kb_per_sec: 0,
            max_download_limit_kb_per_sec: 0,
        }
    }
}

/// A finished or started download, as remembered.
#[derive(Debug, Clone)]
pub struct DownloadHistoryItem {
    pub id: String,
    pub filename: String,
    pub url: String,
    pub size: u64,
    pub status: String,
    pub downloaded_at: String,
    pub path: String,
}

/// Past downloads, newest first.
#[derive(Debug, Clone)]
pub struct DownloadHistory {
    pub items: Vec<DownloadHistoryItem>,
}

/// How many past downloads are remembered.
pub const HISTORY_LIMIT: usize = 100;

/// The history after `item` is added: the item first, then the earlier ones,
/// keeping no more than the limit.
pub open spec fn with_item(items: Seq<DownloadHistoryItem>, item: DownloadHistoryItem) -> Seq<DownloadHistoryItem> {
    let all = seq![item] + items;
    if all.len() > HISTORY_LIMIT {
        all.take(HISTORY_LIMIT as int)
    } else {
        all
    }
}

impl Default for DownloadHistory {
    /// An empty history.
    fn default() -> (r: Self)
        ensures
            r.items@.len() == 0,
    {
        DownloadHistory { items: Vec::new() }
    }
}

/// Puts `item` first in the history, dropping the oldest beyond the limit.
pub fn add_history_item(history: &mut DownloadHistory, item: DownloadHistoryItem)
    ensures
        final(history).items@ == with_item(old(history).items@, item),
{
    history.items.insert(0, item);
    if history.items.len() > HISTORY_LIMIT {
        history.items.truncate(HISTORY_LIMIT);
    }
    assert(history.items@ =~= with_item(old(history).items@, item));
}

/// Empties the history.
pub fn clear_history(history: &mut DownloadHistory)
    ensures
        final(history).items@.len() == 0,
{
    history.items.clear();
}

} // verus!
