use trauso::settings::{add_history_item, clear_history, AppSettings, DownloadHistory, DownloadHistoryItem, HISTORY_LIMIT};

fn item(id: usize) -> DownloadHistoryItem {
    DownloadHistoryItem {
        id: id.to_string(),
        filename: format!("file{}.bin", id),
        url: format!("https://example.com/{}", id),
        size: id as u64,
        status: "complete".to_string(),
        downloaded_at: "2024-01-01T00:00:00Z".to_string(),
        path: format!("/dl/file{}.bin", id),
    }
}

#[test]
fn new_items_come_first() {
    let mut h = DownloadHistory::default();
    add_history_item(&mut h, item(1));
    add_history_item(&mut h, item(2));
    let ids: Vec<&str> = h.items.iter().map(|i| i.id.as_str()).collect();
    assert_eq!(ids, vec!["2", "1"]);
}

#[test]
fn history_keeps_the_newest_hundred() {
    let mut h = DownloadHistory::default();
    for i in 0..HISTORY_LIMIT + 5 {
        add_history_item(&mut h, item(i));
    }
    assert_eq!(h.items.len(), 100);
    assert_eq!(h.items[0].id, "104");
    assert_eq!(h.items[99].id, "5");
}

#[test]
fn clearing_empties_history() {
    let mut h = DownloadHistory::default();
    add_history_item(&mut h, item(1));
    clear_history(&mut h);
    assert!(h.items.is_empty());
}

#[test]
fn default_settings() {
    let s = AppSettings::default();
    assert_eq!(s.download_dir, "downloads");
    assert_eq!(s.max_connections, 16);
    assert_eq!(s.split_count, 16);
    assert_eq!(s.min_split_size, "1M");
    assert_eq!(s.user_agent, "Mozilla/5.0 (Windows NT 10.0; Win64; x64) AppleWebKit/537.36");
    assert!(s.auto_start_aria2);
    assert_eq!(s.theme, "system");
    assert_eq!(s.max_overall_download_limit_kb_per_sec, 0);
    assert_eq!(s.max_download_limit_kb_per_sec, 0);
}
