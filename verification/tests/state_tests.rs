use voyage_dl::analyze::{cancel_analyze, toggle_pause_analyze, AnalyzeState};
use voyage_dl::cache::{cache_file_name, FetchCache};
use voyage_dl::model::{default_audio_format, default_config, DownloadSummary, TrackInfo};
use voyage_dl::paths::{cache_dir_in, config_path_in, get_config_path, user_cache_dir, user_default_config};

fn track(id: &str) -> TrackInfo {
    TrackInfo {
        id: id.to_string(),
        title: "T".to_string(),
        artist: "A".to_string(),
        url: "u".to_string(),
        thumbnail_url: "th".to_string(),
        duration_seconds: 3,
        album: Some("al".to_string()),
        album_cover_url: None,
        track_number: Some(2),
        year: Some("2001".to_string()),
    }
}

#[test]
fn analyze_flags() {
    let mut s = AnalyzeState::new();
    assert!(!s.is_cancelled() && !s.is_paused());
    assert!(toggle_pause_analyze(&mut s));
    assert!(s.is_paused());
    assert!(!toggle_pause_analyze(&mut s));
    assert!(!s.is_paused());
    s.current_pid = Some(99);
    assert_eq!(cancel_analyze(&mut s), Some(99));
    assert!(s.is_cancelled());
    toggle_pause_analyze(&mut s);
    assert!(s.is_cancelled());
    s.reset();
    assert_eq!(s, AnalyzeState::new());
}

#[test]
fn cancel_without_process() {
    let mut s = AnalyzeState::new();
    assert_eq!(cancel_analyze(&mut s), None);
    assert!(s.is_cancelled());
}

#[test]
fn cache_reads_back_what_was_written() {
    let mut c = FetchCache::new();
    assert_eq!(c.get("https://a"), None);
    c.set("https://a".to_string(), vec![track("1")]);
    c.set("https://b".to_string(), vec![track("2"), track("3")]);
    assert_eq!(c.get("https://a"), Some(vec![track("1")]));
    c.set("https://a".to_string(), vec![]);
    assert_eq!(c.get("https://a"), Some(vec![]));
    assert_eq!(c.get("https://b"), Some(vec![track("2"), track("3")]));
    assert_eq!(c.get("https://c"), None);
}

#[test]
fn cache_files() {
    assert_eq!(cache_file_name(0), "0.json");
    assert_eq!(cache_file_name(0xabc), "abc.json");
    assert_eq!(cache_file_name(u64::MAX), "ffffffffffffffff.json");
    let c = FetchCache::new();
    let p1 = c.cache_path("https://www.youtube.com/watch?v=x");
    let p2 = c.cache_path("https://www.youtube.com/watch?v=x");
    let p3 = c.cache_path("https://www.youtube.com/watch?v=y");
    assert_eq!(p1, p2);
    assert_ne!(p1, p3);
    assert!(p1.starts_with(c.cache_dir().as_str()));
    assert!(p1.ends_with(".json"));
    assert!(c.cache_dir().ends_with("cache"));
}

#[test]
fn paths_and_config() {
    if let Ok(p) = get_config_path() {
        assert!(p.ends_with("config.json"));
    }
    assert_eq!(default_audio_format(), "mp3");
    let c = default_config(Some("/music".to_string()));
    assert_eq!((c.download_dir.as_str(), c.audio_format.as_str()), ("/music", "mp3"));
    let d = default_config(None);
    assert_eq!(d.download_dir, "./downloads");
    assert_eq!(user_default_config().audio_format, "mp3");
}

#[test]
fn directories_for_a_config_dir() {
    let join = |a: &str, b: &str| std::path::Path::new(a).join(b).to_string_lossy().into_owned();
    assert_eq!(
        config_path_in(Some("/home/me/.config".to_string())),
        Ok(join(&join("/home/me/.config", "voyage-dl"), "config.json"))
    );
    assert_eq!(config_path_in(None), Err("Failed to determine config directory".to_string()));
    assert_eq!(cache_dir_in(Some("/cfg".to_string())), join(&join("/cfg", "voyage-dl"), "cache"));
    assert_eq!(cache_dir_in(None), join(&join(".", "voyage-dl"), "cache"));
    assert!(user_cache_dir().ends_with("cache"));
    let c = FetchCache::with_dir("/tmp/c".to_string());
    assert_eq!(c.cache_dir(), "/tmp/c");
    assert_eq!(c.get("u"), None);
    assert_eq!(c.cache_path("u"), join("/tmp/c", &c.cache_path("u")[7..]));
}

#[test]
fn summary_and_track_copies() {
    let s = DownloadSummary::new();
    assert_eq!((s.successful, s.failed, s.errors.len()), (0, 0, 0));
    assert_eq!(track("z").copy(), track("z"));
}
