use voyage_dl::deezer::{
    analyze_progress, extract_playlist_id, playlist_api_url, playlist_status_error, search_args,
    search_query, track_from_search, DeezerArtist, DeezerCollector, DeezerPlaylistResponse,
    DeezerSearch, DeezerTrack, DeezerTracksData, DeezerTracksPage, SearchTurn,
};
use voyage_dl::analyze::{cancel_analyze, toggle_pause_analyze, AnalyzeState};

const NO_ID: &str =
    "Could not extract playlist ID from URL. Make sure it's a valid Deezer playlist URL.";

fn track(id: u64, title: &str, artist: &str, duration: u32) -> DeezerTrack {
    DeezerTrack {
        id,
        title: title.to_string(),
        duration,
        artist: DeezerArtist { name: artist.to_string() },
    }
}

#[test]
fn playlist_id_supported_formats() {
    for url in [
        "https://www.deezer.com/playlist/1234567890",
        "https://www.deezer.com/fr/playlist/1234567890",
        "https://deezer.com/playlist/1234567890",
    ] {
        assert_eq!(extract_playlist_id(url), Ok("1234567890".to_string()));
    }
}

#[test]
fn playlist_id_without_query_or_fragment() {
    assert_eq!(extract_playlist_id("https://deezer.com/playlist/42?utm=x#top"), Ok("42".to_string()));
    assert_eq!(extract_playlist_id("https://deezer.com/playlist/42#a?b"), Ok("42".to_string()));
    assert_eq!(extract_playlist_id("deezer.com/playlist/7/playlist/8"), Ok("7/".to_string()));
}

#[test]
fn playlist_id_errors() {
    assert_eq!(extract_playlist_id("https://deezer.com/album/1"), Err(NO_ID.to_string()));
    assert_eq!(extract_playlist_id("https://deezer.com/playlist/"), Err(NO_ID.to_string()));
    assert_eq!(extract_playlist_id("https://deezer.com/playlist/?x=1"), Err(NO_ID.to_string()));
    assert_eq!(extract_playlist_id(""), Err(NO_ID.to_string()));
}

#[test]
fn playlist_id_matches_split() {
    for url in ["a/playlist/b?c#d", "playlist/playlist/x", "x/playlist/#", "playlist/a#b/playlist/c"] {
        let expected = url
            .split("playlist/")
            .nth(1)
            .and_then(|s| s.split('?').next())
            .and_then(|s| s.split('#').next())
            .filter(|s| !s.is_empty())
            .map(|s| s.to_string())
            .ok_or(NO_ID.to_string());
        assert_eq!(extract_playlist_id(url), expected, "url {}", url);
    }
}

#[test]
fn api_url_and_status_error() {
    assert_eq!(playlist_api_url("99"), "https://api.deezer.com/playlist/99");
    assert_eq!(
        playlist_status_error("404 Not Found"),
        "Failed to fetch playlist (status 404 Not Found): Make sure the playlist ID is correct"
    );
}

#[test]
fn pages_are_gathered_in_order() {
    let mut c = DeezerCollector::new(DeezerPlaylistResponse {
        tracks: DeezerTracksData {
            data: vec![track(1, "A", "X", 10)],
            next: Some("https://api.deezer.com/playlist/1/tracks?index=1".to_string()),
        },
    });
    assert_eq!(c.next_page(), Some("https://api.deezer.com/playlist/1/tracks?index=1".to_string()));
    c.add_page(DeezerTracksPage { data: vec![track(2, "B", "Y", 20), track(3, "C", "Z", 30)], next: None });
    assert_eq!(c.next_page(), None);
    let all = c.finish().unwrap();
    assert_eq!(all.iter().map(|t| t.id).collect::<Vec<_>>(), vec![1, 2, 3]);
}

#[test]
fn empty_playlist_is_an_error() {
    let c = DeezerCollector::new(DeezerPlaylistResponse {
        tracks: DeezerTracksData { data: vec![], next: None },
    });
    assert_eq!(c.finish().unwrap_err(), "Playlist is empty");
}

#[test]
fn search_query_and_args() {
    let t = track(5, "Bohemian Rhapsody", "Queen", 354);
    assert_eq!(search_query(&t), "ytsearch1:Queen Bohemian Rhapsody");
    assert_eq!(search_args(&t), vec!["--dump-json", "ytsearch1:Queen Bohemian Rhapsody"]);
    let p = analyze_progress(0, 3, &t);
    assert_eq!((p.current, p.total), (1, 3));
    assert_eq!(p.track_title, "Bohemian Rhapsody");
    assert_eq!(p.artist, "Queen");
    assert_eq!(p.status, "searching");
}

#[test]
fn search_hit_becomes_a_track() {
    let t = track(5, "Bohemian Rhapsody", "Queen", 354);
    let out = Ok(r#"{"id":"fJ9rUzIMcZQ","thumbnail":"https://i.ytimg.com/x.jpg","title":"other"}"#.to_string());
    let found = track_from_search(&t, &out).unwrap();
    assert_eq!(found.id, "fJ9rUzIMcZQ");
    assert_eq!(found.title, "Bohemian Rhapsody");
    assert_eq!(found.artist, "Queen");
    assert_eq!(found.url, "https://www.youtube.com/watch?v=fJ9rUzIMcZQ");
    assert_eq!(found.thumbnail_url, "https://i.ytimg.com/x.jpg");
    assert_eq!(found.duration_seconds, 354);
    assert_eq!(found.album, None);
}

#[test]
fn search_misses() {
    let t = track(5, "T", "A", 1);
    assert!(track_from_search(&t, &Err("boom".to_string())).is_none());
    assert!(track_from_search(&t, &Ok("not json".to_string())).is_none());
    assert!(track_from_search(&t, &Ok(r#"{"id":5}"#.to_string())).is_none());
    let no_thumb = track_from_search(&t, &Ok(r#"{"id":"v"}"#.to_string())).unwrap();
    assert_eq!(no_thumb.thumbnail_url, "");
}

#[test]
fn search_keeps_playlist_order_and_skips_misses() {
    let mut s = DeezerSearch::new(vec![track(1, "One", "A", 1), track(2, "Two", "B", 2), track(3, "Three", "C", 3)]);
    assert_eq!(s.total(), 3);
    let mut outcomes = vec![
        Ok(r#"{"id":"y1"}"#.to_string()),
        Err("search failed".to_string()),
        Ok(r#"{"id":"y3"}"#.to_string()),
    ]
    .into_iter();
    let mut seen = Vec::new();
    while let Some(step) = s.next_step() {
        seen.push((step.index, step.progress.current, step.args[1].clone()));
        s.record(outcomes.next().unwrap());
    }
    assert_eq!(
        seen,
        vec![
            (0, 1, "ytsearch1:A One".to_string()),
            (1, 2, "ytsearch1:B Two".to_string()),
            (2, 3, "ytsearch1:C Three".to_string()),
        ]
    );
    let found = s.finish().unwrap();
    assert_eq!(found.iter().map(|t| t.title.as_str()).collect::<Vec<_>>(), vec!["One", "Three"]);
}

#[test]
fn search_without_hits_is_an_error() {
    let mut s = DeezerSearch::new(vec![track(1, "One", "A", 1)]);
    s.record(Err("x".to_string()));
    assert!(s.next_step().is_none());
    assert_eq!(
        s.finish().unwrap_err(),
        "No tracks found or could not search YouTube for any of them"
    );
}

#[test]
fn search_obeys_pause_and_cancel() {
    let mut s = DeezerSearch::new(vec![track(1, "One", "A", 1), track(2, "Two", "B", 2)]);
    let mut analysis = AnalyzeState::new();
    match s.next_step_under(&analysis) {
        SearchTurn::Search(step) => assert_eq!(step.index, 0),
        other => panic!("unexpected {:?}", other),
    }
    s.record(Ok(r#"{"id":"y1"}"#.to_string()));
    toggle_pause_analyze(&mut analysis);
    assert!(matches!(s.next_step_under(&analysis), SearchTurn::Paused));
    toggle_pause_analyze(&mut analysis);
    analysis.process_started(Some(12));
    assert_eq!(cancel_analyze(&mut analysis), Some(12));
    analysis.process_finished();
    assert_eq!(analysis.current_pid, None);
    // Once cancelled, no further search starts, paused or not.
    assert!(matches!(s.next_step_under(&analysis), SearchTurn::Cancelled));
    toggle_pause_analyze(&mut analysis);
    assert!(matches!(s.next_step_under(&analysis), SearchTurn::Cancelled));
    let found = s.finish().unwrap();
    assert_eq!(found.len(), 1);
    analysis.reset();
    let mut s = DeezerSearch::new(vec![track(3, "Three", "C", 3)]);
    assert!(matches!(s.next_step_under(&analysis), SearchTurn::Search(_)));
    s.record(Err("x".to_string()));
    assert!(matches!(s.next_step_under(&analysis), SearchTurn::Done));
}
