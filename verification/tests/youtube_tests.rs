use voyage_dl::model::TrackInfo;
use voyage_dl::youtube::{
    is_playlist_url, parse_playlist_json, parse_video_json, parse_youtube_output,
    prepare_youtube_fetch, validate_url, watch_url,
};

fn json_error(text: &str) -> String {
    serde_json::from_str::<serde_json::Value>(text).unwrap_err().to_string()
}

#[test]
fn video_url_gets_a_json_dump() {
    let q = prepare_youtube_fetch("https://www.youtube.com/watch?v=dQw4w9WgXcQ").unwrap();
    assert!(!q.is_playlist);
    assert_eq!(q.args, vec!["--dump-json", "https://www.youtube.com/watch?v=dQw4w9WgXcQ"]);
}

#[test]
fn playlist_url_gets_a_flat_dump() {
    let url = "https://www.youtube.com/playlist?list=PLx0sYbCqOb8TBPRdmBHs5Iftvv9TPboYG";
    let q = prepare_youtube_fetch(url).unwrap();
    assert!(q.is_playlist);
    assert_eq!(q.args, vec!["--flat-playlist", "--dump-json", url]);
    assert!(is_playlist_url("https://www.youtube.com/watch?v=a&list=RD1"));
}

#[test]
fn invalid_url_is_refused() {
    let e = prepare_youtube_fetch("not a url").unwrap_err();
    assert_eq!(e, "Invalid URL: relative URL without a base");
    assert_eq!(validate_url("").unwrap_err(), "Invalid URL: relative URL without a base");
    assert_eq!(validate_url("https://example.com"), Ok(()));
}

#[test]
fn watch_url_of_id() {
    assert_eq!(watch_url("abc"), "https://www.youtube.com/watch?v=abc");
}

#[test]
fn single_video_json() {
    let json = r#"{"id":"dQw4w9WgXcQ","title":"Never Gonna Give You Up","uploader":"Rick Astley",
        "webpage_url":"https://www.youtube.com/watch?v=dQw4w9WgXcQ","url":"https://x/y",
        "thumbnail":"https://i.ytimg.com/vi/dQw4w9WgXcQ/maxresdefault.jpg","duration":213,
        "album":"Whenever You Need Somebody","upload_date":"20091025"}"#;
    let tracks = parse_video_json(json).unwrap().unwrap();
    assert_eq!(
        tracks,
        vec![TrackInfo {
            id: "dQw4w9WgXcQ".to_string(),
            title: "Never Gonna Give You Up".to_string(),
            artist: "Rick Astley".to_string(),
            url: "https://www.youtube.com/watch?v=dQw4w9WgXcQ".to_string(),
            thumbnail_url: "https://i.ytimg.com/vi/dQw4w9WgXcQ/maxresdefault.jpg".to_string(),
            duration_seconds: 213,
            album: Some("Whenever You Need Somebody".to_string()),
            album_cover_url: None,
            track_number: None,
            year: Some("2009".to_string()),
        }]
    );
}

#[test]
fn single_video_defaults() {
    let tracks = parse_video_json(r#"{"url":"https://u","duration":212.5}"#).unwrap().unwrap();
    let t = &tracks[0];
    assert_eq!(t.id, "unknown");
    assert_eq!(t.title, "Untitled");
    assert_eq!(t.artist, "Unknown");
    assert_eq!(t.url, "https://u");
    assert_eq!(t.thumbnail_url, "");
    assert_eq!(t.duration_seconds, 0);
    assert_eq!(t.album, None);
    assert_eq!(t.year, None);
    let none = parse_video_json("[1, 2]").unwrap().unwrap();
    assert_eq!(none[0].url, "");
}

#[test]
fn single_video_duration_is_cut_to_32_bits() {
    let tracks = parse_video_json(r#"{"duration":4294967298}"#).unwrap().unwrap();
    assert_eq!(tracks[0].duration_seconds, 2);
    let neg = parse_video_json(r#"{"duration":-5}"#).unwrap().unwrap();
    assert_eq!(neg[0].duration_seconds, 0);
}

#[test]
fn single_video_year_needs_four_bytes() {
    assert_eq!(parse_video_json(r#"{"upload_date":"2024"}"#).unwrap().unwrap()[0].year, Some("2024".to_string()));
    // "é" takes two bytes: the first four bytes are "é12".
    assert_eq!(parse_video_json(r#"{"upload_date":"é12x"}"#).unwrap().unwrap()[0].year, Some("é12".to_string()));
    // The fourth byte boundary falls inside "é": taking the year would panic.
    assert!(parse_video_json(r#"{"upload_date":"123é"}"#).is_none());
    assert!(parse_video_json(r#"{"upload_date":"20"}"#).is_none());
}

#[test]
fn single_video_parse_error() {
    let text = "{not json";
    assert_eq!(
        parse_video_json(text),
        Some(Err(format!("Failed to parse JSON: {}", json_error(text))))
    );
}

#[test]
fn playlist_lines() {
    let text = "{\"id\":\"a1\",\"title\":\"First\",\"uploader\":\"U\",\"duration\":60}\r\n\n   \n{\"id\":\"b2\",\"thumbnail\":\"t\"}\n";
    let tracks = parse_playlist_json(text).unwrap();
    assert_eq!(tracks.len(), 2);
    assert_eq!(tracks[0].id, "a1");
    assert_eq!(tracks[0].title, "First");
    assert_eq!(tracks[0].artist, "U");
    assert_eq!(tracks[0].url, "https://www.youtube.com/watch?v=a1");
    assert_eq!(tracks[0].duration_seconds, 60);
    assert_eq!(tracks[1].id, "b2");
    assert_eq!(tracks[1].title, "Untitled");
    assert_eq!(tracks[1].artist, "Unknown");
    assert_eq!(tracks[1].thumbnail_url, "t");
    assert_eq!(tracks[1].duration_seconds, 0);
    assert_eq!(tracks[1].year, None);
}

#[test]
fn playlist_entry_without_id() {
    let tracks = parse_playlist_json("{\"title\":\"x\"}").unwrap();
    assert_eq!(tracks[0].id, "unknown");
    assert_eq!(tracks[0].url, "https://www.youtube.com/watch?v=unknown");
}

#[test]
fn playlist_errors() {
    assert_eq!(parse_playlist_json(""), Err("No tracks found in playlist".to_string()));
    assert_eq!(parse_playlist_json(" \n\t\n"), Err("No tracks found in playlist".to_string()));
    let bad = "{\"id\":\"a\"}\nnot json\n{\"id\":\"b\"}";
    assert_eq!(
        parse_playlist_json(bad),
        Err(format!("Failed to parse playlist JSON line: {}", json_error("not json")))
    );
}

#[test]
fn output_dispatch() {
    let out = parse_youtube_output(true, "{\"id\":\"z\"}\n").unwrap().unwrap();
    assert_eq!(out[0].url, "https://www.youtube.com/watch?v=z");
    let out = parse_youtube_output(false, "{\"id\":\"z\"}").unwrap().unwrap();
    assert_eq!(out[0].url, "");
}
