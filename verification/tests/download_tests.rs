use voyage_dl::download::{
    cancel_downloads, download_args, download_progress, kill_current_process, skip_track,
    DownloadBatch, DownloadState, TrackEnd, TrackStart, TrackStatus, Turn,
};
use voyage_dl::model::{DownloadSummary, TrackInfo};

fn track(id: &str, title: &str) -> TrackInfo {
    TrackInfo {
        id: id.to_string(),
        title: title.to_string(),
        artist: "Artist".to_string(),
        url: format!("https://www.youtube.com/watch?v={}", id),
        thumbnail_url: String::new(),
        duration_seconds: 100,
        album: None,
        album_cover_url: None,
        track_number: None,
        year: None,
    }
}

#[test]
fn args_for_a_plain_track() {
    let t = track("abc", "Song");
    assert_eq!(
        download_args(&t, "/home/me/Music"),
        vec![
            "-x",
            "--audio-format",
            "mp3",
            "--audio-quality",
            "0",
            "-o",
            "/home/me/Music/%(title)s.%(ext)s",
            "--postprocessor-args",
            "ffmpeg:-metadata \"artist=Artist\" -metadata \"title=Song\" -id3v2_version 3",
            "https://www.youtube.com/watch?v=abc",
        ]
    );
}

#[test]
fn args_with_all_metadata_and_windows_dir() {
    let mut t = track("x", "Say \"Hi\"");
    t.artist = r"AC\DC".to_string();
    t.album = Some("Back in Black".to_string());
    t.track_number = Some(7);
    t.year = Some("1980".to_string());
    let args = download_args(&t, r"C:\Users\me\Music");
    assert_eq!(args[6], "C:/Users/me/Music/%(title)s.%(ext)s");
    assert_eq!(
        args[8],
        "ffmpeg:-metadata \"artist=AC\\\\DC\" -metadata \"title=Say \\\"Hi\\\"\" -metadata \"album=Back in Black\" -metadata \"track=7\" -metadata \"date=1980\" -id3v2_version 3"
    );
    assert_eq!(args.len(), 10);
}

#[test]
fn a_batch_counts_successes_and_failures() {
    let mut state = DownloadState::new();
    state.begin_batch();
    let mut summary = DownloadSummary::new();
    assert_eq!(state.before_track("a"), TrackStart::Start);
    assert_eq!(state.current_track_id, Some("a".to_string()));
    let end = state.after_track("a", "Song A", &Ok(String::new()), &mut summary);
    assert_eq!(end, TrackEnd { status: TrackStatus::Completed, stop: false });
    assert_eq!(state.before_track("b"), TrackStart::Start);
    let end = state.after_track("b", "Song B", &Err("exit 1".to_string()), &mut summary);
    assert_eq!(end, TrackEnd { status: TrackStatus::Error, stop: false });
    assert_eq!(summary.successful, 1);
    assert_eq!(summary.failed, 1);
    assert_eq!(summary.errors, vec!["Failed to download 'Song B': exit 1".to_string()]);
    state.end_batch();
    assert_eq!(state.current_track_id, None);
    assert_eq!(state.current_pid, None);
}

#[test]
fn skipping_a_track() {
    let mut state = DownloadState::new();
    state.begin_batch();
    assert_eq!(state.before_track("a"), TrackStart::Start);
    state.process_started(Some(4242));
    // Skipping the track being downloaded gives its process to kill.
    assert_eq!(skip_track(&mut state, "a".to_string()), Some(4242));
    let mut summary = DownloadSummary::new();
    let end = state.after_track("a", "A", &Err("killed".to_string()), &mut summary);
    assert_eq!(end, TrackEnd { status: TrackStatus::Cancelled, stop: false });
    assert_eq!((summary.successful, summary.failed), (0, 0));
    state.process_finished();
    // Skipping another track kills nothing; that track is then skipped.
    assert_eq!(skip_track(&mut state, "c".to_string()), None);
    assert_eq!(state.before_track("b"), TrackStart::Start);
    assert_eq!(state.before_track("c"), TrackStart::Skip);
    assert!(state.is_skipped("a") && state.is_skipped("c") && !state.is_skipped("b"));
    // A new batch forgets what was skipped.
    state.begin_batch();
    assert_eq!(state.before_track("c"), TrackStart::Start);
}

#[test]
fn cancelling_a_batch() {
    let mut state = DownloadState::new();
    state.begin_batch();
    assert_eq!(state.before_track("a"), TrackStart::Start);
    assert_eq!(kill_current_process(&state), None);
    state.process_started(Some(7));
    assert_eq!(kill_current_process(&state), Some(7));
    assert_eq!(cancel_downloads(&mut state), Some(7));
    let mut summary = DownloadSummary::new();
    let end = state.after_track("a", "A", &Ok(String::new()), &mut summary);
    assert_eq!(end, TrackEnd { status: TrackStatus::Cancelled, stop: true });
    assert_eq!(summary.successful, 0);
    assert_eq!(state.before_track("b"), TrackStart::Stop);
    state.begin_batch();
    assert!(!state.cancel_flag);
    assert_eq!(state.before_track("b"), TrackStart::Start);
}

#[test]
fn process_without_id_is_not_recorded() {
    let mut state = DownloadState::new();
    state.process_started(None);
    assert_eq!(state.current_pid, None);
    assert_eq!(cancel_downloads(&mut state), None);
}

#[test]
fn progress_events() {
    let t = track("id9", "Nine");
    let p = download_progress(8, 10, &t, TrackStatus::Downloading);
    assert_eq!((p.current, p.total), (9, 10));
    assert_eq!(p.track_title, "Nine");
    assert_eq!(p.track_id, "id9");
    assert_eq!(p.status, "downloading");
    assert_eq!(TrackStatus::Completed.text(), "completed");
    assert_eq!(TrackStatus::Error.text(), "error");
    assert_eq!(TrackStatus::Cancelled.text(), "cancelled");
}

fn ok() -> Result<String, String> {
    Ok(String::new())
}

#[test]
fn batch_runs_track_after_track() {
    let mut state = DownloadState::new();
    state.begin_batch();
    let mut batch = DownloadBatch::new(vec![track("a", "A"), track("b", "B"), track("c", "C")], "/out".to_string());
    assert_eq!(batch.total(), 3);
    let mut reports = Vec::new();
    // Track b is skipped before its turn.
    skip_track(&mut state, "b".to_string());
    let mut outcomes = vec![ok(), Err("404".to_string())].into_iter();
    while let Some(turn) = batch.next_turn(&mut state) {
        match turn {
            Turn::Skipped(p) | Turn::Stopped(p) => reports.push((p.current, p.track_id, p.status)),
            Turn::Download { progress, args } => {
                assert_eq!(args[6], "/out/%(title)s.%(ext)s");
                reports.push((progress.current, progress.track_id, progress.status));
                let p = batch.finish_turn(&state, &outcomes.next().unwrap());
                reports.push((p.current, p.track_id, p.status));
            }
        }
    }
    let summary = batch.finish(&mut state);
    let s = |x: &str| x.to_string();
    assert_eq!(
        reports,
        vec![
            (1, s("a"), s("downloading")),
            (1, s("a"), s("completed")),
            (2, s("b"), s("cancelled")),
            (3, s("c"), s("downloading")),
            (3, s("c"), s("error")),
        ]
    );
    assert_eq!(summary.successful, 1);
    assert_eq!(summary.failed, 1);
    assert_eq!(summary.errors, vec![s("Failed to download 'C': 404")]);
    assert_eq!(state.current_track_id, None);
}

#[test]
fn batch_stops_on_cancel() {
    let mut state = DownloadState::new();
    state.begin_batch();
    let mut batch = DownloadBatch::new(vec![track("a", "A"), track("b", "B")], "/out".to_string());
    match batch.next_turn(&mut state) {
        Some(Turn::Download { .. }) => {}
        other => panic!("unexpected {:?}", other),
    }
    state.process_started(Some(31));
    assert_eq!(cancel_downloads(&mut state), Some(31));
    let p = batch.finish_turn(&state, &ok());
    assert_eq!((p.current, p.status.as_str()), (1, "cancelled"));
    assert!(batch.next_turn(&mut state).is_none());
    let summary = batch.finish(&mut state);
    assert_eq!((summary.successful, summary.failed), (0, 0));
}

#[test]
fn batch_cancelled_before_a_track() {
    let mut state = DownloadState::new();
    let mut batch = DownloadBatch::new(vec![track("a", "A"), track("b", "B")], "/out".to_string());
    cancel_downloads(&mut state);
    match batch.next_turn(&mut state) {
        Some(Turn::Stopped(p)) => assert_eq!((p.current, p.status.as_str()), (1, "cancelled")),
        other => panic!("unexpected {:?}", other),
    }
    assert!(batch.next_turn(&mut state).is_none());
}

#[test]
fn batch_errors_follow_failed_tracks_in_order() {
    let mut state = DownloadState::new();
    state.begin_batch();
    let tracks = vec![track("a", "A"), track("b", "B"), track("c", "C"), track("d", "D")];
    let mut batch = DownloadBatch::new(tracks, "/out".to_string());
    let mut outcomes = vec![
        Err("e1".to_string()),
        Ok(String::new()),
        Err("e3".to_string()),
        Err("e4".to_string()),
    ]
    .into_iter();
    while let Some(turn) = batch.next_turn(&mut state) {
        if let Turn::Download { progress, .. } = turn {
            if progress.track_id == "d" {
                // Track d is skipped while its run is going: it is not a failure.
                skip_track(&mut state, "d".to_string());
            }
            batch.finish_turn(&state, &outcomes.next().unwrap());
        }
    }
    let summary = batch.finish(&mut state);
    assert_eq!(summary.successful, 1);
    assert_eq!(summary.failed, 2);
    assert_eq!(
        summary.errors,
        vec!["Failed to download 'A': e1".to_string(), "Failed to download 'C': e3".to_string()]
    );
}
