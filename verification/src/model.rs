//! The shared data types: a track to download, the summary of a download
//! batch, and the application's configuration.
use vstd::prelude::*;

use crate::text::{copy_opt_string, copy_string, opt_view};

verus! {

/// A track to be downloaded: everything needed to identify and fetch it.
#[derive(Debug, Clone, PartialEq, Eq)]
pub struct TrackInfo {
    pub id: String,
    pub title: String,
    pub artist: String,
    pub url: String,
    pub thumbnail_url: String,
    pub duration_seconds: u32,
    /// Album name (from Deezer or the video's metadata).
    pub album: Option<String>,
    /// Album cover URL.
    pub album_cover_url: Option<String>,
    /// Track number in the album.
    pub track_number: Option<u32>,
    /// Release year.
    pub year: Option<String>,
}

/// A track seen as plain values.
pub struct TrackInfoView {
    pub id: Seq<char>,
    pub title: Seq<char>,
    pub artist: Seq<char>,
    pub url: Seq<char>,
    pub thumbnail_url: Seq<char>,
    pub duration_seconds: u32,
    pub album: Option<Seq<char>>,
    pub album_cover_url: Option<Seq<char>>,
    pub track_number: Option<u32>,
    pub year: Option<Seq<char>>,
}

impl View for TrackInfo {
    type V = TrackInfoView;

    open spec fn view(&self) -> TrackInfoView {
        TrackInfoView {
            id: self.id@,
            title: self.title@,
            artist: self.artist@,
            url: self.url@,
            thumbnail_url: self.thumbnail_url@,
            duration_seconds: self.duration_seconds,
            album: opt_view(self.album),
            album_cover_url: opt_view(self.album_cover_url),
            track_number: self.track_number,
            year: opt_view(self.year),
        }
    }
}

/// A list of tracks seen as plain values.
pub open spec fn tracks_view(v: Seq<TrackInfo>) -> Seq<TrackInfoView> {
    v.map_values(|t: TrackInfo| t@)
}

/// A result holding a list of tracks, seen as plain values.
pub open spec fn tracks_result_view(r: Result<Vec<TrackInfo>, String>) -> Result<
    Seq<TrackInfoView>,
    Seq<char>,
> {
    match r {
        Ok(v) => Ok(tracks_view(v@)),
        Err(e) => Err(e@),
    }
}

impl TrackInfo {
    /// A copy of this track with the same values.
    pub fn copy(&self) -> (r: TrackInfo)
        ensures
            r@ == self@,
    {
        TrackInfo {
            id: copy_string(&self.id),
            title: copy_string(&self.title),
            artist: copy_string(&self.artist),
            url: copy_string(&self.url),
            thumbnail_url: copy_string(&self.thumbnail_url),
            duration_seconds: self.duration_seconds,
            album: copy_opt_string(&self.album),
            album_cover_url: copy_opt_string(&self.album_cover_url),
            track_number: self.track_number,
            year: copy_opt_string(&self.year),
        }
    }
}

/// A copy of a list of tracks with the same values.
pub fn copy_tracks(v: &Vec<TrackInfo>) -> (r: Vec<TrackInfo>)
    ensures
        tracks_view(r@) == tracks_view(v@),
{
    let mut r: Vec<TrackInfo> = Vec::new();
    let mut i: usize = 0;
    while i < v.len()
        invariant
            i <= v.len(),
            r@.len() == i,
            forall|k: int| 0 <= k < i ==> (#[trigger] r@[k])@ == v@[k]@,
        decreases v.len() - i,
    {
        r.push(v[i].copy());
        i += 1;
    }
    assert(tracks_view(r@) =~= tracks_view(v@));
    r
}

/// Summary of a download batch.
#[derive(Debug, Clone, PartialEq, Eq)]
pub struct DownloadSummary {
    /// Number of successfully downloaded tracks.
    pub successful: usize,
    /// Number of tracks that failed to download.
    pub failed: usize,
    /// The error messages encountered, one per failed track.
    pub errors: Vec<String>,
}

impl DownloadSummary {
    /// The summary of a batch in which nothing has happened yet.
    pub fn new() -> (r: DownloadSummary)
        ensures
            r.successful == 0,
            r.failed == 0,
            r.errors@.len() == 0,
    {
        DownloadSummary { successful: 0, failed: 0, errors: Vec::new() }
    }
}

/// The application's configuration: user preferences.
#[derive(Debug, Clone, PartialEq, Eq)]
pub struct Config {
    /// Directory where downloads are saved.
    pub download_dir: String,
    /// Audio format: "mp3" or "m4a".
    pub audio_format: String,
}

/// The audio format used when the configuration does not name one.
pub fn default_audio_format() -> (r: String)
    ensures
        r@ == "mp3"@,
{
    String::from_str("mp3")
}

/// The configuration used when none has been saved: downloads go to the
/// user's download directory, or to `./downloads` where there is none, as MP3.
pub fn default_config(download_dir: Option<String>) -> (r: Config)
    ensures
        r.download_dir@ == (match download_dir {
            Some(d) => d@,
            None => "./downloads"@,
        }),
        r.audio_format@ == "mp3"@,
{
    let dir = match download_dir {
        Some(d) => d,
        None => String::from_str("./downloads"),
    };
    Config { download_dir: dir, audio_format: default_audio_format() }
}

} // verus!
