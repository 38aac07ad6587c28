//! Deezer playlist analysis: the playlist ID of a URL, the API pages of a
//! playlist, and the YouTube search that turns each Deezer track into a track
//! to download.
use vstd::prelude::*;

use crate::analyze::AnalyzeState;
use crate::json::{json_fields, spec_json_parse_error, spec_json_text};
use crate::model::{tracks_result_view, tracks_view, TrackInfo, TrackInfoView};
use crate::text::{
    before_char, before_char_exec, chars_of, concat2, concat3, find_from, find_from_exec,
    lemma_find_from, occurs_at, opt_view, push_str, slice_chars, string_of, strings_view,
};
use crate::youtube::{text_or, text_or_empty, watch_url, watch_url_spec};

verus! {

broadcast use vstd::string::group_string_axioms;

// ---------------------------------------------------------------------------
// The playlist ID
// ---------------------------------------------------------------------------

/// The text between the first `playlist/` of the URL and the next one (or the
/// end): the second piece of `url.split("playlist/")`.
pub open spec fn playlist_segment(url: Seq<char>) -> Option<Seq<char>> {
    match find_from(url, "playlist/"@, 0) {
        None => None,
        Some(a) => {
            let start = a + "playlist/"@.len();
            match find_from(url, "playlist/"@, start) {
                Some(b) => Some(url.subrange(start, b)),
                None => Some(url.subrange(start, url.len() as int)),
            }
        },
    }
}

/// The error for a URL that holds no playlist ID.
pub open spec fn no_playlist_id_message() -> Seq<char> {
    "Could not extract playlist ID from URL. Make sure it's a valid Deezer playlist URL."@
}

/// The playlist ID of a Deezer URL: what follows `playlist/`, up to a query
/// (`?`) or a fragment (`#`); an error where that is empty or absent.
pub open spec fn extract_playlist_id_spec(url: Seq<char>) -> Result<Seq<char>, Seq<char>> {
    match playlist_segment(url) {
        Some(seg) => {
            let id = before_char(before_char(seg, '?'), '#');
            if id.len() > 0 {
                Ok(id)
            } else {
                Err(no_playlist_id_message())
            }
        },
        None => Err(no_playlist_id_message()),
    }
}

/// A result holding a string, seen as plain values.
pub open spec fn string_result_view(r: Result<String, String>) -> Result<Seq<char>, Seq<char>> {
    match r {
        Ok(s) => Ok(s@),
        Err(e) => Err(e@),
    }
}

/// Extracts the playlist ID from a Deezer playlist URL, such as
/// `https://www.deezer.com/playlist/1234567890`,
/// `https://www.deezer.com/fr/playlist/1234567890` or
/// `https://deezer.com/playlist/1234567890`.
pub fn extract_playlist_id(url: &str) -> (r: Result<String, String>)
    ensures
        string_result_view(r) == extract_playlist_id_spec(url@),
{
    let u = chars_of(url);
    let p = chars_of("playlist/");
    let ulen = u.len();
    match find_from_exec(&u, &p, 0) {
        None => Err(String::from_str(
            "Could not extract playlist ID from URL. Make sure it's a valid Deezer playlist URL.",
        )),
        Some(a) => {
            proof {
                lemma_find_from(u@, p@, 0);
                assert(occurs_at(u@, p@, a as int));
            }
            let start = a + p.len();
            let end = match find_from_exec(&u, &p, start) {
                Some(b) => {
                    proof {
                        lemma_find_from(u@, p@, start as int);
                    }
                    b
                },
                None => ulen,
            };
            let seg = slice_chars(&u, start, end);
            let before_query = before_char_exec(&seg, '?');
            let id = before_char_exec(&before_query, '#');
            if id.len() > 0 {
                Ok(string_of(&id))
            } else {
                Err(String::from_str(
                    "Could not extract playlist ID from URL. Make sure it's a valid Deezer playlist URL.",
                ))
            }
        },
    }
}

/// The text before the first `c` holds no `c`.
pub proof fn lemma_before_char(s: Seq<char>, c: char)
    ensures
        !before_char(s, c).contains(c),
        before_char(s, c).len() <= s.len(),
        before_char(s, c) == s.subrange(0, before_char(s, c).len() as int),
        before_char(s, c).len() < s.len() ==> s[before_char(s, c).len() as int] == c,
{
    lemma_find_from(s, seq![c], 0);
    let b = before_char(s, c);
    match find_from(s, seq![c], 0) {
        Some(i) => {
            assert(s.subrange(i, i + 1)[0] == s[i]);
            assert forall|j: int| 0 <= j < b.len() implies b[j] != c by {
                assert(!occurs_at(s, seq![c], j));
                if b[j] == c {
                    assert(s.subrange(j, j + 1) =~= seq![c]);
                }
            }
        },
        None => {
            assert forall|j: int| 0 <= j < b.len() implies b[j] != c by {
                assert(!occurs_at(s, seq![c], j));
                if b[j] == c {
                    assert(s.subrange(j, j + 1) =~= seq![c]);
                }
            }
            assert(s.subrange(0, s.len() as int) =~= s);
        },
    }
}

/// A playlist ID is never empty, holds no `?` and no `#`, and the URL holds
/// `playlist/` followed by it.
pub proof fn law_playlist_id_shape(url: Seq<char>)
    ensures
        extract_playlist_id_spec(url) matches Ok(id) ==> {
            &&& id.len() > 0
            &&& !id.contains('?')
            &&& !id.contains('#')
            &&& exists|i: int| occurs_at(url, "playlist/"@ + id, i)
        },
{
    if let Some(seg) = playlist_segment(url) {
        let q = before_char(seg, '?');
        let id = before_char(q, '#');
        lemma_before_char(seg, '?');
        lemma_before_char(q, '#');
        if id.len() > 0 {
            assert(!id.contains('?')) by {
                assert forall|j: int| 0 <= j < id.len() implies id[j] != '?' by {
                    assert(id[j] == q[j]);
                }
            }
            lemma_find_from(url, "playlist/"@, 0);
            let a = find_from(url, "playlist/"@, 0)->0;
            let start = a + "playlist/"@.len();
            lemma_find_from(url, "playlist/"@, start);
            assert(seg == url.subrange(start, start + seg.len()));
            assert(url.subrange(a, a + ("playlist/"@ + id).len()) =~= "playlist/"@ + id);
            assert(occurs_at(url, "playlist/"@ + id, a));
            assert(extract_playlist_id_spec(url) == Ok::<Seq<char>, Seq<char>>(id));
        }
    }
}

/// In `url`, the first `playlist/` stands at `a` and is followed by `id`,
/// and `id` by `?`, `#`, a further `playlist/` or the end of the URL.
pub open spec fn whole_id_at(url: Seq<char>, id: Seq<char>, a: int) -> bool {
    let e = a + "playlist/"@.len() + id.len();
    &&& occurs_at(url, "playlist/"@ + id, a)
    &&& forall|b: int| 0 <= b < a ==> !occurs_at(url, "playlist/"@, b)
    &&& (e == url.len() || url[e] == '?' || url[e] == '#' || occurs_at(url, "playlist/"@, e))
}

/// The playlist ID is the whole piece of the URL after its first
/// `playlist/`, cut only where a query (`?`), a fragment (`#`) or a further
/// `playlist/` begins, whatever the ID's length: it is never a proper prefix
/// of that piece.
pub proof fn law_playlist_id_is_whole(url: Seq<char>)
    ensures
        extract_playlist_id_spec(url) matches Ok(id) ==> exists|a: int| whole_id_at(url, id, a),
{
    if let Ok(id) = extract_playlist_id_spec(url) {
        let a = lemma_playlist_id_position(url);
        assert(whole_id_at(url, id, a));
    }
}

/// Where the first `playlist/` of a URL that has a playlist ID stands.
proof fn lemma_playlist_id_position(url: Seq<char>) -> (a: int)
    requires
        extract_playlist_id_spec(url) is Ok,
    ensures
        whole_id_at(url, extract_playlist_id_spec(url)->Ok_0, a),
{
    let seg = playlist_segment(url)->0;
    let q = before_char(seg, '?');
    let id = before_char(q, '#');
    lemma_before_char(seg, '?');
    lemma_before_char(q, '#');
    let p = "playlist/"@;
    lemma_find_from(url, p, 0);
    let a = find_from(url, p, 0)->0;
    let start = a + p.len();
    lemma_find_from(url, p, start);
    let end = match find_from(url, p, start) {
        Some(b) => b,
        None => url.len() as int,
    };
    assert(seg == url.subrange(start, end));
    assert(url.subrange(a, a + (p + id).len()) =~= p + id);
    let e = a + p.len() + id.len();
    if id.len() < q.len() {
        assert(q[id.len() as int] == '#');
        assert(q[id.len() as int] == seg[id.len() as int]);
        assert(url[e] == '#');
    } else if q.len() < seg.len() {
        assert(id =~= q);
        assert(seg[q.len() as int] == '?');
        assert(url[e] == '?');
    } else {
        assert(id =~= q);
        assert(q =~= seg);
        assert(e == end);
    }
    assert(whole_id_at(url, id, a));
    a
}

// ---------------------------------------------------------------------------
// The playlist's pages
// ---------------------------------------------------------------------------

/// An artist as the Deezer API describes it.
#[derive(Debug)]
pub struct DeezerArtist {
    pub name: String,
}

/// A track as the Deezer API describes it.
#[derive(Debug)]
pub struct DeezerTrack {
    pub id: u64,
    pub title: String,
    pub duration: u32,
    pub artist: DeezerArtist,
}

/// The first page of a playlist's tracks, embedded in the playlist.
#[derive(Debug)]
pub struct DeezerTracksData {
    pub data: Vec<DeezerTrack>,
    pub next: Option<String>,
}

/// A further page of a playlist's tracks.
#[derive(Debug)]
pub struct DeezerTracksPage {
    pub data: Vec<DeezerTrack>,
    pub next: Option<String>,
}

/// The Deezer API's answer for a playlist.
#[derive(Debug)]
pub struct DeezerPlaylistResponse {
    pub tracks: DeezerTracksData,
}

/// The API address of a playlist.
pub fn playlist_api_url(playlist_id: &str) -> (r: String)
    ensures
        r@ == "https://api.deezer.com/playlist/"@ + playlist_id@,
{
    concat2("https://api.deezer.com/playlist/", playlist_id)
}

/// The error for a playlist request that did not succeed, given the status.
pub fn playlist_status_error(status: &str) -> (r: String)
    ensures
        r@ == "Failed to fetch playlist (status "@ + status@
            + "): Make sure the playlist ID is correct"@,
{
    concat3("Failed to fetch playlist (status ", status, "): Make sure the playlist ID is correct")
}

/// The tracks of a playlist gathered page by page.
#[derive(Debug)]
pub struct DeezerCollector {
    /// The tracks read so far, in playlist order.
    pub tracks: Vec<DeezerTrack>,
    /// The address of the next page, if there is one.
    pub next: Option<String>,
}

impl DeezerCollector {
    /// Starts with the first page, which the playlist holds.
    pub fn new(playlist: DeezerPlaylistResponse) -> (r: DeezerCollector)
        ensures
            r.tracks@ == playlist.tracks.data@,
            opt_view(r.next) == opt_view(playlist.tracks.next),
    {
        DeezerCollector { tracks: playlist.tracks.data, next: playlist.tracks.next }
    }

    /// The address of the page to fetch next, if any.
    pub fn next_page(&self) -> (r: Option<String>)
        ensures
            opt_view(r) == opt_view(self.next),
    {
        crate::text::copy_opt_string(&self.next)
    }

    /// Appends a fetched page; its `next` becomes the page to fetch next.
    pub fn add_page(&mut self, page: DeezerTracksPage)
        ensures
            final(self).tracks@ == old(self).tracks@ + page.data@,
            opt_view(final(self).next) == opt_view(page.next),
    {
        let mut data = page.data;
        self.tracks.append(&mut data);
        self.next = page.next;
    }

    /// All the playlist's tracks; an error where there are none.
    pub fn finish(self) -> (r: Result<Vec<DeezerTrack>, String>)
        ensures
            match r {
                Ok(v) => v@ == self.tracks@ && v@.len() > 0,
                Err(e) => self.tracks@.len() == 0 && e@ == "Playlist is empty"@,
            },
    {
        if self.tracks.len() == 0 {
            Err(String::from_str("Playlist is empty"))
        } else {
            Ok(self.tracks)
        }
    }
}

// ---------------------------------------------------------------------------
// The YouTube search
// ---------------------------------------------------------------------------

/// The yt-dlp query that searches YouTube for a Deezer track: its first hit
/// for the artist and the title.
pub open spec fn search_query_spec(t: DeezerTrack) -> Seq<char> {
    "ytsearch1:"@ + t.artist.name@ + " "@ + t.title@
}

/// The yt-dlp query that searches YouTube for a Deezer track.
pub fn search_query(track: &DeezerTrack) -> (r: String)
    ensures
        r@ == search_query_spec(*track),
{
    let mut buf = chars_of("ytsearch1:");
    push_str(&mut buf, track.artist.name.as_str());
    push_str(&mut buf, " ");
    push_str(&mut buf, track.title.as_str());
    string_of(&buf)
}

/// The yt-dlp arguments for the search: a JSON dump of the first hit.
pub fn search_args(track: &DeezerTrack) -> (r: Vec<String>)
    ensures
        strings_view(r@) == seq!["--dump-json"@, search_query_spec(*track)],
{
    let r = vec![String::from_str("--dump-json"), search_query(track)];
    assert(strings_view(r@) =~= seq!["--dump-json"@, search_query_spec(*track)]);
    r
}

/// Progress of the analysis, as shown while searching.
#[derive(Debug)]
pub struct AnalyzeProgress {
    pub current: usize,
    pub total: usize,
    pub track_title: String,
    pub artist: String,
    pub status: String,
}

/// The progress shown while searching the track at `index` (counted from 0)
/// of `total`: its position counted from 1, its title and artist, "searching".
pub fn analyze_progress(index: usize, total: usize, track: &DeezerTrack) -> (r: AnalyzeProgress)
    requires
        index < usize::MAX,
    ensures
        r.current == index + 1,
        r.total == total,
        r.track_title@ == track.title@,
        r.artist@ == track.artist.name@,
        r.status@ == "searching"@,
{
    AnalyzeProgress {
        current: index + 1,
        total,
        track_title: track.title.clone(),
        artist: track.artist.name.clone(),
        status: String::from_str("searching"),
    }
}

/// The track that a search hit gives for a Deezer track: the YouTube video's
/// ID, page and thumbnail, with the Deezer title, artist and duration;
/// nothing where the output is not JSON or names no ID.
pub open spec fn search_track_spec(t: DeezerTrack, out: Seq<char>) -> Option<TrackInfoView> {
    match spec_json_parse_error(out) {
        Some(_) => None,
        None => match spec_json_text(out, "id"@) {
            None => None,
            Some(id) => Some(
                TrackInfoView {
                    id: id,
                    title: t.title@,
                    artist: t.artist.name@,
                    url: watch_url_spec(id),
                    thumbnail_url: text_or(spec_json_text(out, "thumbnail"@), Seq::empty()),
                    duration_seconds: t.duration,
                    album: None,
                    album_cover_url: None,
                    track_number: None,
                    year: None,
                },
            ),
        },
    }
}

/// An optional track seen as plain values.
pub open spec fn opt_track_view(o: Option<TrackInfo>) -> Option<TrackInfoView> {
    match o {
        Some(t) => Some(t@),
        None => None,
    }
}

/// The track that the search's outcome gives for a Deezer track; nothing
/// where the search failed, its output is not JSON or names no video ID.
pub fn track_from_search(track: &DeezerTrack, outcome: &Result<String, String>) -> (r: Option<
    TrackInfo,
>)
    ensures
        opt_track_view(r) == (match outcome {
            Ok(out) => search_track_spec(*track, out@),
            Err(_) => None,
        }),
{
    let out = match outcome {
        Ok(out) => out,
        Err(_) => {
            return None;
        },
    };
    let keys = vec![String::from_str("id"), String::from_str("thumbnail")];
    assert(keys@[0]@ == "id"@);
    assert(keys@[1]@ == "thumbnail"@);
    match json_fields(out.as_str(), &keys) {
        Err(_) => None,
        Ok(fields) => {
            assert(opt_view(fields@[0].text) == spec_json_text(out@, "id"@));
            assert(opt_view(fields@[1].text) == spec_json_text(out@, "thumbnail"@));
            match &fields[0].text {
                None => None,
                Some(id) => {
                    let url = watch_url(id.as_str());
                    Some(
                        TrackInfo {
                            id: id.clone(),
                            title: track.title.clone(),
                            artist: track.artist.name.clone(),
                            url,
                            thumbnail_url: text_or_empty(&fields[1].text),
                            duration_seconds: track.duration,
                            album: None,
                            album_cover_url: None,
                            track_number: None,
                            year: None,
                        },
                    )
                },
            }
        },
    }
}

/// The analysis' result: the tracks found on YouTube, or an error where none was.
pub fn finish_search(found: Vec<TrackInfo>) -> (r: Result<Vec<TrackInfo>, String>)
    ensures
        tracks_result_view(r) == (if found@.len() == 0 {
            Err("No tracks found or could not search YouTube for any of them"@)
        } else {
            Ok(tracks_view(found@))
        }),
{
    if found.len() == 0 {
        Err(String::from_str("No tracks found or could not search YouTube for any of them"))
    } else {
        Ok(found)
    }
}

/// The tracks that a search outcome adds: the one it found, or none.
pub open spec fn found_by(t: DeezerTrack, outcome: Result<String, String>) -> Seq<TrackInfoView> {
    match outcome {
        Ok(out) => match search_track_spec(t, out@) {
            Some(v) => seq![v],
            None => seq![],
        },
        Err(_) => seq![],
    }
}

/// A search adds at most one track, and the track it adds is the Deezer
/// track's title, artist and duration on the watch page of the video found.
pub proof fn law_search_keeps_deezer_metadata(t: DeezerTrack, outcome: Result<String, String>)
    ensures
        found_by(t, outcome).len() <= 1,
        forall|k: int|
            0 <= k < found_by(t, outcome).len() ==> {
                let v = #[trigger] found_by(t, outcome)[k];
                &&& v.title == t.title@
                &&& v.artist == t.artist.name@
                &&& v.duration_seconds == t.duration
                &&& v.url == watch_url_spec(v.id)
            },
{
}

/// A search whose run succeeded and whose output is JSON with a string `id`
/// adds exactly one track, whatever else the output holds: the video with
/// that ID, on its watch page, with its thumbnail (or none), under the Deezer
/// track's title, artist and duration. Any other outcome adds nothing.
pub proof fn law_search_hit_adds_one_track(t: DeezerTrack, outcome: Result<String, String>)
    ensures
        outcome matches Ok(out) ==> (spec_json_parse_error(out@) is None ==> (spec_json_text(
            out@,
            "id"@,
        ) matches Some(id) ==> {
            let v = found_by(t, outcome)[0];
            &&& found_by(t, outcome).len() == 1
            &&& v.id == id
            &&& v.url == watch_url_spec(id)
            &&& v.title == t.title@
            &&& v.artist == t.artist.name@
            &&& v.duration_seconds == t.duration
            &&& (spec_json_text(out@, "thumbnail"@) matches Some(th) ==> v.thumbnail_url == th)
            &&& (spec_json_text(out@, "thumbnail"@) is None ==> v.thumbnail_url.len() == 0)
        })),
        outcome is Err ==> found_by(t, outcome).len() == 0,
        outcome matches Ok(out) ==> (spec_json_parse_error(out@) is Some ==> found_by(
            t,
            outcome,
        ).len() == 0),
        outcome matches Ok(out) ==> (spec_json_text(out@, "id"@) is None ==> found_by(
            t,
            outcome,
        ).len() == 0),
{
}

/// One search to run: which track, its progress event and its yt-dlp arguments.
#[derive(Debug)]
pub struct SearchStep {
    pub index: usize,
    pub progress: AnalyzeProgress,
    pub args: Vec<String>,
}

/// What the search loop does next, under the analysis' cancel and pause flags.
#[derive(Debug)]
pub enum SearchTurn {
    /// Search the next track.
    Search(SearchStep),
    /// The analysis is paused: start no search, ask again later.
    Paused,
    /// The analysis was cancelled: start no further search.
    Cancelled,
    /// Every track was searched.
    Done,
}

/// The YouTube search over a playlist's tracks, one track after the other.
#[derive(Debug)]
pub struct DeezerSearch {
    tracks: Vec<DeezerTrack>,
    found: Vec<TrackInfo>,
    next: usize,
}

impl DeezerSearch {
    #[verifier::type_invariant]
    spec fn within(self) -> bool {
        self.next <= self.tracks@.len()
    }

    /// The playlist's tracks, in order.
    pub closed spec fn tracks_spec(&self) -> Seq<DeezerTrack> {
        self.tracks@
    }

    /// The tracks found so far, in playlist order.
    pub closed spec fn found_spec(&self) -> Seq<TrackInfoView> {
        tracks_view(self.found@)
    }

    /// How many tracks were searched so far.
    pub closed spec fn searched(&self) -> nat {
        self.next as nat
    }

    /// Starts the search over the playlist's tracks.
    pub fn new(tracks: Vec<DeezerTrack>) -> (r: DeezerSearch)
        ensures
            r.tracks_spec() == tracks@,
            r.found_spec() == Seq::<TrackInfoView>::empty(),
            r.searched() == 0,
    {
        let r = DeezerSearch { tracks, found: Vec::new(), next: 0 };
        assert(tracks_view(r.found@) =~= Seq::<TrackInfoView>::empty());
        r
    }

    /// The number of tracks to search.
    pub fn total(&self) -> (r: usize)
        ensures
            r == self.tracks_spec().len(),
    {
        self.tracks.len()
    }

    /// The next search to run, or `None` when every track was searched.
    pub fn next_step(&self) -> (r: Option<SearchStep>)
        ensures
            match r {
                Some(step) => self.is_next_step(step),
                None => self.searched() == self.tracks_spec().len(),
            },
    {
        proof {
            use_type_invariant(self);
        }
        if self.next >= self.tracks.len() {
            return None;
        }
        let t = &self.tracks[self.next];
        Some(
            SearchStep {
                index: self.next,
                progress: analyze_progress(self.next, self.tracks.len(), t),
                args: search_args(t),
            },
        )
    }

    /// The search of the next track: its index, its progress event (its
    /// position counted from 1 of all tracks, its title and artist,
    /// "searching"), and the yt-dlp arguments that search YouTube for it.
    pub open spec fn is_next_step(&self, step: SearchStep) -> bool {
        let t = self.tracks_spec()[self.searched() as int];
        &&& self.searched() < self.tracks_spec().len()
        &&& step.index == self.searched()
        &&& step.progress.current == self.searched() + 1
        &&& step.progress.total == self.tracks_spec().len()
        &&& step.progress.track_title@ == t.title@
        &&& step.progress.artist@ == t.artist.name@
        &&& step.progress.status@ == "searching"@
        &&& strings_view(step.args@) == seq!["--dump-json"@, search_query_spec(t)]
    }

    /// What to do next under the analysis state: nothing where every track
    /// was searched; stop where the analysis was cancelled (no further
    /// search starts); wait while it is paused; else search the next track.
    pub fn next_step_under(&self, analysis: &AnalyzeState) -> (r: SearchTurn)
        ensures
            self.searched() == self.tracks_spec().len() ==> r is Done,
            self.searched() < self.tracks_spec().len() && analysis.cancel_flag ==> r is Cancelled,
            self.searched() < self.tracks_spec().len() && !analysis.cancel_flag
                && analysis.pause_flag ==> r is Paused,
            self.searched() < self.tracks_spec().len() && !analysis.cancel_flag
                && !analysis.pause_flag ==> (r matches SearchTurn::Search(step)
                && self.is_next_step(step)),
            r matches SearchTurn::Search(step) ==> !analysis.cancel_flag && !analysis.pause_flag,
    {
        proof {
            use_type_invariant(self);
        }
        if self.next >= self.tracks.len() {
            return SearchTurn::Done;
        }
        if analysis.is_cancelled() {
            return SearchTurn::Cancelled;
        }
        if analysis.is_paused() {
            return SearchTurn::Paused;
        }
        match self.next_step() {
            Some(step) => SearchTurn::Search(step),
            None => SearchTurn::Done,
        }
    }

    /// Records the outcome of the next track's search: the track it found, if any.
    pub fn record(&mut self, outcome: Result<String, String>)
        requires
            old(self).searched() < old(self).tracks_spec().len(),
        ensures
            final(self).tracks_spec() == old(self).tracks_spec(),
            final(self).searched() == old(self).searched() + 1,
            final(self).found_spec() == old(self).found_spec() + found_by(
                old(self).tracks_spec()[old(self).searched() as int],
                outcome,
            ),
    {
        let total = self.tracks.len();
        assert(self.next < total);
        let hit = track_from_search(&self.tracks[self.next], &outcome);
        let ghost before = tracks_view(self.found@);
        match hit {
            Some(t) => {
                let mut found: Vec<TrackInfo> = Vec::new();
                std::mem::swap(&mut found, &mut self.found);
                found.push(t);
                self.found = found;
                assert(tracks_view(self.found@) =~= before + found_by(
                    self.tracks@[self.next as int],
                    outcome,
                ));
            },
            None => {
                assert(before + found_by(self.tracks@[self.next as int], outcome) =~= before);
            },
        }
        self.next = self.next + 1;
    }

    /// The analysis' result: the tracks found, or an error where none was.
    pub fn finish(self) -> (r: Result<Vec<TrackInfo>, String>)
        ensures
            tracks_result_view(r) == (if self.found_spec().len() == 0 {
                Err("No tracks found or could not search YouTube for any of them"@)
            } else {
                Ok(self.found_spec())
            }),
    {
        finish_search(self.found)
    }
}

} // verus!
