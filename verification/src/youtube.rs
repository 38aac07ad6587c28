//! YouTube video and playlist analysis: checking the URL, choosing the
//! yt-dlp arguments, and reading yt-dlp's JSON output into tracks.
use vstd::prelude::*;
use vstd::utf8::*;

use crate::json::{json_fields, spec_json_parse_error, spec_json_text, spec_json_unsigned, JsonField};
use crate::model::{tracks_result_view, tracks_view, TrackInfo, TrackInfoView};
use crate::text::{
    blank, chars_of, concat2, contains_seq, contains_str, copy_opt_string, is_blank, lines_spec,
    opt_view, split_lines, string_of, strings_view,
};

verus! {

broadcast use vstd::string::group_string_axioms;

// ---------------------------------------------------------------------------
// The URL and the yt-dlp arguments
// ---------------------------------------------------------------------------

/// The `Display` text of the error of `url::Url::parse` on a text, or `None`
/// when the text parses as a URL.
pub uninterp spec fn spec_url_parse_error(url: Seq<char>) -> Option<Seq<char>>;

/// Calls `url::Url::parse`. Trusted: it fails exactly when the named error
/// exists, and then its `Display` text is returned.
#[verifier::external_body]
fn url_parse_error(url: &str) -> (r: Option<String>)
    ensures
        opt_view(r) == spec_url_parse_error(url@),
{
    url::Url::parse(url).err().map(|e| e.to_string())
}

/// Checks that the text is a URL.
pub fn validate_url(url: &str) -> (r: Result<(), String>)
    ensures
        match r {
            Ok(()) => spec_url_parse_error(url@) is None,
            Err(e) => spec_url_parse_error(url@) matches Some(m) && e@ == "Invalid URL: "@ + m,
        },
{
    match url_parse_error(url) {
        None => Ok(()),
        Some(m) => Err(concat2("Invalid URL: ", m.as_str())),
    }
}

/// Whether the URL names a playlist: it contains `list=`.
pub fn is_playlist_url(url: &str) -> (r: bool)
    ensures
        r == contains_seq(url@, "list="@),
{
    contains_str(url, "list=")
}

/// What to ask yt-dlp for a URL.
#[derive(Debug)]
pub struct YoutubeRequest {
    /// The URL names a playlist.
    pub is_playlist: bool,
    /// The yt-dlp arguments.
    pub args: Vec<String>,
}

/// The yt-dlp arguments for a URL: a flat JSON dump for a playlist, a JSON
/// dump for a single video.
pub open spec fn youtube_args_spec(url: Seq<char>, is_playlist: bool) -> Seq<Seq<char>> {
    if is_playlist {
        seq!["--flat-playlist"@, "--dump-json"@, url]
    } else {
        seq!["--dump-json"@, url]
    }
}

/// Checks the URL and chooses the yt-dlp arguments for it.
pub fn prepare_youtube_fetch(url: &str) -> (r: Result<YoutubeRequest, String>)
    ensures
        match r {
            Ok(q) => {
                &&& spec_url_parse_error(url@) is None
                &&& q.is_playlist == contains_seq(url@, "list="@)
                &&& strings_view(q.args@) == youtube_args_spec(url@, q.is_playlist)
            },
            Err(e) => spec_url_parse_error(url@) matches Some(m) && e@ == "Invalid URL: "@ + m,
        },
{
    match validate_url(url) {
        Err(e) => Err(e),
        Ok(()) => {
            let is_playlist = is_playlist_url(url);
            let target = url.to_owned();
            let args = if is_playlist {
                vec![String::from_str("--flat-playlist"), String::from_str("--dump-json"), target]
            } else {
                vec![String::from_str("--dump-json"), target]
            };
            assert(strings_view(args@) =~= youtube_args_spec(url@, is_playlist));
            Ok(YoutubeRequest { is_playlist, args })
        },
    }
}

/// The watch page of a YouTube video.
pub open spec fn watch_url_spec(id: Seq<char>) -> Seq<char> {
    "https://www.youtube.com/watch?v="@ + id
}

/// The watch page of a YouTube video.
pub fn watch_url(id: &str) -> (r: String)
    ensures
        r@ == watch_url_spec(id@),
{
    concat2("https://www.youtube.com/watch?v=", id)
}

// ---------------------------------------------------------------------------
// Fields with defaults
// ---------------------------------------------------------------------------

/// The text, or the default where there is none.
pub open spec fn text_or(f: Option<Seq<char>>, d: Seq<char>) -> Seq<char> {
    match f {
        Some(s) => s,
        None => d,
    }
}

/// The text, or the default where there is none.
pub fn text_or_exec(f: &Option<String>, d: &str) -> (r: String)
    ensures
        r@ == text_or(opt_view(*f), d@),
{
    match f {
        Some(s) => s.clone(),
        None => d.to_owned(),
    }
}

/// The text, or the empty text where there is none.
pub fn text_or_empty(f: &Option<String>) -> (r: String)
    ensures
        r@ == text_or(opt_view(*f), Seq::empty()),
{
    match f {
        Some(s) => s.clone(),
        None => String::new(),
    }
}

/// A duration in seconds: the unsigned value, or 0, cut to 32 bits.
pub open spec fn seconds(d: Option<u64>) -> u32 {
    (match d {
        Some(n) => n,
        None => 0u64,
    }) as u32
}

/// A duration in seconds: the unsigned value, or 0, cut to 32 bits.
pub fn seconds_exec(d: Option<u64>) -> (r: u32)
    ensures
        r == seconds(d),
{
    match d {
        Some(n) => n as u32,
        None => 0,
    }
}

/// An upload date can give a year: its first four bytes end on a character
/// boundary (slicing them out of the text does not panic).
pub open spec fn date_sliceable(d: Option<Seq<char>>) -> bool {
    match d {
        Some(s) => is_char_boundary(encode_utf8(s), 4),
        None => true,
    }
}

/// The year of an upload date: the characters of its first four bytes.
pub open spec fn year_of(d: Option<Seq<char>>) -> Option<Seq<char>> {
    match d {
        Some(s) => Some(decode_utf8(encode_utf8(s).subrange(0, 4))),
        None => None,
    }
}

// ---------------------------------------------------------------------------
// A single video
// ---------------------------------------------------------------------------

/// The track that a single video's metadata describes.
pub open spec fn video_track_core(
    id: Option<Seq<char>>,
    title: Option<Seq<char>>,
    uploader: Option<Seq<char>>,
    webpage_url: Option<Seq<char>>,
    url: Option<Seq<char>>,
    thumbnail: Option<Seq<char>>,
    duration: Option<u64>,
    album: Option<Seq<char>>,
    upload_date: Option<Seq<char>>,
) -> TrackInfoView {
    TrackInfoView {
        id: text_or(id, "unknown"@),
        title: text_or(title, "Untitled"@),
        artist: text_or(uploader, "Unknown"@),
        url: match webpage_url {
            Some(u) => u,
            None => text_or(url, Seq::empty()),
        },
        thumbnail_url: text_or(thumbnail, Seq::empty()),
        duration_seconds: seconds(duration),
        album: album,
        album_cover_url: None,
        track_number: None,
        year: year_of(upload_date),
    }
}

/// The fields of a single video's metadata that the track is made of.
#[derive(Debug)]
pub struct VideoFields {
    pub id: JsonField,
    pub title: JsonField,
    pub uploader: JsonField,
    pub webpage_url: JsonField,
    pub url: JsonField,
    pub thumbnail: JsonField,
    pub duration: JsonField,
    pub album: JsonField,
    pub upload_date: JsonField,
}

/// The track that the fields describe.
pub open spec fn video_fields_track(f: VideoFields) -> TrackInfoView {
    video_track_core(
        opt_view(f.id.text),
        opt_view(f.title.text),
        opt_view(f.uploader.text),
        opt_view(f.webpage_url.text),
        opt_view(f.url.text),
        opt_view(f.thumbnail.text),
        f.duration.unsigned,
        opt_view(f.album.text),
        opt_view(f.upload_date.text),
    )
}

/// The track that yt-dlp's JSON for a single video describes.
pub open spec fn video_track_from_json(j: Seq<char>) -> TrackInfoView {
    video_track_core(
        spec_json_text(j, "id"@),
        spec_json_text(j, "title"@),
        spec_json_text(j, "uploader"@),
        spec_json_text(j, "webpage_url"@),
        spec_json_text(j, "url"@),
        spec_json_text(j, "thumbnail"@),
        spec_json_unsigned(j, "duration"@),
        spec_json_text(j, "album"@),
        spec_json_text(j, "upload_date"@),
    )
}

/// Builds the track of a single video. The year is the first four bytes of
/// the upload date, which must end on a character boundary.
pub fn video_track(f: &VideoFields) -> (r: TrackInfo)
    requires
        date_sliceable(opt_view(f.upload_date.text)),
    ensures
        r@ == video_fields_track(*f),
{
    let url = match &f.webpage_url.text {
        Some(u) => u.clone(),
        None => text_or_empty(&f.url.text),
    };
    let year = match &f.upload_date.text {
        Some(d) => {
            let (head, _rest) = d.as_str().split_at(4);
            proof {
                encode_utf8_decode_utf8(head@);
            }
            Some(head.to_owned())
        },
        None => None,
    };
    TrackInfo {
        id: text_or_exec(&f.id.text, "unknown"),
        title: text_or_exec(&f.title.text, "Untitled"),
        artist: text_or_exec(&f.uploader.text, "Unknown"),
        url,
        thumbnail_url: text_or_empty(&f.thumbnail.text),
        duration_seconds: seconds_exec(f.duration.unsigned),
        album: copy_opt_string(&f.album.text),
        album_cover_url: None,
        track_number: None,
        year,
    }
}

/// An optional result holding a list of tracks, seen as plain values.
pub open spec fn opt_tracks_result_view(r: Option<Result<Vec<TrackInfo>, String>>) -> Option<
    Result<Seq<TrackInfoView>, Seq<char>>,
> {
    match r {
        Some(x) => Some(tracks_result_view(x)),
        None => None,
    }
}

/// What reading yt-dlp's JSON for a single video gives: the error of a text
/// that is not JSON, nothing where taking the year would panic, or the one
/// track that the JSON describes.
pub open spec fn video_outcome(j: Seq<char>) -> Option<Result<Seq<TrackInfoView>, Seq<char>>> {
    match spec_json_parse_error(j) {
        Some(m) => Some(Err("Failed to parse JSON: "@ + m)),
        None => if date_sliceable(spec_json_text(j, "upload_date"@)) {
            Some(Ok(seq![video_track_from_json(j)]))
        } else {
            None
        },
    }
}

/// The page URL wins: where yt-dlp's JSON for a single video holds a string
/// `webpage_url`, the track's URL is that string, whatever else the JSON
/// holds; only without it does the URL fall back to the `url` field, and
/// without both it is empty.
pub proof fn law_video_url_prefers_page(j: Seq<char>)
    ensures
        video_outcome(j) matches Some(Ok(ts)) ==> {
            &&& ts.len() == 1
            &&& spec_json_text(j, "webpage_url"@) matches Some(w) ==> ts[0].url == w
            &&& spec_json_text(j, "webpage_url"@) is None ==> (spec_json_text(j, "url"@) matches Some(
                u,
            ) ==> ts[0].url == u)
            &&& spec_json_text(j, "webpage_url"@) is None && spec_json_text(j, "url"@) is None
                ==> ts[0].url.len() == 0
        },
{
}

/// The same for the fields that `video_track` reads: a string page URL is the
/// track's URL; only without one does the `url` field stand in, and without
/// both the URL is empty.
pub proof fn law_video_fields_url_prefers_page(f: VideoFields)
    ensures
        opt_view(f.webpage_url.text) matches Some(w) ==> video_fields_track(f).url == w,
        opt_view(f.webpage_url.text) is None ==> (opt_view(f.url.text) matches Some(u)
            ==> video_fields_track(f).url == u),
        opt_view(f.webpage_url.text) is None && opt_view(f.url.text) is None
            ==> video_fields_track(f).url.len() == 0,
{
}

/// Parses a single video's JSON output from yt-dlp into its track.
/// `None` where the upload date's first four bytes do not end on a character
/// boundary, the one input on which taking the year would panic.
pub fn parse_video_json(json_str: &str) -> (r: Option<Result<Vec<TrackInfo>, String>>)
    ensures
        opt_tracks_result_view(r) == video_outcome(json_str@),
{
    let keys = vec![
        String::from_str("id"),
        String::from_str("title"),
        String::from_str("uploader"),
        String::from_str("webpage_url"),
        String::from_str("url"),
        String::from_str("thumbnail"),
        String::from_str("duration"),
        String::from_str("album"),
        String::from_str("upload_date"),
    ];
    match json_fields(json_str, &keys) {
        Err(e) => Some(Err(concat2("Failed to parse JSON: ", e.as_str()))),
        Ok(fields) => {
            assert(keys@[0]@ == "id"@);
            assert(keys@[1]@ == "title"@);
            assert(keys@[2]@ == "uploader"@);
            assert(keys@[3]@ == "webpage_url"@);
            assert(keys@[4]@ == "url"@);
            assert(keys@[5]@ == "thumbnail"@);
            assert(keys@[6]@ == "duration"@);
            assert(keys@[7]@ == "album"@);
            assert(keys@[8]@ == "upload_date"@);
            let f = VideoFields {
                id: fields[0].copy(),
                title: fields[1].copy(),
                uploader: fields[2].copy(),
                webpage_url: fields[3].copy(),
                url: fields[4].copy(),
                thumbnail: fields[5].copy(),
                duration: fields[6].copy(),
                album: fields[7].copy(),
                upload_date: fields[8].copy(),
            };
            let sliceable = match &f.upload_date.text {
                Some(d) => d.as_str().is_char_boundary(4),
                None => true,
            };
            if !sliceable {
                return None;
            }
            let track = video_track(&f);
            let v = vec![track];
            assert(tracks_view(v@) =~= seq![video_track_from_json(json_str@)]);
            Some(Ok(v))
        },
    }
}

// ---------------------------------------------------------------------------
// A playlist
// ---------------------------------------------------------------------------

/// The track that one entry of a flat playlist describes.
pub open spec fn playlist_track_core(
    id: Option<Seq<char>>,
    title: Option<Seq<char>>,
    uploader: Option<Seq<char>>,
    thumbnail: Option<Seq<char>>,
    duration: Option<u64>,
) -> TrackInfoView {
    TrackInfoView {
        id: text_or(id, "unknown"@),
        title: text_or(title, "Untitled"@),
        artist: text_or(uploader, "Unknown"@),
        url: watch_url_spec(text_or(id, "unknown"@)),
        thumbnail_url: text_or(thumbnail, Seq::empty()),
        duration_seconds: seconds(duration),
        album: None,
        album_cover_url: None,
        track_number: None,
        year: None,
    }
}

/// The track that one JSON line of a flat playlist describes.
pub open spec fn playlist_track_from_json(j: Seq<char>) -> TrackInfoView {
    playlist_track_core(
        spec_json_text(j, "id"@),
        spec_json_text(j, "title"@),
        spec_json_text(j, "uploader"@),
        spec_json_text(j, "thumbnail"@),
        spec_json_unsigned(j, "duration"@),
    )
}

/// The tracks of the playlist lines, in order, skipping blank lines; the
/// first line that is not JSON stops the reading with its error.
pub open spec fn playlist_lines_result(ls: Seq<Seq<char>>) -> Result<Seq<TrackInfoView>, Seq<char>>
    decreases ls.len(),
{
    if ls.len() == 0 {
        Ok(seq![])
    } else if is_blank(ls[0]) {
        playlist_lines_result(ls.drop_first())
    } else {
        match spec_json_parse_error(ls[0]) {
            Some(e) => Err("Failed to parse playlist JSON line: "@ + e),
            None => match playlist_lines_result(ls.drop_first()) {
                Ok(t) => Ok(seq![playlist_track_from_json(ls[0])] + t),
                Err(e) => Err(e),
            },
        }
    }
}

/// What reading yt-dlp's newline-delimited playlist JSON gives: the tracks of
/// its lines, or an error where a line is not JSON or there is no track.
pub open spec fn parse_playlist_spec(s: Seq<char>) -> Result<Seq<TrackInfoView>, Seq<char>> {
    match playlist_lines_result(lines_spec(s)) {
        Ok(t) => if t.len() == 0 {
            Err("No tracks found in playlist"@)
        } else {
            Ok(t)
        },
        Err(e) => Err(e),
    }
}

/// Prepends the tracks found so far to the result of the remaining lines.
pub open spec fn after_tracks(
    acc: Seq<TrackInfoView>,
    r: Result<Seq<TrackInfoView>, Seq<char>>,
) -> Result<Seq<TrackInfoView>, Seq<char>> {
    match r {
        Ok(t) => Ok(acc + t),
        Err(e) => Err(e),
    }
}

/// Parses a playlist's JSON output from yt-dlp: with `--flat-playlist`,
/// yt-dlp writes one JSON object per line.
pub fn parse_playlist_json(json_str: &str) -> (r: Result<Vec<TrackInfo>, String>)
    ensures
        tracks_result_view(r) == parse_playlist_spec(json_str@),
{
    let text = chars_of(json_str);
    let lines = split_lines(&text);
    let ghost ls = lines_spec(json_str@);
    let keys = vec![
        String::from_str("id"),
        String::from_str("title"),
        String::from_str("uploader"),
        String::from_str("thumbnail"),
        String::from_str("duration"),
    ];
    assert(keys@[0]@ == "id"@);
    assert(keys@[1]@ == "title"@);
    assert(keys@[2]@ == "uploader"@);
    assert(keys@[3]@ == "thumbnail"@);
    assert(keys@[4]@ == "duration"@);
    let mut tracks: Vec<TrackInfo> = Vec::new();
    let mut i: usize = 0;
    assert(ls.skip(0) =~= ls);
    while i < lines.len()
        invariant
            i <= lines@.len(),
            ls == lines_spec(json_str@),
            lines@.len() == ls.len(),
            forall|k: int| 0 <= k < lines@.len() ==> (#[trigger] lines@[k])@ == ls[k],
            keys@.len() == 5,
            keys@[0]@ == "id"@,
            keys@[1]@ == "title"@,
            keys@[2]@ == "uploader"@,
            keys@[3]@ == "thumbnail"@,
            keys@[4]@ == "duration"@,
            playlist_lines_result(ls) == after_tracks(
                tracks_view(tracks@),
                playlist_lines_result(ls.skip(i as int)),
            ),
        decreases lines.len() - i,
    {
        let ghost rest = ls.skip(i as int);
        assert(rest[0] == ls[i as int]);
        assert(rest.drop_first() =~= ls.skip(i + 1));
        let line = &lines[i];
        if blank(line) {
            i += 1;
            continue;
        }
        let line_text = string_of(line);
        assert(line_text@ == ls[i as int]);
        assert(!is_blank(rest[0]));
        match json_fields(line_text.as_str(), &keys) {
            Err(e) => {
                assert(playlist_lines_result(rest) == Err::<Seq<TrackInfoView>, Seq<char>>(
                    "Failed to parse playlist JSON line: "@ + e@,
                ));
                assert(playlist_lines_result(ls) == Err::<Seq<TrackInfoView>, Seq<char>>(
                    "Failed to parse playlist JSON line: "@ + e@,
                ));
                return Err(concat2("Failed to parse playlist JSON line: ", e.as_str()));
            },
            Ok(fields) => {
                assert(opt_view(fields@[0].text) == spec_json_text(ls[i as int], "id"@));
                assert(opt_view(fields@[1].text) == spec_json_text(ls[i as int], "title"@));
                assert(opt_view(fields@[2].text) == spec_json_text(ls[i as int], "uploader"@));
                assert(opt_view(fields@[3].text) == spec_json_text(ls[i as int], "thumbnail"@));
                assert(fields@[4].unsigned == spec_json_unsigned(ls[i as int], "duration"@));
                let id = text_or_exec(&fields[0].text, "unknown");
                let url = watch_url(id.as_str());
                let track = TrackInfo {
                    id,
                    title: text_or_exec(&fields[1].text, "Untitled"),
                    artist: text_or_exec(&fields[2].text, "Unknown"),
                    url,
                    thumbnail_url: text_or_empty(&fields[3].text),
                    duration_seconds: seconds_exec(fields[4].unsigned),
                    album: None,
                    album_cover_url: None,
                    track_number: None,
                    year: None,
                };
                assert(track@ == playlist_track_from_json(ls[i as int]));
                let ghost before = tracks_view(tracks@);
                tracks.push(track);
                assert(tracks_view(tracks@) =~= before.push(playlist_track_from_json(ls[i as int])));
                proof {
                    match playlist_lines_result(ls.skip(i + 1)) {
                        Ok(t) => {
                            assert(before + (seq![playlist_track_from_json(ls[i as int])] + t)
                                =~= before.push(playlist_track_from_json(ls[i as int])) + t);
                        },
                        Err(_) => {},
                    }
                }
            },
        }
        i += 1;
    }
    assert(ls.skip(i as int) =~= Seq::<Seq<char>>::empty());
    assert(tracks_view(tracks@) + Seq::<TrackInfoView>::empty() =~= tracks_view(tracks@));
    if tracks.len() == 0 {
        return Err(String::from_str("No tracks found in playlist"));
    }
    Ok(tracks)
}

/// The tracks read from playlist lines link to their videos' watch pages and
/// carry no album or year.
proof fn lemma_playlist_lines_links(ls: Seq<Seq<char>>)
    ensures
        playlist_lines_result(ls) matches Ok(t) ==> forall|k: int|
            0 <= k < t.len() ==> (#[trigger] t[k]).url == watch_url_spec(t[k].id) && t[k].album
                is None && t[k].year is None,
    decreases ls.len(),
{
    if ls.len() > 0 {
        lemma_playlist_lines_links(ls.drop_first());
        if !is_blank(ls[0]) && spec_json_parse_error(ls[0]) is None {
            if let Ok(rest) = playlist_lines_result(ls.drop_first()) {
                let t = seq![playlist_track_from_json(ls[0])] + rest;
                assert forall|k: int| 0 <= k < t.len() implies (#[trigger] t[k]).url
                    == watch_url_spec(t[k].id) && t[k].album is None && t[k].year is None by {
                    if k > 0 {
                        assert(t[k] == rest[k - 1]);
                    }
                }
            }
        }
    }
}

/// A playlist read successfully has at least one track, and every track's URL
/// is the watch page of its video ID.
pub proof fn law_playlist_tracks_link_their_videos(s: Seq<char>)
    ensures
        parse_playlist_spec(s) matches Ok(t) ==> t.len() > 0 && forall|k: int|
            0 <= k < t.len() ==> (#[trigger] t[k]).url == watch_url_spec(t[k].id),
{
    lemma_playlist_lines_links(lines_spec(s));
}

/// The lines that are not blank, in order.
pub open spec fn nonblank_lines(ls: Seq<Seq<char>>) -> Seq<Seq<char>>
    decreases ls.len(),
{
    if ls.len() == 0 {
        seq![]
    } else if is_blank(ls[0]) {
        nonblank_lines(ls.drop_first())
    } else {
        seq![ls[0]] + nonblank_lines(ls.drop_first())
    }
}

/// Every line parses as JSON.
pub open spec fn all_json(l: Seq<Seq<char>>) -> bool {
    forall|i: int| 0 <= i < l.len() ==> spec_json_parse_error(#[trigger] l[i]) is None
}

/// Line `j` is the first that does not parse, with error `m`.
pub open spec fn first_bad_line(l: Seq<Seq<char>>, j: int, m: Seq<char>) -> bool {
    &&& 0 <= j < l.len()
    &&& forall|k: int| 0 <= k < j ==> spec_json_parse_error(#[trigger] l[k]) is None
    &&& spec_json_parse_error(l[j]) == Some(m)
}

/// The tracks of playlist lines, line by line: one track per non-blank line
/// where every such line is JSON, else the error of the first that is not.
proof fn lemma_playlist_lines_per_line(ls: Seq<Seq<char>>)
    ensures
        ({
            let l = nonblank_lines(ls);
            &&& (playlist_lines_result(ls) is Ok) <==> all_json(l)
            &&& playlist_lines_result(ls) matches Ok(v) ==> v.len() == l.len() && forall|i: int|
                0 <= i < l.len() ==> #[trigger] v[i] == playlist_track_from_json(l[i])
            &&& playlist_lines_result(ls) matches Err(e) ==> exists|j: int, m: Seq<char>|
                first_bad_line(l, j, m) && e == "Failed to parse playlist JSON line: "@ + m
        }),
    decreases ls.len(),
{
    if ls.len() > 0 {
        let rest = ls.drop_first();
        lemma_playlist_lines_per_line(rest);
        let lr = nonblank_lines(rest);
        if !is_blank(ls[0]) {
            let l = nonblank_lines(ls);
            assert(l == seq![ls[0]] + lr);
            assert(l[0] == ls[0]);
            assert forall|i: int| 0 < i < l.len() implies l[i] == lr[i - 1] by {}
            match spec_json_parse_error(ls[0]) {
                Some(m) => {
                    assert(first_bad_line(l, 0, m));
                    assert(!all_json(l));
                },
                None => {
                    if all_json(lr) {
                        assert forall|i: int| 0 <= i < l.len() implies spec_json_parse_error(
                            #[trigger] l[i],
                        ) is None by {
                            if i > 0 {
                                assert(l[i] == lr[i - 1]);
                            }
                        }
                        if let Ok(t) = playlist_lines_result(rest) {
                            let v = seq![playlist_track_from_json(ls[0])] + t;
                            assert forall|i: int| 0 <= i < l.len() implies #[trigger] v[i]
                                == playlist_track_from_json(l[i]) by {
                                if i > 0 {
                                    assert(v[i] == t[i - 1]);
                                    assert(l[i] == lr[i - 1]);
                                }
                            }
                        }
                    } else {
                        let i0 = choose|i: int| 0 <= i < lr.len() && !(spec_json_parse_error(
                            #[trigger] lr[i],
                        ) is None);
                        assert(l[i0 + 1] == lr[i0]);
                        assert(!all_json(l));
                        if let Err(e) = playlist_lines_result(rest) {
                            let (j, m) = choose|j: int, m: Seq<char>|
                                first_bad_line(lr, j, m) && e == "Failed to parse playlist JSON line: "@
                                    + m;
                            assert forall|k: int| 0 <= k < j + 1 implies spec_json_parse_error(
                                #[trigger] l[k],
                            ) is None by {
                                if k > 0 {
                                    assert(l[k] == lr[k - 1]);
                                }
                            }
                            assert(l[j + 1] == lr[j]);
                            assert(first_bad_line(l, j + 1, m));
                        }
                    }
                },
            }
        }
    }
}

/// A playlist is read line by line: its result is `Ok` exactly where there is
/// a non-blank line and every non-blank line is JSON; then there is one track
/// per non-blank line, in order, with the line's ID (or "unknown"), the watch
/// page of that ID, its title (or "Untitled"), uploader (or "Unknown"),
/// thumbnail (or nothing) and duration (the unsigned value cut to 32 bits, or
/// 0), and no album, cover, track number or year. With no non-blank line the
/// error says no track was found; else the error is that of the first
/// non-blank line that is not JSON.
pub proof fn law_playlist_per_line(s: Seq<char>)
    ensures
        ({
            let l = nonblank_lines(lines_spec(s));
            let r = parse_playlist_spec(s);
            &&& (r is Ok) <==> (l.len() > 0 && all_json(l))
            &&& r matches Ok(v) ==> v.len() == l.len() && forall|i: int|
                0 <= i < l.len() ==> {
                    let id = text_or(spec_json_text(l[i], "id"@), "unknown"@);
                    &&& (#[trigger] v[i]).id == id
                    &&& v[i].url == watch_url_spec(id)
                    &&& v[i].title == text_or(spec_json_text(l[i], "title"@), "Untitled"@)
                    &&& v[i].artist == text_or(spec_json_text(l[i], "uploader"@), "Unknown"@)
                    &&& v[i].thumbnail_url == text_or(
                        spec_json_text(l[i], "thumbnail"@),
                        Seq::empty(),
                    )
                    &&& v[i].duration_seconds == seconds(spec_json_unsigned(l[i], "duration"@))
                    &&& v[i].album is None
                    &&& v[i].album_cover_url is None
                    &&& v[i].track_number is None
                    &&& v[i].year is None
                }
            &&& all_json(l) && l.len() == 0 ==> r == Err::<Seq<TrackInfoView>, Seq<char>>(
                "No tracks found in playlist"@,
            )
            &&& !all_json(l) ==> exists|j: int, m: Seq<char>|
                first_bad_line(l, j, m) && r == Err::<Seq<TrackInfoView>, Seq<char>>(
                    "Failed to parse playlist JSON line: "@ + m,
                )
        }),
{
    let ls = lines_spec(s);
    lemma_playlist_lines_per_line(ls);
    let l = nonblank_lines(ls);
    if let Ok(v) = playlist_lines_result(ls) {
        assert forall|i: int| 0 <= i < l.len() implies #[trigger] v[i] == playlist_track_from_json(
            l[i],
        ) by {}
    }
}

/// Reads yt-dlp's output for a URL: a flat playlist or a single video.
/// `None` only where taking a single video's year would panic.
pub fn parse_youtube_output(is_playlist: bool, output: &str) -> (r: Option<Result<Vec<TrackInfo>, String>>)
    ensures
        opt_tracks_result_view(r) == (if is_playlist {
            Some(parse_playlist_spec(output@))
        } else {
            video_outcome(output@)
        }),
{
    if is_playlist {
        Some(parse_playlist_json(output))
    } else {
        parse_video_json(output)
    }
}

} // verus!
