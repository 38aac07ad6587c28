//! Download management: the yt-dlp arguments for a track, and the decisions
//! of a download batch (cancelling it, skipping single tracks, counting what
//! succeeded and what failed).
use vstd::prelude::*;

pub use crate::text::escape_metadata;

use crate::model::{DownloadSummary, TrackInfo, TrackInfoView};
use crate::text::{
    chars_of, decimal, decimal_value, digits, escape_chars, escape_spec, forward_slashes,
    is_decimal_digit, lemma_decimal_digits, push_str,
    slashes_forward, string_of, strings_view,
};

verus! {

broadcast use vstd::string::group_string_axioms;

// ---------------------------------------------------------------------------
// yt-dlp arguments
// ---------------------------------------------------------------------------

/// One ffmpeg metadata flag: `-metadata "key=value"`.
pub open spec fn meta_flag(key: Seq<char>, value: Seq<char>) -> Seq<char> {
    "-metadata \""@ + key + "="@ + value + "\""@
}

/// The ffmpeg metadata flags (ID3 tags) of a track: artist and title, then
/// album, track number and year where the track has them.
pub open spec fn metadata_flags(t: TrackInfoView) -> Seq<Seq<char>> {
    seq![meta_flag("artist"@, escape_spec(t.artist)), meta_flag("title"@, escape_spec(t.title))]
        + (match t.album {
        Some(a) => seq![meta_flag("album"@, escape_spec(a))],
        None => seq![],
    }) + (match t.track_number {
        Some(n) => seq![meta_flag("track"@, digits(n as nat, 10))],
        None => seq![],
    }) + (match t.year {
        Some(y) => seq![meta_flag("date"@, escape_spec(y))],
        None => seq![],
    })
}

/// The ID3 track tag of a track with a track number `n` is written in base
/// ten, as `Display` writes `n`: the flag after artist, title and (where the
/// track has one) album is `-metadata "track=D"`, where `D` is a non-empty
/// text of decimal digits, without a leading zero, that reads back as `n`.
pub proof fn law_track_tag_is_decimal(t: TrackInfoView)
    requires
        t.track_number is Some,
    ensures
        exists|d: Seq<char>|
            {
                &&& metadata_flags(t)[2 + (if t.album is Some {
                    1int
                } else {
                    0int
                })] == meta_flag("track"@, d)
                &&& d.len() > 0
                &&& forall|i: int| 0 <= i < d.len() ==> is_decimal_digit(#[trigger] d[i])
                &&& d[0] != '0' || d.len() == 1
                &&& decimal_value(d) == t.track_number->0 as int
            },
{
    let n = t.track_number->0;
    let d = digits(n as nat, 10);
    lemma_decimal_digits(n as nat);
    let k: int = 2 + (if t.album is Some {
        1int
    } else {
        0int
    });
    assert(metadata_flags(t)[k] == meta_flag("track"@, d));
    if d.len() > 1 {
        assert(d[0] != '0' || n == 0);
        if n == 0 {
            assert(d =~= seq!['0']);
        }
    }
}

/// The parts joined with single spaces.
pub open spec fn join_spaces(parts: Seq<Seq<char>>) -> Seq<char>
    decreases parts.len(),
{
    if parts.len() == 0 {
        seq![]
    } else if parts.len() == 1 {
        parts[0]
    } else {
        join_spaces(parts.drop_last()) + seq![' '] + parts.last()
    }
}

/// The yt-dlp output template: the output directory with forward slashes,
/// then the title and extension of the file.
pub open spec fn output_template(output_dir: Seq<char>) -> Seq<char> {
    slashes_forward(output_dir) + "/%(title)s.%(ext)s"@
}

/// The yt-dlp arguments that download a track as MP3 at the best quality into
/// the output directory, with its metadata written as ID3v2.3 tags.
pub open spec fn download_args_spec(t: TrackInfoView, output_dir: Seq<char>) -> Seq<Seq<char>> {
    seq![
        "-x"@,
        "--audio-format"@,
        "mp3"@,
        "--audio-quality"@,
        "0"@,
        "-o"@,
        output_template(output_dir),
        "--postprocessor-args"@,
        "ffmpeg:"@ + join_spaces(metadata_flags(t)) + " -id3v2_version 3"@,
        t.url,
    ]
}

fn meta_flag_exec(key: &str, value: &Vec<char>) -> (r: Vec<char>)
    ensures
        r@ == meta_flag(key@, value@),
{
    let mut buf = chars_of("-metadata \"");
    push_str(&mut buf, key);
    push_str(&mut buf, "=");
    let mut v = value.clone();
    assert(v@ =~= value@);
    buf.append(&mut v);
    push_str(&mut buf, "\"");
    buf
}

fn metadata_flags_exec(track: &TrackInfo) -> (r: Vec<Vec<char>>)
    ensures
        r@.len() == metadata_flags(track@).len(),
        forall|k: int| 0 <= k < r@.len() ==> (#[trigger] r@[k])@ == metadata_flags(track@)[k],
{
    let mut flags: Vec<Vec<char>> = Vec::new();
    let artist = escape_chars(&chars_of(track.artist.as_str()));
    flags.push(meta_flag_exec("artist", &artist));
    let title = escape_chars(&chars_of(track.title.as_str()));
    flags.push(meta_flag_exec("title", &title));
    let ghost base = seq![
        meta_flag("artist"@, escape_spec(track@.artist)),
        meta_flag("title"@, escape_spec(track@.title)),
    ];
    let ghost mut want = base;
    assert(flags@.len() == want.len());
    if let Some(album) = &track.album {
        let a = escape_chars(&chars_of(album.as_str()));
        flags.push(meta_flag_exec("album", &a));
        proof {
            want = want.push(meta_flag("album"@, escape_spec(album@)));
        }
    }
    let ghost after_album = want;
    if let Some(n) = track.track_number {
        let d = chars_of(decimal(n as u64).as_str());
        flags.push(meta_flag_exec("track", &d));
        proof {
            want = want.push(meta_flag("track"@, digits(n as nat, 10)));
        }
    }
    let ghost after_track = want;
    if let Some(year) = &track.year {
        let y = escape_chars(&chars_of(year.as_str()));
        flags.push(meta_flag_exec("date", &y));
        proof {
            want = want.push(meta_flag("date"@, escape_spec(year@)));
        }
    }
    assert(want =~= metadata_flags(track@));
    flags
}

fn join_spaces_exec(parts: &Vec<Vec<char>>) -> (r: Vec<char>)
    ensures
        r@ == join_spaces(parts@.map_values(|p: Vec<char>| p@)),
{
    let ghost ps = parts@.map_values(|p: Vec<char>| p@);
    let mut out: Vec<char> = Vec::new();
    let mut i: usize = 0;
    assert(ps.take(0) =~= Seq::<Seq<char>>::empty());
    while i < parts.len()
        invariant
            i <= parts@.len(),
            ps == parts@.map_values(|p: Vec<char>| p@),
            out@ == join_spaces(ps.take(i as int)),
        decreases parts.len() - i,
    {
        assert(ps.take(i + 1).drop_last() =~= ps.take(i as int));
        assert(ps.take(i + 1).last() == parts@[i as int]@);
        if i > 0 {
            out.push(' ');
        }
        let mut p = parts[i].clone();
        assert(p@ =~= parts@[i as int]@);
        out.append(&mut p);
        assert(out@ =~= join_spaces(ps.take(i + 1)));
        i += 1;
    }
    assert(ps.take(parts.len() as int) =~= ps);
    out
}

/// The yt-dlp arguments that download a track into the output directory.
pub fn download_args(track: &TrackInfo, output_dir: &str) -> (r: Vec<String>)
    ensures
        strings_view(r@) == download_args_spec(track@, output_dir@),
{
    let mut template = forward_slashes(output_dir);
    push_str(&mut template, "/%(title)s.%(ext)s");
    let flags = metadata_flags_exec(track);
    assert(flags@.map_values(|p: Vec<char>| p@) =~= metadata_flags(track@));
    let mut pp = chars_of("ffmpeg:");
    let mut joined = join_spaces_exec(&flags);
    pp.append(&mut joined);
    push_str(&mut pp, " -id3v2_version 3");
    let r = vec![
        String::from_str("-x"),
        String::from_str("--audio-format"),
        String::from_str("mp3"),
        String::from_str("--audio-quality"),
        String::from_str("0"),
        String::from_str("-o"),
        string_of(&template),
        String::from_str("--postprocessor-args"),
        string_of(&pp),
        track.url.clone(),
    ];
    assert(strings_view(r@) =~= download_args_spec(track@, output_dir@));
    r
}

// ---------------------------------------------------------------------------
// The state of a download batch
// ---------------------------------------------------------------------------

/// Shared state of a download batch, read and changed by the batch itself and
/// by the commands that cancel it or skip a track.
#[derive(Debug)]
pub struct DownloadState {
    /// Cancel the whole batch.
    pub cancel_flag: bool,
    /// The process of the yt-dlp run in progress, to kill on cancel.
    pub current_pid: Option<u32>,
    /// The track being downloaded.
    pub current_track_id: Option<String>,
    /// The IDs of the tracks to skip.
    pub skip_set: Vec<String>,
}

/// The state of a download batch as plain values.
pub struct DownloadStateView {
    pub cancel: bool,
    pub pid: Option<u32>,
    pub current: Option<Seq<char>>,
    pub skipped: Set<Seq<char>>,
}

impl View for DownloadState {
    type V = DownloadStateView;

    open spec fn view(&self) -> DownloadStateView {
        DownloadStateView {
            cancel: self.cancel_flag,
            pid: self.current_pid,
            current: crate::text::opt_view(self.current_track_id),
            skipped: Set::new(|id: Seq<char>| strings_view(self.skip_set@).contains(id)),
        }
    }
}

/// How a track's turn begins.
#[derive(Debug, Clone, Copy, PartialEq, Eq)]
pub enum TrackStart {
    /// The batch was cancelled: report the track cancelled and stop.
    Stop,
    /// The track was skipped: report it cancelled and go on with the next.
    Skip,
    /// Download the track.
    Start,
}

/// The status reported for a track.
#[derive(Debug, Clone, Copy, PartialEq, Eq)]
pub enum TrackStatus {
    Downloading,
    Completed,
    Error,
    Cancelled,
}

/// The text of a status as the progress events carry it.
pub open spec fn status_text(s: TrackStatus) -> Seq<char> {
    match s {
        TrackStatus::Downloading => "downloading"@,
        TrackStatus::Completed => "completed"@,
        TrackStatus::Error => "error"@,
        TrackStatus::Cancelled => "cancelled"@,
    }
}

impl TrackStatus {
    /// The text of the status.
    pub fn text(&self) -> (r: String)
        ensures
            r@ == status_text(*self),
    {
        match self {
            TrackStatus::Downloading => String::from_str("downloading"),
            TrackStatus::Completed => String::from_str("completed"),
            TrackStatus::Error => String::from_str("error"),
            TrackStatus::Cancelled => String::from_str("cancelled"),
        }
    }
}

/// How a track's turn ended.
#[derive(Debug, Clone, Copy, PartialEq, Eq)]
pub struct TrackEnd {
    /// The status to report.
    pub status: TrackStatus,
    /// Stop the batch.
    pub stop: bool,
}

/// The state at the start of a batch: not cancelled, nothing skipped.
pub open spec fn begin_batch_spec(v: DownloadStateView) -> DownloadStateView {
    DownloadStateView { cancel: false, skipped: Set::empty(), ..v }
}

/// How a track's turn begins, and the state after it.
pub open spec fn before_track_spec(v: DownloadStateView, id: Seq<char>) -> (DownloadStateView, TrackStart) {
    if v.cancel {
        (v, TrackStart::Stop)
    } else if v.skipped.contains(id) {
        (v, TrackStart::Skip)
    } else {
        (DownloadStateView { current: Some(id), ..v }, TrackStart::Start)
    }
}

/// The message recorded for a track that failed.
pub open spec fn failure_message(title: Seq<char>, error: Seq<char>) -> Seq<char> {
    "Failed to download '"@ + title + "': "@ + error
}

/// How a track's turn ends once its yt-dlp run is over: cancelled where the
/// batch was cancelled (then the batch stops) or the track skipped meanwhile;
/// else completed or failed as the run did.
pub open spec fn after_track_spec(v: DownloadStateView, id: Seq<char>, ok: bool) -> TrackEnd {
    if v.skipped.contains(id) || v.cancel {
        TrackEnd { status: TrackStatus::Cancelled, stop: v.cancel }
    } else if ok {
        TrackEnd { status: TrackStatus::Completed, stop: false }
    } else {
        TrackEnd { status: TrackStatus::Error, stop: false }
    }
}

/// The state after cancelling the batch, and the process to kill.
pub open spec fn cancel_spec(v: DownloadStateView) -> (DownloadStateView, Option<u32>) {
    (DownloadStateView { cancel: true, ..v }, v.pid)
}

/// The state after skipping a track, and the process to kill: the running one
/// where the skipped track is the one being downloaded.
pub open spec fn skip_spec(v: DownloadStateView, id: Seq<char>) -> (DownloadStateView, Option<u32>) {
    (
        DownloadStateView { skipped: v.skipped.insert(id), ..v },
        if v.current == Some(id) {
            v.pid
        } else {
            None
        },
    )
}

impl DownloadState {
    /// A state with nothing cancelled, skipped or running.
    pub fn new() -> (r: DownloadState)
        ensures
            !r@.cancel,
            r@.pid is None,
            r@.current is None,
            r@.skipped == Set::<Seq<char>>::empty(),
    {
        let r = DownloadState {
            cancel_flag: false,
            current_pid: None,
            current_track_id: None,
            skip_set: Vec::new(),
        };
        assert(r@.skipped =~= Set::<Seq<char>>::empty());
        r
    }

    /// Whether the track was skipped.
    pub fn is_skipped(&self, track_id: &str) -> (r: bool)
        ensures
            r == self@.skipped.contains(track_id@),
    {
        let mut i: usize = 0;
        while i < self.skip_set.len()
            invariant
                i <= self.skip_set@.len(),
                forall|k: int| 0 <= k < i ==> self.skip_set@[k]@ != track_id@,
            decreases self.skip_set.len() - i,
        {
            if crate::text::same_text(self.skip_set[i].as_str(), track_id) {
                assert(strings_view(self.skip_set@)[i as int] == track_id@);
                return true;
            }
            i += 1;
        }
        proof {
            if strings_view(self.skip_set@).contains(track_id@) {
                let k = choose|k: int|
                    0 <= k < strings_view(self.skip_set@).len() && strings_view(self.skip_set@)[k]
                        == track_id@;
                assert(self.skip_set@[k]@ == track_id@);
            }
        }
        false
    }

    /// Resets the state at the start of a new batch: not cancelled, nothing skipped.
    pub fn begin_batch(&mut self)
        ensures
            final(self)@ == begin_batch_spec(old(self)@),
    {
        self.cancel_flag = false;
        self.skip_set = Vec::new();
        assert(self@.skipped =~= Set::<Seq<char>>::empty());
    }

    /// Begins a track's turn: stop where the batch was cancelled, skip where
    /// the track was skipped, else the track becomes the current one.
    pub fn before_track(&mut self, track_id: &str) -> (r: TrackStart)
        ensures
            (final(self)@, r) == before_track_spec(old(self)@, track_id@),
    {
        if self.cancel_flag {
            return TrackStart::Stop;
        }
        if self.is_skipped(track_id) {
            return TrackStart::Skip;
        }
        self.current_track_id = Some(track_id.to_owned());
        TrackStart::Start
    }

    /// Records the process that runs the download, where it has an ID.
    pub fn process_started(&mut self, pid: Option<u32>)
        ensures
            final(self)@ == (match pid {
                Some(p) => DownloadStateView { pid: Some(p), ..old(self)@ },
                None => old(self)@,
            }),
    {
        if let Some(p) = pid {
            self.current_pid = Some(p);
        }
    }

    /// Forgets the process once it has finished.
    pub fn process_finished(&mut self)
        ensures
            final(self)@ == (DownloadStateView { pid: None, ..old(self)@ }),
    {
        self.current_pid = None;
    }

    /// Ends a track's turn given the outcome of its yt-dlp run, and counts it
    /// in the summary: a completed track as a success, a failed one as a
    /// failure with its message; a cancelled one not at all.
    pub fn after_track(
        &self,
        track_id: &str,
        track_title: &str,
        outcome: &Result<String, String>,
        summary: &mut DownloadSummary,
    ) -> (r: TrackEnd)
        requires
            old(summary).successful < usize::MAX,
            old(summary).failed < usize::MAX,
        ensures
            r == after_track_spec(self@, track_id@, outcome is Ok),
            r.status == TrackStatus::Completed ==> final(summary).successful == old(
                summary,
            ).successful + 1 && final(summary).failed == old(summary).failed
                && final(summary).errors@ == old(summary).errors@,
            r.status == TrackStatus::Error ==> final(summary).successful == old(summary).successful
                && final(summary).failed == old(summary).failed + 1 && (match outcome {
                Err(e) => strings_view(final(summary).errors@) == strings_view(
                    old(summary).errors@,
                ).push(failure_message(track_title@, e@)),
                Ok(_) => false,
            }),
            r.status == TrackStatus::Cancelled ==> final(summary).successful == old(
                summary,
            ).successful && final(summary).failed == old(summary).failed
                && final(summary).errors@ == old(summary).errors@,
            old(summary).errors@.len() == old(summary).failed ==> final(summary).errors@.len()
                == final(summary).failed,
    {
        if self.is_skipped(track_id) || self.cancel_flag {
            return TrackEnd { status: TrackStatus::Cancelled, stop: self.cancel_flag };
        }
        match outcome {
            Ok(_) => {
                summary.successful = summary.successful + 1;
                TrackEnd { status: TrackStatus::Completed, stop: false }
            },
            Err(e) => {
                summary.failed = summary.failed + 1;
                let mut buf = chars_of("Failed to download '");
                push_str(&mut buf, track_title);
                push_str(&mut buf, "': ");
                push_str(&mut buf, e.as_str());
                let msg = string_of(&buf);
                let ghost before = strings_view(summary.errors@);
                summary.errors.push(msg);
                assert(strings_view(summary.errors@) =~= before.push(
                    failure_message(track_title@, e@),
                ));
                TrackEnd { status: TrackStatus::Error, stop: false }
            },
        }
    }

    /// Clears the running process and track at the end of a batch.
    pub fn end_batch(&mut self)
        ensures
            final(self)@ == (DownloadStateView { pid: None, current: None, ..old(self)@ }),
    {
        self.current_pid = None;
        self.current_track_id = None;
    }
}

/// The process to kill to stop the download in progress, if any.
pub fn kill_current_process(state: &DownloadState) -> (r: Option<u32>)
    ensures
        r == state@.pid,
{
    state.current_pid
}

/// Cancels all remaining downloads; gives the process to kill.
pub fn cancel_downloads(state: &mut DownloadState) -> (r: Option<u32>)
    ensures
        (final(state)@, r) == cancel_spec(old(state)@),
{
    state.cancel_flag = true;
    kill_current_process(state)
}

/// Skips a single track by ID; where it is the one being downloaded, gives
/// the process to kill.
pub fn skip_track(state: &mut DownloadState, track_id: String) -> (r: Option<u32>)
    ensures
        (final(state)@, r) == skip_spec(old(state)@, track_id@),
{
    let ghost old_state = state@;
    if !state.is_skipped(track_id.as_str()) {
        let id = track_id.clone();
        let ghost before = state.skip_set@;
        state.skip_set.push(id);
        assert(strings_view(state.skip_set@) =~= strings_view(before).push(track_id@));
        assert forall|x: Seq<char>| strings_view(state.skip_set@).contains(x) <==> (strings_view(
            before,
        ).contains(x) || x == track_id@) by {
            if strings_view(before).contains(x) {
                let k = choose|k: int| 0 <= k < strings_view(before).len() && strings_view(before)[k] == x;
                assert(strings_view(state.skip_set@)[k] == x);
            }
            if x == track_id@ {
                assert(strings_view(state.skip_set@)[before.len() as int] == x);
            }
        }
    }
    assert(state@.skipped =~= old_state.skipped.insert(track_id@));
    let is_current = match &state.current_track_id {
        Some(id) => crate::text::same_text(id.as_str(), track_id.as_str()),
        None => false,
    };
    if is_current {
        kill_current_process(state)
    } else {
        None
    }
}

/// A download progress event.
#[derive(Debug)]
pub struct DownloadProgress {
    pub current: usize,
    pub total: usize,
    pub track_title: String,
    pub track_id: String,
    pub status: String,
}

/// The progress event of the track at `index` (counted from 0) of `total`:
/// its position counted from 1, its title and ID, and the status.
pub fn download_progress(index: usize, total: usize, track: &TrackInfo, status: TrackStatus) -> (r:
    DownloadProgress)
    requires
        index < usize::MAX,
    ensures
        r.current == index + 1,
        r.total == total,
        r.track_title@ == track.title@,
        r.track_id@ == track.id@,
        r.status@ == status_text(status),
{
    DownloadProgress {
        current: index + 1,
        total,
        track_title: track.title.clone(),
        track_id: track.id.clone(),
        status: status.text(),
    }
}

// ---------------------------------------------------------------------------
// A batch, track after track
// ---------------------------------------------------------------------------

/// What to do for the next track of a batch.
#[derive(Debug)]
pub enum Turn {
    /// The track was skipped: report it and go on with the next.
    Skipped(DownloadProgress),
    /// The batch was cancelled: report the track and end the batch.
    Stopped(DownloadProgress),
    /// Report the track as downloading, run yt-dlp with these arguments, then
    /// hand the outcome to `finish_turn`.
    Download { progress: DownloadProgress, args: Vec<String> },
}

/// The summary of a batch, with the turns that failed: the track's index and
/// the run's error, in order.
struct Tally {
    summary: DownloadSummary,
    failed_turns: Ghost<Seq<(int, Seq<char>)>>,
}

/// A download batch: the tracks, where it stands, and its summary so far.
pub struct DownloadBatch {
    tracks: Vec<TrackInfo>,
    output_dir: String,
    next: usize,
    in_progress: bool,
    stopped: bool,
    tally: Tally,
}

impl DownloadBatch {
    #[verifier::type_invariant]
    spec fn consistent(self) -> bool {
        &&& self.next <= self.tracks@.len()
        &&& self.tally.summary.errors@.len() == self.tally.summary.failed
        &&& self.tally.summary.successful + self.tally.summary.failed + (if self.in_progress {
            1int
        } else {
            0int
        }) <= self.next
        &&& self.in_progress ==> !self.stopped && self.next >= 1
        &&& self.tally.failed_turns@.len() == self.tally.summary.failed
        &&& forall|j: int|
            0 <= j < self.tally.failed_turns@.len() ==> {
                let f = #[trigger] self.tally.failed_turns@[j];
                &&& 0 <= f.0
                &&& f.0 + (if self.in_progress {
                    1int
                } else {
                    0int
                }) < self.next
                &&& self.tally.summary.errors@[j]@ == failure_message(self.tracks@[f.0].title@, f.1)
            }
        &&& forall|j: int, k: int|
            0 <= j < k < self.tally.failed_turns@.len() ==> (#[trigger] self.tally.failed_turns@[j]).0
                < (#[trigger] self.tally.failed_turns@[k]).0
    }

    /// The turns that failed so far, in order: the track's index and the
    /// error its run gave.
    pub closed spec fn failed_turns(&self) -> Seq<(int, Seq<char>)> {
        self.tally.failed_turns@
    }

    /// The batch's tracks.
    pub closed spec fn tracks_spec(&self) -> Seq<TrackInfoView> {
        crate::model::tracks_view(self.tracks@)
    }

    /// The output directory.
    pub closed spec fn output_dir_spec(&self) -> Seq<char> {
        self.output_dir@
    }

    /// How many tracks have had their turn begun.
    pub closed spec fn begun(&self) -> nat {
        self.next as nat
    }

    /// A track is downloading and its outcome is awaited.
    pub closed spec fn awaiting(&self) -> bool {
        self.in_progress
    }

    /// The batch was stopped by a cancel.
    pub closed spec fn is_stopped(&self) -> bool {
        self.stopped
    }

    /// The number of tracks downloaded so far.
    pub closed spec fn successes(&self) -> nat {
        self.tally.summary.successful as nat
    }

    /// The number of tracks that failed so far.
    pub closed spec fn failures(&self) -> nat {
        self.tally.summary.failed as nat
    }

    /// The error messages so far.
    pub closed spec fn errors_spec(&self) -> Seq<Seq<char>> {
        strings_view(self.tally.summary.errors@)
    }

    /// A batch of tracks to download into the output directory, none begun.
    pub fn new(tracks: Vec<TrackInfo>, output_dir: String) -> (r: DownloadBatch)
        ensures
            r.tracks_spec() == crate::model::tracks_view(tracks@),
            r.output_dir_spec() == output_dir@,
            r.begun() == 0,
            !r.awaiting(),
            !r.is_stopped(),
            r.successes() == 0,
            r.failures() == 0,
            r.errors_spec() == Seq::<Seq<char>>::empty(),
            r.failed_turns() == Seq::<(int, Seq<char>)>::empty(),
    {
        let r = DownloadBatch {
            tracks,
            output_dir,
            next: 0,
            in_progress: false,
            stopped: false,
            tally: Tally { summary: DownloadSummary::new(), failed_turns: Ghost(Seq::empty()) },
        };
        assert(strings_view(r.tally.summary.errors@) =~= Seq::<Seq<char>>::empty());
        r
    }

    /// The number of tracks in the batch.
    pub fn total(&self) -> (r: usize)
        ensures
            r == self.tracks_spec().len(),
    {
        self.tracks.len()
    }

    /// Begins the next track's turn: nothing where the batch was stopped or
    /// every track had its turn; else the decision of `before_track` for it,
    /// with its progress event (its position counted from 1, and the status
    /// "cancelled" or "downloading") and, to download it, its yt-dlp arguments.
    pub fn next_turn(&mut self, state: &mut DownloadState) -> (r: Option<Turn>)
        requires
            !old(self).awaiting(),
        ensures
            final(self).tracks_spec() == old(self).tracks_spec(),
            final(self).output_dir_spec() == old(self).output_dir_spec(),
            final(self).successes() == old(self).successes(),
            final(self).failures() == old(self).failures(),
            final(self).errors_spec() == old(self).errors_spec(),
            final(self).failed_turns() == old(self).failed_turns(),
            old(self).is_stopped() || old(self).begun() == old(self).tracks_spec().len() ==> {
                &&& r is None
                &&& final(self).begun() == old(self).begun()
                &&& final(self).is_stopped() == old(self).is_stopped()
                &&& !final(self).awaiting()
                &&& *final(state) == *old(state)
            },
            !(old(self).is_stopped() || old(self).begun() == old(self).tracks_spec().len()) ==> {
                let i = old(self).begun() as int;
                let t = old(self).tracks_spec()[i];
                let (after, start) = before_track_spec(old(state)@, t.id);
                &&& final(state)@ == after
                &&& final(self).begun() == old(self).begun() + 1
                &&& match r {
                    Some(Turn::Stopped(p)) => start == TrackStart::Stop && final(self).is_stopped()
                        && !final(self).awaiting() && p.current == i + 1 && p.total
                        == old(self).tracks_spec().len() && p.track_id@ == t.id && p.track_title@
                        == t.title && p.status@ == status_text(TrackStatus::Cancelled),
                    Some(Turn::Skipped(p)) => start == TrackStart::Skip && !final(self).is_stopped()
                        && !final(self).awaiting() && p.current == i + 1 && p.total
                        == old(self).tracks_spec().len() && p.track_id@ == t.id && p.track_title@
                        == t.title && p.status@ == status_text(TrackStatus::Cancelled),
                    Some(Turn::Download { progress: p, args }) => start == TrackStart::Start
                        && !final(self).is_stopped() && final(self).awaiting() && p.current == i
                        + 1 && p.total == old(self).tracks_spec().len() && p.track_id@ == t.id
                        && p.track_title@ == t.title && p.status@ == status_text(
                        TrackStatus::Downloading,
                    ) && strings_view(args@) == download_args_spec(
                        t,
                        old(self).output_dir_spec(),
                    ),
                    None => false,
                }
            },
    {
        proof {
            use_type_invariant(&*self);
        }
        let total = self.tracks.len();
        if self.stopped || self.next == total {
            return None;
        }
        let i = self.next;
        let start = state.before_track(self.tracks[i].id.as_str());
        match start {
            TrackStart::Stop => {
                let p = download_progress(i, total, &self.tracks[i], TrackStatus::Cancelled);
                self.next = i + 1;
                self.stopped = true;
                Some(Turn::Stopped(p))
            },
            TrackStart::Skip => {
                let p = download_progress(i, total, &self.tracks[i], TrackStatus::Cancelled);
                self.next = i + 1;
                Some(Turn::Skipped(p))
            },
            TrackStart::Start => {
                let p = download_progress(i, total, &self.tracks[i], TrackStatus::Downloading);
                let args = download_args(&self.tracks[i], self.output_dir.as_str());
                self.next = i + 1;
                self.in_progress = true;
                Some(Turn::Download { progress: p, args })
            },
        }
    }

    /// Ends the downloading track's turn with the outcome of its yt-dlp run,
    /// as `after_track` decides it; gives the progress event to report (its
    /// position and the status). A cancel stops the batch.
    pub fn finish_turn(&mut self, state: &DownloadState, outcome: &Result<String, String>) -> (r:
        DownloadProgress)
        requires
            old(self).awaiting(),
        ensures
            ({
                let i = old(self).begun() - 1;
                let t = old(self).tracks_spec()[i];
                let end = after_track_spec(state@, t.id, outcome is Ok);
                &&& final(self).tracks_spec() == old(self).tracks_spec()
                &&& final(self).output_dir_spec() == old(self).output_dir_spec()
                &&& final(self).begun() == old(self).begun()
                &&& !final(self).awaiting()
                &&& final(self).is_stopped() == end.stop
                &&& r.current == i + 1
                &&& r.total == old(self).tracks_spec().len()
                &&& r.track_id@ == t.id
                &&& r.track_title@ == t.title
                &&& r.status@ == status_text(end.status)
                &&& end.status == TrackStatus::Completed ==> final(self).successes() == old(
                    self,
                ).successes() + 1 && final(self).failures() == old(self).failures()
                    && final(self).errors_spec() == old(self).errors_spec()
                &&& end.status == TrackStatus::Error ==> final(self).successes() == old(
                    self,
                ).successes() && final(self).failures() == old(self).failures() + 1 && (
                match outcome {
                    Err(e) => final(self).errors_spec() == old(self).errors_spec().push(
                        failure_message(t.title, e@),
                    ),
                    Ok(_) => false,
                })
                &&& end.status == TrackStatus::Cancelled ==> final(self).successes() == old(
                    self,
                ).successes() && final(self).failures() == old(self).failures()
                    && final(self).errors_spec() == old(self).errors_spec()
                &&& end.status == TrackStatus::Error ==> (match outcome {
                    Err(e) => final(self).failed_turns() == old(self).failed_turns().push((i, e@)),
                    Ok(_) => false,
                })
                &&& end.status != TrackStatus::Error ==> final(self).failed_turns() == old(
                    self,
                ).failed_turns()
            }),
    {
        proof {
            use_type_invariant(&*self);
        }
        let i = self.next - 1;
        let total = self.tracks.len();
        let ghost old_log = self.tally.failed_turns@;
        let mut tally = Tally { summary: DownloadSummary::new(), failed_turns: Ghost(Seq::empty()) };
        std::mem::swap(&mut tally, &mut self.tally);
        let mut summary = tally.summary;
        let ghost old_errors = summary.errors@;
        let end = state.after_track(
            self.tracks[i].id.as_str(),
            self.tracks[i].title.as_str(),
            outcome,
            &mut summary,
        );
        let ghost log = if end.status == TrackStatus::Error {
            match outcome {
                Err(e) => old_log.push((i as int, e@)),
                Ok(_) => old_log,
            }
        } else {
            old_log
        };
        proof {
            if end.status == TrackStatus::Error {
                let k = old_log.len() as int;
                assert(summary.errors@[k]@ == strings_view(summary.errors@)[k]);
                assert forall|j: int| 0 <= j < old_log.len() implies summary.errors@[j]@
                    == old_errors[j]@ by {
                    assert(strings_view(summary.errors@)[j] == strings_view(old_errors)[j]);
                }
            }
        }
        self.in_progress = false;
        self.tally = Tally { summary, failed_turns: Ghost(log) };
        self.stopped = end.stop;
        download_progress(i, total, &self.tracks[i], end.status)
    }

    /// Ends the batch: clears the running process and track, and gives the
    /// summary. Each track counts at most once, and there is one error
    /// message per failure.
    pub fn finish(self, state: &mut DownloadState) -> (r: DownloadSummary)
        ensures
            final(state)@ == (DownloadStateView { pid: None, current: None, ..old(state)@ }),
            r.successful == self.successes(),
            r.failed == self.failures(),
            strings_view(r.errors@) == self.errors_spec(),
            r.successful + r.failed <= self.tracks_spec().len(),
            r.errors@.len() == r.failed,
            r.errors@.len() == self.failed_turns().len(),
            forall|j: int|
                0 <= j < self.failed_turns().len() ==> {
                    let f = #[trigger] self.failed_turns()[j];
                    &&& 0 <= f.0 < self.tracks_spec().len()
                    &&& r.errors@[j]@ == failure_message(self.tracks_spec()[f.0].title, f.1)
                },
            forall|j: int, k: int|
                0 <= j < k < self.failed_turns().len() ==> (#[trigger] self.failed_turns()[j]).0
                    < (#[trigger] self.failed_turns()[k]).0,
    {
        proof {
            use_type_invariant(&self);
        }
        state.end_batch();
        self.tally.summary
    }
}

// ---------------------------------------------------------------------------
// Laws of a batch
// ---------------------------------------------------------------------------

/// A new batch downloads every track: nothing it starts with is cancelled or skipped.
pub proof fn law_new_batch_starts(v: DownloadStateView, id: Seq<char>)
    ensures
        before_track_spec(begin_batch_spec(v), id).1 == TrackStart::Start,
{
}

/// After cancelling, no further track starts, and the track in progress ends
/// the batch as cancelled whatever its run gave.
pub proof fn law_cancel_stops(v: DownloadStateView, id: Seq<char>, ok: bool)
    ensures
        before_track_spec(cancel_spec(v).0, id).1 == TrackStart::Stop,
        after_track_spec(cancel_spec(v).0, id, ok) == (TrackEnd {
            status: TrackStatus::Cancelled,
            stop: true,
        }),
{
}

/// A skipped track is not downloaded (unless the batch was cancelled, which
/// stops it), and where it was running it ends cancelled without stopping the
/// batch; the other tracks are not affected.
pub proof fn law_skip_only_that_track(v: DownloadStateView, id: Seq<char>, other: Seq<char>, ok: bool)
    requires
        !v.cancel,
        other != id,
    ensures
        before_track_spec(skip_spec(v, id).0, id).1 == TrackStart::Skip,
        after_track_spec(skip_spec(v, id).0, id, ok) == (TrackEnd {
            status: TrackStatus::Cancelled,
            stop: false,
        }),
        before_track_spec(skip_spec(v, id).0, other).1 == before_track_spec(v, other).1,
        after_track_spec(skip_spec(v, id).0, other, ok) == after_track_spec(v, other, ok),
{
}

/// Skipping the track being downloaded kills its process; skipping another
/// kills nothing.
pub proof fn law_skip_kills_only_current(v: DownloadStateView, id: Seq<char>)
    ensures
        v.current == Some(id) ==> skip_spec(v, id).1 == v.pid,
        v.current != Some(id) ==> skip_spec(v, id).1 is None,
{
}

} // verus!
