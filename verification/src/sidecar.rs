//! Sidecar executables (yt-dlp, ffmpeg): the order in which they are looked
//! for, the errors when they are missing, and what a finished run gives.
use vstd::prelude::*;
use vstd::utf8::{decode_utf8, valid_utf8};

use crate::text::{chars_of, concat2, concat3, push_str, string_of};

verus! {

broadcast use vstd::string::group_string_axioms;

// ---------------------------------------------------------------------------
// Finding a sidecar
// ---------------------------------------------------------------------------

/// The directory, next to the executable's directory, that bundled sidecars
/// are in (an application bundle's `Resources`).
pub const RESOURCES_DIR_NAME: &'static str = "Resources";

/// A place where a sidecar may be.
#[derive(Debug, Clone, Copy, PartialEq, Eq)]
pub enum SidecarCandidate {
    /// `Resources/<name>` in the parent of the executable's directory.
    BundledResources,
    /// `<name>` in the executable's directory.
    BesideExecutable,
    /// `<name>` (with `.exe` where `exe_suffix`) in the `index`-th directory of `PATH`.
    PathDir { index: usize, exe_suffix: bool },
}

/// The places in the `PATH` directories, in order; on Windows the `.exe`
/// name comes first in each directory.
pub open spec fn path_candidates(n: nat, windows: bool) -> Seq<SidecarCandidate>
    decreases n,
{
    if n == 0 {
        seq![]
    } else {
        let i = (n - 1) as usize;
        path_candidates((n - 1) as nat, windows) + if windows {
            seq![
                SidecarCandidate::PathDir { index: i, exe_suffix: true },
                SidecarCandidate::PathDir { index: i, exe_suffix: false },
            ]
        } else {
            seq![SidecarCandidate::PathDir { index: i, exe_suffix: false }]
        }
    }
}

/// The order in which a sidecar is looked for: the app's resources (in
/// production bundles), the executable's directory, then the `PATH`.
pub open spec fn search_order_spec(
    has_exe_dir: bool,
    has_exe_parent: bool,
    path_dirs: nat,
    windows: bool,
) -> Seq<SidecarCandidate> {
    (if has_exe_dir {
        (if has_exe_parent {
            seq![SidecarCandidate::BundledResources]
        } else {
            seq![]
        }) + seq![SidecarCandidate::BesideExecutable]
    } else {
        seq![]
    }) + path_candidates(path_dirs, windows)
}

/// The places to look for a sidecar, in order. `has_exe_dir`: the
/// executable's directory is known; `has_exe_parent`: it has a parent;
/// `path_dirs`: the number of directories in `PATH`; `windows`: the platform
/// is Windows. The first place where the file exists is the sidecar.
pub fn sidecar_search_order(
    has_exe_dir: bool,
    has_exe_parent: bool,
    path_dirs: usize,
    windows: bool,
) -> (r: Vec<SidecarCandidate>)
    ensures
        r@ == search_order_spec(has_exe_dir, has_exe_parent, path_dirs as nat, windows),
{
    let mut r: Vec<SidecarCandidate> = Vec::new();
    if has_exe_dir {
        if has_exe_parent {
            r.push(SidecarCandidate::BundledResources);
        }
        r.push(SidecarCandidate::BesideExecutable);
    }
    let ghost head = r@;
    assert(head =~= search_order_spec(has_exe_dir, has_exe_parent, 0, windows));
    let mut i: usize = 0;
    while i < path_dirs
        invariant
            i <= path_dirs,
            head =~= search_order_spec(has_exe_dir, has_exe_parent, 0, windows),
            r@ == head + path_candidates(i as nat, windows),
        decreases path_dirs - i,
    {
        if windows {
            r.push(SidecarCandidate::PathDir { index: i, exe_suffix: true });
        }
        r.push(SidecarCandidate::PathDir { index: i, exe_suffix: false });
        assert(r@ =~= head + path_candidates((i + 1) as nat, windows));
        i += 1;
    }
    r
}

/// The file name of a sidecar: the binary's name, with `.exe` where asked.
pub fn sidecar_file_name(binary_name: &str, exe_suffix: bool) -> (r: String)
    ensures
        r@ == if exe_suffix {
            binary_name@ + ".exe"@
        } else {
            binary_name@
        },
{
    if exe_suffix {
        concat2(binary_name, ".exe")
    } else {
        binary_name.to_owned()
    }
}

/// The error when a sidecar is found nowhere.
pub fn sidecar_not_found(binary_name: &str) -> (r: String)
    ensures
        r@ == "Binary '"@ + binary_name@ + "' not found in PATH or app resources"@,
{
    concat3("Binary '", binary_name, "' not found in PATH or app resources")
}

/// The error when yt-dlp is missing, given why.
pub fn yt_dlp_missing(reason: &str) -> (r: String)
    ensures
        r@ == "yt-dlp not found. Make sure it's installed or bundled with the app: "@ + reason@,
{
    concat2("yt-dlp not found. Make sure it's installed or bundled with the app: ", reason)
}

// ---------------------------------------------------------------------------
// What a run gives
// ---------------------------------------------------------------------------

/// `String::from_utf8_lossy` of some bytes.
pub uninterp spec fn spec_utf8_lossy(bytes: Seq<u8>) -> Seq<char>;

/// `String::from_utf8_lossy`, as an owned string. Trusted: the result is the
/// named text of the bytes, and for valid UTF-8 it is the decoded text (std
/// documents that valid input is returned unchanged).
#[verifier::external_body]
fn utf8_lossy(bytes: &Vec<u8>) -> (r: String)
    ensures
        r@ == spec_utf8_lossy(bytes@),
        valid_utf8(bytes@) ==> r@ == decode_utf8(bytes@),
{
    String::from_utf8_lossy(bytes).into_owned()
}

/// The `Display` text of the error of `String::from_utf8` on some bytes.
pub uninterp spec fn spec_utf8_error(bytes: Seq<u8>) -> Seq<char>;

/// `String::from_utf8`. Trusted: it succeeds exactly on valid UTF-8, with the
/// decoded text; else it gives the named error text.
#[verifier::external_body]
fn utf8_decode(bytes: Vec<u8>) -> (r: Result<String, String>)
    ensures
        match r {
            Ok(s) => valid_utf8(bytes@) && s@ == decode_utf8(bytes@),
            Err(e) => !valid_utf8(bytes@) && e@ == spec_utf8_error(bytes@),
        },
{
    String::from_utf8(bytes).map_err(|e| e.to_string())
}

/// A string result seen as plain values.
pub open spec fn text_result_view(r: Result<String, String>) -> Result<Seq<char>, Seq<char>> {
    match r {
        Ok(s) => Ok(s@),
        Err(e) => Err(e@),
    }
}

/// What a finished run gives: its standard output as text where it
/// succeeded; where it failed, an error with its status and its error output
/// (or, where that is empty, its standard output); where its output is not
/// UTF-8, an error naming what could not be decoded.
pub open spec fn command_outcome_spec(
    success: bool,
    status: Seq<char>,
    stdout: Seq<u8>,
    stderr: Seq<u8>,
    what: Seq<char>,
) -> Result<Seq<char>, Seq<char>> {
    if !success {
        let message = if spec_utf8_lossy(stderr).len() > 0 {
            spec_utf8_lossy(stderr)
        } else {
            spec_utf8_lossy(stdout)
        };
        Err("Command failed with status "@ + status + ": "@ + message)
    } else if valid_utf8(stdout) {
        Ok(decode_utf8(stdout))
    } else {
        Err("Failed to decode "@ + what + ": "@ + spec_utf8_error(stdout))
    }
}

/// What a finished run gives, from whether it succeeded, its status as text,
/// its standard and error output, and the name of what its output is for the
/// decoding error (`command output` or `output`).
pub fn command_outcome(
    success: bool,
    status: &str,
    stdout: Vec<u8>,
    stderr: Vec<u8>,
    what: &str,
) -> (r: Result<String, String>)
    ensures
        text_result_view(r) == command_outcome_spec(success, status@, stdout@, stderr@, what@),
{
    if !success {
        let err_text = utf8_lossy(&stderr);
        let out_text = utf8_lossy(&stdout);
        let message = if err_text.as_str().is_empty() {
            out_text
        } else {
            err_text
        };
        let mut buf = chars_of("Command failed with status ");
        push_str(&mut buf, status);
        push_str(&mut buf, ": ");
        push_str(&mut buf, message.as_str());
        return Err(string_of(&buf));
    }
    match utf8_decode(stdout) {
        Ok(s) => Ok(s),
        Err(e) => {
            let mut buf = chars_of("Failed to decode ");
            push_str(&mut buf, what);
            push_str(&mut buf, ": ");
            push_str(&mut buf, e.as_str());
            Err(string_of(&buf))
        },
    }
}

} // verus!
