//! Where the application keeps its files: the user's directories (through
//! the `dirs` crate), path joining, and the configuration file's path.
use vstd::prelude::*;

use crate::model::{default_config, Config};

verus! {

broadcast use vstd::string::group_string_axioms;

/// `std::path::Path::join` of two paths, as text (for the platform the
/// library is built for).
pub uninterp spec fn spec_path_join(base: Seq<char>, part: Seq<char>) -> Seq<char>;

/// Joins two paths with `std::path::Path::join` and gives the result as text.
/// Trusted: the result is the named join of the two arguments.
#[verifier::external_body]
pub(crate) fn path_join(base: &str, part: &str) -> (r: String)
    ensures
        r@ == spec_path_join(base@, part@),
{
    std::path::Path::new(base).join(part).to_string_lossy().into_owned()
}

/// The user's configuration directory, from `dirs::config_dir`, as text.
/// Nothing is promised of it: it depends on the platform and the environment.
#[verifier::external_body]
fn user_config_dir() -> (r: Option<String>) {
    dirs::config_dir().map(|p| p.to_string_lossy().into_owned())
}

/// The user's download directory, from `dirs::download_dir`, as text.
/// Nothing is promised of it: it depends on the platform and the environment.
#[verifier::external_body]
fn user_download_dir() -> (r: Option<String>) {
    dirs::download_dir().map(|p| p.to_string_lossy().into_owned())
}

/// The application's directory inside a configuration directory.
pub open spec fn app_dir(config_dir: Seq<char>) -> Seq<char> {
    spec_path_join(config_dir, "voyage-dl"@)
}

/// The configuration file's path for a configuration directory:
/// `voyage-dl/config.json` in it; an error where there is none.
pub fn config_path_in(config_dir: Option<String>) -> (r: Result<String, String>)
    ensures
        match r {
            Ok(p) => config_dir matches Some(d) && p@ == spec_path_join(app_dir(d@), "config.json"@),
            Err(e) => config_dir is None && e@ == "Failed to determine config directory"@,
        },
{
    match config_dir {
        None => Err(String::from_str("Failed to determine config directory")),
        Some(d) => {
            let app = path_join(d.as_str(), "voyage-dl");
            Ok(path_join(app.as_str(), "config.json"))
        },
    }
}

/// The configuration file's path: `voyage-dl/config.json` in the user's
/// configuration directory (`~/.config` on Unix-like systems); an error where
/// the platform has no such directory.
pub fn get_config_path() -> (r: Result<String, String>)
    ensures
        match r {
            Ok(p) => exists|d: Seq<char>| p@ == spec_path_join(app_dir(d), "config.json"@),
            Err(e) => e@ == "Failed to determine config directory"@,
        },
{
    config_path_in(user_config_dir())
}

/// The cache directory for a configuration directory: `voyage-dl/cache` in
/// it, or in the current directory (`.`) where there is none.
pub fn cache_dir_in(config_dir: Option<String>) -> (r: String)
    ensures
        r@ == spec_path_join(
            app_dir(
                match config_dir {
                    Some(d) => d@,
                    None => "."@,
                },
            ),
            "cache"@,
        ),
{
    let base = match config_dir {
        Some(d) => d,
        None => String::from_str("."),
    };
    let app = path_join(base.as_str(), "voyage-dl");
    path_join(app.as_str(), "cache")
}

/// The cache directory: `voyage-dl/cache` in the user's configuration
/// directory, or in the current directory where the platform has none.
pub fn user_cache_dir() -> (r: String)
    ensures
        exists|d: Seq<char>| r@ == spec_path_join(app_dir(d), "cache"@),
{
    cache_dir_in(user_config_dir())
}

/// The configuration used when none has been saved: the user's download
/// directory (or `./downloads`) and MP3.
pub fn user_default_config() -> (r: Config)
    ensures
        r.audio_format@ == "mp3"@,
{
    default_config(user_download_dir())
}

} // verus!
