//! Voyage DL: the logic of a desktop application that downloads music from
//! YouTube and Deezer playlists as MP3 files, with its behaviour stated in
//! contracts and proved.

pub mod text;
pub mod model;
pub mod json;
pub mod youtube;
pub mod deezer;
pub mod download;
pub mod analyze;
pub mod paths;
pub mod cache;
pub mod sidecar;
