# voyage_dl

Voyage DL downloads music from YouTube videos and playlists and from Deezer
playlists as MP3 files, using `yt-dlp` and `ffmpeg`.

- `src/` is the library, verified with Verus: URL checks and yt-dlp arguments
  (`youtube`), reading yt-dlp's JSON output into tracks (`youtube`, `json`),
  the Deezer playlist ID, pages and YouTube search (`deezer`), the arguments
  and the cancel/skip decisions of a download batch (`download`), the
  analysis flags (`analyze`), the fetch cache (`cache`), file locations
  (`paths`), sidecar lookup order and process outcomes (`sidecar`), and the
  character-level text handling they share (`text`).
- `app/` is the Tauri application: commands, file and network I/O, process
  spawning, and the serde forms of the library's types.
- `tests/` runs the library on concrete values.
