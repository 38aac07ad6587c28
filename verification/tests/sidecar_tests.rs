use voyage_dl::sidecar::{
    command_outcome, sidecar_file_name, sidecar_not_found, sidecar_search_order, yt_dlp_missing,
    SidecarCandidate::{BesideExecutable, BundledResources, PathDir},
};

#[test]
fn search_order_unix() {
    assert_eq!(
        sidecar_search_order(true, true, 2, false),
        vec![
            BundledResources,
            BesideExecutable,
            PathDir { index: 0, exe_suffix: false },
            PathDir { index: 1, exe_suffix: false },
        ]
    );
    assert_eq!(sidecar_search_order(true, false, 0, false), vec![BesideExecutable]);
    assert_eq!(sidecar_search_order(false, false, 0, false), vec![]);
}

#[test]
fn search_order_windows() {
    assert_eq!(
        sidecar_search_order(false, false, 2, true),
        vec![
            PathDir { index: 0, exe_suffix: true },
            PathDir { index: 0, exe_suffix: false },
            PathDir { index: 1, exe_suffix: true },
            PathDir { index: 1, exe_suffix: false },
        ]
    );
}

#[test]
fn names_and_messages() {
    assert_eq!(sidecar_file_name("yt-dlp", true), "yt-dlp.exe");
    assert_eq!(sidecar_file_name("yt-dlp", false), "yt-dlp");
    assert_eq!(sidecar_not_found("ffmpeg"), "Binary 'ffmpeg' not found in PATH or app resources");
    assert_eq!(
        yt_dlp_missing("Binary 'yt-dlp' not found in PATH or app resources"),
        "yt-dlp not found. Make sure it's installed or bundled with the app: Binary 'yt-dlp' not found in PATH or app resources"
    );
}

#[test]
fn outcome_of_a_run() {
    assert_eq!(
        command_outcome(true, "exit status: 0", b"{\"id\":1}\n".to_vec(), b"warn".to_vec(), "command output"),
        Ok("{\"id\":1}\n".to_string())
    );
    assert_eq!(
        command_outcome(false, "exit status: 1", b"out".to_vec(), b"ERROR: bad".to_vec(), "output"),
        Err("Command failed with status exit status: 1: ERROR: bad".to_string())
    );
    assert_eq!(
        command_outcome(false, "exit status: 2", b"only stdout".to_vec(), Vec::new(), "output"),
        Err("Command failed with status exit status: 2: only stdout".to_string())
    );
    let bad = vec![b'a', 0xff];
    let e = String::from_utf8(bad.clone()).unwrap_err().to_string();
    assert_eq!(
        command_outcome(true, "exit status: 0", bad.clone(), Vec::new(), "command output"),
        Err(format!("Failed to decode command output: {}", e))
    );
    assert_eq!(
        command_outcome(false, "exit status: 3", Vec::new(), bad, "output"),
        Err("Command failed with status exit status: 3: a\u{FFFD}".to_string())
    );
}
