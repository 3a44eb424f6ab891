use grably::status::{
    classify, classify_error_line, rule, rule_of_two, universal_rules, youtube_rules, LineKind,
    Phase,
};

fn youtube(line: &str) -> Option<(LineKind, String)> {
    let rules = youtube_rules();
    classify(line, &rules).map(|i| (rules[i].kind, rules[i].label.clone()))
}

fn universal(line: &str) -> Option<(LineKind, String)> {
    let rules = universal_rules();
    classify(line, &rules).map(|i| (rules[i].kind, rules[i].label.clone()))
}

fn status(phase: Phase, label: &str) -> Option<(LineKind, String)> {
    Some((LineKind::Status(phase), label.to_string()))
}

#[test]
fn lines_of_a_video_site_download_are_classified() {
    assert_eq!(
        youtube("[youtube] Extracting URL: https://example.com/v"),
        status(Phase::Connecting, "Connecting to YouTube...")
    );
    assert_eq!(
        youtube("[generic] Extracting URL: https://example.com/v"),
        status(Phase::Connecting, "Connecting to YouTube...")
    );
    assert_eq!(
        youtube("[info] abc: Downloading webpage"),
        status(Phase::Resolving, "Loading video page...")
    );
    assert_eq!(
        youtube("[info] abc: Downloading API JSON"),
        status(Phase::FetchingMetadata, "Fetching video info...")
    );
    assert_eq!(
        youtube("[info] abc: Downloading JSON metadata"),
        status(Phase::FetchingMetadata, "Fetching video info...")
    );
    assert_eq!(
        youtube("[info] abc: Downloading m3u8 information"),
        status(Phase::ProcessingStreams, "Processing video streams...")
    );
    assert_eq!(
        youtube("[info] abc: Downloading MPD manifest"),
        status(Phase::ProcessingStreams, "Processing video streams...")
    );
    assert_eq!(youtube("[Merger] Merging formats into \"a.mp4\"").unwrap().0, LineKind::Status(Phase::Merging));
    assert_eq!(youtube("[x] Merging").unwrap().0, LineKind::Status(Phase::Merging));
    assert_eq!(
        youtube("[download] Destination: a.mp4"),
        status(Phase::Starting, "Starting download...")
    );
    assert_eq!(youtube("[download]   3.1% of 1MiB").unwrap().0, LineKind::Progress);
    assert_eq!(
        youtube("[download] a.mp4 has already been downloaded").unwrap().0,
        LineKind::AlreadyDownloaded
    );
}

#[test]
fn lines_of_a_download_from_another_site_are_classified() {
    assert_eq!(
        universal("[generic] Extracting URL: https://example.com/v"),
        status(Phase::Resolving, "Extracting URL...")
    );
    assert_eq!(
        universal("[TikTok] 7: Downloading webpage"),
        status(Phase::Connecting, "Fetching webpage...")
    );
    assert_eq!(
        universal("[x] 7: Downloading API JSON"),
        status(Phase::FetchingMetadata, "Accessing API...")
    );
    assert_eq!(
        universal("[x] 7: Downloading JSON"),
        status(Phase::FetchingMetadata, "Accessing API...")
    );
    assert_eq!(
        universal("[x] 7: Downloading video information"),
        status(Phase::FetchingMetadata, "Getting video info...")
    );
    assert_eq!(
        universal("[x] 7: Downloading m3u8 information"),
        status(Phase::ProcessingStreams, "Processing video streams...")
    );
    assert_eq!(universal("[x] 7: Downloading MPD manifest"), None);
    assert_eq!(universal("[youtube] abc: something"), None);
    assert_eq!(universal("[download] 50% of x").unwrap().0, LineKind::Progress);
}

#[test]
fn only_lines_that_begin_with_a_bracket_are_classified() {
    assert_eq!(youtube("youtube: Downloading webpage"), None);
    assert_eq!(youtube(" [youtube] Downloading webpage"), None);
    assert_eq!(youtube(""), None);
    assert_eq!(youtube("[download] something else"), None);
    assert_eq!(youtube("[download] 100% done"), youtube("[download] 1%"));
}

#[test]
fn the_first_rule_that_applies_wins() {
    // The site's name outranks every later rule.
    assert_eq!(
        youtube("[download] youtube.mp4 has already been downloaded"),
        status(Phase::Connecting, "Connecting to YouTube...")
    );
    assert_eq!(
        youtube("[download] Destination: Merging.mp4").unwrap().0,
        LineKind::Status(Phase::Merging)
    );
    let rules = vec![
        rule("b", LineKind::Progress, "first"),
        rule_of_two("a", "b", LineKind::AlreadyDownloaded, "second"),
        rule("a", LineKind::Status(Phase::Starting), "third"),
    ];
    assert_eq!(classify("[ab", &rules), Some(0));
    assert_eq!(classify("[a", &rules), Some(2));
    assert_eq!(classify("[c", &rules), None);
    assert_eq!(classify("[b", &rules), Some(0));
    assert_eq!(classify("[a", &Vec::new()), None);
}

#[test]
fn failure_lines_are_told_from_harmless_ones() {
    assert_eq!(
        classify_error_line("ERROR: unable to download video data"),
        Some("Error: ERROR: unable to download video data".to_string())
    );
    assert_eq!(classify_error_line("ERROR: a.mp4 has already been downloaded"), None);
    assert_eq!(classify_error_line("ERROR: The downloaded file is empty"), None);
    assert_eq!(classify_error_line("The downloaded file is empty"), None);
    assert_eq!(classify_error_line("WARNING: slow"), None);
    assert_eq!(classify_error_line("error: lower case"), None);
    assert_eq!(classify_error_line(""), None);
    assert_eq!(classify_error_line("xERRORx"), Some("Error: xERRORx".to_string()));
}

#[test]
fn terminal_phases() {
    assert!(Phase::Complete.terminal());
    assert!(Phase::Error.terminal());
    for p in [
        Phase::Initializing, Phase::Resolving, Phase::Connecting, Phase::FetchingMetadata,
        Phase::ProcessingStreams, Phase::Starting, Phase::Merging,
    ] {
        assert!(!p.terminal());
    }
}
