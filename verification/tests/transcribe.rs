use grably::error::{ErrorKind, ToolError};
use grably::locate::ToolKind;
use grably::transcribe::{Directive, Event, Flow, Step};

fn exited(success: bool, stdout: &str, stderr: &str) -> Event {
    Event::Exited { success, stdout: stdout.to_string(), stderr: stderr.to_string() }
}

fn launch_failed(reason: &str) -> Event {
    Event::LaunchFailed { reason: reason.to_string() }
}

fn read(content: &str) -> Event {
    Event::Read { content: content.to_string() }
}

fn read_failed(reason: &str) -> Event {
    Event::ReadFailed { reason: reason.to_string() }
}

fn run_of(d: &Directive) -> (ToolKind, Vec<String>) {
    assert!(d.remove.is_empty());
    match &d.step {
        Step::Run { tool, args } => (*tool, args.clone()),
        other => panic!("not a run: {:?}", other),
    }
}

fn read_of(d: &Directive) -> String {
    assert!(d.remove.is_empty());
    match &d.step {
        Step::Read { path } => path.clone(),
        other => panic!("not a read: {:?}", other),
    }
}

fn probe_of(d: &Directive) -> String {
    assert!(d.remove.is_empty());
    match &d.step {
        Step::Probe { path } => path.clone(),
        other => panic!("not a probe: {:?}", other),
    }
}

fn finish_of(d: Directive) -> (Vec<String>, Result<String, ToolError>) {
    match d.step {
        Step::Finish { outcome } => (d.remove, outcome),
        other => panic!("not a finish: {:?}", other),
    }
}

fn failure_of(d: Directive) -> (Vec<String>, ErrorKind, String) {
    let (removed, outcome) = finish_of(d);
    let e = outcome.unwrap_err();
    (removed, e.kind, e.message)
}

fn captions_message(reason: &str) -> String {
    format!(
        "YouTube captions not available for this video. {}. Try using 'Whisper AI' option instead.",
        reason
    )
}

fn is_idle(d: &Directive) -> bool {
    d.remove.is_empty() && matches!(d.step, Step::Idle)
}

#[test]
fn captions_are_fetched_read_and_removed() {
    let (mut flow, first) = Flow::begin_subtitles("U");
    assert_eq!(run_of(&first), (ToolKind::Extractor, vec!["--print".to_string(), "id".into(), "U".into()]));
    let d = flow.advance(exited(true, " abc123\n", ""));
    let (tool, args) = run_of(&d);
    assert_eq!(tool, ToolKind::Extractor);
    assert_eq!(
        args,
        vec![
            "--skip-download", "--write-auto-subs", "--sub-lang", "en", "--convert-subs", "vtt",
            "--output", "/tmp/abc123", "U",
        ]
    );
    let d = flow.advance(exited(true, "", ""));
    assert_eq!(read_of(&d), "/tmp/abc123.en.vtt");
    assert!(!flow.is_finished());
    let d = flow.advance(read("WEBVTT\n\n00:01 --> 00:02\nHello <c>world</c>\n"));
    let (removed, outcome) = finish_of(d);
    assert_eq!(removed, vec!["/tmp/abc123.en.vtt"]);
    assert_eq!(outcome.unwrap(), "Hello world");
    assert!(flow.is_finished());
    assert!(is_idle(&flow.advance(read("again"))));
    assert!(flow.is_finished());
}

#[test]
fn captions_fail_with_a_hint_at_the_recognizer() {
    let (mut flow, _) = Flow::begin_subtitles("U");
    let (removed, kind, message) = failure_of(flow.advance(exited(false, "", "boom")));
    assert!(removed.is_empty());
    assert_eq!(kind, ErrorKind::NoCaptionsAvailable);
    assert_eq!(message, captions_message("Could not get video ID"));

    let (mut flow, _) = Flow::begin_subtitles("U");
    let (_, _, message) = failure_of(flow.advance(exited(true, "  \n", "")));
    assert_eq!(message, captions_message("Could not get video ID"));

    let (mut flow, _) = Flow::begin_subtitles("U");
    let (removed, _, message) = failure_of(flow.advance(launch_failed("not found")));
    assert!(removed.is_empty());
    assert_eq!(message, captions_message("Failed to get video ID: not found"));

    let (mut flow, _) = Flow::begin_subtitles("U");
    flow.advance(exited(true, "id", ""));
    let (removed, _, message) = failure_of(flow.advance(exited(false, "", "no subs")));
    assert_eq!(removed, vec!["/tmp/id.en.vtt"]);
    assert_eq!(message, captions_message("No subtitles available"));

    let (mut flow, _) = Flow::begin_subtitles("U");
    flow.advance(exited(true, "id", ""));
    let (removed, _, message) = failure_of(flow.advance(launch_failed("gone")));
    assert_eq!(removed, vec!["/tmp/id.en.vtt"]);
    assert_eq!(message, captions_message("Failed to download subtitles: gone"));

    for event in [read("WEBVTT\n\n00:01 --> 00:02\n"), read(""), read_failed("no such file")] {
        let (mut flow, _) = Flow::begin_subtitles("U");
        flow.advance(exited(true, "id", ""));
        flow.advance(exited(true, "", ""));
        let (removed, kind, message) = failure_of(flow.advance(event));
        assert_eq!(removed, vec!["/tmp/id.en.vtt"]);
        assert_eq!(kind, ErrorKind::NoCaptionsAvailable);
        assert_eq!(message, captions_message("No subtitle files found"));
    }
}

#[test]
fn an_address_is_transcribed_and_its_files_removed() {
    let (mut flow, first) =
        Flow::begin_from_url("https://www.facebook.com/v", 1700000000, true, "/f", Some("/m.bin"));
    let (tool, args) = run_of(&first);
    assert_eq!(tool, ToolKind::Extractor);
    assert_eq!(
        args,
        vec![
            "--ffmpeg-location", "/f", "-x", "--audio-format", "mp3", "--audio-quality", "5", "-o",
            "/tmp/audio_temp_1700000000.mp3", "--cookies", "/tmp/cookies.txt",
            "https://m.facebook.com/v",
        ]
    );
    let (tool, args) = run_of(&flow.advance(exited(true, "", "")));
    assert_eq!(tool, ToolKind::SpeechRecognizer);
    assert_eq!(
        args,
        vec![
            "-m", "/m.bin", "-f", "/tmp/audio_temp_1700000000.mp3", "-otxt", "-of",
            "/tmp/whisper_output_1700000000", "--no-timestamps", "-l", "en",
        ]
    );
    assert_eq!(read_of(&flow.advance(exited(true, "", ""))), "/tmp/whisper_output_1700000000.txt");
    let (removed, outcome) = finish_of(flow.advance(read("\n  spoken words \n")));
    assert_eq!(removed, vec!["/tmp/audio_temp_1700000000.mp3", "/tmp/whisper_output_1700000000.txt"]);
    assert_eq!(outcome.unwrap(), "spoken words");
    assert!(flow.is_finished());
}

#[test]
fn a_missing_recognizer_is_reported_at_once() {
    let (flow, first) = Flow::begin_from_url("U", 5, false, "ffmpeg", None);
    assert!(flow.is_finished());
    let (removed, kind, message) = failure_of(first);
    assert!(removed.is_empty());
    assert_eq!(kind, ErrorKind::ToolNotFound);
    assert_eq!(message, "whisper.cpp or model not found in resources");

    let (mut flow, first) = Flow::begin_from_file("/in/a.mp4", 5, None);
    assert_eq!(probe_of(&first), "/in/a.mp4");
    let (removed, kind, message) = failure_of(flow.advance(Event::Probed { exists: true }));
    assert!(removed.is_empty());
    assert_eq!(kind, ErrorKind::ToolNotFound);
    assert_eq!(message, "whisper.cpp or model not found in resources");
}

#[test]
fn every_failure_of_an_address_flow_removes_what_may_exist() {
    let audio = "/tmp/audio_temp_5.mp3";
    let transcript = "/tmp/whisper_output_5.txt";
    let begin = || Flow::begin_from_url("U", 5, false, "ffmpeg", Some("/m")).0;

    let mut flow = begin();
    let (removed, kind, message) = failure_of(flow.advance(exited(false, "", "ERROR: 404")));
    assert_eq!(removed, vec![audio]);
    assert_eq!(kind, ErrorKind::ToolExitedNonZero);
    assert_eq!(message, "Failed to download audio: ERROR: 404");

    let mut flow = begin();
    let (removed, kind, message) = failure_of(flow.advance(launch_failed("no yt-dlp")));
    assert_eq!(removed, vec![audio]);
    assert_eq!(kind, ErrorKind::ToolLaunchFailed);
    assert_eq!(message, "Failed to download audio: no yt-dlp");

    let mut flow = begin();
    flow.advance(exited(true, "", ""));
    let (removed, kind, message) = failure_of(flow.advance(exited(false, "", "bad model")));
    assert_eq!(removed, vec![audio, transcript]);
    assert_eq!(kind, ErrorKind::ToolExitedNonZero);
    assert_eq!(message, "whisper.cpp transcription failed: bad model");

    let mut flow = begin();
    flow.advance(exited(true, "", ""));
    let (removed, kind, message) = failure_of(flow.advance(launch_failed("denied")));
    assert_eq!(removed, vec![audio, transcript]);
    assert_eq!(kind, ErrorKind::ToolLaunchFailed);
    assert_eq!(message, "whisper.cpp failed: denied");

    let mut flow = begin();
    flow.advance(exited(true, "", ""));
    flow.advance(exited(true, "", ""));
    let (removed, kind, message) = failure_of(flow.advance(read_failed("no such file")));
    assert_eq!(removed, vec![audio, transcript]);
    assert_eq!(kind, ErrorKind::TranscriptFileMissing);
    assert_eq!(message, "Failed to read transcript: no such file");
}

#[test]
fn a_local_file_is_converted_and_transcribed() {
    let (mut flow, first) = Flow::begin_from_file("/in/a.mp4", 1700000000, Some("/m.bin"));
    assert_eq!(probe_of(&first), "/in/a.mp4");
    let (tool, args) = run_of(&flow.advance(Event::Probed { exists: true }));
    assert_eq!(tool, ToolKind::Transcoder);
    assert_eq!(
        args,
        vec![
            "-i", "/in/a.mp4", "-ar", "16000", "-ac", "1", "-c:a", "pcm_s16le",
            "/tmp/whisper_audio_1700000000.wav", "-y",
        ]
    );
    let (tool, args) = run_of(&flow.advance(exited(true, "", "")));
    assert_eq!(tool, ToolKind::SpeechRecognizer);
    assert_eq!(
        args,
        vec![
            "-m", "/m.bin", "-f", "/tmp/whisper_audio_1700000000.wav", "-otxt", "-of",
            "/tmp/whisper_file_output_1700000000", "--no-timestamps", "-l", "en",
        ]
    );
    assert_eq!(
        probe_of(&flow.advance(exited(true, "", ""))),
        "/tmp/whisper_file_output_1700000000.txt"
    );
    assert_eq!(
        read_of(&flow.advance(Event::Probed { exists: true })),
        "/tmp/whisper_file_output_1700000000.txt"
    );
    let (removed, outcome) = finish_of(flow.advance(read(" text\n")));
    assert_eq!(
        removed,
        vec![
            "/tmp/whisper_audio_1700000000.wav",
            "/tmp/whisper_file_output_1700000000.txt",
            "/tmp/whisper_file_output_1700000000",
        ]
    );
    assert_eq!(outcome.unwrap(), "text");
}

#[test]
fn the_transcript_is_also_looked_for_under_its_bare_name() {
    let (mut flow, _) = Flow::begin_from_file("/in/a.mp4", 9, Some("/m"));
    flow.advance(Event::Probed { exists: true });
    flow.advance(exited(true, "", ""));
    flow.advance(exited(true, "", ""));
    assert_eq!(probe_of(&flow.advance(Event::Probed { exists: false })), "/tmp/whisper_file_output_9");
    assert_eq!(read_of(&flow.advance(Event::Probed { exists: true })), "/tmp/whisper_file_output_9");
    let (removed, outcome) = finish_of(flow.advance(read("words")));
    assert_eq!(outcome.unwrap(), "words");
    assert_eq!(removed.len(), 3);

    let (mut flow, _) = Flow::begin_from_file("/in/a.mp4", 9, Some("/m"));
    flow.advance(Event::Probed { exists: true });
    flow.advance(exited(true, "", ""));
    flow.advance(exited(true, "", ""));
    flow.advance(Event::Probed { exists: false });
    let (removed, kind, message) = failure_of(flow.advance(Event::Probed { exists: false }));
    assert_eq!(
        removed,
        vec!["/tmp/whisper_audio_9.wav", "/tmp/whisper_file_output_9.txt", "/tmp/whisper_file_output_9"]
    );
    assert_eq!(kind, ErrorKind::TranscriptFileMissing);
    assert_eq!(
        message,
        "Transcript file not found at /tmp/whisper_file_output_9.txt or /tmp/whisper_file_output_9"
    );
}

#[test]
fn every_failure_of_a_file_flow_removes_what_may_exist() {
    let wav = "/tmp/whisper_audio_9.wav";
    let begin = || {
        let (mut flow, _) = Flow::begin_from_file("/in/a b.mp4", 9, Some("/m"));
        flow.advance(Event::Probed { exists: true });
        flow
    };

    let (mut flow, _) = Flow::begin_from_file("/in/a b.mp4", 9, Some("/m"));
    let (removed, kind, message) = failure_of(flow.advance(Event::Probed { exists: false }));
    assert!(removed.is_empty());
    assert_eq!(kind, ErrorKind::InputFileMissing);
    assert_eq!(message, "File not found: /in/a b.mp4");

    let mut flow = begin();
    let (removed, kind, message) = failure_of(flow.advance(exited(false, "", "bad codec")));
    assert_eq!(removed, vec![wav]);
    assert_eq!(kind, ErrorKind::ToolExitedNonZero);
    assert_eq!(message, "FFmpeg conversion failed: bad codec");

    let mut flow = begin();
    let (removed, kind, message) = failure_of(flow.advance(launch_failed("no ffmpeg")));
    assert_eq!(removed, vec![wav]);
    assert_eq!(kind, ErrorKind::ToolLaunchFailed);
    assert_eq!(message, "FFmpeg conversion failed: no ffmpeg");

    let mut flow = begin();
    flow.advance(exited(true, "", ""));
    let (removed, _, message) = failure_of(flow.advance(exited(false, "", "oops")));
    assert_eq!(removed.len(), 3);
    assert_eq!(removed[0], wav);
    assert_eq!(message, "whisper.cpp transcription failed: oops");

    let mut flow = begin();
    flow.advance(exited(true, "", ""));
    flow.advance(exited(true, "", ""));
    flow.advance(Event::Probed { exists: true });
    let (removed, kind, message) = failure_of(flow.advance(read_failed("denied")));
    assert_eq!(removed.len(), 3);
    assert_eq!(kind, ErrorKind::TranscriptFileMissing);
    assert_eq!(message, "Failed to read transcript: denied");
}

#[test]
fn an_event_that_answers_nothing_changes_nothing() {
    let (mut flow, _) = Flow::begin_subtitles("U");
    assert!(is_idle(&flow.advance(Event::Probed { exists: true })));
    assert!(is_idle(&flow.advance(read("x"))));
    assert!(is_idle(&flow.advance(read_failed("x"))));
    assert!(!flow.is_finished());
    let d = flow.advance(exited(true, "id", ""));
    assert_eq!(run_of(&d).1.len(), 9);

    let (mut flow, _) = Flow::begin_from_file("/in", 1, Some("/m"));
    assert!(is_idle(&flow.advance(exited(true, "", ""))));
    assert!(is_idle(&flow.advance(launch_failed("x"))));
    assert_eq!(run_of(&flow.advance(Event::Probed { exists: true })).0, ToolKind::Transcoder);
    assert!(is_idle(&flow.advance(Event::Probed { exists: true })));
}
