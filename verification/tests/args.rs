use grably::args::{
    audio_args, format_list_args, id_args, info_args, is_playlist, mobile_url, playlist_info_args,
    recognizer_args, subtitle_args, title_args, waveform_args,
};
use grably::download::{
    download_universal, download_youtube, output_template, site_hint, universal_args,
    youtube_args, SiteHint,
};
use grably::paths::{
    cookie_file_path, download_folder_in, join_path, numbered_name, subtitle_path,
};
use grably::request::{build, BuildContext, MediaRequest, Operation};

const BEST: &str = "bestvideo[ext=mp4]+bestaudio[ext=m4a]/best[ext=mp4]/best";
const AGENT: &str = "Mozilla/5.0 (Windows NT 10.0; Win64; x64) AppleWebKit/537.36 (KHTML, like Gecko) Chrome/131.0.0.0 Safari/537.36";
const ACCEPT: &str = "Accept:text/html,application/xhtml+xml,application/xml;q=0.9,image/avif,image/webp,image/apng,*/*;q=0.8";

fn base() -> Vec<&'static str> {
    vec![
        "--no-playlist", "--progress", "--newline", "--force-overwrites", "--user-agent", AGENT,
        "--add-header", "Accept-Language:en-US,en;q=0.9", "--add-header", ACCEPT, "--add-header",
        "Sec-Fetch-Mode:navigate", "--no-check-certificate", "--no-warnings",
    ]
}

/// The address rewriting written with the standard library's string methods.
fn mobile_by_std_methods(url: &str) -> String {
    let mut processed_url = url.to_string();
    if url.contains("facebook.com/reel/") {
        if let Some(video_id) = url.split("/reel/").nth(1) {
            let clean_id = video_id.split('?').next().unwrap_or(video_id);
            processed_url = format!("https://m.facebook.com/watch/?v={}", clean_id);
        }
    } else if url.contains("www.facebook.com") {
        processed_url = url.replace("www.facebook.com", "m.facebook.com");
    }
    processed_url
}

#[test]
fn playlist_addresses_are_recognized() {
    assert!(is_playlist("https://www.youtube.com/playlist?list=PL123"));
    assert!(is_playlist("https://www.youtube.com/watch?v=abc&list=PL123"));
    assert!(!is_playlist("https://www.youtube.com/watch?v=abc"));
    assert!(!is_playlist("https://www.youtube.com/watch?list=PL123"));
    assert!(!is_playlist(""));
}

#[test]
fn query_arguments() {
    assert_eq!(info_args("U"), vec!["-j", "--no-playlist", "U"]);
    assert_eq!(format_list_args("U"), vec!["-F", "--no-playlist", "U"]);
    assert_eq!(playlist_info_args("U"), vec!["--flat-playlist", "-J", "U"]);
    assert_eq!(title_args("U"), vec!["--get-title", "U"]);
    assert_eq!(id_args("U"), vec!["--print", "id", "U"]);
}

#[test]
fn paths_are_joined_with_one_separator() {
    assert_eq!(join_path("/a", "b"), "/a/b");
    assert_eq!(join_path("/a/", "b"), "/a/b");
    assert_eq!(join_path("", "b"), "b");
    assert_eq!(join_path("/a", "/b"), "/b");
    assert_eq!(join_path("/a", ""), "/a/");
    assert_eq!(join_path("/", "b"), "/b");
    assert_eq!(join_path("a", "b c"), "a/b c");
}

#[test]
fn an_mp3_selector_extracts_audio_at_the_highest_quality() {
    let args = youtube_args("U", Some("mp3"), None, false, "ffmpeg", "/dl");
    assert_eq!(
        args,
        vec![
            "--no-playlist", "--progress", "--newline", "--force-overwrites", "-o",
            "/dl/%(title)s.%(ext)s", "-f", "bestaudio", "-x", "--audio-format", "mp3",
            "--audio-quality", "0", "U",
        ]
    );
}

#[test]
fn a_wav_selector_extracts_audio() {
    let args = youtube_args("U", Some("wav"), None, true, "ffmpeg", "/dl");
    assert_eq!(
        args,
        vec![
            "--progress", "--newline", "--force-overwrites", "-o", "/dl/%(title)s.%(ext)s", "-f",
            "bestaudio", "-x", "--audio-format", "wav", "U",
        ]
    );
}

#[test]
fn a_numeric_selector_is_paired_with_audio_and_remuxed() {
    let args = youtube_args("U", Some("1080"), Some("/out/x.%(ext)s"), false, "/opt/ffmpeg", "/dl");
    assert_eq!(
        args,
        vec![
            "--ffmpeg-location", "/opt/ffmpeg", "--no-playlist", "--progress", "--newline",
            "--force-overwrites", "-o", "/out/x.%(ext)s", "-f",
            "1080+bestaudio[ext=m4a]/1080+bestaudio/best", "--merge-output-format", "mp4",
            "--recode-video", "mp4", "U",
        ]
    );
    let args = youtube_args("U", Some("-7"), None, true, "ffmpeg", "/dl");
    assert_eq!(args[6], "-7+bestaudio[ext=m4a]/-7+bestaudio/best");
}

#[test]
fn any_other_selector_is_passed_through() {
    for f in ["preset-xyz", "best", "137+140", "2147483648", "", "mp4", "MP3", "12a"] {
        let args = youtube_args("U", Some(f), None, true, "ffmpeg", "/dl");
        assert_eq!(
            args,
            vec![
                "--progress", "--newline", "--force-overwrites", "-o", "/dl/%(title)s.%(ext)s",
                "-f", f, "U",
            ]
        );
    }
}

#[test]
fn without_a_selector_the_best_mp4_is_taken() {
    let args = youtube_args("U", None, None, true, "ffmpeg", "/dl");
    assert_eq!(
        args,
        vec![
            "--progress", "--newline", "--force-overwrites", "-o", "/dl/%(title)s.%(ext)s", "-f",
            BEST, "U",
        ]
    );
}

#[test]
fn a_video_site_download_is_planned() {
    let plan = download_youtube("U", None, None, None, "ffmpeg", "/home/u/Downloads/Grably");
    assert_eq!(plan.args[0], "--no-playlist");
    assert_eq!(plan.args.last().unwrap(), "U");
    assert_eq!(plan.placeholder_name, "YouTube Video");
    assert_eq!(plan.destination_path, "/home/u/Downloads/Grably/YouTube Video");
    let plan = download_youtube("U", None, None, Some(false), "ffmpeg", "/d");
    assert_eq!(plan.args[0], "--no-playlist");
    let plan = download_youtube("U", None, None, Some(true), "ffmpeg", "/d");
    assert_eq!(plan.args[0], "--progress");
    assert!(plan.args.contains(&"--force-overwrites".to_string()));
}

#[test]
fn site_names_are_read() {
    assert_eq!(site_hint(Some("instagram")), SiteHint::Instagram);
    assert_eq!(site_hint(Some("tiktok")), SiteHint::TikTok);
    assert_eq!(site_hint(Some("twitter")), SiteHint::Twitter);
    assert_eq!(site_hint(Some("x")), SiteHint::Twitter);
    assert_eq!(site_hint(Some("facebook")), SiteHint::Facebook);
    assert_eq!(site_hint(Some("vimeo")), SiteHint::Generic);
    assert_eq!(site_hint(Some("Instagram")), SiteHint::Generic);
    assert_eq!(site_hint(Some("")), SiteHint::Generic);
    assert_eq!(site_hint(None), SiteHint::Generic);
}

#[test]
fn file_names_end_with_the_last_four_digits_of_the_time() {
    assert_eq!(output_template(SiteHint::Instagram, 1_700_000_001_234), "instagram_%(id)s_1234.%(ext)s");
    assert_eq!(output_template(SiteHint::TikTok, 1_700_000_000_034), "tiktok_%(id)s_34.%(ext)s");
    assert_eq!(output_template(SiteHint::Twitter, 1_700_000_000_000), "twitter_%(id)s_0.%(ext)s");
    assert_eq!(output_template(SiteHint::Facebook, 9999), "facebook_%(id)s_9999.%(ext)s");
    assert_eq!(output_template(SiteHint::Generic, u64::MAX), "%(title)s_1615.%(ext)s");
}

#[test]
fn a_download_from_an_arbitrary_site_carries_browser_headers() {
    let mut expected: Vec<String> = base().iter().map(|s| s.to_string()).collect();
    expected.extend(["-o", "/dl/%(title)s_42.%(ext)s", "U"].map(String::from));
    assert_eq!(universal_args("U", SiteHint::Generic, false, 10042, "/dl"), expected);
}

#[test]
fn each_known_site_adds_its_own_headers() {
    let tail = |hint, cookies| universal_args("U", hint, cookies, 7, "/dl")[14..].to_vec();
    assert_eq!(
        tail(SiteHint::Instagram, false),
        vec![
            "--add-header", "X-IG-App-ID:936619743392459", "--add-header", "X-IG-WWW-Claim:0",
            "--add-header", "X-ASBD-ID:129477", "--add-header", "X-Requested-With:XMLHttpRequest",
            "--add-header", "Referer:https://www.instagram.com/", "--extractor-args",
            "instagram:app_id=936619743392459", "-o", "/dl/instagram_%(id)s_7.%(ext)s", "U",
        ]
    );
    assert_eq!(
        tail(SiteHint::TikTok, false),
        vec![
            "--add-header", "Referer:https://www.tiktok.com/", "--extractor-args",
            "tiktok:app_version=33.6.3", "-o", "/dl/tiktok_%(id)s_7.%(ext)s", "U",
        ]
    );
    assert_eq!(
        tail(SiteHint::Twitter, true),
        vec![
            "--cookies", "/tmp/cookies.txt", "--add-header", "Referer:https://x.com/",
            "--add-header", "Origin:https://x.com", "-o", "/dl/twitter_%(id)s_7.%(ext)s", "U",
        ]
    );
    assert_eq!(
        tail(SiteHint::Facebook, true),
        vec![
            "--cookies", "/tmp/cookies.txt", "--add-header", "Referer:https://www.facebook.com/",
            "-o", "/dl/facebook_%(id)s_7.%(ext)s", "U",
        ]
    );
    assert_eq!(cookie_file_path(), "/tmp/cookies.txt");
}

#[test]
fn a_download_from_an_arbitrary_site_is_planned() {
    let plan = download_universal("U", Some("tiktok"), false, 1234567, "/dl");
    assert_eq!(plan.placeholder_name, "tiktok Download");
    assert_eq!(plan.destination_path, "/dl/tiktok_%(id)s_4567.%(ext)s");
    assert_eq!(plan.args, universal_args("U", SiteHint::TikTok, false, 1234567, "/dl"));
    let plan = download_universal("U", None, true, 5, "/dl");
    assert_eq!(plan.placeholder_name, "Media Download");
    assert_eq!(plan.destination_path, "/dl/%(title)s_5.%(ext)s");
    let plan = download_universal("U", Some("vimeo"), true, 5, "/dl");
    assert_eq!(plan.placeholder_name, "vimeo Download");
    assert_eq!(plan.args, universal_args("U", SiteHint::Generic, true, 5, "/dl"));
}

#[test]
fn reels_are_fetched_from_the_mobile_host() {
    for (url, expected) in [
        ("https://www.facebook.com/reel/12345?fs=e", "https://m.facebook.com/watch/?v=12345"),
        ("https://facebook.com/reel/12345", "https://m.facebook.com/watch/?v=12345"),
        ("https://facebook.com/reel/", "https://m.facebook.com/watch/?v="),
        ("https://facebook.com/reel/1/reel/2?x", "https://m.facebook.com/watch/?v=1"),
        ("https://a/reel/9?x&facebook.com/reel/7", "https://m.facebook.com/watch/?v=9"),
        ("https://www.facebook.com/watch?v=1", "https://m.facebook.com/watch?v=1"),
        (
            "https://www.facebook.com/a?u=www.facebook.com",
            "https://m.facebook.com/a?u=m.facebook.com",
        ),
        ("https://www.tiktok.com/@a/video/1", "https://www.tiktok.com/@a/video/1"),
        ("https://facebook.com/watch?v=1", "https://facebook.com/watch?v=1"),
        ("", ""),
    ] {
        assert_eq!(mobile_url(url), expected, "{:?}", url);
        assert_eq!(mobile_url(url), mobile_by_std_methods(url), "{:?}", url);
    }
}

#[test]
fn audio_is_extracted_for_the_recognizer() {
    assert_eq!(
        audio_args("https://www.facebook.com/v", "/tmp/a.mp3", true, "/opt/ffmpeg"),
        vec![
            "--ffmpeg-location", "/opt/ffmpeg", "-x", "--audio-format", "mp3", "--audio-quality",
            "5", "-o", "/tmp/a.mp3", "--cookies", "/tmp/cookies.txt", "https://m.facebook.com/v",
        ]
    );
    assert_eq!(
        audio_args("U", "/tmp/a.mp3", false, "ffmpeg"),
        vec!["-x", "--audio-format", "mp3", "--audio-quality", "5", "-o", "/tmp/a.mp3", "U"]
    );
}

#[test]
fn caption_arguments_and_paths() {
    assert_eq!(
        subtitle_args("U", "abc"),
        vec![
            "--skip-download", "--write-auto-subs", "--sub-lang", "en", "--convert-subs", "vtt",
            "--output", "/tmp/abc", "U",
        ]
    );
    assert_eq!(subtitle_path("abc"), "/tmp/abc.en.vtt");
}

#[test]
fn transcoder_and_recognizer_arguments() {
    assert_eq!(
        waveform_args("/in/a.mp4", "/tmp/w.wav"),
        vec!["-i", "/in/a.mp4", "-ar", "16000", "-ac", "1", "-c:a", "pcm_s16le", "/tmp/w.wav", "-y"]
    );
    assert_eq!(
        recognizer_args("/m.bin", "/tmp/w.wav", "/tmp/out"),
        vec![
            "-m", "/m.bin", "-f", "/tmp/w.wav", "-otxt", "-of", "/tmp/out", "--no-timestamps",
            "-l", "en",
        ]
    );
    assert_eq!(numbered_name("/tmp/audio_temp_", 1700000000, ".mp3"), "/tmp/audio_temp_1700000000.mp3");
    assert_eq!(numbered_name("a", 0, ""), "a0");
}

fn request(url: &str, operation: Operation) -> MediaRequest {
    MediaRequest {
        source_url: url.to_string(),
        operation,
        format_selector: None,
        site_hint: None,
        allow_playlist: false,
    }
}

fn context() -> BuildContext {
    BuildContext {
        transcoder: "ffmpeg".to_string(),
        download_folder: "/dl".to_string(),
        output_path: None,
        cookies_present: false,
        now_millis: 1_700_000_001_234,
    }
}

#[test]
fn requests_are_built() {
    let c = context();
    assert_eq!(build(&request("U", Operation::Info), &c), info_args("U"));
    assert_eq!(
        build(&request("https://y/playlist?list=P", Operation::Info), &c),
        playlist_info_args("https://y/playlist?list=P")
    );
    assert_eq!(
        build(&request("U", Operation::Download), &c),
        youtube_args("U", None, None, false, "ffmpeg", "/dl")
    );
    let mut r = request("U", Operation::Download);
    r.format_selector = Some("mp3".to_string());
    r.allow_playlist = true;
    let mut c2 = context();
    c2.output_path = Some("/o".to_string());
    c2.transcoder = "/f".to_string();
    assert_eq!(build(&r, &c2), youtube_args("U", Some("mp3"), Some("/o"), true, "/f", "/dl"));
    r.site_hint = Some(SiteHint::Instagram);
    c2.cookies_present = true;
    assert_eq!(
        build(&r, &c2),
        universal_args("U", SiteHint::Instagram, true, 1_700_000_001_234, "/dl")
    );
    assert_eq!(
        build(&request("U", Operation::Transcribe), &c),
        audio_args("U", "/tmp/audio_temp_1700000001.mp3", false, "ffmpeg")
    );
}

#[test]
fn the_download_folder_lies_under_the_download_directory() {
    assert_eq!(download_folder_in(Some("/home/u/Downloads")), "/home/u/Downloads/Grably");
    assert_eq!(download_folder_in(Some("/home/u/Downloads/")), "/home/u/Downloads/Grably");
    assert_eq!(download_folder_in(None), "/tmp/Grably");
    assert_eq!(download_folder_in(Some("")), "Grably");
}
