use grably::error::ErrorKind;
use grably::metadata::{
    format_rows, launch_failure, malformed_metadata, playlist_info, playlist_video, query_result,
    video_format, video_info, CaptureOutput, RawEntry, RawFormat, RawPlaylist, RawVideo,
};

fn s(text: &str) -> Option<String> {
    Some(text.to_string())
}

fn raw_format() -> RawFormat {
    RawFormat {
        format_id: None,
        ext: None,
        resolution: None,
        vcodec: None,
        acodec: None,
        filesize: None,
        filesize_cut: None,
        filesize_approx: None,
        format_note: None,
    }
}

fn entry(id: Option<&str>) -> RawEntry {
    RawEntry { id: id.map(String::from), title: None, thumbnail: None, url: None }
}

#[test]
fn a_query_yields_output_or_the_error_text() {
    let ok = CaptureOutput { success: true, stdout: "out".into(), stderr: "warn".into() };
    assert_eq!(query_result(ok).unwrap(), "out");
    let bad = CaptureOutput { success: false, stdout: "out".into(), stderr: "ERROR: x\n".into() };
    let e = query_result(bad).unwrap_err();
    assert_eq!(e.kind, ErrorKind::ToolExitedNonZero);
    assert_eq!(e.message, "ERROR: x\n");
    let e = launch_failure("No such file or directory (os error 2)");
    assert_eq!(e.kind, ErrorKind::ToolLaunchFailed);
    assert_eq!(e.message, "Failed to run yt-dlp: No such file or directory (os error 2)");
    let e = malformed_metadata("EOF while parsing a value at line 1 column 0");
    assert_eq!(e.kind, ErrorKind::MalformedMetadata);
    assert_eq!(e.message, "Failed to parse JSON: EOF while parsing a value at line 1 column 0");
}

#[test]
fn the_rows_of_a_format_table_follow_its_header() {
    let out = "[youtube] abc: Downloading webpage\n[info] Available formats for abc:\nID  EXT   RESOLUTION\n---------------\n18  mp4   640x360\n22  mp4   1280x720\n";
    assert_eq!(format_rows(out), vec!["---------------", "18  mp4   640x360", "22  mp4   1280x720"]);
    assert_eq!(format_rows("no header here\nat all\n"), Vec::<String>::new());
    assert_eq!(format_rows(""), Vec::<String>::new());
    assert_eq!(format_rows("ID"), Vec::<String>::new());
    assert_eq!(format_rows("xIDx\r\nID again\r\n"), vec!["ID again"]);
    let by_std: Vec<String> = out
        .lines()
        .skip_while(|line| !line.contains("ID"))
        .skip(1)
        .map(|s| s.to_string())
        .collect();
    assert_eq!(format_rows(out), by_std);
}

#[test]
fn missing_format_fields_get_their_defaults() {
    let f = video_format(&raw_format());
    assert_eq!(f.format_id, "");
    assert_eq!(f.ext, "unknown");
    assert_eq!(f.resolution, None);
    assert_eq!(f.vcodec, None);
    assert_eq!(f.acodec, None);
    assert_eq!(f.filesize, None);
    assert_eq!(f.format_note, None);
}

#[test]
fn format_fields_are_taken_over() {
    let raw = RawFormat {
        format_id: s("137"),
        ext: s("mp4"),
        resolution: s("1920x1080"),
        vcodec: s("avc1"),
        acodec: s("none"),
        filesize: Some(10),
        filesize_cut: Some(20),
        filesize_approx: Some(30),
        format_note: s("1080p"),
    };
    let f = video_format(&raw);
    assert_eq!(f.format_id, "137");
    assert_eq!(f.ext, "mp4");
    assert_eq!(f.resolution, s("1920x1080"));
    assert_eq!(f.vcodec, s("avc1"));
    assert_eq!(f.acodec, s("none"));
    assert_eq!(f.filesize, Some(10));
    assert_eq!(f.format_note, s("1080p"));
}

#[test]
fn the_size_is_the_first_that_is_given() {
    let mut raw = raw_format();
    raw.filesize_approx = Some(30);
    assert_eq!(video_format(&raw).filesize, Some(30));
    raw.filesize_cut = Some(-20);
    assert_eq!(video_format(&raw).filesize, Some(-20));
    raw.filesize = Some(0);
    assert_eq!(video_format(&raw).filesize, Some(0));
}

#[test]
fn an_item_is_described() {
    let raw = RawVideo { title: None, thumbnail: None, uploader: None, view_count: None, formats: None };
    let v = video_info(&raw);
    assert_eq!(v.title, "Unknown");
    assert!(v.formats.is_empty());
    assert_eq!((v.thumbnail, v.uploader, v.view_count), (None, None, None));
    let mut second = raw_format();
    second.format_id = s("22");
    let raw = RawVideo {
        title: s("T"),
        thumbnail: s("http://t"),
        uploader: s("U"),
        view_count: Some(5),
        formats: Some(vec![raw_format(), second]),
    };
    let v = video_info(&raw);
    assert_eq!(v.title, "T");
    assert_eq!(v.thumbnail, s("http://t"));
    assert_eq!(v.uploader, s("U"));
    assert_eq!(v.view_count, Some(5));
    assert_eq!(v.formats.len(), 2);
    assert_eq!(v.formats[0].format_id, "");
    assert_eq!(v.formats[1].format_id, "22");
}

#[test]
fn an_entry_without_an_identifier_is_left_out() {
    assert!(playlist_video(&entry(None), 0).is_none());
    let v = playlist_video(&entry(Some("abc")), 4).unwrap();
    assert_eq!(v.position, 4);
    assert_eq!(v.id, "abc");
    assert_eq!(v.title, "Unknown");
    assert_eq!(v.thumbnail, None);
    assert_eq!(v.url, s("https://youtube.com/watch?v=abc"));
    let raw = RawEntry { id: s("abc"), title: s("T"), thumbnail: s("th"), url: s("http://u") };
    let v = playlist_video(&raw, 0).unwrap();
    assert_eq!(v.title, "T");
    assert_eq!(v.thumbnail, s("th"));
    assert_eq!(v.url, s("http://u"));
}

#[test]
fn a_playlist_is_described() {
    let raw = RawPlaylist { title: None, uploader: None, playlist_count: None, entries: None, thumbnail: None };
    let p = playlist_info(&raw);
    assert_eq!(p.title, "Unknown Playlist");
    assert_eq!(p.video_count, 0);
    assert!(p.videos.is_empty());
    let raw = RawPlaylist {
        title: s("P"),
        uploader: s("U"),
        playlist_count: None,
        entries: Some(vec![entry(Some("a")), entry(None), entry(Some("b")), entry(None)]),
        thumbnail: s("th"),
    };
    let p = playlist_info(&raw);
    assert_eq!(p.title, "P");
    assert_eq!(p.uploader, s("U"));
    assert_eq!(p.thumbnail, s("th"));
    assert_eq!(p.video_count, 2);
    assert_eq!(p.videos.iter().map(|v| v.id.as_str()).collect::<Vec<_>>(), vec!["a", "b"]);
    assert_eq!(p.videos.iter().map(|v| v.position).collect::<Vec<_>>(), vec![0, 2]);
    let raw = RawPlaylist { playlist_count: Some(77), ..raw };
    assert_eq!(playlist_info(&raw).video_count, 77);
}

#[test]
fn a_playlist_shows_its_first_hundred_entries() {
    let mut entries = Vec::new();
    for i in 0..250 {
        if i % 5 == 0 {
            entries.push(entry(None));
        }
        entries.push(entry(Some(&format!("v{}", i))));
    }
    let raw = RawPlaylist {
        title: None,
        uploader: None,
        playlist_count: None,
        entries: Some(entries),
        thumbnail: None,
    };
    let p = playlist_info(&raw);
    assert_eq!(p.video_count, 250);
    assert_eq!(p.videos.len(), 100);
    for (i, v) in p.videos.iter().enumerate() {
        assert_eq!(v.id, format!("v{}", i));
        assert_eq!(v.position, i + i / 5 + 1);
    }
    let raw = RawPlaylist { entries: Some((0..100).map(|_| entry(Some("x"))).collect()), ..raw };
    assert_eq!(playlist_info(&raw).videos.len(), 100);
    let raw = RawPlaylist { entries: Some((0..99).map(|_| entry(Some("x"))).collect()), ..raw };
    assert_eq!(playlist_info(&raw).videos.len(), 99);
}
