//! The extractor's answers to metadata queries, read into typed records.
//!
//! The records whose names begin with `Raw` hold what a JSON document gave,
//! field by field, before any rule is applied; the others hold what the user
//! interface is shown.

use crate::error::{ErrorKind, ErrorText, failure, outcome_text, ToolError};
use crate::text::{
    contains, from_chars, has_sub, lines, owned_text, split_lines, strings, texts, to_chars,
};
use vstd::prelude::*;
use vstd::string::StringExecFns;

verus! {

/// What a program left behind when it was run to its end.
#[derive(Debug)]
pub struct CaptureOutput {
    pub success: bool,
    pub stdout: String,
    pub stderr: String,
}

/// What a one-shot query yields: the standard output of a program that
/// succeeded, or the standard error of one that failed, word for word.
pub open spec fn query_result_of(success: bool, stdout: Seq<char>, stderr: Seq<char>) -> Result<
    Seq<char>,
    ErrorText,
> {
    if success {
        Ok(stdout)
    } else {
        Err(ErrorText { kind: ErrorKind::ToolExitedNonZero, message: stderr })
    }
}

/// What a one-shot query yields.
pub fn query_result(output: CaptureOutput) -> (r: Result<String, ToolError>)
    ensures
        crate::error::outcome_text(r) == query_result_of(
            output.success,
            output.stdout@,
            output.stderr@,
        ),
{
    if output.success {
        Ok(output.stdout)
    } else {
        Err(ToolError { kind: ErrorKind::ToolExitedNonZero, message: output.stderr })
    }
}

/// The error for an extractor that could not be started.
pub fn launch_failure(reason: &str) -> (e: ToolError)
    ensures
        e@ == (ErrorText {
            kind: ErrorKind::ToolLaunchFailed,
            message: "Failed to run yt-dlp: "@ + reason@,
        }),
{
    failure(ErrorKind::ToolLaunchFailed, "Failed to run yt-dlp: ", reason)
}

/// The error for metadata that is no JSON document.
pub fn malformed_metadata(reason: &str) -> (e: ToolError)
    ensures
        e@ == (ErrorText {
            kind: ErrorKind::MalformedMetadata,
            message: "Failed to parse JSON: "@ + reason@,
        }),
{
    failure(ErrorKind::MalformedMetadata, "Failed to parse JSON: ", reason)
}

/// The index of the first line at or after `from` that holds `ID`;
/// `ls.len()` when there is none.
pub open spec fn header_index(ls: Seq<Seq<char>>, from: int) -> int
    decreases ls.len() - from,
{
    if from < 0 || from >= ls.len() {
        ls.len() as int
    } else if has_sub(ls[from], "ID"@) {
        from
    } else {
        header_index(ls, from + 1)
    }
}

/// The rows of a table of formats: the lines after the first line that holds
/// `ID`, which is the table's header.
pub open spec fn format_rows_of(output: Seq<char>) -> Seq<Seq<char>> {
    let ls = lines(output);
    let header = header_index(ls, 0);
    if header < ls.len() {
        ls.subrange(header + 1, ls.len() as int)
    } else {
        Seq::empty()
    }
}

/// The rows of the table of formats that the extractor printed.
pub fn format_rows(output: &str) -> (rows: Vec<String>)
    ensures
        strings(rows@) == format_rows_of(output@),
{
    let chars = to_chars(output);
    let ls = split_lines(&chars);
    let marker = to_chars("ID");
    let mut rows: Vec<String> = Vec::new();
    let mut i: usize = 0;
    while i < ls.len() && !contains(&ls[i], &marker)
        invariant
            i <= ls.len(),
            marker@ == "ID"@,
            texts(ls@) == lines(output@),
            header_index(texts(ls@), 0) == header_index(texts(ls@), i as int),
        decreases ls.len() - i,
    {
        assert(texts(ls@)[i as int] == ls@[i as int]@);
        i += 1;
    }
    if i >= ls.len() {
        assert(strings(rows@) =~= format_rows_of(output@));
        return rows;
    }
    assert(texts(ls@)[i as int] == ls@[i as int]@);
    let header: usize = i;
    i += 1;
    while i < ls.len()
        invariant
            header < i <= ls.len(),
            texts(ls@) == lines(output@),
            strings(rows@) == texts(ls@).subrange(header + 1, i as int),
        decreases ls.len() - i,
    {
        let ghost before = strings(rows@);
        rows.push(from_chars(&ls[i]));
        assert(strings(rows@) =~= before.push(ls@[i as int]@));
        assert(before.push(texts(ls@)[i as int]) =~= texts(ls@).subrange(header + 1, i + 1));
        i += 1;
    }
    rows
}

/// One format of an item, as the metadata gave it.
#[derive(Debug)]
pub struct RawFormat {
    pub format_id: Option<String>,
    pub ext: Option<String>,
    pub resolution: Option<String>,
    pub vcodec: Option<String>,
    pub acodec: Option<String>,
    /// The size where the metadata gave it as a whole number.
    pub filesize: Option<i64>,
    /// The size where the metadata gave it as a number with a fraction,
    /// cut to a whole number.
    pub filesize_cut: Option<i64>,
    /// The estimated size where the metadata gave one as a whole number.
    pub filesize_approx: Option<i64>,
    pub format_note: Option<String>,
}

/// One format of an item.
#[derive(Debug)]
pub struct VideoFormat {
    pub format_id: String,
    pub ext: String,
    pub resolution: Option<String>,
    pub vcodec: Option<String>,
    pub acodec: Option<String>,
    pub filesize: Option<i64>,
    pub format_note: Option<String>,
}

/// The text of an optional string, or `default` where there is none.
pub open spec fn text_or(s: Option<String>, default: Seq<char>) -> Seq<char> {
    match s {
        Some(t) => t@,
        None => default,
    }
}

/// The first of three optional numbers that is there.
pub open spec fn first_of(a: Option<i64>, b: Option<i64>, c: Option<i64>) -> Option<i64> {
    if a is Some {
        a
    } else if b is Some {
        b
    } else {
        c
    }
}

/// `out` is the format that `raw` describes: a missing identifier is empty,
/// a missing extension is `unknown`, the size is the exact one, else the cut
/// one, else the estimate, and the other fields are taken as they are.
pub open spec fn describes_format(raw: RawFormat, out: VideoFormat) -> bool {
    &&& out.format_id@ == text_or(raw.format_id, ""@)
    &&& out.ext@ == text_or(raw.ext, "unknown"@)
    &&& owned_text(out.resolution) == owned_text(raw.resolution)
    &&& owned_text(out.vcodec) == owned_text(raw.vcodec)
    &&& owned_text(out.acodec) == owned_text(raw.acodec)
    &&& out.filesize == first_of(raw.filesize, raw.filesize_cut, raw.filesize_approx)
    &&& owned_text(out.format_note) == owned_text(raw.format_note)
}

/// A copy of an optional string.
fn copy_opt(s: &Option<String>) -> (r: Option<String>)
    ensures
        owned_text(r) == owned_text(*s),
{
    match s {
        Some(t) => Some(t.clone()),
        None => None,
    }
}

/// A copy of an optional string, or `default` where there is none.
fn copy_or(s: &Option<String>, default: &str) -> (r: String)
    ensures
        r@ == text_or(*s, default@),
{
    match s {
        Some(t) => t.clone(),
        None => String::from_str(default),
    }
}

/// The format that `raw` describes.
pub fn video_format(raw: &RawFormat) -> (out: VideoFormat)
    ensures
        describes_format(*raw, out),
{
    let filesize = match raw.filesize {
        Some(n) => Some(n),
        None => match raw.filesize_cut {
            Some(n) => Some(n),
            None => raw.filesize_approx,
        },
    };
    VideoFormat {
        format_id: copy_or(&raw.format_id, ""),
        ext: copy_or(&raw.ext, "unknown"),
        resolution: copy_opt(&raw.resolution),
        vcodec: copy_opt(&raw.vcodec),
        acodec: copy_opt(&raw.acodec),
        filesize,
        format_note: copy_opt(&raw.format_note),
    }
}

/// One item, as the metadata gave it. `formats` is absent where the metadata
/// held no list of formats.
#[derive(Debug)]
pub struct RawVideo {
    pub title: Option<String>,
    pub thumbnail: Option<String>,
    pub uploader: Option<String>,
    pub view_count: Option<i64>,
    pub formats: Option<Vec<RawFormat>>,
}

/// One item and its formats.
#[derive(Debug)]
pub struct VideoInfo {
    pub title: String,
    pub thumbnail: Option<String>,
    pub uploader: Option<String>,
    pub view_count: Option<i64>,
    pub formats: Vec<VideoFormat>,
}

/// The formats that the metadata listed; none where it held no list.
pub open spec fn raw_formats(raw: RawVideo) -> Seq<RawFormat> {
    match raw.formats {
        Some(fs) => fs@,
        None => Seq::empty(),
    }
}

/// `out` is the item that `raw` describes: a missing title is `Unknown`,
/// every listed format is described in its place, and the other fields are
/// taken as they are.
pub open spec fn describes_video(raw: RawVideo, out: VideoInfo) -> bool {
    &&& out.title@ == text_or(raw.title, "Unknown"@)
    &&& owned_text(out.thumbnail) == owned_text(raw.thumbnail)
    &&& owned_text(out.uploader) == owned_text(raw.uploader)
    &&& out.view_count == raw.view_count
    &&& out.formats@.len() == raw_formats(raw).len()
    &&& forall|i: int|
        0 <= i < out.formats@.len() ==> describes_format(
            raw_formats(raw)[i],
            #[trigger] out.formats@[i],
        )
}

/// The item that `raw` describes.
pub fn video_info(raw: &RawVideo) -> (out: VideoInfo)
    ensures
        describes_video(*raw, out),
{
    let mut formats: Vec<VideoFormat> = Vec::new();
    match &raw.formats {
        Some(fs) => {
            let mut i: usize = 0;
            while i < fs.len()
                invariant
                    i <= fs.len(),
                    formats@.len() == i,
                    forall|j: int|
                        0 <= j < i ==> describes_format(fs@[j], #[trigger] formats@[j]),
                decreases fs.len() - i,
            {
                formats.push(video_format(&fs[i]));
                i += 1;
            }
        },
        None => {},
    }
    VideoInfo {
        title: copy_or(&raw.title, "Unknown"),
        thumbnail: copy_opt(&raw.thumbnail),
        uploader: copy_opt(&raw.uploader),
        view_count: raw.view_count,
        formats,
    }
}

/// One entry of a playlist, as the metadata gave it.
#[derive(Debug)]
pub struct RawEntry {
    pub id: Option<String>,
    pub title: Option<String>,
    pub thumbnail: Option<String>,
    pub url: Option<String>,
}

/// One entry of a playlist. `position` is the place of the entry in the list
/// that the metadata gave, counted from zero.
#[derive(Debug)]
pub struct PlaylistVideo {
    pub id: String,
    pub title: String,
    pub thumbnail: Option<String>,
    pub url: Option<String>,
    pub position: usize,
}

/// A playlist, as the metadata gave it. `entries` is absent where the
/// metadata held no list of entries.
#[derive(Debug)]
pub struct RawPlaylist {
    pub title: Option<String>,
    pub uploader: Option<String>,
    pub playlist_count: Option<u64>,
    pub entries: Option<Vec<RawEntry>>,
    pub thumbnail: Option<String>,
}

/// A playlist and the first of its entries.
#[derive(Debug)]
pub struct PlaylistInfo {
    pub title: String,
    pub uploader: Option<String>,
    pub video_count: u64,
    pub videos: Vec<PlaylistVideo>,
    pub thumbnail: Option<String>,
}

/// The largest number of entries that a playlist is shown with.
pub const MAX_PLAYLIST_VIDEOS: usize = 100;

/// The address at which the item `id` is watched.
pub open spec fn watch_url_of(id: Seq<char>) -> Seq<char> {
    "https://youtube.com/watch?v="@ + id
}

/// `out` is the entry that `raw`, the entry at `position`, describes, `raw`
/// having an identifier: a missing title is `Unknown`, and a missing address
/// is the one at which the identifier is watched.
pub open spec fn describes_entry(raw: RawEntry, position: int, out: PlaylistVideo) -> bool {
    &&& raw.id is Some
    &&& out.id@ == raw.id->0@
    &&& out.title@ == text_or(raw.title, "Unknown"@)
    &&& owned_text(out.thumbnail) == owned_text(raw.thumbnail)
    &&& owned_text(out.url) == Some(text_or(raw.url, watch_url_of(raw.id->0@)))
    &&& out.position == position
}

/// The positions, among the first `n` entries of `es`, of those that have an
/// identifier, in order.
pub open spec fn identified(es: Seq<RawEntry>, n: int) -> Seq<int>
    decreases n,
{
    if n <= 0 {
        Seq::empty()
    } else if es[n - 1].id is Some {
        identified(es, n - 1).push(n - 1)
    } else {
        identified(es, n - 1)
    }
}

/// Each of `videos` is the entry that the entry of `es` at the same place of
/// `kept` describes.
pub open spec fn describes_entries(
    es: Seq<RawEntry>,
    kept: Seq<int>,
    videos: Seq<PlaylistVideo>,
) -> bool {
    forall|j: int|
        0 <= j < videos.len() ==> describes_entry(es[kept[j]], kept[j], #[trigger] videos[j])
}

/// The positions that `identified` gives lie among the first `n`, rise, and
/// are those of entries with an identifier.
pub proof fn lemma_identified(es: Seq<RawEntry>, n: int)
    requires
        0 <= n <= es.len(),
    ensures
        identified(es, n).len() <= n,
        forall|j: int|
            0 <= j < identified(es, n).len() ==> 0 <= #[trigger] identified(es, n)[j] < n
                && es[identified(es, n)[j]].id is Some,
        forall|j: int, k: int|
            0 <= j < k < identified(es, n).len() ==> #[trigger] identified(es, n)[j]
                < #[trigger] identified(es, n)[k],
    decreases n,
{
    if n > 0 {
        lemma_identified(es, n - 1);
    }
}

/// The entries that the metadata listed; none where it held no list.
pub open spec fn raw_entries(raw: RawPlaylist) -> Seq<RawEntry> {
    match raw.entries {
        Some(es) => es@,
        None => Seq::empty(),
    }
}

/// `out` is the playlist that `raw` describes: a missing title is
/// `Unknown Playlist`; the entries without an identifier are left out; of
/// the others the first hundred are described, in order; the count is the
/// one that the metadata gave, else the number of entries with an
/// identifier.
pub open spec fn describes_playlist(raw: RawPlaylist, out: PlaylistInfo) -> bool {
    let es = raw_entries(raw);
    let kept = identified(es, es.len() as int);
    &&& out.title@ == text_or(raw.title, "Unknown Playlist"@)
    &&& owned_text(out.uploader) == owned_text(raw.uploader)
    &&& owned_text(out.thumbnail) == owned_text(raw.thumbnail)
    &&& out.video_count == match raw.playlist_count {
        Some(n) => n as int,
        None => kept.len() as int,
    }
    &&& out.videos@.len() == if kept.len() < MAX_PLAYLIST_VIDEOS {
        kept.len()
    } else {
        MAX_PLAYLIST_VIDEOS as nat
    }
    &&& describes_entries(es, kept, out.videos@)
}

/// The entry that `raw`, the entry at `position`, describes; none for an
/// entry without an identifier.
pub fn playlist_video(raw: &RawEntry, position: usize) -> (out: Option<PlaylistVideo>)
    ensures
        out is Some <==> raw.id is Some,
        out is Some ==> describes_entry(*raw, position as int, out->0),
{
    match &raw.id {
        None => None,
        Some(id) => {
            let url = match &raw.url {
                Some(u) => u.clone(),
                None => String::from_str("https://youtube.com/watch?v=").concat(id.as_str()),
            };
            Some(
                PlaylistVideo {
                    id: id.clone(),
                    title: copy_or(&raw.title, "Unknown"),
                    thumbnail: copy_opt(&raw.thumbnail),
                    url: Some(url),
                    position,
                },
            )
        },
    }
}

/// The playlist that `raw` describes.
pub fn playlist_info(raw: &RawPlaylist) -> (out: PlaylistInfo)
    ensures
        describes_playlist(*raw, out),
{
    let mut videos: Vec<PlaylistVideo> = Vec::new();
    let mut kept_count: u64 = 0;
    match &raw.entries {
        Some(es) => {
            let mut i: usize = 0;
            while i < es.len()
                invariant
                    i <= es.len(),
                    kept_count == identified(es@, i as int).len(),
                    kept_count <= i,
                    videos@.len() == if kept_count < MAX_PLAYLIST_VIDEOS {
                        kept_count as nat
                    } else {
                        MAX_PLAYLIST_VIDEOS as nat
                    },
                    describes_entries(es@, identified(es@, i as int), videos@),
                decreases es.len() - i,
            {
                let ghost before = identified(es@, i as int);
                let ghost after = identified(es@, i + 1);
                let ghost shown = videos@;
                match playlist_video(&es[i], i) {
                    Some(video) => {
                        if videos.len() < MAX_PLAYLIST_VIDEOS {
                            videos.push(video);
                        }
                        kept_count += 1;
                    },
                    None => {},
                }
                assert forall|j: int| 0 <= j < videos@.len() implies describes_entry(
                    es@[after[j]],
                    after[j],
                    #[trigger] videos@[j],
                ) by {
                    if j < shown.len() {
                        assert(videos@[j] == shown[j]);
                        assert(after[j] == before[j]);
                    } else {
                        assert(after[j] == i);
                    }
                }
                i += 1;
            }
        },
        None => {},
    }
    let video_count = match raw.playlist_count {
        Some(n) => n,
        None => kept_count,
    };
    PlaylistInfo {
        title: copy_or(&raw.title, "Unknown Playlist"),
        uploader: copy_opt(&raw.uploader),
        video_count,
        videos,
        thumbnail: copy_opt(&raw.thumbnail),
    }
}

} // verus!
