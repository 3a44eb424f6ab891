//! File names and folders.

use crate::numbers::{digits_of, push_decimal};
use crate::text::{from_chars, opt_text, push_all, push_str, to_chars};
use vstd::prelude::*;
use vstd::string::StringExecFns;

verus! {

/// The path of `name` under the directory `dir`, with `/` as separator: an
/// absolute `name` stands for itself, and no second separator is put behind a
/// directory that ends with one.
pub open spec fn joined(dir: Seq<char>, name: Seq<char>) -> Seq<char> {
    if name.len() > 0 && name[0] == '/' {
        name
    } else if dir.len() == 0 || dir.last() == '/' {
        dir + name
    } else {
        dir + seq!['/'] + name
    }
}

/// The path of `name` under the directory `dir`.
pub fn join_path(dir: &str, name: &str) -> (path: String)
    ensures
        path@ == joined(dir@, name@),
{
    let d = to_chars(dir);
    let n = to_chars(name);
    if n.len() > 0 && n[0] == '/' {
        return from_chars(&n);
    }
    let mut out: Vec<char> = Vec::new();
    push_all(&mut out, &d);
    if d.len() > 0 && d[d.len() - 1] != '/' {
        out.push('/');
    }
    push_all(&mut out, &n);
    assert(out@ =~= joined(dir@, name@));
    from_chars(&out)
}

/// `prefix`, the decimal digits of `number`, then `suffix`.
pub open spec fn numbered(prefix: Seq<char>, number: nat, suffix: Seq<char>) -> Seq<char> {
    prefix + digits_of(number) + suffix
}

/// `prefix`, the decimal digits of `number`, then `suffix`.
pub fn numbered_name(prefix: &str, number: u64, suffix: &str) -> (name: String)
    ensures
        name@ == numbered(prefix@, number as nat, suffix@),
{
    let mut out: Vec<char> = Vec::new();
    push_str(&mut out, prefix);
    push_decimal(&mut out, number);
    push_str(&mut out, suffix);
    assert(out@ =~= numbered(prefix@, number as nat, suffix@));
    from_chars(&out)
}

/// The file in which cookies for sites that ask for a login are looked for.
pub open spec fn cookie_file() -> Seq<char> {
    "/tmp/cookies.txt"@
}

/// The path of the cookie file.
pub fn cookie_file_path() -> (path: String)
    ensures
        path@ == cookie_file(),
{
    String::from_str("/tmp/cookies.txt")
}

/// The folder for downloads under the user's download directory; under
/// `/tmp` where the user has none.
pub open spec fn download_folder_of(download_dir: Option<Seq<char>>) -> Seq<char> {
    joined(
        match download_dir {
            Some(dir) => dir,
            None => "/tmp"@,
        },
        "Grably"@,
    )
}

/// The folder for downloads under the directory `download_dir`, the user's
/// download directory as the caller found it.
pub fn download_folder_in(download_dir: Option<&str>) -> (folder: String)
    ensures
        folder@ == download_folder_of(opt_text(download_dir)),
{
    match download_dir {
        Some(dir) => join_path(dir, "Grably"),
        None => join_path("/tmp", "Grably"),
    }
}

/// Where the extractor is told to put what it writes for the item `id`.
pub open spec fn subtitle_base_of(id: Seq<char>) -> Seq<char> {
    "/tmp/"@ + id
}

/// The caption file that the extractor writes for the item `id`.
pub open spec fn subtitle_path_of(id: Seq<char>) -> Seq<char> {
    "/tmp/"@ + id + ".en.vtt"@
}

/// The caption file that the extractor writes for the item `id`.
pub fn subtitle_path(id: &str) -> (path: String)
    ensures
        path@ == subtitle_path_of(id@),
{
    String::from_str("/tmp/").concat(id).concat(".en.vtt")
}

/// The file to which the audio of a transcription that starts `now_secs`
/// seconds after the epoch is extracted.
pub open spec fn audio_path_of(now_secs: nat) -> Seq<char> {
    numbered("/tmp/audio_temp_"@, now_secs, ".mp3"@)
}

} // verus!
