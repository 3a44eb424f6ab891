//! Downloads planned: the extractor's arguments for the video site and for
//! arbitrary sites.

use crate::args::{
    cookie_args_of, extend_texts, push_cookie_args, push_text, push_transcoder_args, strs,
    transcoder_args_of,
};
use crate::numbers::{digits_of, i32_literal, is_i32_literal, push_decimal};
use crate::paths::{join_path, joined};
use crate::text::{from_chars, opt_text, push_str, same_str, strings, to_chars};
use vstd::prelude::*;
use vstd::string::StringExecFns;

verus! {

/// The selector that pairs the video-only format `id` with the best audio
/// stream that goes with it, falling back to any audio and then to the best
/// single file.
pub open spec fn paired_selector(id: Seq<char>) -> Seq<char> {
    id + "+bestaudio[ext=m4a]/"@ + id + "+bestaudio/best"@
}

/// The arguments that a format selector stands for. `mp3` and `wav` take
/// the best audio stream and extract it to that codec, `mp3` at the highest
/// quality. A number names a video-only format: it is paired with audio,
/// merged into an MP4 container and re-encoded to it. Any other selector is
/// handed on as it is. Without a selector the best MP4 video and M4A audio
/// are taken, falling back to the best MP4 file and then to the best file.
pub open spec fn format_args_of(format: Option<Seq<char>>) -> Seq<Seq<char>> {
    match format {
        None => seq!["-f"@, "bestvideo[ext=mp4]+bestaudio[ext=m4a]/best[ext=mp4]/best"@],
        Some(f) => if f == "mp3"@ {
            seq![
                "-f"@,
                "bestaudio"@,
                "-x"@,
                "--audio-format"@,
                "mp3"@,
                "--audio-quality"@,
                "0"@,
            ]
        } else if f == "wav"@ {
            seq!["-f"@, "bestaudio"@, "-x"@, "--audio-format"@, "wav"@]
        } else if is_i32_literal(f) {
            seq![
                "-f"@,
                paired_selector(f),
                "--merge-output-format"@,
                "mp4"@,
                "--recode-video"@,
                "mp4"@,
            ]
        } else {
            seq!["-f"@, f]
        },
    }
}

/// Appends the arguments that a format selector stands for.
pub fn push_format_args(args: &mut Vec<String>, format: Option<&str>)
    ensures
        strings(final(args)@) == strings(old(args)@) + format_args_of(opt_text(format)),
{
    match format {
        None => {
            let items = vec!["-f", "bestvideo[ext=mp4]+bestaudio[ext=m4a]/best[ext=mp4]/best"];
            extend_texts(args, &items);
            assert(strs(items@) =~= format_args_of(None));
        },
        Some(f) => {
            if same_str(f, "mp3") {
                let items = vec![
                    "-f",
                    "bestaudio",
                    "-x",
                    "--audio-format",
                    "mp3",
                    "--audio-quality",
                    "0",
                ];
                extend_texts(args, &items);
                assert(strs(items@) =~= format_args_of(Some(f@)));
            } else if same_str(f, "wav") {
                let items = vec!["-f", "bestaudio", "-x", "--audio-format", "wav"];
                extend_texts(args, &items);
                assert(strs(items@) =~= format_args_of(Some(f@)));
            } else if i32_literal(&to_chars(f)) {
                let mut selector: Vec<char> = Vec::new();
                push_str(&mut selector, f);
                push_str(&mut selector, "+bestaudio[ext=m4a]/");
                push_str(&mut selector, f);
                push_str(&mut selector, "+bestaudio/best");
                let paired = from_chars(&selector);
                assert(paired@ =~= paired_selector(f@));
                let items = vec![
                    "-f",
                    paired.as_str(),
                    "--merge-output-format",
                    "mp4",
                    "--recode-video",
                    "mp4",
                ];
                extend_texts(args, &items);
                assert(strs(items@) =~= format_args_of(Some(f@)));
            } else {
                let items = vec!["-f", f];
                extend_texts(args, &items);
                assert(strs(items@) =~= format_args_of(Some(f@)));
            }
        },
    }
}

/// What starting a download takes: the extractor's arguments, the name under
/// which the job is shown until its title is known, and the path reported
/// when it completes.
#[derive(Debug)]
pub struct DownloadPlan {
    pub args: Vec<String>,
    pub placeholder_name: String,
    pub destination_path: String,
}

/// The output template of a download from the video site: the caller's, or a
/// file named by title under `folder`.
pub open spec fn youtube_output_of(output_path: Option<Seq<char>>, folder: Seq<char>) -> Seq<
    char,
> {
    match output_path {
        Some(path) => path,
        None => joined(folder, "%(title)s.%(ext)s"@),
    }
}

/// The arguments of a download from the video site.
pub open spec fn youtube_args_of(
    url: Seq<char>,
    format: Option<Seq<char>>,
    output_path: Option<Seq<char>>,
    download_playlist: bool,
    transcoder: Seq<char>,
    folder: Seq<char>,
) -> Seq<Seq<char>> {
    transcoder_args_of(transcoder) + (if download_playlist {
        Seq::<Seq<char>>::empty()
    } else {
        seq!["--no-playlist"@]
    }) + seq![
        "--progress"@,
        "--newline"@,
        "--force-overwrites"@,
        "-o"@,
        youtube_output_of(output_path, folder),
    ] + format_args_of(format) + seq![url]
}

/// The arguments of a download from the video site. Existing files are
/// overwritten; a playlist is expanded only if `download_playlist` says so;
/// the file goes to `output_path`, or under `folder` by title; `format` is
/// read as `format_args_of` says. `transcoder` is the transcoder's path
/// or bare name.
pub fn youtube_args(
    url: &str,
    format: Option<&str>,
    output_path: Option<&str>,
    download_playlist: bool,
    transcoder: &str,
    folder: &str,
) -> (args: Vec<String>)
    ensures
        strings(args@) == youtube_args_of(
            url@,
            opt_text(format),
            opt_text(output_path),
            download_playlist,
            transcoder@,
            folder@,
        ),
{
    let output = match output_path {
        Some(path) => String::from_str(path),
        None => join_path(folder, "%(title)s.%(ext)s"),
    };
    let mut args: Vec<String> = Vec::new();
    assert(strings(args@) =~= Seq::<Seq<char>>::empty());
    push_transcoder_args(&mut args, transcoder);
    if !download_playlist {
        push_text(&mut args, "--no-playlist");
    }
    let ghost head = strings(args@);
    assert(head =~= transcoder_args_of(transcoder@) + (if download_playlist {
        Seq::<Seq<char>>::empty()
    } else {
        seq!["--no-playlist"@]
    }));
    let fixed = vec!["--progress", "--newline", "--force-overwrites", "-o", output.as_str()];
    extend_texts(&mut args, &fixed);
    assert(strs(fixed@) =~= seq![
        "--progress"@,
        "--newline"@,
        "--force-overwrites"@,
        "-o"@,
        youtube_output_of(opt_text(output_path), folder@),
    ]);
    push_format_args(&mut args, format);
    push_text(&mut args, url);
    assert(strings(args@) =~= youtube_args_of(
        url@,
        opt_text(format),
        opt_text(output_path),
        download_playlist,
        transcoder@,
        folder@,
    ));
    args
}

/// Plans a download from the video site; see `youtube_args`. A playlist is
/// expanded only if `download_playlist` is there and true. Until the title
/// is known the job is shown as `YouTube Video`.
pub fn download_youtube(
    url: &str,
    format: Option<&str>,
    output_path: Option<&str>,
    download_playlist: Option<bool>,
    transcoder: &str,
    folder: &str,
) -> (plan: DownloadPlan)
    ensures
        strings(plan.args@) == youtube_args_of(
            url@,
            opt_text(format),
            opt_text(output_path),
            download_playlist == Some(true),
            transcoder@,
            folder@,
        ),
        plan.placeholder_name@ == "YouTube Video"@,
        plan.destination_path@ == joined(folder@, "YouTube Video"@),
{
    let playlist = match download_playlist {
        Some(b) => b,
        None => false,
    };
    DownloadPlan {
        args: youtube_args(url, format, output_path, playlist, transcoder, folder),
        placeholder_name: String::from_str("YouTube Video"),
        destination_path: join_path(folder, "YouTube Video"),
    }
}

/// A site for which a download is set up in a way of its own.
#[derive(Clone, Copy, Debug, PartialEq, Eq, Structural)]
pub enum SiteHint {
    Instagram,
    TikTok,
    Twitter,
    Facebook,
    Generic,
}

/// The site that a site name stands for; an unknown name, or none, stands
/// for no site in particular.
pub open spec fn site_hint_of(site_type: Option<Seq<char>>) -> SiteHint {
    match site_type {
        None => SiteHint::Generic,
        Some(name) => if name == "instagram"@ {
            SiteHint::Instagram
        } else if name == "tiktok"@ {
            SiteHint::TikTok
        } else if name == "twitter"@ || name == "x"@ {
            SiteHint::Twitter
        } else if name == "facebook"@ {
            SiteHint::Facebook
        } else {
            SiteHint::Generic
        },
    }
}

/// The site that a site name stands for.
pub fn site_hint(site_type: Option<&str>) -> (hint: SiteHint)
    ensures
        hint == site_hint_of(opt_text(site_type)),
{
    match site_type {
        None => SiteHint::Generic,
        Some(name) => {
            if same_str(name, "instagram") {
                SiteHint::Instagram
            } else if same_str(name, "tiktok") {
                SiteHint::TikTok
            } else if same_str(name, "twitter") || same_str(name, "x") {
                SiteHint::Twitter
            } else if same_str(name, "facebook") {
                SiteHint::Facebook
            } else {
                SiteHint::Generic
            }
        },
    }
}

/// The arguments that every download from an arbitrary site begins with: one
/// item only, progress one line at a time, existing files overwritten, and
/// the headers of an ordinary browser.
pub open spec fn universal_base_args() -> Seq<Seq<char>> {
    seq![
        "--no-playlist"@,
        "--progress"@,
        "--newline"@,
        "--force-overwrites"@,
        "--user-agent"@,
        "Mozilla/5.0 (Windows NT 10.0; Win64; x64) AppleWebKit/537.36 (KHTML, like Gecko) Chrome/131.0.0.0 Safari/537.36"@,
        "--add-header"@,
        "Accept-Language:en-US,en;q=0.9"@,
        "--add-header"@,
        "Accept:text/html,application/xhtml+xml,application/xml;q=0.9,image/avif,image/webp,image/apng,*/*;q=0.8"@,
        "--add-header"@,
        "Sec-Fetch-Mode:navigate"@,
        "--no-check-certificate"@,
        "--no-warnings"@,
    ]
}

/// The headers and extractor arguments of a site.
pub open spec fn site_args_of(hint: SiteHint) -> Seq<Seq<char>> {
    match hint {
        SiteHint::Instagram => seq![
            "--add-header"@,
            "X-IG-App-ID:936619743392459"@,
            "--add-header"@,
            "X-IG-WWW-Claim:0"@,
            "--add-header"@,
            "X-ASBD-ID:129477"@,
            "--add-header"@,
            "X-Requested-With:XMLHttpRequest"@,
            "--add-header"@,
            "Referer:https://www.instagram.com/"@,
            "--extractor-args"@,
            "instagram:app_id=936619743392459"@,
        ],
        SiteHint::TikTok => seq![
            "--add-header"@,
            "Referer:https://www.tiktok.com/"@,
            "--extractor-args"@,
            "tiktok:app_version=33.6.3"@,
        ],
        SiteHint::Twitter => seq![
            "--add-header"@,
            "Referer:https://x.com/"@,
            "--add-header"@,
            "Origin:https://x.com"@,
        ],
        SiteHint::Facebook => seq!["--add-header"@, "Referer:https://www.facebook.com/"@],
        SiteHint::Generic => Seq::empty(),
    }
}

/// Appends the headers and extractor arguments of a site.
pub fn push_site_args(args: &mut Vec<String>, hint: SiteHint)
    ensures
        strings(final(args)@) == strings(old(args)@) + site_args_of(hint),
{
    match hint {
        SiteHint::Instagram => {
            let items = vec![
                "--add-header",
                "X-IG-App-ID:936619743392459",
                "--add-header",
                "X-IG-WWW-Claim:0",
                "--add-header",
                "X-ASBD-ID:129477",
                "--add-header",
                "X-Requested-With:XMLHttpRequest",
                "--add-header",
                "Referer:https://www.instagram.com/",
                "--extractor-args",
                "instagram:app_id=936619743392459",
            ];
            extend_texts(args, &items);
            assert(strs(items@) =~= site_args_of(hint));
        },
        SiteHint::TikTok => {
            let items = vec![
                "--add-header",
                "Referer:https://www.tiktok.com/",
                "--extractor-args",
                "tiktok:app_version=33.6.3",
            ];
            extend_texts(args, &items);
            assert(strs(items@) =~= site_args_of(hint));
        },
        SiteHint::Twitter => {
            let items = vec![
                "--add-header",
                "Referer:https://x.com/",
                "--add-header",
                "Origin:https://x.com",
            ];
            extend_texts(args, &items);
            assert(strs(items@) =~= site_args_of(hint));
        },
        SiteHint::Facebook => {
            let items = vec!["--add-header", "Referer:https://www.facebook.com/"];
            extend_texts(args, &items);
            assert(strs(items@) =~= site_args_of(hint));
        },
        SiteHint::Generic => {
            assert(strings(args@) =~= strings(old(args)@) + site_args_of(hint));
        },
    }
}

/// How the file names of a site begin.
pub open spec fn site_prefix_of(hint: SiteHint) -> Seq<char> {
    match hint {
        SiteHint::Instagram => "instagram_%(id)s_"@,
        SiteHint::TikTok => "tiktok_%(id)s_"@,
        SiteHint::Twitter => "twitter_%(id)s_"@,
        SiteHint::Facebook => "facebook_%(id)s_"@,
        SiteHint::Generic => "%(title)s_"@,
    }
}

/// The file name template of a download that starts `now_millis`
/// milliseconds after the epoch: the site's prefix, the last four decimal
/// digits of the time without leading zeros, and the extension.
pub open spec fn output_template_of(hint: SiteHint, now_millis: nat) -> Seq<char> {
    site_prefix_of(hint) + digits_of(now_millis % 10000) + ".%(ext)s"@
}

/// The file name template of a download.
pub fn output_template(hint: SiteHint, now_millis: u64) -> (template: String)
    ensures
        template@ == output_template_of(hint, now_millis as nat),
{
    let mut out: Vec<char> = Vec::new();
    match hint {
        SiteHint::Instagram => push_str(&mut out, "instagram_%(id)s_"),
        SiteHint::TikTok => push_str(&mut out, "tiktok_%(id)s_"),
        SiteHint::Twitter => push_str(&mut out, "twitter_%(id)s_"),
        SiteHint::Facebook => push_str(&mut out, "facebook_%(id)s_"),
        SiteHint::Generic => push_str(&mut out, "%(title)s_"),
    }
    assert(out@ =~= site_prefix_of(hint));
    push_decimal(&mut out, now_millis % 10000);
    push_str(&mut out, ".%(ext)s");
    from_chars(&out)
}

/// The name under which a download from an arbitrary site is shown until its
/// title is known.
pub open spec fn placeholder_of(site_type: Option<Seq<char>>) -> Seq<char> {
    match site_type {
        Some(name) => name + " Download"@,
        None => "Media Download"@,
    }
}

/// The arguments of a download from an arbitrary site.
pub open spec fn universal_args_of(
    url: Seq<char>,
    hint: SiteHint,
    cookies_present: bool,
    now_millis: nat,
    folder: Seq<char>,
) -> Seq<Seq<char>> {
    universal_base_args() + cookie_args_of(cookies_present) + site_args_of(hint) + seq![
        "-o"@,
        joined(folder, output_template_of(hint, now_millis)),
        url,
    ]
}

/// The arguments of a download from an arbitrary site. `cookies_present`
/// tells whether the cookie file exists; `now_millis` is the time in
/// milliseconds since the epoch, which makes the file name differ from those
/// of other downloads; the file goes under `folder`.
pub fn universal_args(
    url: &str,
    hint: SiteHint,
    cookies_present: bool,
    now_millis: u64,
    folder: &str,
) -> (args: Vec<String>)
    ensures
        strings(args@) == universal_args_of(
            url@,
            hint,
            cookies_present,
            now_millis as nat,
            folder@,
        ),
{
    let mut args: Vec<String> = Vec::new();
    assert(strings(args@) =~= Seq::<Seq<char>>::empty());
    let base = vec![
        "--no-playlist",
        "--progress",
        "--newline",
        "--force-overwrites",
        "--user-agent",
        "Mozilla/5.0 (Windows NT 10.0; Win64; x64) AppleWebKit/537.36 (KHTML, like Gecko) Chrome/131.0.0.0 Safari/537.36",
        "--add-header",
        "Accept-Language:en-US,en;q=0.9",
        "--add-header",
        "Accept:text/html,application/xhtml+xml,application/xml;q=0.9,image/avif,image/webp,image/apng,*/*;q=0.8",
        "--add-header",
        "Sec-Fetch-Mode:navigate",
        "--no-check-certificate",
        "--no-warnings",
    ];
    extend_texts(&mut args, &base);
    assert(strs(base@) =~= universal_base_args());
    push_cookie_args(&mut args, cookies_present);
    push_site_args(&mut args, hint);
    let template = output_template(hint, now_millis);
    let destination = join_path(folder, template.as_str());
    let tail = vec!["-o", destination.as_str(), url];
    extend_texts(&mut args, &tail);
    assert(strs(tail@) =~= seq!["-o"@, destination@, url@]);
    assert(strings(args@) =~= universal_args_of(
        url@,
        hint,
        cookies_present,
        now_millis as nat,
        folder@,
    ));
    args
}

/// Plans a download from an arbitrary site; see `universal_args`.
/// `site_type` names the site, if it is known. Until the title is known the
/// job is shown under the site's name, or as `Media Download`.
pub fn download_universal(
    url: &str,
    site_type: Option<&str>,
    cookies_present: bool,
    now_millis: u64,
    folder: &str,
) -> (plan: DownloadPlan)
    ensures
        strings(plan.args@) == universal_args_of(
            url@,
            site_hint_of(opt_text(site_type)),
            cookies_present,
            now_millis as nat,
            folder@,
        ),
        plan.placeholder_name@ == placeholder_of(opt_text(site_type)),
        plan.destination_path@ == joined(
            folder@,
            output_template_of(site_hint_of(opt_text(site_type)), now_millis as nat),
        ),
{
    let hint = site_hint(site_type);
    let placeholder_name = match site_type {
        Some(name) => String::from_str(name).concat(" Download"),
        None => String::from_str("Media Download"),
    };
    DownloadPlan {
        args: universal_args(url, hint, cookies_present, now_millis, folder),
        placeholder_name,
        destination_path: join_path(folder, output_template(hint, now_millis).as_str()),
    }
}

/// Every download may overwrite a file that is there already, and names the
/// address last.
pub proof fn lemma_downloads_overwrite(
    url: Seq<char>,
    format: Option<Seq<char>>,
    output_path: Option<Seq<char>>,
    download_playlist: bool,
    transcoder: Seq<char>,
    folder: Seq<char>,
    hint: SiteHint,
    cookies_present: bool,
    now_millis: nat,
)
    ensures
        youtube_args_of(url, format, output_path, download_playlist, transcoder, folder).contains(
            "--force-overwrites"@,
        ),
        youtube_args_of(url, format, output_path, download_playlist, transcoder, folder).last()
            == url,
        universal_args_of(url, hint, cookies_present, now_millis, folder).contains(
            "--force-overwrites"@,
        ),
        universal_args_of(url, hint, cookies_present, now_millis, folder).last() == url,
{
    let first = youtube_args_of(url, format, output_path, download_playlist, transcoder, folder);
    let before = transcoder_args_of(transcoder).len() + if download_playlist {
        0int
    } else {
        1int
    };
    assert(first[before + 2] == "--force-overwrites"@);
    let second = universal_args_of(url, hint, cookies_present, now_millis, folder);
    assert(second[3] == "--force-overwrites"@);
}

} // verus!
