//! Requests of the user turned into argument vectors.

use crate::args::{
    audio_args, audio_args_of, info_args, info_args_of, is_playlist, is_playlist_url,
    playlist_info_args, playlist_info_args_of,
};
use crate::download::{SiteHint, universal_args, universal_args_of, youtube_args, youtube_args_of};
use crate::paths::{audio_path_of, numbered_name};
use crate::text::{borrowed, owned_text, strings};
use vstd::prelude::*;

verus! {

/// What is asked of the extractor.
#[derive(Clone, Copy, Debug, PartialEq, Eq, Structural)]
pub enum Operation {
    /// Metadata of the item or playlist.
    Info,
    /// The media itself.
    Download,
    /// The audio, for the recognizer.
    Transcribe,
}

/// One request of the user. A download with a site hint is set up for an
/// arbitrary site, one without for the video site.
#[derive(Debug)]
pub struct MediaRequest {
    pub source_url: String,
    pub operation: Operation,
    pub format_selector: Option<String>,
    pub site_hint: Option<SiteHint>,
    pub allow_playlist: bool,
}

/// What the builder knows besides the request: the transcoder's path or bare
/// name, the folder for downloads, the caller's output path if there is one,
/// whether the cookie file exists, and the time in milliseconds since the
/// epoch.
#[derive(Debug)]
pub struct BuildContext {
    pub transcoder: String,
    pub download_folder: String,
    pub output_path: Option<String>,
    pub cookies_present: bool,
    pub now_millis: u64,
}

/// The arguments for a request. A metadata query asks for one item, or for
/// the playlist if the address names one. A transcription extracts audio to
/// the file named after the time in seconds.
pub open spec fn build_spec(request: MediaRequest, context: BuildContext) -> Seq<Seq<char>> {
    let url = request.source_url@;
    match request.operation {
        Operation::Info => if is_playlist_url(url) {
            playlist_info_args_of(url)
        } else {
            info_args_of(url)
        },
        Operation::Download => match request.site_hint {
            None => youtube_args_of(
                url,
                owned_text(request.format_selector),
                owned_text(context.output_path),
                request.allow_playlist,
                context.transcoder@,
                context.download_folder@,
            ),
            Some(hint) => universal_args_of(
                url,
                hint,
                context.cookies_present,
                context.now_millis as nat,
                context.download_folder@,
            ),
        },
        Operation::Transcribe => audio_args_of(
            url,
            audio_path_of((context.now_millis / 1000) as nat),
            context.cookies_present,
            context.transcoder@,
        ),
    }
}

/// Builds the extractor's arguments for a request.
pub fn build(request: &MediaRequest, context: &BuildContext) -> (args: Vec<String>)
    ensures
        strings(args@) == build_spec(*request, *context),
{
    let url = request.source_url.as_str();
    match request.operation {
        Operation::Info => {
            if is_playlist(url) {
                playlist_info_args(url)
            } else {
                info_args(url)
            }
        },
        Operation::Download => match request.site_hint {
            None => youtube_args(
                url,
                borrowed(&request.format_selector),
                borrowed(&context.output_path),
                request.allow_playlist,
                context.transcoder.as_str(),
                context.download_folder.as_str(),
            ),
            Some(hint) => universal_args(
                url,
                hint,
                context.cookies_present,
                context.now_millis,
                context.download_folder.as_str(),
            ),
        },
        Operation::Transcribe => {
            let audio = numbered_name("/tmp/audio_temp_", context.now_millis / 1000, ".mp3");
            audio_args(
                url,
                audio.as_str(),
                context.cookies_present,
                context.transcoder.as_str(),
            )
        },
    }
}

} // verus!
