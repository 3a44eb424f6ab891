//! Argument vectors for the extractor, the transcoder and the recognizer.

use crate::paths::{cookie_file, subtitle_base_of};
use crate::text::{
    contains, find_char, find_sub_from, from_chars, has_sub, index_of_from, lemma_has_sub,
    lemma_sub_index, occurs_at, push_all, push_str, replace, replaced, same_str, slice,
    str_contains, strings, sub_index, to_chars,
};
use vstd::prelude::*;
use vstd::string::StringExecFns;

verus! {

/// The texts held by a vector of string slices.
pub open spec fn strs(v: Seq<&str>) -> Seq<Seq<char>> {
    Seq::new(v.len(), |i: int| v[i]@)
}

/// Appends one argument.
pub fn push_text(args: &mut Vec<String>, item: &str)
    ensures
        strings(final(args)@) == strings(old(args)@).push(item@),
{
    args.push(String::from_str(item));
    assert(strings(args@) =~= strings(old(args)@).push(item@));
}

/// Appends the arguments `items`, in order.
pub fn extend_texts(args: &mut Vec<String>, items: &Vec<&str>)
    ensures
        strings(final(args)@) == strings(old(args)@) + strs(items@),
{
    let mut i: usize = 0;
    while i < items.len()
        invariant
            i <= items.len(),
            strings(args@) == strings(old(args)@) + strs(items@).take(i as int),
        decreases items.len() - i,
    {
        let ghost before = strings(args@);
        push_text(args, items[i]);
        assert(before.push(items@[i as int]@) =~= strings(old(args)@) + strs(items@).take(i + 1));
        i += 1;
    }
    assert(strs(items@).take(items.len() as int) =~= strs(items@));
}

/// The addresses that name a playlist.
pub open spec fn is_playlist_url(url: Seq<char>) -> bool {
    has_sub(url, "playlist?list="@) || has_sub(url, "&list="@)
}

/// Whether `url` names a playlist.
pub fn is_playlist(url: &str) -> (r: bool)
    ensures
        r == is_playlist_url(url@),
{
    str_contains(url, "playlist?list=") || str_contains(url, "&list=")
}

/// The arguments that ask for the metadata of one item.
pub open spec fn info_args_of(url: Seq<char>) -> Seq<Seq<char>> {
    seq!["-j"@, "--no-playlist"@, url]
}

/// The arguments that ask for the metadata of one item, as JSON, without
/// expanding a playlist.
pub fn info_args(url: &str) -> (args: Vec<String>)
    ensures
        strings(args@) == info_args_of(url@),
{
    let mut args: Vec<String> = Vec::new();
    extend_texts(&mut args, &vec!["-j", "--no-playlist", url]);
    assert(strings(args@) =~= info_args_of(url@));
    args
}

/// The arguments that ask for the table of formats of one item.
pub open spec fn format_list_args_of(url: Seq<char>) -> Seq<Seq<char>> {
    seq!["-F"@, "--no-playlist"@, url]
}

/// The arguments that ask for the table of formats of one item.
pub fn format_list_args(url: &str) -> (args: Vec<String>)
    ensures
        strings(args@) == format_list_args_of(url@),
{
    let mut args: Vec<String> = Vec::new();
    extend_texts(&mut args, &vec!["-F", "--no-playlist", url]);
    assert(strings(args@) =~= format_list_args_of(url@));
    args
}

/// The arguments that ask for the metadata of a playlist.
pub open spec fn playlist_info_args_of(url: Seq<char>) -> Seq<Seq<char>> {
    seq!["--flat-playlist"@, "-J"@, url]
}

/// The arguments that ask for the metadata of a playlist, as JSON, without
/// resolving its entries.
pub fn playlist_info_args(url: &str) -> (args: Vec<String>)
    ensures
        strings(args@) == playlist_info_args_of(url@),
{
    let mut args: Vec<String> = Vec::new();
    extend_texts(&mut args, &vec!["--flat-playlist", "-J", url]);
    assert(strings(args@) =~= playlist_info_args_of(url@));
    args
}

/// The arguments that ask for the title of one item.
pub open spec fn title_args_of(url: Seq<char>) -> Seq<Seq<char>> {
    seq!["--get-title"@, url]
}

/// The arguments that ask for the title of one item.
pub fn title_args(url: &str) -> (args: Vec<String>)
    ensures
        strings(args@) == title_args_of(url@),
{
    let mut args: Vec<String> = Vec::new();
    extend_texts(&mut args, &vec!["--get-title", url]);
    assert(strings(args@) =~= title_args_of(url@));
    args
}

/// The arguments that tell the extractor where the transcoder is; none when
/// the transcoder is found by its bare name.
pub open spec fn transcoder_args_of(transcoder: Seq<char>) -> Seq<Seq<char>> {
    if transcoder == "ffmpeg"@ {
        Seq::empty()
    } else {
        seq!["--ffmpeg-location"@, transcoder]
    }
}

/// Appends the arguments that tell the extractor where the transcoder is.
pub fn push_transcoder_args(args: &mut Vec<String>, transcoder: &str)
    ensures
        strings(final(args)@) == strings(old(args)@) + transcoder_args_of(transcoder@),
{
    if !same_str(transcoder, "ffmpeg") {
        extend_texts(args, &vec!["--ffmpeg-location", transcoder]);
        assert(strs(seq!["--ffmpeg-location", transcoder]) =~= transcoder_args_of(transcoder@));
    } else {
        assert(strings(args@) =~= strings(old(args)@) + transcoder_args_of(transcoder@));
    }
}

/// The arguments that attach the cookie file, if there is one.
pub open spec fn cookie_args_of(cookies_present: bool) -> Seq<Seq<char>> {
    if cookies_present {
        seq!["--cookies"@, cookie_file()]
    } else {
        Seq::empty()
    }
}

/// Appends the arguments that attach the cookie file, if there is one.
pub fn push_cookie_args(args: &mut Vec<String>, cookies_present: bool)
    ensures
        strings(final(args)@) == strings(old(args)@) + cookie_args_of(cookies_present),
{
    if cookies_present {
        let items = vec!["--cookies", "/tmp/cookies.txt"];
        extend_texts(args, &items);
        assert(strs(items@) =~= cookie_args_of(cookies_present));
    } else {
        assert(strings(args@) =~= strings(old(args)@) + cookie_args_of(cookies_present));
    }
}

/// The address from which audio is fetched for `url`. A reel of the one site
/// that serves its mobile pages more reliably is addressed by its identifier
/// on the mobile host: the identifier is what follows the first `/reel/`, up
/// to the next `/reel/` and up to the first `?`. Any other address on that
/// site's `www` host is moved to the mobile host. Other addresses are left
/// as they are.
pub open spec fn mobile_url_of(url: Seq<char>) -> Seq<char> {
    if has_sub(url, "facebook.com/reel/"@) {
        let mark = "/reel/"@;
        let start = sub_index(url, mark, 0) + mark.len();
        let next = sub_index(url, mark, start);
        let segment = url.subrange(
            start,
            if next < 0 {
                url.len() as int
            } else {
                next
            },
        );
        "https://m.facebook.com/watch/?v="@ + segment.subrange(0, index_of_from(segment, '?', 0))
    } else if has_sub(url, "www.facebook.com"@) {
        replaced(url, "www.facebook.com"@, "m.facebook.com"@)
    } else {
        url
    }
}

/// An address that names a reel holds the mark at which its identifier
/// begins.
proof fn lemma_reel_mark(url: Seq<char>)
    requires
        has_sub(url, "facebook.com/reel/"@),
    ensures
        sub_index(url, "/reel/"@, 0) >= 0,
{
    reveal_strlit("facebook.com/reel/");
    reveal_strlit("/reel/");
    let long = "facebook.com/reel/"@;
    let mark = "/reel/"@;
    let i = choose|i: int| occurs_at(url, long, i);
    assert(occurs_at(url, long, i));
    assert(url.subrange(i + 12, i + 18) =~= long.subrange(12, 18));
    assert(long.subrange(12, 18) =~= mark);
    assert(occurs_at(url, mark, i + 12));
    lemma_has_sub(url, mark);
}

/// The address from which audio is fetched for `url`.
pub fn mobile_url(url: &str) -> (r: String)
    ensures
        r@ == mobile_url_of(url@),
{
    let chars = to_chars(url);
    let reel = to_chars("facebook.com/reel/");
    let www = to_chars("www.facebook.com");
    if contains(&chars, &reel) {
        let mark = to_chars("/reel/");
        proof {
            lemma_reel_mark(chars@);
            lemma_sub_index(chars@, mark@, 0);
        }
        match find_sub_from(&chars, &mark, 0) {
            None => String::from_str(url),
            Some(at) => {
                let total: usize = chars.len();
                assert(occurs_at(chars@, mark@, at as int));
                let start: usize = at + mark.len();
                proof {
                    lemma_sub_index(chars@, mark@, start as int);
                }
                let end: usize = match find_sub_from(&chars, &mark, start) {
                    Some(next) => next,
                    None => total,
                };
                let segment = slice(&chars, start, end);
                let stop: usize = find_char(&segment, '?', 0);
                let id = slice(&segment, 0, stop);
                let mut out: Vec<char> = Vec::new();
                push_str(&mut out, "https://m.facebook.com/watch/?v=");
                push_all(&mut out, &id);
                assert(out@ =~= mobile_url_of(url@));
                from_chars(&out)
            },
        }
    } else if contains(&chars, &www) {
        let mobile = to_chars("m.facebook.com");
        let moved = replace(&chars, &www, &mobile);
        from_chars(&moved)
    } else {
        String::from_str(url)
    }
}

/// The arguments that extract the audio of `url` for transcription: best
/// audio as MP3 of medium quality at `audio_path`, from the mobile address
/// where there is one.
pub open spec fn audio_args_of(
    url: Seq<char>,
    audio_path: Seq<char>,
    cookies_present: bool,
    transcoder: Seq<char>,
) -> Seq<Seq<char>> {
    transcoder_args_of(transcoder) + seq![
        "-x"@,
        "--audio-format"@,
        "mp3"@,
        "--audio-quality"@,
        "5"@,
        "-o"@,
        audio_path,
    ] + cookie_args_of(cookies_present) + seq![mobile_url_of(url)]
}

/// The arguments that extract the audio of `url` for transcription.
pub fn audio_args(url: &str, audio_path: &str, cookies_present: bool, transcoder: &str) -> (args:
    Vec<String>)
    ensures
        strings(args@) == audio_args_of(url@, audio_path@, cookies_present, transcoder@),
{
    let mut args: Vec<String> = Vec::new();
    assert(strings(args@) =~= Seq::<Seq<char>>::empty());
    push_transcoder_args(&mut args, transcoder);
    let fixed = vec!["-x", "--audio-format", "mp3", "--audio-quality", "5", "-o", audio_path];
    extend_texts(&mut args, &fixed);
    assert(strs(fixed@) =~= seq![
        "-x"@,
        "--audio-format"@,
        "mp3"@,
        "--audio-quality"@,
        "5"@,
        "-o"@,
        audio_path@,
    ]);
    push_cookie_args(&mut args, cookies_present);
    let address = mobile_url(url);
    push_text(&mut args, address.as_str());
    assert(strings(args@) =~= audio_args_of(url@, audio_path@, cookies_present, transcoder@));
    args
}

/// The arguments that ask for the identifier of one item.
pub open spec fn id_args_of(url: Seq<char>) -> Seq<Seq<char>> {
    seq!["--print"@, "id"@, url]
}

/// The arguments that ask for the identifier of one item.
pub fn id_args(url: &str) -> (args: Vec<String>)
    ensures
        strings(args@) == id_args_of(url@),
{
    let mut args: Vec<String> = Vec::new();
    extend_texts(&mut args, &vec!["--print", "id", url]);
    assert(strings(args@) =~= id_args_of(url@));
    args
}

/// The arguments that fetch the automatic English captions of `url` as a
/// caption file, without the media.
pub open spec fn subtitle_args_of(url: Seq<char>, id: Seq<char>) -> Seq<Seq<char>> {
    seq![
        "--skip-download"@,
        "--write-auto-subs"@,
        "--sub-lang"@,
        "en"@,
        "--convert-subs"@,
        "vtt"@,
        "--output"@,
        subtitle_base_of(id),
        url,
    ]
}

/// The arguments that fetch the automatic English captions of `url`.
pub fn subtitle_args(url: &str, id: &str) -> (args: Vec<String>)
    ensures
        strings(args@) == subtitle_args_of(url@, id@),
{
    let base = String::from_str("/tmp/").concat(id);
    let mut args: Vec<String> = Vec::new();
    let items = vec![
        "--skip-download",
        "--write-auto-subs",
        "--sub-lang",
        "en",
        "--convert-subs",
        "vtt",
        "--output",
        base.as_str(),
        url,
    ];
    extend_texts(&mut args, &items);
    assert(strings(args@) =~= subtitle_args_of(url@, id@));
    args
}

/// The arguments that convert `input` to the waveform that the recognizer
/// reads: 16 kHz, one channel, signed 16-bit samples, at `wav_path`, which is
/// overwritten.
pub open spec fn waveform_args_of(input: Seq<char>, wav_path: Seq<char>) -> Seq<Seq<char>> {
    seq![
        "-i"@,
        input,
        "-ar"@,
        "16000"@,
        "-ac"@,
        "1"@,
        "-c:a"@,
        "pcm_s16le"@,
        wav_path,
        "-y"@,
    ]
}

/// The arguments that convert `input` to the waveform that the recognizer
/// reads.
pub fn waveform_args(input: &str, wav_path: &str) -> (args: Vec<String>)
    ensures
        strings(args@) == waveform_args_of(input@, wav_path@),
{
    let mut args: Vec<String> = Vec::new();
    let items = vec![
        "-i",
        input,
        "-ar",
        "16000",
        "-ac",
        "1",
        "-c:a",
        "pcm_s16le",
        wav_path,
        "-y",
    ];
    extend_texts(&mut args, &items);
    assert(strings(args@) =~= waveform_args_of(input@, wav_path@));
    args
}

/// The arguments that make the recognizer transcribe `audio` in English with
/// the model `model`, without time stamps, into the text file
/// `output_base` with `.txt` behind it.
pub open spec fn recognizer_args_of(
    model: Seq<char>,
    audio: Seq<char>,
    output_base: Seq<char>,
) -> Seq<Seq<char>> {
    seq![
        "-m"@,
        model,
        "-f"@,
        audio,
        "-otxt"@,
        "-of"@,
        output_base,
        "--no-timestamps"@,
        "-l"@,
        "en"@,
    ]
}

/// The arguments that make the recognizer transcribe `audio`.
pub fn recognizer_args(model: &str, audio: &str, output_base: &str) -> (args: Vec<String>)
    ensures
        strings(args@) == recognizer_args_of(model@, audio@, output_base@),
{
    let mut args: Vec<String> = Vec::new();
    let items = vec![
        "-m",
        model,
        "-f",
        audio,
        "-otxt",
        "-of",
        output_base,
        "--no-timestamps",
        "-l",
        "en",
    ];
    extend_texts(&mut args, &items);
    assert(strings(args@) =~= recognizer_args_of(model@, audio@, output_base@));
    args
}

} // verus!
