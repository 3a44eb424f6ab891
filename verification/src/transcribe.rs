//! Transcription as a sequence of steps with guaranteed cleanup.
//!
//! A flow decides; its caller acts. The flow hands out a directive: files to
//! remove, then one step to perform. The caller performs the step and reports
//! what happened as an event, which the flow answers with the next directive,
//! until a directive finishes the flow. Removing a file is best effort: the
//! caller ignores a removal that fails.

use crate::args::{
    audio_args, audio_args_of, id_args, id_args_of, recognizer_args, recognizer_args_of,
    subtitle_args, subtitle_args_of, transcoder_args_of, waveform_args, waveform_args_of,
};
use crate::error::{ErrorKind, ErrorText, failure, outcome_text, ToolError};
use crate::locate::{recognizer_missing, ToolKind};
use crate::paths::{audio_path_of, numbered, numbered_name, subtitle_path, subtitle_path_of};
use crate::text::{from_chars, opt_text, owned_text, strings, to_chars, trim, trimmed};
use crate::vtt::{parse_vtt_to_text, vtt_text};
use vstd::prelude::*;
use vstd::string::StringExecFns;

verus! {

/// The three ways to a transcript.
#[derive(Clone, Copy, Debug, PartialEq, Eq, Structural)]
pub enum FlowKind {
    /// Fetch the captions that the site offers.
    Subtitles,
    /// Fetch the audio of an address and run the recognizer on it.
    FromUrl,
    /// Convert a local file and run the recognizer on it.
    FromFile,
}

/// What a flow is waiting for.
#[derive(Clone, Copy, Debug, PartialEq, Eq, Structural)]
pub enum Stage {
    /// The extractor was asked for the item's identifier.
    AwaitId,
    /// The extractor was asked to write the caption file.
    AwaitSubtitles,
    /// The caption file is being read.
    AwaitContent,
    /// The input file is being looked for.
    AwaitInputProbe,
    /// The audio is being fetched or converted.
    AwaitPrepared,
    /// The recognizer is running.
    AwaitRecognition,
    /// The transcript file is being looked for under its full name.
    AwaitTranscriptProbe,
    /// The transcript file is being looked for under its bare name.
    AwaitBareProbe,
    /// The transcript file is being read.
    AwaitTranscript,
    /// The flow has finished.
    Finished,
}

/// What the caller reports back.
#[derive(Debug)]
pub enum Event {
    /// The program ran to its end.
    Exited { success: bool, stdout: String, stderr: String },
    /// The program could not be started.
    LaunchFailed { reason: String },
    /// The file was looked for.
    Probed { exists: bool },
    /// The file was read.
    Read { content: String },
    /// The file could not be read.
    ReadFailed { reason: String },
}

/// An event as plain values.
pub enum EventText {
    Exited { success: bool, stdout: Seq<char>, stderr: Seq<char> },
    LaunchFailed { reason: Seq<char> },
    Probed { exists: bool },
    Read { content: Seq<char> },
    ReadFailed { reason: Seq<char> },
}

impl View for Event {
    type V = EventText;

    open spec fn view(&self) -> EventText {
        match self {
            Event::Exited { success, stdout, stderr } => EventText::Exited {
                success: *success,
                stdout: stdout@,
                stderr: stderr@,
            },
            Event::LaunchFailed { reason } => EventText::LaunchFailed { reason: reason@ },
            Event::Probed { exists } => EventText::Probed { exists: *exists },
            Event::Read { content } => EventText::Read { content: content@ },
            Event::ReadFailed { reason } => EventText::ReadFailed { reason: reason@ },
        }
    }
}

/// What the caller is to do next.
#[derive(Debug)]
pub enum Step {
    /// Run a program to its end, capturing what it prints.
    Run { tool: ToolKind, args: Vec<String> },
    /// Tell whether a file exists.
    Probe { path: String },
    /// Read a file as text.
    Read { path: String },
    /// Hand the outcome to the user; the flow is over.
    Finish { outcome: Result<String, ToolError> },
    /// Nothing.
    Idle,
}

/// A step as plain values.
pub enum StepText {
    Run { tool: ToolKind, args: Seq<Seq<char>> },
    Probe { path: Seq<char> },
    Read { path: Seq<char> },
    Finish { outcome: Result<Seq<char>, ErrorText> },
    Idle,
}

impl View for Step {
    type V = StepText;

    open spec fn view(&self) -> StepText {
        match self {
            Step::Run { tool, args } => StepText::Run { tool: *tool, args: strings(args@) },
            Step::Probe { path } => StepText::Probe { path: path@ },
            Step::Read { path } => StepText::Read { path: path@ },
            Step::Finish { outcome } => StepText::Finish { outcome: outcome_text(*outcome) },
            Step::Idle => StepText::Idle,
        }
    }
}

/// Files to remove, then a step to perform.
#[derive(Debug)]
pub struct Directive {
    pub remove: Vec<String>,
    pub step: Step,
}

/// A directive as plain values.
pub struct DirectiveText {
    pub remove: Seq<Seq<char>>,
    pub step: StepText,
}

impl View for Directive {
    type V = DirectiveText;

    open spec fn view(&self) -> DirectiveText {
        DirectiveText { remove: strings(self.remove@), step: self.step@ }
    }
}

/// The state of a flow as plain values. `media_path` is the temporary file
/// that the flow has made or is making: the caption file, the fetched audio
/// or the converted waveform. `output_base` is the name that the recognizer
/// is given for its transcript.
pub struct FlowState {
    pub kind: FlowKind,
    pub stage: Stage,
    pub source: Seq<char>,
    pub media_path: Seq<char>,
    pub output_base: Seq<char>,
    pub model: Option<Seq<char>>,
    pub transcoder: Seq<char>,
    pub cookies_present: bool,
}

/// One transcription under way.
#[derive(Debug)]
pub struct Flow {
    kind: FlowKind,
    stage: Stage,
    source: String,
    media_path: String,
    output_base: String,
    model: Option<String>,
    transcoder: String,
    cookies_present: bool,
}

impl View for Flow {
    type V = FlowState;

    closed spec fn view(&self) -> FlowState {
        FlowState {
            kind: self.kind,
            stage: self.stage,
            source: self.source@,
            media_path: self.media_path@,
            output_base: self.output_base@,
            model: owned_text(self.model),
            transcoder: self.transcoder@,
            cookies_present: self.cookies_present,
        }
    }
}

/// The file in which the recognizer leaves its transcript.
pub open spec fn transcript_path_of(st: FlowState) -> Seq<char> {
    st.output_base + ".txt"@
}

/// The temporary files that may exist while a flow is in its stage: none
/// before its first program has run; then the media file; and from the
/// recognizer's start on also the transcript, for a local file under either
/// of its names.
pub open spec fn temp_files(st: FlowState) -> Seq<Seq<char>> {
    match st.stage {
        Stage::AwaitId | Stage::AwaitInputProbe | Stage::Finished => Seq::empty(),
        Stage::AwaitSubtitles | Stage::AwaitContent | Stage::AwaitPrepared => seq![st.media_path],
        _ => if st.kind == FlowKind::FromFile {
            seq![st.media_path, transcript_path_of(st), st.output_base]
        } else {
            seq![st.media_path, transcript_path_of(st)]
        },
    }
}

/// `st` moved to `stage`.
pub open spec fn at_stage(st: FlowState, stage: Stage) -> FlowState {
    FlowState { stage, ..st }
}

/// The flow moves to `stage` and asks for `step`.
pub open spec fn proceed(st: FlowState, stage: Stage, step: StepText) -> (
    FlowState,
    DirectiveText,
) {
    (at_stage(st, stage), DirectiveText { remove: Seq::empty(), step })
}

/// The flow ends with `outcome`, and every temporary file that may exist is
/// removed.
pub open spec fn finish(st: FlowState, outcome: Result<Seq<char>, ErrorText>) -> (
    FlowState,
    DirectiveText,
) {
    (
        at_stage(st, Stage::Finished),
        DirectiveText { remove: temp_files(st), step: StepText::Finish { outcome } },
    )
}

/// Nothing changes and nothing is asked for.
pub open spec fn stay(st: FlowState) -> (FlowState, DirectiveText) {
    (st, DirectiveText { remove: Seq::empty(), step: StepText::Idle })
}

/// The error of kind `kind` with the message `prefix` followed by `detail`.
pub open spec fn failed(kind: ErrorKind, prefix: Seq<char>, detail: Seq<char>) -> Result<
    Seq<char>,
    ErrorText,
> {
    Err(ErrorText { kind, message: prefix + detail })
}

/// The error that says that the site's captions could not be had, why, and
/// what to try instead.
pub open spec fn no_captions(prefix: Seq<char>, detail: Seq<char>) -> Result<
    Seq<char>,
    ErrorText,
> {
    Err(
        ErrorText {
            kind: ErrorKind::NoCaptionsAvailable,
            message: "YouTube captions not available for this video. "@ + prefix + detail
                + ". Try using 'Whisper AI' option instead."@,
        },
    )
}

/// What the failure of the program that prepares the audio is called.
pub open spec fn prepare_prefix(kind: FlowKind) -> Seq<char> {
    if kind == FlowKind::FromFile {
        "FFmpeg conversion failed: "@
    } else {
        "Failed to download audio: "@
    }
}

/// The step that runs the recognizer on the media file.
pub open spec fn recognize_step(st: FlowState) -> StepText {
    StepText::Run {
        tool: ToolKind::SpeechRecognizer,
        args: recognizer_args_of(
            match st.model {
                Some(m) => m,
                None => Seq::empty(),
            },
            st.media_path,
            st.output_base,
        ),
    }
}

/// What an event does to a flow. An event that does not answer the step that
/// the flow is waiting for changes nothing.
pub open spec fn advance_spec(st: FlowState, ev: EventText) -> (FlowState, DirectiveText) {
    match st.stage {
        Stage::AwaitId => match ev {
            EventText::Exited { success, stdout, stderr } => {
                let id = trimmed(stdout);
                if success && id.len() > 0 {
                    proceed(
                        FlowState { media_path: subtitle_path_of(id), ..st },
                        Stage::AwaitSubtitles,
                        StepText::Run {
                            tool: ToolKind::Extractor,
                            args: subtitle_args_of(st.source, id),
                        },
                    )
                } else {
                    finish(st, no_captions("Could not get video ID"@, Seq::empty()))
                }
            },
            EventText::LaunchFailed { reason } => finish(
                st,
                no_captions("Failed to get video ID: "@, reason),
            ),
            _ => stay(st),
        },
        Stage::AwaitSubtitles => match ev {
            EventText::Exited { success, stdout, stderr } => if success {
                proceed(st, Stage::AwaitContent, StepText::Read { path: st.media_path })
            } else {
                finish(st, no_captions("No subtitles available"@, Seq::empty()))
            },
            EventText::LaunchFailed { reason } => finish(
                st,
                no_captions("Failed to download subtitles: "@, reason),
            ),
            _ => stay(st),
        },
        Stage::AwaitContent => match ev {
            EventText::Read { content } => if vtt_text(content).len() > 0 {
                finish(st, Ok(vtt_text(content)))
            } else {
                finish(st, no_captions("No subtitle files found"@, Seq::empty()))
            },
            EventText::ReadFailed { reason } => finish(
                st,
                no_captions("No subtitle files found"@, Seq::empty()),
            ),
            _ => stay(st),
        },
        Stage::AwaitInputProbe => match ev {
            EventText::Probed { exists } => if !exists {
                finish(st, failed(ErrorKind::InputFileMissing, "File not found: "@, st.source))
            } else if st.model is None {
                finish(st, Err(recognizer_missing()))
            } else {
                proceed(
                    st,
                    Stage::AwaitPrepared,
                    StepText::Run {
                        tool: ToolKind::Transcoder,
                        args: waveform_args_of(st.source, st.media_path),
                    },
                )
            },
            _ => stay(st),
        },
        Stage::AwaitPrepared => match ev {
            EventText::Exited { success, stdout, stderr } => if success {
                proceed(st, Stage::AwaitRecognition, recognize_step(st))
            } else {
                finish(st, failed(ErrorKind::ToolExitedNonZero, prepare_prefix(st.kind), stderr))
            },
            EventText::LaunchFailed { reason } => finish(
                st,
                failed(ErrorKind::ToolLaunchFailed, prepare_prefix(st.kind), reason),
            ),
            _ => stay(st),
        },
        Stage::AwaitRecognition => match ev {
            EventText::Exited { success, stdout, stderr } => if !success {
                finish(
                    st,
                    failed(
                        ErrorKind::ToolExitedNonZero,
                        "whisper.cpp transcription failed: "@,
                        stderr,
                    ),
                )
            } else if st.kind == FlowKind::FromFile {
                proceed(
                    st,
                    Stage::AwaitTranscriptProbe,
                    StepText::Probe { path: transcript_path_of(st) },
                )
            } else {
                proceed(
                    st,
                    Stage::AwaitTranscript,
                    StepText::Read { path: transcript_path_of(st) },
                )
            },
            EventText::LaunchFailed { reason } => finish(
                st,
                failed(ErrorKind::ToolLaunchFailed, "whisper.cpp failed: "@, reason),
            ),
            _ => stay(st),
        },
        Stage::AwaitTranscriptProbe => match ev {
            EventText::Probed { exists } => if exists {
                proceed(
                    st,
                    Stage::AwaitTranscript,
                    StepText::Read { path: transcript_path_of(st) },
                )
            } else {
                proceed(st, Stage::AwaitBareProbe, StepText::Probe { path: st.output_base })
            },
            _ => stay(st),
        },
        Stage::AwaitBareProbe => match ev {
            EventText::Probed { exists } => if exists {
                proceed(st, Stage::AwaitTranscript, StepText::Read { path: st.output_base })
            } else {
                finish(
                    st,
                    failed(
                        ErrorKind::TranscriptFileMissing,
                        "Transcript file not found at "@,
                        transcript_path_of(st) + " or "@ + st.output_base,
                    ),
                )
            },
            _ => stay(st),
        },
        Stage::AwaitTranscript => match ev {
            EventText::Read { content } => finish(st, Ok(trimmed(content))),
            EventText::ReadFailed { reason } => finish(
                st,
                failed(ErrorKind::TranscriptFileMissing, "Failed to read transcript: "@, reason),
            ),
            _ => stay(st),
        },
        Stage::Finished => stay(st),
    }
}

/// The state in which a caption flow for `url` begins.
pub open spec fn subtitles_start(url: Seq<char>) -> FlowState {
    FlowState {
        kind: FlowKind::Subtitles,
        stage: Stage::AwaitId,
        source: url,
        media_path: Seq::empty(),
        output_base: Seq::empty(),
        model: None,
        transcoder: Seq::empty(),
        cookies_present: false,
    }
}

/// The state in which a recognizer flow for the address `url` begins, and its
/// first directive. Without a model the recognizer is missing, and the flow
/// is over at once.
pub open spec fn from_url_start(
    url: Seq<char>,
    now_secs: nat,
    cookies_present: bool,
    transcoder: Seq<char>,
    model: Option<Seq<char>>,
) -> (FlowState, DirectiveText) {
    let st = FlowState {
        kind: FlowKind::FromUrl,
        stage: Stage::AwaitPrepared,
        source: url,
        media_path: audio_path_of(now_secs),
        output_base: numbered("/tmp/whisper_output_"@, now_secs, ""@),
        model,
        transcoder,
        cookies_present,
    };
    if model is None {
        finish(at_stage(st, Stage::Finished), Err(recognizer_missing()))
    } else {
        (
            st,
            DirectiveText {
                remove: Seq::empty(),
                step: StepText::Run {
                    tool: ToolKind::Extractor,
                    args: audio_args_of(url, st.media_path, cookies_present, transcoder),
                },
            },
        )
    }
}

/// The state in which a recognizer flow for the local file `path` begins.
pub open spec fn from_file_start(
    path: Seq<char>,
    now_secs: nat,
    model: Option<Seq<char>>,
) -> FlowState {
    FlowState {
        kind: FlowKind::FromFile,
        stage: Stage::AwaitInputProbe,
        source: path,
        media_path: numbered("/tmp/whisper_audio_"@, now_secs, ".wav"@),
        output_base: numbered("/tmp/whisper_file_output_"@, now_secs, ""@),
        model,
        transcoder: Seq::empty(),
        cookies_present: false,
    }
}

/// The error that says that the site's captions could not be had.
fn captions_failure(prefix: &str, detail: &str) -> (r: Result<String, ToolError>)
    ensures
        outcome_text(r) == no_captions(prefix@, detail@),
{
    let message = String::from_str("YouTube captions not available for this video. ").concat(
        prefix,
    ).concat(detail).concat(". Try using 'Whisper AI' option instead.");
    Err(ToolError { kind: ErrorKind::NoCaptionsAvailable, message })
}

/// The error for a recognizer that was not found.
fn missing_recognizer() -> (r: Result<String, ToolError>)
    ensures
        outcome_text(r) == Err::<Seq<char>, ErrorText>(recognizer_missing()),
{
    Err(
        ToolError {
            kind: ErrorKind::ToolNotFound,
            message: String::from_str("whisper.cpp or model not found in resources"),
        },
    )
}

impl Flow {
    /// Begins to fetch the captions of `url`: the extractor is asked for the
    /// item's identifier.
    pub fn begin_subtitles(url: &str) -> (r: (Flow, Directive))
        ensures
            r.0@ == subtitles_start(url@),
            r.1@ == (DirectiveText {
                remove: Seq::empty(),
                step: StepText::Run { tool: ToolKind::Extractor, args: id_args_of(url@) },
            }),
    {
        let flow = Flow {
            kind: FlowKind::Subtitles,
            stage: Stage::AwaitId,
            source: String::from_str(url),
            media_path: String::new(),
            output_base: String::new(),
            model: None,
            transcoder: String::new(),
            cookies_present: false,
        };
        let remove: Vec<String> = Vec::new();
        assert(strings(remove@) =~= Seq::<Seq<char>>::empty());
        let step = Step::Run { tool: ToolKind::Extractor, args: id_args(url) };
        (flow, Directive { remove, step })
    }

    /// Begins to transcribe the audio of `url` with the recognizer.
    /// `now_secs` is the time in seconds since the epoch, which names the
    /// temporary files; `transcoder` is the transcoder's path or bare name;
    /// `model` is the recognizer's model, absent if the recognizer was not
    /// found.
    pub fn begin_from_url(
        url: &str,
        now_secs: u64,
        cookies_present: bool,
        transcoder: &str,
        model: Option<&str>,
    ) -> (r: (Flow, Directive))
        ensures
            r.0@ == from_url_start(
                url@,
                now_secs as nat,
                cookies_present,
                transcoder@,
                opt_text(model),
            ).0,
            r.1@ == from_url_start(
                url@,
                now_secs as nat,
                cookies_present,
                transcoder@,
                opt_text(model),
            ).1,
    {
        let media_path = numbered_name("/tmp/audio_temp_", now_secs, ".mp3");
        let output_base = numbered_name("/tmp/whisper_output_", now_secs, "");
        let remove: Vec<String> = Vec::new();
        assert(strings(remove@) =~= Seq::<Seq<char>>::empty());
        match model {
            None => {
                let flow = Flow {
                    kind: FlowKind::FromUrl,
                    stage: Stage::Finished,
                    source: String::from_str(url),
                    media_path,
                    output_base,
                    model: None,
                    transcoder: String::from_str(transcoder),
                    cookies_present,
                };
                (flow, Directive { remove, step: Step::Finish { outcome: missing_recognizer() } })
            },
            Some(m) => {
                let args = audio_args(url, media_path.as_str(), cookies_present, transcoder);
                let flow = Flow {
                    kind: FlowKind::FromUrl,
                    stage: Stage::AwaitPrepared,
                    source: String::from_str(url),
                    media_path,
                    output_base,
                    model: Some(String::from_str(m)),
                    transcoder: String::from_str(transcoder),
                    cookies_present,
                };
                (flow, Directive { remove, step: Step::Run { tool: ToolKind::Extractor, args } })
            },
        }
    }

    /// Begins to transcribe the local file `path` with the recognizer: the
    /// file is looked for first.
    pub fn begin_from_file(path: &str, now_secs: u64, model: Option<&str>) -> (r: (
        Flow,
        Directive,
    ))
        ensures
            r.0@ == from_file_start(path@, now_secs as nat, opt_text(model)),
            r.1@ == (DirectiveText {
                remove: Seq::empty(),
                step: StepText::Probe { path: path@ },
            }),
    {
        let flow = Flow {
            kind: FlowKind::FromFile,
            stage: Stage::AwaitInputProbe,
            source: String::from_str(path),
            media_path: numbered_name("/tmp/whisper_audio_", now_secs, ".wav"),
            output_base: numbered_name("/tmp/whisper_file_output_", now_secs, ""),
            model: match model {
                Some(m) => Some(String::from_str(m)),
                None => None,
            },
            transcoder: String::new(),
            cookies_present: false,
        };
        let remove: Vec<String> = Vec::new();
        assert(strings(remove@) =~= Seq::<Seq<char>>::empty());
        (flow, Directive { remove, step: Step::Probe { path: String::from_str(path) } })
    }

    /// Whether the flow has finished.
    pub fn is_finished(&self) -> (r: bool)
        ensures
            r == (self@.stage == Stage::Finished),
    {
        self.stage == Stage::Finished
    }

    fn transcript_path(&self) -> (path: String)
        ensures
            path@ == transcript_path_of(self@),
    {
        self.output_base.clone().concat(".txt")
    }

    fn temporary_files(&self) -> (files: Vec<String>)
        ensures
            strings(files@) == temp_files(self@),
    {
        let mut files: Vec<String> = Vec::new();
        match self.stage {
            Stage::AwaitId | Stage::AwaitInputProbe | Stage::Finished => {},
            Stage::AwaitSubtitles | Stage::AwaitContent | Stage::AwaitPrepared => {
                files.push(self.media_path.clone());
            },
            _ => {
                files.push(self.media_path.clone());
                files.push(self.transcript_path());
                if self.kind == FlowKind::FromFile {
                    files.push(self.output_base.clone());
                }
            },
        }
        assert(strings(files@) =~= temp_files(self@));
        files
    }

    fn finish(&mut self, outcome: Result<String, ToolError>) -> (d: Directive)
        ensures
            final(self)@ == finish(old(self)@, outcome_text(outcome)).0,
            d@ == finish(old(self)@, outcome_text(outcome)).1,
    {
        let remove = self.temporary_files();
        self.stage = Stage::Finished;
        Directive { remove, step: Step::Finish { outcome } }
    }

    fn proceed(&mut self, stage: Stage, step: Step) -> (d: Directive)
        ensures
            final(self)@ == proceed(old(self)@, stage, step@).0,
            d@ == proceed(old(self)@, stage, step@).1,
    {
        self.stage = stage;
        let remove: Vec<String> = Vec::new();
        assert(strings(remove@) =~= Seq::<Seq<char>>::empty());
        Directive { remove, step }
    }

    fn stay(&self) -> (d: Directive)
        ensures
            d@ == stay(self@).1,
    {
        let remove: Vec<String> = Vec::new();
        assert(strings(remove@) =~= Seq::<Seq<char>>::empty());
        Directive { remove, step: Step::Idle }
    }

    fn recognize(&self) -> (step: Step)
        ensures
            step@ == recognize_step(self@),
    {
        let args = match &self.model {
            Some(m) => recognizer_args(
                m.as_str(),
                self.media_path.as_str(),
                self.output_base.as_str(),
            ),
            None => recognizer_args("", self.media_path.as_str(), self.output_base.as_str()),
        };
        proof {
            reveal_strlit("");
            assert(""@ =~= Seq::<char>::empty());
        }
        Step::Run { tool: ToolKind::SpeechRecognizer, args }
    }

    fn prepare_failure(&self, kind: ErrorKind, detail: &str) -> (r: Result<String, ToolError>)
        ensures
            outcome_text(r) == failed(kind, prepare_prefix(self@.kind), detail@),
    {
        if self.kind == FlowKind::FromFile {
            Err(failure(kind, "FFmpeg conversion failed: ", detail))
        } else {
            Err(failure(kind, "Failed to download audio: ", detail))
        }
    }

    /// Takes what the caller reports and returns what to do next.
    pub fn advance(&mut self, event: Event) -> (d: Directive)
        ensures
            final(self)@ == advance_spec(old(self)@, event@).0,
            d@ == advance_spec(old(self)@, event@).1,
    {
        match self.stage {
            Stage::AwaitId => match event {
                Event::Exited { success, stdout, stderr } => {
                    let id = trim(&to_chars(stdout.as_str()));
                    if success && id.len() > 0 {
                        let id_text = from_chars(&id);
                        let args = subtitle_args(self.source.as_str(), id_text.as_str());
                        self.media_path = subtitle_path(id_text.as_str());
                        self.proceed(
                            Stage::AwaitSubtitles,
                            Step::Run { tool: ToolKind::Extractor, args },
                        )
                    } else {
                        proof {
                            reveal_strlit("");
                            assert(""@ =~= Seq::<char>::empty());
                        }
                        self.finish(captions_failure("Could not get video ID", ""))
                    }
                },
                Event::LaunchFailed { reason } => self.finish(
                    captions_failure("Failed to get video ID: ", reason.as_str()),
                ),
                _ => self.stay(),
            },
            Stage::AwaitSubtitles => match event {
                Event::Exited { success, stdout, stderr } => {
                    if success {
                        let path = self.media_path.clone();
                        self.proceed(Stage::AwaitContent, Step::Read { path })
                    } else {
                        proof {
                            reveal_strlit("");
                            assert(""@ =~= Seq::<char>::empty());
                        }
                        self.finish(captions_failure("No subtitles available", ""))
                    }
                },
                Event::LaunchFailed { reason } => self.finish(
                    captions_failure("Failed to download subtitles: ", reason.as_str()),
                ),
                _ => self.stay(),
            },
            Stage::AwaitContent => {
                proof {
                    reveal_strlit("");
                    assert(""@ =~= Seq::<char>::empty());
                }
                match event {
                    Event::Read { content } => {
                        let transcript = parse_vtt_to_text(content.as_str());
                        if to_chars(transcript.as_str()).len() > 0 {
                            self.finish(Ok(transcript))
                        } else {
                            self.finish(captions_failure("No subtitle files found", ""))
                        }
                    },
                    Event::ReadFailed { reason } => self.finish(
                        captions_failure("No subtitle files found", ""),
                    ),
                    _ => self.stay(),
                }
            },
            Stage::AwaitInputProbe => match event {
                Event::Probed { exists } => {
                    if !exists {
                        let e = failure(
                            ErrorKind::InputFileMissing,
                            "File not found: ",
                            self.source.as_str(),
                        );
                        self.finish(Err(e))
                    } else if self.model.is_none() {
                        self.finish(missing_recognizer())
                    } else {
                        let args = waveform_args(self.source.as_str(), self.media_path.as_str());
                        self.proceed(
                            Stage::AwaitPrepared,
                            Step::Run { tool: ToolKind::Transcoder, args },
                        )
                    }
                },
                _ => self.stay(),
            },
            Stage::AwaitPrepared => match event {
                Event::Exited { success, stdout, stderr } => {
                    if success {
                        let step = self.recognize();
                        self.proceed(Stage::AwaitRecognition, step)
                    } else {
                        let outcome = self.prepare_failure(
                            ErrorKind::ToolExitedNonZero,
                            stderr.as_str(),
                        );
                        self.finish(outcome)
                    }
                },
                Event::LaunchFailed { reason } => {
                    let outcome = self.prepare_failure(
                        ErrorKind::ToolLaunchFailed,
                        reason.as_str(),
                    );
                    self.finish(outcome)
                },
                _ => self.stay(),
            },
            Stage::AwaitRecognition => match event {
                Event::Exited { success, stdout, stderr } => {
                    if !success {
                        let e = failure(
                            ErrorKind::ToolExitedNonZero,
                            "whisper.cpp transcription failed: ",
                            stderr.as_str(),
                        );
                        self.finish(Err(e))
                    } else if self.kind == FlowKind::FromFile {
                        let path = self.transcript_path();
                        self.proceed(Stage::AwaitTranscriptProbe, Step::Probe { path })
                    } else {
                        let path = self.transcript_path();
                        self.proceed(Stage::AwaitTranscript, Step::Read { path })
                    }
                },
                Event::LaunchFailed { reason } => {
                    let e = failure(
                        ErrorKind::ToolLaunchFailed,
                        "whisper.cpp failed: ",
                        reason.as_str(),
                    );
                    self.finish(Err(e))
                },
                _ => self.stay(),
            },
            Stage::AwaitTranscriptProbe => match event {
                Event::Probed { exists } => {
                    if exists {
                        let path = self.transcript_path();
                        self.proceed(Stage::AwaitTranscript, Step::Read { path })
                    } else {
                        let path = self.output_base.clone();
                        self.proceed(Stage::AwaitBareProbe, Step::Probe { path })
                    }
                },
                _ => self.stay(),
            },
            Stage::AwaitBareProbe => match event {
                Event::Probed { exists } => {
                    if exists {
                        let path = self.output_base.clone();
                        self.proceed(Stage::AwaitTranscript, Step::Read { path })
                    } else {
                        let places = self.transcript_path().concat(" or ").concat(
                            self.output_base.as_str(),
                        );
                        let e = failure(
                            ErrorKind::TranscriptFileMissing,
                            "Transcript file not found at ",
                            places.as_str(),
                        );
                        self.finish(Err(e))
                    }
                },
                _ => self.stay(),
            },
            Stage::AwaitTranscript => match event {
                Event::Read { content } => {
                    let text = trim(&to_chars(content.as_str()));
                    self.finish(Ok(from_chars(&text)))
                },
                Event::ReadFailed { reason } => {
                    let e = failure(
                        ErrorKind::TranscriptFileMissing,
                        "Failed to read transcript: ",
                        reason.as_str(),
                    );
                    self.finish(Err(e))
                },
                _ => self.stay(),
            },
            Stage::Finished => self.stay(),
        }
    }
}

/// What a sequence of events does to a flow: the state after the last event
/// and the directives given, one for each event, in order.
pub open spec fn run_flow(st: FlowState, events: Seq<EventText>) -> (
    FlowState,
    Seq<DirectiveText>,
)
    decreases events.len(),
{
    if events.len() == 0 {
        (st, Seq::empty())
    } else {
        let first = advance_spec(st, events[0]);
        let rest = run_flow(first.0, events.drop_first());
        (rest.0, seq![first.1] + rest.1)
    }
}

/// One event finishes a flow exactly when the flow is over afterwards and
/// was not before. The directive that finishes it removes every temporary
/// file that may exist; any other directive removes nothing, and no
/// temporary file that may exist is lost sight of. A flow that is over stays
/// as it is.
pub proof fn lemma_advance(st: FlowState, ev: EventText)
    ensures
        advance_spec(st, ev).1.step is Finish <==> st.stage != Stage::Finished && advance_spec(
            st,
            ev,
        ).0.stage == Stage::Finished,
        advance_spec(st, ev).1.step is Finish ==> advance_spec(st, ev).1.remove == temp_files(st),
        !(advance_spec(st, ev).1.step is Finish) ==> advance_spec(st, ev).1.remove
            == Seq::<Seq<char>>::empty(),
        !(advance_spec(st, ev).1.step is Finish) ==> forall|path: Seq<char>|
            temp_files(st).contains(path) ==> temp_files(advance_spec(st, ev).0).contains(path),
        st.stage == Stage::Finished ==> advance_spec(st, ev) == stay(st),
        advance_spec(st, ev).0.kind == st.kind,
{
    let next = advance_spec(st, ev).0;
    if !(advance_spec(st, ev).1.step is Finish) {
        assert forall|path: Seq<char>| temp_files(st).contains(path) implies temp_files(
            next,
        ).contains(path) by {
            let i = choose|i: int| 0 <= i < temp_files(st).len() && temp_files(st)[i] == path;
            assert(temp_files(next)[i] == path);
        }
    }
}

/// The files that a program is told to write are temporary files of the
/// flow while it waits for that program and from then on: the caption file
/// behind the base name given to the extractor, the waveform given to the
/// transcoder, and the transcript behind the base name given to the
/// recognizer, which reads the media file.
pub proof fn lemma_outputs_are_guarded(st: FlowState, ev: EventText)
    ensures
        match advance_spec(st, ev).1.step {
            StepText::Run { tool, args } => {
                let next = advance_spec(st, ev).0;
                match tool {
                    ToolKind::Extractor => args.len() == 9 && args[6] == "--output"@ && args[7]
                        + ".en.vtt"@ == next.media_path && temp_files(next) == seq![
                        next.media_path,
                    ],
                    ToolKind::Transcoder => args.len() == 10 && args[8] == next.media_path
                        && temp_files(next) == seq![next.media_path],
                    ToolKind::SpeechRecognizer => args.len() == 10 && args[2] == "-f"@ && args[3]
                        == next.media_path && args[5] == "-of"@ && args[6] == next.output_base
                        && temp_files(next).contains(next.media_path) && temp_files(
                        next,
                    ).contains(transcript_path_of(next)),
                }
            },
            _ => true,
        },
{
    let next = advance_spec(st, ev).0;
    match advance_spec(st, ev).1.step {
        StepText::Run { tool, args } => {
            if tool == ToolKind::SpeechRecognizer {
                assert(temp_files(next)[0] == next.media_path);
                assert(temp_files(next)[1] == transcript_path_of(next));
            }
        },
        _ => {},
    }
}

/// The file to which a flow for an address has the audio extracted is a
/// temporary file of the flow from its start.
pub proof fn lemma_audio_is_guarded(
    url: Seq<char>,
    now_secs: nat,
    cookies_present: bool,
    transcoder: Seq<char>,
    model: Option<Seq<char>>,
)
    requires
        model is Some,
    ensures
        ({
            let start = from_url_start(url, now_secs, cookies_present, transcoder, model);
            &&& start.1.step is Run
            &&& start.1.step->Run_args.contains(start.0.media_path)
            &&& temp_files(start.0) == seq![start.0.media_path]
        }),
{
    let start = from_url_start(url, now_secs, cookies_present, transcoder, model);
    let args = start.1.step->Run_args;
    let head = transcoder_args_of(transcoder);
    assert(args[head.len() as int + 6] == start.0.media_path);
}

/// A temporary file that may exist at some point of a flow is removed by the
/// directive that finishes the flow, whatever happens in between.
pub proof fn lemma_flow_cleans_up(st: FlowState, events: Seq<EventText>, path: Seq<char>)
    requires
        temp_files(st).contains(path),
        run_flow(st, events).0.stage == Stage::Finished,
    ensures
        exists|k: int|
            0 <= k < run_flow(st, events).1.len() && (#[trigger] run_flow(
                st,
                events,
            ).1[k]).step is Finish && run_flow(st, events).1[k].remove.contains(path),
    decreases events.len(),
{
    if events.len() == 0 {
        assert(temp_files(st) =~= Seq::<Seq<char>>::empty());
    } else {
        let first = advance_spec(st, events[0]);
        let rest = run_flow(first.0, events.drop_first());
        let all = run_flow(st, events).1;
        lemma_advance(st, events[0]);
        if first.1.step is Finish {
            assert(all[0] == first.1);
        } else {
            lemma_flow_cleans_up(first.0, events.drop_first(), path);
            let k = choose|k: int|
                0 <= k < rest.1.len() && (#[trigger] rest.1[k]).step is Finish
                    && rest.1[k].remove.contains(path);
            assert(all[k + 1] == rest.1[k]);
        }
    }
}

/// The number of directives in `ds` that finish a flow.
pub open spec fn finish_count(ds: Seq<DirectiveText>) -> nat
    decreases ds.len(),
{
    if ds.len() == 0 {
        0
    } else {
        finish_count(ds.drop_first()) + if ds[0].step is Finish {
            1nat
        } else {
            0nat
        }
    }
}

/// Whatever a flow is told, it finishes at most once: once exactly when it
/// is over afterwards and was not before.
pub proof fn lemma_flow_finishes_once(st: FlowState, events: Seq<EventText>)
    ensures
        finish_count(run_flow(st, events).1) == if st.stage != Stage::Finished && run_flow(
            st,
            events,
        ).0.stage == Stage::Finished {
            1nat
        } else {
            0nat
        },
        st.stage == Stage::Finished ==> run_flow(st, events).0 == st,
    decreases events.len(),
{
    if events.len() > 0 {
        let first = advance_spec(st, events[0]);
        let rest = run_flow(first.0, events.drop_first());
        let all = run_flow(st, events).1;
        lemma_advance(st, events[0]);
        lemma_flow_finishes_once(first.0, events.drop_first());
        assert(all.drop_first() =~= rest.1);
        assert(all[0] == first.1);
    }
}

} // verus!
