//! Where the external programs are found.

use crate::error::{ErrorKind, ErrorText, ToolError};
use crate::paths::{join_path, joined};
use crate::text::{owned_text, same_str, strings};
use vstd::prelude::*;
use vstd::string::StringExecFns;

verus! {

/// The external programs.
#[derive(Clone, Copy, Debug, PartialEq, Eq, Structural)]
pub enum ToolKind {
    Extractor,
    Transcoder,
    SpeechRecognizer,
}

/// How a program is started.
#[derive(Clone, Copy, Debug, PartialEq, Eq, Structural)]
pub enum InvocationMode {
    /// The file is run as it is.
    Native,
    /// The file is a script that is handed to its interpreter.
    InterpretedFallback,
}

/// A program that has been located. `model_path` is the model file that a
/// speech recognizer was found with.
#[derive(Debug)]
pub struct ToolBinary {
    pub kind: ToolKind,
    pub resolved_path: String,
    pub invocation_mode: InvocationMode,
    pub model_path: Option<String>,
}

/// A located program as plain values.
pub struct ToolText {
    pub kind: ToolKind,
    pub resolved_path: Seq<char>,
    pub invocation_mode: InvocationMode,
    pub model_path: Option<Seq<char>>,
}

impl View for ToolBinary {
    type V = ToolText;

    open spec fn view(&self) -> ToolText {
        ToolText {
            kind: self.kind,
            resolved_path: self.resolved_path@,
            invocation_mode: self.invocation_mode,
            model_path: owned_text(self.model_path),
        }
    }
}

/// The directories in which programs are looked for. `bundle_dir` is the
/// root of the application bundle, `exe_dir` the directory that holds the
/// running executable, `build_dir` the root of the development tree. Each is
/// absent where it is unknown.
#[derive(Debug)]
pub struct Layout {
    pub bundle_dir: Option<String>,
    pub exe_dir: Option<String>,
    pub build_dir: Option<String>,
}

/// The search directories as plain values.
pub struct LayoutText {
    pub bundle_dir: Option<Seq<char>>,
    pub exe_dir: Option<Seq<char>>,
    pub build_dir: Option<Seq<char>>,
}

impl View for Layout {
    type V = LayoutText;

    open spec fn view(&self) -> LayoutText {
        LayoutText {
            bundle_dir: owned_text(self.bundle_dir),
            exe_dir: owned_text(self.exe_dir),
            build_dir: owned_text(self.build_dir),
        }
    }
}

/// A place where a program may be: its file, the model file that must be
/// there with it, and how it would be started.
#[derive(Debug)]
pub struct Candidate {
    pub path: String,
    pub model_path: Option<String>,
    pub invocation_mode: InvocationMode,
}

/// A candidate as plain values.
pub struct CandidateText {
    pub path: Seq<char>,
    pub model_path: Option<Seq<char>>,
    pub invocation_mode: InvocationMode,
}

impl View for Candidate {
    type V = CandidateText;

    open spec fn view(&self) -> CandidateText {
        CandidateText {
            path: self.path@,
            model_path: owned_text(self.model_path),
            invocation_mode: self.invocation_mode,
        }
    }
}

/// The candidates held by a vector, as plain values.
pub open spec fn candidate_texts(cs: Seq<Candidate>) -> Seq<CandidateText> {
    Seq::new(cs.len(), |i: int| cs[i]@)
}

/// The name of a program's file.
pub open spec fn file_name_of(kind: ToolKind) -> Seq<char> {
    match kind {
        ToolKind::Extractor => "yt-dlp"@,
        ToolKind::Transcoder => "ffmpeg"@,
        ToolKind::SpeechRecognizer => "whisper"@,
    }
}

/// The name of the recognizer's model file.
pub open spec fn model_name() -> Seq<char> {
    "ggml-base.en.bin"@
}

/// The directory of bundled programs in a bundle.
pub open spec fn bundled_dir_of(bundle_dir: Seq<char>) -> Seq<char> {
    joined(joined(bundle_dir, "Resources"@), "resources"@)
}

/// The directory of programs beside an executable or in a development tree.
pub open spec fn beside_dir_of(dir: Seq<char>) -> Seq<char> {
    joined(dir, "resources"@)
}

/// The candidate for the program `kind` in the directory `dir`; a speech
/// recognizer needs its model in the same directory.
pub open spec fn candidate_in(kind: ToolKind, dir: Seq<char>) -> CandidateText {
    CandidateText {
        path: joined(dir, file_name_of(kind)),
        model_path: if kind == ToolKind::SpeechRecognizer {
            Some(joined(dir, model_name()))
        } else {
            None
        },
        invocation_mode: InvocationMode::Native,
    }
}

/// The script that stands in for the extractor in the directory `dir`.
pub open spec fn script_in(dir: Seq<char>) -> CandidateText {
    CandidateText {
        path: joined(dir, "yt-dlp.py"@),
        model_path: None,
        invocation_mode: InvocationMode::InterpretedFallback,
    }
}

/// The places where the program `kind` is looked for, in order: in the
/// bundle, for the extractor also as a script in the bundle, beside the
/// executable, and for the speech recognizer also in the development tree.
pub open spec fn candidates_of(kind: ToolKind, layout: LayoutText) -> Seq<CandidateText> {
    (match layout.bundle_dir {
        Some(dir) => if kind == ToolKind::Extractor {
            seq![candidate_in(kind, bundled_dir_of(dir)), script_in(bundled_dir_of(dir))]
        } else {
            seq![candidate_in(kind, bundled_dir_of(dir))]
        },
        None => Seq::empty(),
    }) + (match layout.exe_dir {
        Some(dir) => seq![candidate_in(kind, beside_dir_of(dir))],
        None => Seq::empty(),
    }) + (match layout.build_dir {
        Some(dir) => if kind == ToolKind::SpeechRecognizer {
            seq![candidate_in(kind, beside_dir_of(dir))]
        } else {
            Seq::empty()
        },
        None => Seq::empty(),
    })
}

/// The name of a program's file.
pub fn file_name(kind: ToolKind) -> (name: &'static str)
    ensures
        name@ == file_name_of(kind),
{
    match kind {
        ToolKind::Extractor => "yt-dlp",
        ToolKind::Transcoder => "ffmpeg",
        ToolKind::SpeechRecognizer => "whisper",
    }
}

fn native_candidate(kind: ToolKind, dir: &str) -> (c: Candidate)
    ensures
        c@ == candidate_in(kind, dir@),
{
    let model_path = match kind {
        ToolKind::SpeechRecognizer => Some(join_path(dir, "ggml-base.en.bin")),
        _ => None,
    };
    Candidate {
        path: join_path(dir, file_name(kind)),
        model_path,
        invocation_mode: InvocationMode::Native,
    }
}

/// The places where the program `kind` is looked for, in order.
pub fn candidates(kind: ToolKind, layout: &Layout) -> (cs: Vec<Candidate>)
    ensures
        candidate_texts(cs@) == candidates_of(kind, layout@),
{
    let mut cs: Vec<Candidate> = Vec::new();
    match &layout.bundle_dir {
        Some(dir) => {
            let inner = join_path(join_path(dir.as_str(), "Resources").as_str(), "resources");
            cs.push(native_candidate(kind, inner.as_str()));
            match kind {
                ToolKind::Extractor => {
                    cs.push(
                        Candidate {
                            path: join_path(inner.as_str(), "yt-dlp.py"),
                            model_path: None,
                            invocation_mode: InvocationMode::InterpretedFallback,
                        },
                    );
                },
                _ => {},
            }
        },
        None => {},
    }
    match &layout.exe_dir {
        Some(dir) => {
            let inner = join_path(dir.as_str(), "resources");
            cs.push(native_candidate(kind, inner.as_str()));
        },
        None => {},
    }
    match &layout.build_dir {
        Some(dir) => {
            match kind {
                ToolKind::SpeechRecognizer => {
                    let inner = join_path(dir.as_str(), "resources");
                    cs.push(native_candidate(kind, inner.as_str()));
                },
                _ => {},
            }
        },
        None => {},
    }
    assert(candidate_texts(cs@) =~= candidates_of(kind, layout@));
    cs
}

/// `path` is one of the files that exist.
pub open spec fn exists_among(existing: Seq<Seq<char>>, path: Seq<char>) -> bool {
    existing.contains(path)
}

/// The candidate's file exists, and its model file if it needs one.
pub open spec fn is_present(c: CandidateText, existing: Seq<Seq<char>>) -> bool {
    exists_among(existing, c.path) && match c.model_path {
        Some(model) => exists_among(existing, model),
        None => true,
    }
}

/// The index of the first candidate at or after `from` that is present;
/// `cs.len()` when none is.
pub open spec fn first_present(cs: Seq<CandidateText>, existing: Seq<Seq<char>>, from: int) -> int
    decreases cs.len() - from,
{
    if from < 0 || from >= cs.len() {
        cs.len() as int
    } else if is_present(cs[from], existing) {
        from
    } else {
        first_present(cs, existing, from + 1)
    }
}

/// `first_present` names a candidate that is present, and none before it is.
pub proof fn lemma_first_present(cs: Seq<CandidateText>, existing: Seq<Seq<char>>, from: int)
    requires
        0 <= from <= cs.len(),
    ensures
        from <= first_present(cs, existing, from) <= cs.len(),
        first_present(cs, existing, from) < cs.len() ==> is_present(
            cs[first_present(cs, existing, from)],
            existing,
        ),
        forall|j: int|
            from <= j < first_present(cs, existing, from) ==> !is_present(
                #[trigger] cs[j],
                existing,
            ),
    decreases cs.len() - from,
{
    if from < cs.len() {
        lemma_first_present(cs, existing, from + 1);
    }
}

/// The message that reports that the recognizer is missing.
pub open spec fn recognizer_missing() -> ErrorText {
    ErrorText {
        kind: ErrorKind::ToolNotFound,
        message: "whisper.cpp or model not found in resources"@,
    }
}

/// Where the program `kind` is, given the files that exist: the first
/// candidate that is present; failing that, the program's bare name, to be
/// found on the search path, except for the speech recognizer, which is then
/// not found.
pub open spec fn resolve_spec(
    kind: ToolKind,
    layout: LayoutText,
    existing: Seq<Seq<char>>,
) -> Result<ToolText, ErrorText> {
    let cs = candidates_of(kind, layout);
    let i = first_present(cs, existing, 0);
    if i < cs.len() {
        Ok(
            ToolText {
                kind,
                resolved_path: cs[i].path,
                invocation_mode: cs[i].invocation_mode,
                model_path: cs[i].model_path,
            },
        )
    } else if kind == ToolKind::SpeechRecognizer {
        Err(recognizer_missing())
    } else {
        Ok(
            ToolText {
                kind,
                resolved_path: file_name_of(kind),
                invocation_mode: InvocationMode::Native,
                model_path: None,
            },
        )
    }
}

/// Extractor and transcoder are always located, in the last resort by their
/// bare names. A speech recognizer that is located comes with its model, and
/// one that is not is reported as missing.
pub proof fn lemma_resolution(kind: ToolKind, layout: LayoutText, existing: Seq<Seq<char>>)
    ensures
        kind != ToolKind::SpeechRecognizer ==> resolve_spec(kind, layout, existing) is Ok,
        resolve_spec(kind, layout, existing) is Ok ==> resolve_spec(
            kind,
            layout,
            existing,
        )->Ok_0.kind == kind,
        kind == ToolKind::SpeechRecognizer ==> match resolve_spec(kind, layout, existing) {
            Ok(tool) => tool.model_path is Some && exists_among(existing, tool.resolved_path)
                && exists_among(existing, tool.model_path->0),
            Err(e) => e == recognizer_missing(),
        },
{
    lemma_first_present(candidates_of(kind, layout), existing, 0);
}

/// Whether `path` is one of the files that exist.
fn among(existing: &Vec<String>, path: &str) -> (r: bool)
    ensures
        r == exists_among(strings(existing@), path@),
{
    let mut i: usize = 0;
    while i < existing.len()
        invariant
            i <= existing.len(),
            forall|j: int| 0 <= j < i ==> strings(existing@)[j] != path@,
        decreases existing.len() - i,
    {
        if same_str(existing[i].as_str(), path) {
            assert(strings(existing@)[i as int] == path@);
            return true;
        }
        i += 1;
    }
    false
}

/// Whether the candidate's file exists, and its model file if it needs one.
fn present(c: &Candidate, existing: &Vec<String>) -> (r: bool)
    ensures
        r == is_present(c@, strings(existing@)),
{
    among(existing, c.path.as_str()) && match &c.model_path {
        Some(model) => among(existing, model.as_str()),
        None => true,
    }
}

/// The files of the first `n` candidates, in order: each candidate's own
/// file, followed by its model file if it needs one.
pub open spec fn files_of(cs: Seq<CandidateText>, n: int) -> Seq<Seq<char>>
    decreases n,
{
    if n <= 0 {
        Seq::empty()
    } else {
        files_of(cs, n - 1) + match cs[n - 1].model_path {
            Some(model) => seq![cs[n - 1].path, model],
            None => seq![cs[n - 1].path],
        }
    }
}

/// The files whose existence decides where the program `kind` is: the files
/// of all its candidates, in order.
pub fn probe_list(kind: ToolKind, layout: &Layout) -> (paths: Vec<String>)
    ensures
        strings(paths@) == files_of(
            candidates_of(kind, layout@),
            candidates_of(kind, layout@).len() as int,
        ),
{
    let cs = candidates(kind, layout);
    let mut paths: Vec<String> = Vec::new();
    let mut i: usize = 0;
    assert(strings(paths@) =~= Seq::<Seq<char>>::empty());
    while i < cs.len()
        invariant
            i <= cs.len(),
            candidate_texts(cs@) == candidates_of(kind, layout@),
            strings(paths@) == files_of(candidate_texts(cs@), i as int),
        decreases cs.len() - i,
    {
        let ghost before = strings(paths@);
        assert(candidate_texts(cs@)[i as int] == cs@[i as int]@);
        paths.push(cs[i].path.clone());
        assert(strings(paths@) =~= before.push(cs@[i as int].path@));
        match &cs[i].model_path {
            Some(model) => {
                paths.push(model.clone());
                assert(strings(paths@) =~= before + seq![cs@[i as int].path@, model@]);
            },
            None => {
                assert(strings(paths@) =~= before + seq![cs@[i as int].path@]);
            },
        }
        i += 1;
    }
    paths
}

/// Locates the program `kind`. `existing` holds the files that exist, of
/// those that `probe_list` asks about.
pub fn resolve(kind: ToolKind, layout: &Layout, existing: &Vec<String>) -> (r: Result<
    ToolBinary,
    ToolError,
>)
    ensures
        match r {
            Ok(tool) => resolve_spec(kind, layout@, strings(existing@)) == Ok::<
                ToolText,
                ErrorText,
            >(tool@),
            Err(e) => resolve_spec(kind, layout@, strings(existing@)) == Err::<
                ToolText,
                ErrorText,
            >(e@),
        },
{
    let cs = candidates(kind, layout);
    let ghost all = candidate_texts(cs@);
    let mut i: usize = 0;
    while i < cs.len()
        invariant
            i <= cs.len(),
            candidate_texts(cs@) == all,
            all == candidates_of(kind, layout@),
            first_present(all, strings(existing@), 0) == first_present(
                all,
                strings(existing@),
                i as int,
            ),
        decreases cs.len() - i,
    {
        assert(all[i as int] == cs@[i as int]@);
        if present(&cs[i], existing) {
            let c = &cs[i];
            let tool = ToolBinary {
                kind,
                resolved_path: c.path.clone(),
                invocation_mode: c.invocation_mode,
                model_path: c.model_path.clone(),
            };
            assert(tool@.model_path == all[i as int].model_path);
            return Ok(tool);
        }
        i += 1;
    }
    match kind {
        ToolKind::SpeechRecognizer => Err(
            ToolError {
                kind: ErrorKind::ToolNotFound,
                message: String::from_str("whisper.cpp or model not found in resources"),
            },
        ),
        _ => Ok(
            ToolBinary {
                kind,
                resolved_path: String::from_str(file_name(kind)),
                invocation_mode: InvocationMode::Native,
                model_path: None,
            },
        ),
    }
}

/// The programs as located once, to be handed to whatever needs them. The
/// speech recognizer is absent if it was not found.
#[derive(Debug)]
pub struct Toolbox {
    pub extractor: ToolBinary,
    pub transcoder: ToolBinary,
    pub recognizer: Option<ToolBinary>,
}

/// The bare name under which a program is found on the search path.
pub open spec fn by_name(kind: ToolKind) -> ToolText {
    ToolText {
        kind,
        resolved_path: file_name_of(kind),
        invocation_mode: InvocationMode::Native,
        model_path: None,
    }
}

fn named(kind: ToolKind) -> (tool: ToolBinary)
    ensures
        tool@ == by_name(kind),
{
    ToolBinary {
        kind,
        resolved_path: String::from_str(file_name(kind)),
        invocation_mode: InvocationMode::Native,
        model_path: None,
    }
}

impl Toolbox {
    /// Locates all three programs, given the files that exist.
    pub fn locate(layout: &Layout, existing: &Vec<String>) -> (tools: Toolbox)
        ensures
            Ok::<ToolText, ErrorText>(tools.extractor@) == resolve_spec(
                ToolKind::Extractor,
                layout@,
                strings(existing@),
            ),
            Ok::<ToolText, ErrorText>(tools.transcoder@) == resolve_spec(
                ToolKind::Transcoder,
                layout@,
                strings(existing@),
            ),
            match tools.recognizer {
                Some(tool) => Ok::<ToolText, ErrorText>(tool@) == resolve_spec(
                    ToolKind::SpeechRecognizer,
                    layout@,
                    strings(existing@),
                ),
                None => resolve_spec(ToolKind::SpeechRecognizer, layout@, strings(existing@))
                    is Err,
            },
    {
        let extractor = match resolve(ToolKind::Extractor, layout, existing) {
            Ok(tool) => tool,
            Err(_) => named(ToolKind::Extractor),
        };
        let transcoder = match resolve(ToolKind::Transcoder, layout, existing) {
            Ok(tool) => tool,
            Err(_) => named(ToolKind::Transcoder),
        };
        let recognizer = match resolve(ToolKind::SpeechRecognizer, layout, existing) {
            Ok(tool) => Some(tool),
            Err(_) => None,
        };
        Toolbox { extractor, transcoder, recognizer }
    }
}

/// The program to start and the arguments to give it, for a located tool:
/// a native program is started itself; a script is handed to its interpreter
/// as the first argument.
pub open spec fn command_line_of(tool: ToolText, args: Seq<Seq<char>>) -> (
    Seq<char>,
    Seq<Seq<char>>,
) {
    match tool.invocation_mode {
        InvocationMode::Native => (tool.resolved_path, args),
        InvocationMode::InterpretedFallback => ("python3"@, seq![tool.resolved_path] + args),
    }
}

/// The program to start and the arguments to give it, for a located tool.
pub fn command_line(tool: &ToolBinary, args: &Vec<String>) -> (r: (String, Vec<String>))
    ensures
        r.0@ == command_line_of(tool@, strings(args@)).0,
        strings(r.1@) == command_line_of(tool@, strings(args@)).1,
{
    let mut out: Vec<String> = Vec::new();
    let program = match tool.invocation_mode {
        InvocationMode::Native => tool.resolved_path.clone(),
        InvocationMode::InterpretedFallback => {
            out.push(tool.resolved_path.clone());
            String::from_str("python3")
        },
    };
    let ghost head = strings(out@);
    assert(head =~= match tool.invocation_mode {
        InvocationMode::Native => Seq::<Seq<char>>::empty(),
        InvocationMode::InterpretedFallback => seq![tool.resolved_path@],
    });
    let mut i: usize = 0;
    while i < args.len()
        invariant
            i <= args.len(),
            strings(out@) == head + strings(args@).take(i as int),
        decreases args.len() - i,
    {
        let ghost before = strings(out@);
        out.push(args[i].clone());
        assert(strings(out@) =~= before.push(args@[i as int]@));
        assert(before.push(args@[i as int]@) =~= head + strings(args@).take(i + 1));
        i += 1;
    }
    assert(strings(args@).take(args.len() as int) =~= strings(args@));
    assert(Seq::<Seq<char>>::empty() + strings(args@) =~= strings(args@));
    (program, out)
}

/// The extractor's path as one text: a script's path is marked by the prefix
/// `PYTHON:`.
pub open spec fn marked_path_of(tool: ToolText) -> Seq<char> {
    match tool.invocation_mode {
        InvocationMode::Native => tool.resolved_path,
        InvocationMode::InterpretedFallback => "PYTHON:"@ + tool.resolved_path,
    }
}

/// The path of the extractor: the bundled program, else the bundled script
/// with the prefix `PYTHON:`, else the program beside the executable, else
/// the bare name `yt-dlp`.
pub fn get_ytdlp_path(layout: &Layout, existing: &Vec<String>) -> (path: String)
    ensures
        resolve_spec(ToolKind::Extractor, layout@, strings(existing@)) is Ok,
        path@ == marked_path_of(
            resolve_spec(ToolKind::Extractor, layout@, strings(existing@))->Ok_0,
        ),
{
    match resolve(ToolKind::Extractor, layout, existing) {
        Ok(tool) => match tool.invocation_mode {
            InvocationMode::Native => tool.resolved_path,
            InvocationMode::InterpretedFallback => String::from_str("PYTHON:").concat(
                tool.resolved_path.as_str(),
            ),
        },
        Err(_) => String::from_str("yt-dlp"),
    }
}

/// The path of the transcoder: the bundled program, else the program beside
/// the executable, else the bare name `ffmpeg`.
pub fn get_ffmpeg_path(layout: &Layout, existing: &Vec<String>) -> (path: String)
    ensures
        resolve_spec(ToolKind::Transcoder, layout@, strings(existing@)) is Ok,
        path@ == resolve_spec(
            ToolKind::Transcoder,
            layout@,
            strings(existing@),
        )->Ok_0.resolved_path,
{
    match resolve(ToolKind::Transcoder, layout, existing) {
        Ok(tool) => tool.resolved_path,
        Err(_) => String::from_str("ffmpeg"),
    }
}

/// The paths of the speech recognizer and of its model: the first place, of
/// the bundle, the directory beside the executable and the development tree,
/// where both files exist. There is no fallback to a bare name.
pub fn get_whisper_path(layout: &Layout, existing: &Vec<String>) -> (r: Result<
    (String, String),
    ToolError,
>)
    ensures
        match r {
            Ok(paths) => {
                let found = resolve_spec(ToolKind::SpeechRecognizer, layout@, strings(existing@));
                found is Ok && paths.0@ == found->Ok_0.resolved_path && Some(paths.1@)
                    == found->Ok_0.model_path
            },
            Err(e) => resolve_spec(ToolKind::SpeechRecognizer, layout@, strings(existing@))
                == Err::<ToolText, ErrorText>(e@) && e@ == recognizer_missing(),
        },
{
    proof {
        lemma_first_present(
            candidates_of(ToolKind::SpeechRecognizer, layout@),
            strings(existing@),
            0,
        );
    }
    match resolve(ToolKind::SpeechRecognizer, layout, existing) {
        Ok(tool) => match tool.model_path {
            Some(model) => Ok((tool.resolved_path, model)),
            None => Err(
                ToolError {
                    kind: ErrorKind::ToolNotFound,
                    message: String::from_str("whisper.cpp or model not found in resources"),
                },
            ),
        },
        Err(e) => Err(e),
    }
}

} // verus!
