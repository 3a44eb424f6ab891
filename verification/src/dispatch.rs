//! The life of one streaming job: parsed output lines become events for the
//! user interface, and a job ends at most once.

use crate::percent::reaches_hundred;
use crate::progress::{parse_progress, progress_of, ProgressEvent, ProgressText};
use crate::status::{
    classify, classify_error_line, classify_spec, failure_label, is_failure, lemma_first_rule,
    LineKind, Phase, rule_texts, RuleText, StatusRule, universal_rules, universal_table,
    youtube_rules, youtube_table,
};
use crate::text::{from_chars, has_sub, to_chars, trim, trimmed};
use vstd::prelude::*;
use vstd::string::StringExecFns;

verus! {

/// The record of one streaming job.
#[derive(Debug)]
pub struct JobHandle {
    /// Opaque token that tells this job from every other.
    pub job_id: String,
    /// Shown to the user; a placeholder until the title is known.
    pub display_name: String,
    /// Where the finished file is expected.
    pub destination_path: String,
    /// Seconds since the epoch at which the job was started.
    pub started_at: u64,
}

/// A job record as plain values.
pub struct JobText {
    pub job_id: Seq<char>,
    pub display_name: Seq<char>,
    pub destination_path: Seq<char>,
    pub started_at: u64,
}

impl View for JobHandle {
    type V = JobText;

    open spec fn view(&self) -> JobText {
        JobText {
            job_id: self.job_id@,
            display_name: self.display_name@,
            destination_path: self.destination_path@,
            started_at: self.started_at,
        }
    }
}

/// A job token: 36 characters, lower-case hexadecimal digits but for a
/// hyphen at each of the indices 8, 13, 18 and 23.
pub open spec fn is_job_token(s: Seq<char>) -> bool {
    &&& s.len() == 36
    &&& forall|i: int|
        0 <= i < 36 ==> if i == 8 || i == 13 || i == 18 || i == 23 {
            s[i] == '-'
        } else {
            ('0' <= #[trigger] s[i] <= '9') || ('a' <= s[i] <= 'f')
        }
}

/// `uuid::Uuid::new_v4` draws a random identifier from the operating
/// system's generator, and `to_string` writes it in lower-case hexadecimal
/// digits in five groups joined by hyphens. The contract states that shape
/// and nothing of the digits. The call stops the program if the generator
/// cannot be read.
#[verifier::external_body]
fn fresh_token() -> (token: String)
    ensures
        is_job_token(token@),
{
    uuid::Uuid::new_v4().to_string()
}

impl JobHandle {
    /// The record of a job with the token `job_id`.
    pub fn with_id(
        job_id: String,
        display_name: &str,
        destination_path: &str,
        started_at: u64,
    ) -> (job: JobHandle)
        ensures
            job@ == (JobText {
                job_id: job_id@,
                display_name: display_name@,
                destination_path: destination_path@,
                started_at,
            }),
    {
        JobHandle {
            job_id,
            display_name: String::from_str(display_name),
            destination_path: String::from_str(destination_path),
            started_at,
        }
    }

    /// The record of a new job, with a token of its own.
    pub fn create(display_name: &str, destination_path: &str, started_at: u64) -> (job: JobHandle)
        ensures
            is_job_token(job@.job_id),
            job@.display_name == display_name@,
            job@.destination_path == destination_path@,
            job@.started_at == started_at,
    {
        JobHandle::with_id(fresh_token(), display_name, destination_path, started_at)
    }
}

/// What is sent to the user interface.
#[derive(Debug)]
pub enum UiEvent {
    /// The job entered a phase; `label` is the text to show, and `percent`
    /// holds the place of a percentage: it is always zero.
    Status { job_id: String, display_name: String, label: String, phase: Phase, percent: u8 },
    /// The tool reported progress.
    Progress { job_id: String, display_name: String, progress: ProgressEvent },
    /// The job is complete and its file is at `path`.
    Complete { display_name: String, path: String },
}

/// An event as plain values.
pub enum UiEventText {
    Status {
        job_id: Seq<char>,
        display_name: Seq<char>,
        label: Seq<char>,
        phase: Phase,
        percent: u8,
    },
    Progress { job_id: Seq<char>, display_name: Seq<char>, progress: ProgressText },
    Complete { display_name: Seq<char>, path: Seq<char> },
}

impl View for UiEvent {
    type V = UiEventText;

    open spec fn view(&self) -> UiEventText {
        match self {
            UiEvent::Status { job_id, display_name, label, phase, percent } => UiEventText::Status {
                job_id: job_id@,
                display_name: display_name@,
                label: label@,
                phase: *phase,
                percent: *percent,
            },
            UiEvent::Progress { job_id, display_name, progress } => UiEventText::Progress {
                job_id: job_id@,
                display_name: display_name@,
                progress: progress@,
            },
            UiEvent::Complete { display_name, path } => UiEventText::Complete {
                display_name: display_name@,
                path: path@,
            },
        }
    }
}

/// The events held by a vector, as plain values.
pub open spec fn event_texts(events: Seq<UiEvent>) -> Seq<UiEventText> {
    Seq::new(events.len(), |i: int| events[i]@)
}

/// The state of a job's dispatcher as plain values.
pub struct DispatcherState {
    pub job: JobText,
    pub rules: Seq<RuleText>,
    pub connecting_label: Seq<char>,
    pub phase: Phase,
}

/// Turns the output of one job into events. It owns the job's record, the
/// rule table for its site and the phase the job is in.
#[derive(Debug)]
pub struct Dispatcher {
    job: JobHandle,
    rules: Vec<StatusRule>,
    connecting_label: String,
    phase: Phase,
}

impl View for Dispatcher {
    type V = DispatcherState;

    closed spec fn view(&self) -> DispatcherState {
        DispatcherState {
            job: self.job@,
            rules: rule_texts(self.rules@),
            connecting_label: self.connecting_label@,
            phase: self.phase,
        }
    }
}

/// The status event of `st`'s job with the given label and phase.
pub open spec fn status_of(st: DispatcherState, label: Seq<char>, phase: Phase) -> UiEventText {
    UiEventText::Status {
        job_id: st.job.job_id,
        display_name: st.job.display_name,
        label,
        phase,
        percent: 0,
    }
}

/// The completion event of `st`'s job.
pub open spec fn completion_of(st: DispatcherState) -> UiEventText {
    UiEventText::Complete { display_name: st.job.display_name, path: st.job.destination_path }
}

/// `st` moved to `phase`.
pub open spec fn in_phase(st: DispatcherState, phase: Phase) -> DispatcherState {
    DispatcherState { phase, ..st }
}

/// The label of the first status event of every job.
pub open spec fn initial_label() -> Seq<char> {
    "Initializing download..."@
}

/// `st` moved to `phase`, unless the job has ended: a job that has ended
/// stays in the phase in which it ended.
pub open spec fn moved(st: DispatcherState, phase: Phase) -> DispatcherState {
    if st.phase.is_terminal() {
        st
    } else {
        in_phase(st, phase)
    }
}

/// What one line of standard output does to a job. A status line is
/// announced and moves the job to its phase, except a merge line, which is
/// passed over. A progress line is announced. What ends a job is sent once
/// only, to a job that has not ended: the completion, behind a progress
/// line that reports one hundred percent or more and for a line that says
/// that the file was there already; and a status that puts the job in a
/// terminal phase.
pub open spec fn stdout_step(st: DispatcherState, line: Seq<char>) -> (
    DispatcherState,
    Seq<UiEventText>,
) {
    let ended = st.phase.is_terminal();
    match classify_spec(line, st.rules) {
        None => (st, Seq::empty()),
        Some(i) => match st.rules[i].kind {
            LineKind::Status(phase) => if phase == Phase::Merging || (ended
                && phase.is_terminal()) {
                (st, Seq::empty())
            } else {
                (moved(st, phase), seq![status_of(st, st.rules[i].label, phase)])
            },
            LineKind::Progress => match progress_of(line) {
                None => (st, Seq::empty()),
                Some(progress) => {
                    let report = UiEventText::Progress {
                        job_id: st.job.job_id,
                        display_name: st.job.display_name,
                        progress,
                    };
                    if reaches_hundred(progress.percent) && !ended {
                        (in_phase(st, Phase::Complete), seq![report, completion_of(st)])
                    } else {
                        (st, seq![report])
                    }
                },
            },
            LineKind::AlreadyDownloaded => if ended {
                (st, Seq::empty())
            } else {
                (in_phase(st, Phase::Complete), seq![completion_of(st)])
            },
        },
    }
}

/// What one line of standard error does to a job: a failure line ends a job
/// that has not ended yet and is announced; every other line is passed over.
pub open spec fn stderr_step(st: DispatcherState, line: Seq<char>) -> (
    DispatcherState,
    Seq<UiEventText>,
) {
    if st.phase.is_terminal() || !is_failure(line) {
        (st, Seq::empty())
    } else {
        (in_phase(st, Phase::Error), seq![status_of(st, failure_label(line), Phase::Error)])
    }
}

/// What the answer to the title query does to a job: a title that is not
/// blank becomes the display name and is announced; a job that has not
/// ended is then connecting.
pub open spec fn title_step(st: DispatcherState, answer: Seq<char>) -> (
    DispatcherState,
    Seq<UiEventText>,
) {
    let title = trimmed(answer);
    if title.len() == 0 {
        (st, Seq::empty())
    } else {
        let named = DispatcherState { job: JobText { display_name: title, ..st.job }, ..st };
        (
            moved(named, Phase::Connecting),
            seq![status_of(named, st.connecting_label, Phase::Connecting)],
        )
    }
}

impl Dispatcher {
    /// Starts dispatching for `job` with the rule table `rules`. The job is
    /// in its first phase, which the returned event announces.
    /// `connecting_label` is shown when the title arrives.
    pub fn begin(job: JobHandle, rules: Vec<StatusRule>, connecting_label: &str) -> (r: (
        Dispatcher,
        UiEvent,
    ))
        ensures
            r.0@ == (DispatcherState {
                job: job@,
                rules: rule_texts(rules@),
                connecting_label: connecting_label@,
                phase: Phase::Initializing,
            }),
            r.1@ == status_of(r.0@, initial_label(), Phase::Initializing),
    {
        let first = UiEvent::Status {
            job_id: job.job_id.clone(),
            display_name: job.display_name.clone(),
            label: String::from_str("Initializing download..."),
            phase: Phase::Initializing,
            percent: 0,
        };
        let dispatcher = Dispatcher {
            job,
            rules,
            connecting_label: String::from_str(connecting_label),
            phase: Phase::Initializing,
        };
        (dispatcher, first)
    }

    /// Starts dispatching for a download from the video site.
    pub fn for_youtube(job: JobHandle) -> (r: (Dispatcher, UiEvent))
        ensures
            r.0@ == (DispatcherState {
                job: job@,
                rules: youtube_table(),
                connecting_label: "Connecting to YouTube..."@,
                phase: Phase::Initializing,
            }),
            r.1@ == status_of(r.0@, initial_label(), Phase::Initializing),
    {
        Dispatcher::begin(job, youtube_rules(), "Connecting to YouTube...")
    }

    /// Starts dispatching for a download from any other site.
    pub fn for_universal(job: JobHandle) -> (r: (Dispatcher, UiEvent))
        ensures
            r.0@ == (DispatcherState {
                job: job@,
                rules: universal_table(),
                connecting_label: "Connecting..."@,
                phase: Phase::Initializing,
            }),
            r.1@ == status_of(r.0@, initial_label(), Phase::Initializing),
    {
        Dispatcher::begin(job, universal_rules(), "Connecting...")
    }

    /// The phase the job is in.
    pub fn phase(&self) -> (r: Phase)
        ensures
            r == self@.phase,
    {
        self.phase
    }

    /// Whether the job has ended.
    pub fn is_finished(&self) -> (r: bool)
        ensures
            r == self@.phase.is_terminal(),
    {
        self.phase.terminal()
    }

    /// The job's record.
    pub fn job(&self) -> (r: &JobHandle)
        ensures
            r@ == self@.job,
    {
        &self.job
    }

    fn status(&self, label: String, phase: Phase) -> (r: UiEvent)
        ensures
            r@ == status_of(self@, label@, phase),
    {
        UiEvent::Status {
            job_id: self.job.job_id.clone(),
            display_name: self.job.display_name.clone(),
            label,
            phase,
            percent: 0,
        }
    }

    fn completion(&self) -> (r: UiEvent)
        ensures
            r@ == completion_of(self@),
    {
        UiEvent::Complete {
            display_name: self.job.display_name.clone(),
            path: self.job.destination_path.clone(),
        }
    }

    /// Takes one line of the tool's standard output and returns the events
    /// that it gives rise to, in order.
    pub fn on_stdout_line(&mut self, line: &str) -> (events: Vec<UiEvent>)
        ensures
            final(self)@ == stdout_step(old(self)@, line@).0,
            event_texts(events@) == stdout_step(old(self)@, line@).1,
    {
        let mut events: Vec<UiEvent> = Vec::new();
        assert(event_texts(events@) =~= Seq::<UiEventText>::empty());
        let ended = self.phase.terminal();
        match classify(line, &self.rules) {
            None => {},
            Some(i) => {
                assert(rule_texts(self.rules@)[i as int] == self.rules@[i as int]@);
                let kind = self.rules[i].kind;
                match kind {
                    LineKind::Status(phase) => {
                        if phase != Phase::Merging && !(ended && phase.terminal()) {
                            let event = self.status(self.rules[i].label.clone(), phase);
                            events.push(event);
                            assert(event_texts(events@) =~= seq![event@]);
                            if !ended {
                                self.phase = phase;
                            }
                        }
                    },
                    LineKind::Progress => {
                        match parse_progress(line) {
                            None => {},
                            Some(progress) => {
                                let done = progress.is_complete();
                                let report = UiEvent::Progress {
                                    job_id: self.job.job_id.clone(),
                                    display_name: self.job.display_name.clone(),
                                    progress,
                                };
                                events.push(report);
                                assert(event_texts(events@) =~= seq![report@]);
                                if done && !ended {
                                    let end = self.completion();
                                    events.push(end);
                                    assert(event_texts(events@) =~= seq![report@, end@]);
                                    self.phase = Phase::Complete;
                                }
                            },
                        }
                    },
                    LineKind::AlreadyDownloaded => {
                        if !ended {
                            let end = self.completion();
                            events.push(end);
                            assert(event_texts(events@) =~= seq![end@]);
                            self.phase = Phase::Complete;
                        }
                    },
                }
            },
        }
        events
    }

    /// Takes one line of the tool's standard error and returns the event
    /// that it gives rise to, if any.
    pub fn on_stderr_line(&mut self, line: &str) -> (events: Vec<UiEvent>)
        ensures
            final(self)@ == stderr_step(old(self)@, line@).0,
            event_texts(events@) == stderr_step(old(self)@, line@).1,
    {
        let mut events: Vec<UiEvent> = Vec::new();
        assert(event_texts(events@) =~= Seq::<UiEventText>::empty());
        if self.phase.terminal() {
            return events;
        }
        match classify_error_line(line) {
            None => {},
            Some(label) => {
                let event = self.status(label, Phase::Error);
                events.push(event);
                assert(event_texts(events@) =~= seq![event@]);
                self.phase = Phase::Error;
            },
        }
        events
    }

    /// Takes the answer to the title query and returns the event that it
    /// gives rise to, if any.
    pub fn on_title(&mut self, answer: &str) -> (events: Vec<UiEvent>)
        ensures
            final(self)@ == title_step(old(self)@, answer@).0,
            event_texts(events@) == title_step(old(self)@, answer@).1,
    {
        let mut events: Vec<UiEvent> = Vec::new();
        assert(event_texts(events@) =~= Seq::<UiEventText>::empty());
        let raw = to_chars(answer);
        let title = trim(&raw);
        if title.len() == 0 {
            return events;
        }
        self.job.display_name = from_chars(&title);
        let event = self.status(self.connecting_label.clone(), Phase::Connecting);
        if !self.phase.terminal() {
            self.phase = Phase::Connecting;
        }
        events.push(event);
        assert(event_texts(events@) =~= seq![event@]);
        events
    }
}

/// What a dispatcher is fed: a line of standard output, a line of standard
/// error, or the answer to the title query.
pub enum Input {
    Stdout(Seq<char>),
    Stderr(Seq<char>),
    Title(Seq<char>),
}

/// What one input does to a job.
pub open spec fn step(st: DispatcherState, input: Input) -> (DispatcherState, Seq<UiEventText>) {
    match input {
        Input::Stdout(line) => stdout_step(st, line),
        Input::Stderr(line) => stderr_step(st, line),
        Input::Title(answer) => title_step(st, answer),
    }
}

/// What a sequence of inputs does to a job: the state after the last input,
/// and all events in the order in which they are sent.
pub open spec fn run(st: DispatcherState, inputs: Seq<Input>) -> (
    DispatcherState,
    Seq<UiEventText>,
)
    decreases inputs.len(),
{
    if inputs.len() == 0 {
        (st, Seq::empty())
    } else {
        let first = step(st, inputs[0]);
        let rest = run(first.0, inputs.drop_first());
        (rest.0, first.1 + rest.1)
    }
}

/// An event that ends a job: a completion, or a status in a terminal phase.
pub open spec fn ends_job(e: UiEventText) -> bool {
    match e {
        UiEventText::Complete { .. } => true,
        UiEventText::Status { phase, .. } => phase.is_terminal(),
        UiEventText::Progress { .. } => false,
    }
}

/// The number of events in `es` that end a job.
pub open spec fn terminal_count(es: Seq<UiEventText>) -> nat
    decreases es.len(),
{
    if es.len() == 0 {
        0
    } else {
        terminal_count(es.drop_last()) + if ends_job(es.last()) {
            1nat
        } else {
            0nat
        }
    }
}

/// The number of completion events in `es`.
pub open spec fn complete_count(es: Seq<UiEventText>) -> nat
    decreases es.len(),
{
    if es.len() == 0 {
        0
    } else {
        complete_count(es.drop_last()) + if es.last() is Complete {
            1nat
        } else {
            0nat
        }
    }
}

/// No rule of the table puts a job in a terminal phase by itself.
pub open spec fn plain_table(rules: Seq<RuleText>) -> bool {
    forall|i: int|
        0 <= i < rules.len() ==> match (#[trigger] rules[i]).kind {
            LineKind::Status(phase) => !phase.is_terminal(),
            _ => true,
        }
}

/// The input is a line of standard output that signals completion: a progress
/// line that reports one hundred percent or more, or a line that says that
/// the file was there already.
pub open spec fn signals_completion(rules: Seq<RuleText>, input: Input) -> bool {
    match input {
        Input::Stdout(line) => match classify_spec(line, rules) {
            None => false,
            Some(i) => match rules[i].kind {
                LineKind::Status(_) => false,
                LineKind::Progress => match progress_of(line) {
                    None => false,
                    Some(progress) => reaches_hundred(progress.percent),
                },
                LineKind::AlreadyDownloaded => true,
            },
        },
        _ => false,
    }
}

/// Both counts add up over concatenation.
pub proof fn lemma_counts_add(a: Seq<UiEventText>, b: Seq<UiEventText>)
    ensures
        terminal_count(a + b) == terminal_count(a) + terminal_count(b),
        complete_count(a + b) == complete_count(a) + complete_count(b),
    decreases b.len(),
{
    if b.len() == 0 {
        assert(a + b =~= a);
    } else {
        assert((a + b).drop_last() =~= a + b.drop_last());
        assert((a + b).last() == b.last());
        lemma_counts_add(a, b.drop_last());
    }
}

/// Every completion event ends a job.
pub proof fn lemma_completions_end_jobs(es: Seq<UiEventText>)
    ensures
        complete_count(es) <= terminal_count(es),
    decreases es.len(),
{
    if es.len() > 0 {
        lemma_completions_end_jobs(es.drop_last());
    }
}

/// The counts of a sequence of at most two events.
pub proof fn lemma_counts_small(a: UiEventText, b: UiEventText)
    ensures
        terminal_count(Seq::empty()) == 0,
        complete_count(Seq::empty()) == 0,
        terminal_count(seq![a]) == if ends_job(a) {
            1nat
        } else {
            0nat
        },
        complete_count(seq![a]) == if a is Complete {
            1nat
        } else {
            0nat
        },
        terminal_count(seq![a, b]) == terminal_count(seq![a]) + terminal_count(seq![b]),
        complete_count(seq![a, b]) == complete_count(seq![a]) + complete_count(seq![b]),
{
    let none = Seq::<UiEventText>::empty();
    let one = seq![a];
    assert(terminal_count(none) == 0);
    assert(complete_count(none) == 0);
    assert(one.len() == 1);
    assert(one.drop_last() =~= none);
    assert(one.last() == a);
    assert(terminal_count(one) == terminal_count(one.drop_last()) + if ends_job(one.last()) {
        1nat
    } else {
        0nat
    });
    assert(complete_count(one) == complete_count(one.drop_last()) + if one.last() is Complete {
        1nat
    } else {
        0nat
    });
    assert(seq![a, b] =~= seq![a] + seq![b]);
    lemma_counts_add(seq![a], seq![b]);
}

/// One input changes neither rule table nor job identity. A job that has
/// ended stays in the phase in which it ended, and nothing that is sent to
/// it ends a job. To a job that has not ended an event that ends it is sent
/// exactly when the input puts it in a terminal phase; that event is the
/// last that the input gives rise to.
pub proof fn lemma_step(st: DispatcherState, input: Input)
    ensures
        step(st, input).0.rules == st.rules,
        step(st, input).0.job.job_id == st.job.job_id,
        st.phase.is_terminal() ==> step(st, input).0.phase == st.phase && terminal_count(
            step(st, input).1,
        ) == 0,
        !st.phase.is_terminal() ==> terminal_count(step(st, input).1) == if step(
            st,
            input,
        ).0.phase.is_terminal() {
            1nat
        } else {
            0nat
        },
        forall|i: int|
            0 <= i < step(st, input).1.len() && ends_job(#[trigger] step(st, input).1[i]) ==> i
                == step(st, input).1.len() - 1,
        complete_count(step(st, input).1) == if !st.phase.is_terminal() && signals_completion(
            st.rules,
            input,
        ) {
            1nat
        } else {
            0nat
        },
        !st.phase.is_terminal() && signals_completion(st.rules, input) ==> step(
            st,
            input,
        ).0.phase.is_terminal(),
        !st.phase.is_terminal() && plain_table(st.rules) && input is Stdout && !signals_completion(
            st.rules,
            input,
        ) ==> !step(st, input).0.phase.is_terminal(),
{
    let es = step(st, input).1;
    if es.len() == 0 {
        lemma_counts_small(completion_of(st), completion_of(st));
    } else if es.len() == 1 {
        lemma_counts_small(es[0], es[0]);
        assert(es =~= seq![es[0]]);
    } else {
        lemma_counts_small(es[0], es[1]);
        lemma_counts_small(es[1], es[0]);
        assert(es =~= seq![es[0], es[1]]);
    }
    match input {
        Input::Stdout(line) => {
            match classify_spec(line, st.rules) {
                None => {},
                Some(i) => {
                    crate::status::lemma_first_rule(line, st.rules, 0);
                },
            }
        },
        _ => {},
    }
}

/// Whatever a job is fed, at most one event ends it, so that there is at
/// most one completion event; one event ends it exactly when the job is in
/// a terminal phase afterwards and was not before; and a job that has ended
/// stays in the phase in which it ended.
pub proof fn lemma_run_ends_at_most_once(st: DispatcherState, inputs: Seq<Input>)
    ensures
        run(st, inputs).0.rules == st.rules,
        terminal_count(run(st, inputs).1) <= 1,
        complete_count(run(st, inputs).1) <= 1,
        st.phase.is_terminal() ==> run(st, inputs).0.phase == st.phase && terminal_count(
            run(st, inputs).1,
        ) == 0,
        !st.phase.is_terminal() ==> terminal_count(run(st, inputs).1) == if run(
            st,
            inputs,
        ).0.phase.is_terminal() {
            1nat
        } else {
            0nat
        },
    decreases inputs.len(),
{
    lemma_completions_end_jobs(run(st, inputs).1);
    lemma_counts_small(completion_of(st), completion_of(st));
    if inputs.len() > 0 {
        let first = step(st, inputs[0]);
        let rest = run(first.0, inputs.drop_first());
        lemma_step(st, inputs[0]);
        lemma_run_ends_at_most_once(first.0, inputs.drop_first());
        lemma_counts_add(first.1, rest.1);
    }
}

/// A progress line that can be read is announced whether or not the job has
/// ended: the report is the first event that the line gives rise to, and a
/// line that reaches a job that has ended gives rise to no other.
pub proof fn lemma_progress_is_announced(st: DispatcherState, line: Seq<char>)
    requires
        classify_spec(line, st.rules) is Some,
        st.rules[classify_spec(line, st.rules)->0].kind == LineKind::Progress,
        progress_of(line) is Some,
    ensures
        stdout_step(st, line).1.len() >= 1,
        stdout_step(st, line).1[0] == (UiEventText::Progress {
            job_id: st.job.job_id,
            display_name: st.job.display_name,
            progress: progress_of(line)->0,
        }),
        st.phase.is_terminal() ==> stdout_step(st, line).1.len() == 1,
{
}

/// A job that has not ended and is fed lines of standard output alone, in
/// any order and number, sends exactly one completion event if one of the
/// lines signals completion, and none otherwise.
pub proof fn lemma_exactly_one_completion(st: DispatcherState, inputs: Seq<Input>)
    requires
        !st.phase.is_terminal(),
        plain_table(st.rules),
        forall|k: int| 0 <= k < inputs.len() ==> #[trigger] inputs[k] is Stdout,
    ensures
        complete_count(run(st, inputs).1) == if exists|k: int|
            0 <= k < inputs.len() && signals_completion(st.rules, #[trigger] inputs[k]) {
            1nat
        } else {
            0nat
        },
    decreases inputs.len(),
{
    lemma_counts_small(completion_of(st), completion_of(st));
    if inputs.len() > 0 {
        let first = step(st, inputs[0]);
        let tail = inputs.drop_first();
        let rest = run(first.0, tail);
        lemma_step(st, inputs[0]);
        lemma_counts_add(first.1, rest.1);
        if signals_completion(st.rules, inputs[0]) {
            lemma_run_ends_at_most_once(first.0, tail);
            lemma_completions_end_jobs(rest.1);
        } else {
            assert(forall|k: int| 0 <= k < tail.len() ==> #[trigger] tail[k] == inputs[k + 1]);
            lemma_exactly_one_completion(first.0, tail);
            if exists|k: int|
                0 <= k < tail.len() && signals_completion(st.rules, #[trigger] tail[k]) {
                let k = choose|k: int|
                    0 <= k < tail.len() && signals_completion(st.rules, #[trigger] tail[k]);
                assert(signals_completion(st.rules, inputs[k + 1]));
            }
            if exists|k: int|
                0 <= k < inputs.len() && signals_completion(st.rules, #[trigger] inputs[k]) {
                let k = choose|k: int|
                    0 <= k < inputs.len() && signals_completion(st.rules, #[trigger] inputs[k]);
                assert(signals_completion(st.rules, tail[k - 1]));
            }
        }
    }
}

/// Neither built-in rule table puts a job in a terminal phase by itself.
pub proof fn lemma_built_in_tables_plain()
    ensures
        plain_table(youtube_table()),
        plain_table(universal_table()),
{
}

/// A line of standard error that holds the error marker together with the
/// marker of a file that was there already sends nothing. A line that holds
/// the error marker and neither harmless marker sends exactly one event to
/// a job that has not ended: the failure, which ends the job.
pub proof fn lemma_error_lines(st: DispatcherState, line: Seq<char>)
    ensures
        has_sub(line, "ERROR"@) && has_sub(line, "has already been downloaded"@) ==> stderr_step(
            st,
            line,
        ) == (st, Seq::<UiEventText>::empty()),
        !st.phase.is_terminal() && has_sub(line, "ERROR"@) && !has_sub(
            line,
            "has already been downloaded"@,
        ) && !has_sub(line, "The downloaded file is empty"@) ==> stderr_step(st, line).1
            == seq![status_of(st, failure_label(line), Phase::Error)] && stderr_step(
            st,
            line,
        ).0.phase == Phase::Error,
{
}

} // verus!
