//! Status and error lines of the extractor classified by ordered rule tables.

use crate::text::{contains, has_sub, strings, to_chars};
use vstd::prelude::*;
use vstd::string::StringExecFns;

verus! {

/// A coarse stage in the life of a streaming job.
#[derive(Clone, Copy, Debug, PartialEq, Eq, Structural)]
pub enum Phase {
    Initializing,
    Resolving,
    Connecting,
    FetchingMetadata,
    ProcessingStreams,
    Starting,
    Merging,
    Complete,
    Error,
}

impl Phase {
    /// `Complete` and `Error` end a job.
    pub open spec fn is_terminal(self) -> bool {
        self == Phase::Complete || self == Phase::Error
    }

    /// Whether the phase ends a job.
    pub fn terminal(self) -> (r: bool)
        ensures
            r == self.is_terminal(),
    {
        self == Phase::Complete || self == Phase::Error
    }
}

/// What a line of the extractor's output is taken for.
#[derive(Clone, Copy, Debug, PartialEq, Eq, Structural)]
pub enum LineKind {
    /// A lifecycle message that puts the job in a phase.
    Status(Phase),
    /// A progress report, to be read by the progress parser.
    Progress,
    /// The file was there already: the job is complete.
    AlreadyDownloaded,
}

/// One row of a rule table: a line that holds every needle is of `kind` and
/// is shown to the user as `label`.
#[derive(Debug)]
pub struct StatusRule {
    pub needles: Vec<String>,
    pub kind: LineKind,
    pub label: String,
}

/// A rule as plain text.
pub struct RuleText {
    pub needles: Seq<Seq<char>>,
    pub kind: LineKind,
    pub label: Seq<char>,
}

impl View for StatusRule {
    type V = RuleText;

    open spec fn view(&self) -> RuleText {
        RuleText { needles: strings(self.needles@), kind: self.kind, label: self.label@ }
    }
}

/// The rules held by a table.
pub open spec fn rule_texts(rules: Seq<StatusRule>) -> Seq<RuleText> {
    Seq::new(rules.len(), |i: int| rules[i]@)
}

/// `line` holds every needle of `rule`.
pub open spec fn rule_applies(line: Seq<char>, rule: RuleText) -> bool {
    forall|k: int| 0 <= k < rule.needles.len() ==> has_sub(line, #[trigger] rule.needles[k])
}

/// The index of the first rule at or after `from` that applies to `line`;
/// `rules.len()` when none does.
pub open spec fn first_rule(line: Seq<char>, rules: Seq<RuleText>, from: int) -> int
    decreases rules.len() - from,
{
    if from < 0 || from >= rules.len() {
        rules.len() as int
    } else if rule_applies(line, rules[from]) {
        from
    } else {
        first_rule(line, rules, from + 1)
    }
}

/// `first_rule` names a rule that applies, and none before it does.
pub proof fn lemma_first_rule(line: Seq<char>, rules: Seq<RuleText>, from: int)
    requires
        0 <= from <= rules.len(),
    ensures
        from <= first_rule(line, rules, from) <= rules.len(),
        first_rule(line, rules, from) < rules.len() ==> rule_applies(
            line,
            rules[first_rule(line, rules, from)],
        ),
        forall|j: int|
            from <= j < first_rule(line, rules, from) ==> !rule_applies(line, #[trigger] rules[j]),
    decreases rules.len() - from,
{
    if from < rules.len() {
        lemma_first_rule(line, rules, from + 1);
    }
}

/// The rule that classifies `line`: only a line that begins with `[` is
/// classified, and the first rule that applies wins.
pub open spec fn classify_spec(line: Seq<char>, rules: Seq<RuleText>) -> Option<int> {
    if line.len() > 0 && line[0] == '[' && first_rule(line, rules, 0) < rules.len() {
        Some(first_rule(line, rules, 0))
    } else {
        None
    }
}

/// Whether `line` holds every needle of `rule`.
fn applies(line: &Vec<char>, rule: &StatusRule) -> (r: bool)
    ensures
        r == rule_applies(line@, rule@),
{
    let mut k: usize = 0;
    while k < rule.needles.len()
        invariant
            k <= rule.needles.len(),
            forall|j: int| 0 <= j < k ==> has_sub(line@, #[trigger] rule@.needles[j]),
        decreases rule.needles.len() - k,
    {
        let needle = to_chars(rule.needles[k].as_str());
        assert(rule@.needles[k as int] == needle@);
        if !contains(line, &needle) {
            return false;
        }
        k += 1;
    }
    true
}

/// Classifies one line of standard output against a rule table. The result
/// is the index of the first rule that applies; a line that does not begin
/// with `[`, or to which no rule applies, is not classified.
pub fn classify(line: &str, rules: &Vec<StatusRule>) -> (r: Option<usize>)
    ensures
        match r {
            Some(i) => classify_spec(line@, rule_texts(rules@)) == Some(i as int) && i
                < rules.len(),
            None => classify_spec(line@, rule_texts(rules@)) is None,
        },
{
    let chars = to_chars(line);
    if chars.len() == 0 || chars[0] != '[' {
        return None;
    }
    let mut i: usize = 0;
    while i < rules.len()
        invariant
            i <= rules.len(),
            chars@ == line@,
            line@.len() > 0 && line@[0] == '[',
            first_rule(line@, rule_texts(rules@), 0) == first_rule(
                line@,
                rule_texts(rules@),
                i as int,
            ),
        decreases rules.len() - i,
    {
        assert(rule_texts(rules@)[i as int] == rules@[i as int]@);
        if applies(&chars, &rules[i]) {
            return Some(i);
        }
        i += 1;
    }
    None
}

/// A line of standard error that reports a failure: it holds the error marker
/// and neither of the two markers of a harmless repeated download.
pub open spec fn is_failure(line: Seq<char>) -> bool {
    &&& has_sub(line, "ERROR"@)
    &&& !has_sub(line, "has already been downloaded"@)
    &&& !has_sub(line, "The downloaded file is empty"@)
}

/// The message shown for a failure line.
pub open spec fn failure_label(line: Seq<char>) -> Seq<char> {
    "Error: "@ + line
}

/// Reads one line of standard error: the message to show if the line reports
/// a failure, `None` if it is noise or a harmless remark.
pub fn classify_error_line(line: &str) -> (r: Option<String>)
    ensures
        match r {
            Some(label) => is_failure(line@) && label@ == failure_label(line@),
            None => !is_failure(line@),
        },
{
    let chars = to_chars(line);
    let marker = to_chars("ERROR");
    let already = to_chars("has already been downloaded");
    let empty = to_chars("The downloaded file is empty");
    if contains(&chars, &marker) && !contains(&chars, &already) && !contains(&chars, &empty) {
        Some(String::from_str("Error: ").concat(line))
    } else {
        None
    }
}

/// The rule with the one needle `needle`.
pub open spec fn one_needle(needle: Seq<char>, kind: LineKind, label: Seq<char>) -> RuleText {
    RuleText { needles: seq![needle], kind, label }
}

/// The rule with the two needles `first` and `second`.
pub open spec fn two_needles(
    first: Seq<char>,
    second: Seq<char>,
    kind: LineKind,
    label: Seq<char>,
) -> RuleText {
    RuleText { needles: seq![first, second], kind, label }
}

/// A rule that applies to the lines that hold `needle`.
pub fn rule(needle: &str, kind: LineKind, label: &str) -> (r: StatusRule)
    ensures
        r@ == one_needle(needle@, kind, label@),
{
    let mut needles: Vec<String> = Vec::new();
    needles.push(String::from_str(needle));
    let r = StatusRule { needles, kind, label: String::from_str(label) };
    assert(r@.needles =~= seq![needle@]);
    r
}

/// A rule that applies to the lines that hold both `first` and `second`.
pub fn rule_of_two(first: &str, second: &str, kind: LineKind, label: &str) -> (r: StatusRule)
    ensures
        r@ == two_needles(first@, second@, kind, label@),
{
    let mut needles: Vec<String> = Vec::new();
    needles.push(String::from_str(first));
    needles.push(String::from_str(second));
    let r = StatusRule { needles, kind, label: String::from_str(label) };
    assert(r@.needles =~= seq![first@, second@]);
    r
}

/// The rules for downloads from the video site, in order.
pub open spec fn youtube_table() -> Seq<RuleText> {
    seq![
        one_needle("youtube"@, LineKind::Status(Phase::Connecting), "Connecting to YouTube..."@),
        one_needle(
            "Extracting URL"@,
            LineKind::Status(Phase::Connecting),
            "Connecting to YouTube..."@,
        ),
        one_needle(
            "Downloading webpage"@,
            LineKind::Status(Phase::Resolving),
            "Loading video page..."@,
        ),
        one_needle(
            "Downloading API"@,
            LineKind::Status(Phase::FetchingMetadata),
            "Fetching video info..."@,
        ),
        one_needle(
            "Downloading JSON"@,
            LineKind::Status(Phase::FetchingMetadata),
            "Fetching video info..."@,
        ),
        one_needle(
            "Downloading m3u8"@,
            LineKind::Status(Phase::ProcessingStreams),
            "Processing video streams..."@,
        ),
        one_needle(
            "manifest"@,
            LineKind::Status(Phase::ProcessingStreams),
            "Processing video streams..."@,
        ),
        one_needle("[Merger]"@, LineKind::Status(Phase::Merging), "Merging..."@),
        one_needle("Merging"@, LineKind::Status(Phase::Merging), "Merging..."@),
        one_needle(
            "[download] Destination:"@,
            LineKind::Status(Phase::Starting),
            "Starting download..."@,
        ),
        two_needles("[download]"@, "%"@, LineKind::Progress, "Downloading..."@),
        one_needle(
            "has already been downloaded"@,
            LineKind::AlreadyDownloaded,
            "Already downloaded"@,
        ),
    ]
}

/// The rules for downloads from the video site.
pub fn youtube_rules() -> (rules: Vec<StatusRule>)
    ensures
        rule_texts(rules@) == youtube_table(),
{
    let rules = vec![
        rule("youtube", LineKind::Status(Phase::Connecting), "Connecting to YouTube..."),
        rule("Extracting URL", LineKind::Status(Phase::Connecting), "Connecting to YouTube..."),
        rule("Downloading webpage", LineKind::Status(Phase::Resolving), "Loading video page..."),
        rule(
            "Downloading API",
            LineKind::Status(Phase::FetchingMetadata),
            "Fetching video info...",
        ),
        rule(
            "Downloading JSON",
            LineKind::Status(Phase::FetchingMetadata),
            "Fetching video info...",
        ),
        rule(
            "Downloading m3u8",
            LineKind::Status(Phase::ProcessingStreams),
            "Processing video streams...",
        ),
        rule(
            "manifest",
            LineKind::Status(Phase::ProcessingStreams),
            "Processing video streams...",
        ),
        rule("[Merger]", LineKind::Status(Phase::Merging), "Merging..."),
        rule("Merging", LineKind::Status(Phase::Merging), "Merging..."),
        rule("[download] Destination:", LineKind::Status(Phase::Starting), "Starting download..."),
        rule_of_two("[download]", "%", LineKind::Progress, "Downloading..."),
        rule("has already been downloaded", LineKind::AlreadyDownloaded, "Already downloaded"),
    ];
    assert(rule_texts(rules@) =~= youtube_table());
    rules
}

/// The rules for downloads from any other site, in order.
pub open spec fn universal_table() -> Seq<RuleText> {
    seq![
        one_needle("Extracting URL"@, LineKind::Status(Phase::Resolving), "Extracting URL..."@),
        one_needle(
            "Downloading webpage"@,
            LineKind::Status(Phase::Connecting),
            "Fetching webpage..."@,
        ),
        one_needle(
            "Downloading API"@,
            LineKind::Status(Phase::FetchingMetadata),
            "Accessing API..."@,
        ),
        one_needle(
            "Downloading JSON"@,
            LineKind::Status(Phase::FetchingMetadata),
            "Accessing API..."@,
        ),
        one_needle(
            "Downloading video information"@,
            LineKind::Status(Phase::FetchingMetadata),
            "Getting video info..."@,
        ),
        one_needle(
            "Downloading m3u8"@,
            LineKind::Status(Phase::ProcessingStreams),
            "Processing video streams..."@,
        ),
        one_needle("[Merger]"@, LineKind::Status(Phase::Merging), "Merging..."@),
        one_needle("Merging"@, LineKind::Status(Phase::Merging), "Merging..."@),
        one_needle(
            "[download] Destination:"@,
            LineKind::Status(Phase::Starting),
            "Starting download..."@,
        ),
        two_needles("[download]"@, "%"@, LineKind::Progress, "Downloading..."@),
        one_needle(
            "has already been downloaded"@,
            LineKind::AlreadyDownloaded,
            "Already downloaded"@,
        ),
    ]
}

/// The rules for downloads from any other site.
pub fn universal_rules() -> (rules: Vec<StatusRule>)
    ensures
        rule_texts(rules@) == universal_table(),
{
    let rules = vec![
        rule("Extracting URL", LineKind::Status(Phase::Resolving), "Extracting URL..."),
        rule("Downloading webpage", LineKind::Status(Phase::Connecting), "Fetching webpage..."),
        rule("Downloading API", LineKind::Status(Phase::FetchingMetadata), "Accessing API..."),
        rule("Downloading JSON", LineKind::Status(Phase::FetchingMetadata), "Accessing API..."),
        rule(
            "Downloading video information",
            LineKind::Status(Phase::FetchingMetadata),
            "Getting video info...",
        ),
        rule(
            "Downloading m3u8",
            LineKind::Status(Phase::ProcessingStreams),
            "Processing video streams...",
        ),
        rule("[Merger]", LineKind::Status(Phase::Merging), "Merging..."),
        rule("Merging", LineKind::Status(Phase::Merging), "Merging..."),
        rule("[download] Destination:", LineKind::Status(Phase::Starting), "Starting download..."),
        rule_of_two("[download]", "%", LineKind::Progress, "Downloading..."),
        rule("has already been downloaded", LineKind::AlreadyDownloaded, "Already downloaded"),
    ];
    assert(rule_texts(rules@) =~= universal_table());
    rules
}

} // verus!
