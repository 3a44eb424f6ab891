//! Timed caption files reduced to plain text.

use crate::text::{
    contains, find_char, free_of, from_chars, has_sub, index_of_from, is_space,
    lemma_index_of_from, lemma_trimmed, lemma_trimmed_fixed, lines, lines_from, occurs_at,
    push_all, same_text, slice, split_lines, starts_with, strip_cr, texts, to_chars, trim,
    trim_end, trim_start, trimmed,
};
use vstd::prelude::*;

verus! {

/// Whether `c` is in one of the Unicode number categories: what
/// `char::is_numeric` answers.
pub uninterp spec fn unicode_numeric(c: char) -> bool;

/// `char::is_numeric` tells whether a character belongs to a Unicode number
/// category. The categories are tables of the standard library; the contract
/// only gives the answer its name.
pub assume_specification[ char::is_numeric ](c: char) -> (r: bool)
    ensures
        r == unicode_numeric(c),
;

/// The answers of `char::is_numeric`, as a predicate on characters.
pub open spec fn std_numeric() -> spec_fn(char) -> bool {
    |c: char| unicode_numeric(c)
}

/// The predicate that holds of the characters of `numerals` and of no
/// other.
pub open spec fn listed(numerals: Seq<char>) -> spec_fn(char) -> bool {
    |c: char| numerals.contains(c)
}

/// Characters of which cue numbers and bare time stamps are made, where
/// `numeric` tells which characters are numeric.
pub open spec fn is_timing_char(c: char, numeric: spec_fn(char) -> bool) -> bool {
    numeric(c) || c == ':' || c == '.'
}

/// Every character of `line` is a timing character.
pub open spec fn is_timing_only(line: Seq<char>, numeric: spec_fn(char) -> bool) -> bool {
    forall|i: int| 0 <= i < line.len() ==> is_timing_char(#[trigger] line[i], numeric)
}

/// A line that carries caption text: no timing range, no header or metadata
/// line, not blank, and not made of numeric characters, colons and dots
/// alone, where `numeric` tells which characters are numeric.
pub open spec fn is_cue_text_by(line: Seq<char>, numeric: spec_fn(char) -> bool) -> bool {
    &&& !has_sub(line, "-->"@)
    &&& !occurs_at(line, "WEBVTT"@, 0)
    &&& !occurs_at(line, "NOTE"@, 0)
    &&& !occurs_at(line, "Kind:"@, 0)
    &&& !occurs_at(line, "Language:"@, 0)
    &&& trimmed(line).len() > 0
    &&& !is_timing_only(line, numeric)
}

/// A line that carries caption text, with the numeric characters of
/// `char::is_numeric`.
pub open spec fn is_cue_text(line: Seq<char>) -> bool {
    is_cue_text_by(line, std_numeric())
}

/// The index of the `>` that closes the first tag of `s`: the first `>`
/// behind the first `<`; `s.len()` where no `<` has a `>` behind it.
pub open spec fn first_tag_end(s: Seq<char>) -> int {
    index_of_from(s, '>', index_of_from(s, '<', 0))
}

/// `s` with its inline tags removed: as long as a `<` has a `>` behind it,
/// the text from the first `<` through the first `>` behind it is cut out.
pub open spec fn strip_tags(s: Seq<char>) -> Seq<char>
    decreases s.len(),
{
    let open = index_of_from(s, '<', 0);
    let close = first_tag_end(s);
    if close < s.len() {
        proof {
            lemma_index_of_from(s, '<', 0);
            lemma_index_of_from(s, '>', open);
        }
        strip_tags(s.subrange(0, open) + s.subrange(close + 1, s.len() as int))
    } else {
        s
    }
}

/// No tag is left in `s`: no `<` has a `>` behind it.
pub open spec fn tag_free(s: Seq<char>) -> bool {
    forall|i: int, j: int| 0 <= i < j < s.len() ==> !(s[i] == '<' && s[j] == '>')
}

/// No `<` of `s` has a `>` behind it exactly when the first `<` has none.
pub proof fn lemma_tag_free(s: Seq<char>)
    ensures
        tag_free(s) <==> first_tag_end(s) >= s.len(),
        first_tag_end(s) < s.len() ==> 0 <= index_of_from(s, '<', 0) < first_tag_end(s),
{
    let open = index_of_from(s, '<', 0);
    lemma_index_of_from(s, '<', 0);
    if open < s.len() {
        lemma_index_of_from(s, '>', open);
    }
}

/// The caption text of one line: tags removed, then trimmed.
pub open spec fn clean_line(line: Seq<char>) -> Seq<char> {
    trimmed(strip_tags(line))
}

/// The transcript of the lines from index `i` on, where `last` is the caption
/// text accepted most recently: each cue line whose caption text is neither
/// empty nor equal to `last` contributes that text and one space.
pub open spec fn transcript_from(
    ls: Seq<Seq<char>>,
    i: int,
    last: Seq<char>,
    numeric: spec_fn(char) -> bool,
) -> Seq<char>
    decreases ls.len() - i,
{
    if i < 0 || i >= ls.len() {
        Seq::empty()
    } else {
        let c = clean_line(ls[i]);
        if is_cue_text_by(ls[i], numeric) && c.len() > 0 && c != last {
            c + seq![' '] + transcript_from(ls, i + 1, c, numeric)
        } else {
            transcript_from(ls, i + 1, last, numeric)
        }
    }
}

/// The plain text of a caption file, where `numeric` tells which characters
/// are numeric.
pub open spec fn vtt_text_by(s: Seq<char>, numeric: spec_fn(char) -> bool) -> Seq<char> {
    trimmed(transcript_from(lines(s), 0, Seq::empty(), numeric))
}

/// The plain text of a caption file, with the numeric characters of
/// `char::is_numeric`.
pub open spec fn vtt_text(s: Seq<char>) -> Seq<char> {
    vtt_text_by(s, std_numeric())
}

/// The predicate that tells which characters are numeric: that of the given
/// list, or that of `char::is_numeric` where no list is given.
pub open spec fn numeric_of(numerals: Option<&Vec<char>>) -> spec_fn(char) -> bool {
    match numerals {
        Some(list) => listed(list@),
        None => std_numeric(),
    }
}

/// Whether `c` is numeric.
fn numeric_char(c: char, numerals: Option<&Vec<char>>) -> (r: bool)
    ensures
        r == numeric_of(numerals)(c),
{
    match numerals {
        None => c.is_numeric(),
        Some(list) => {
            let mut i: usize = 0;
            while i < list.len()
                invariant
                    i <= list.len(),
                    numerals == Some(list),
                    forall|j: int| 0 <= j < i ==> list@[j] != c,
                decreases list.len() - i,
            {
                if list[i] == c {
                    assert(list@.contains(c));
                    return true;
                }
                i += 1;
            }
            assert(!list@.contains(c));
            false
        },
    }
}

/// Whether every character of `line` is a timing character.
fn timing_only(line: &Vec<char>, numerals: Option<&Vec<char>>) -> (r: bool)
    ensures
        r == is_timing_only(line@, numeric_of(numerals)),
{
    let mut i: usize = 0;
    while i < line.len()
        invariant
            i <= line.len(),
            forall|j: int|
                0 <= j < i ==> is_timing_char(#[trigger] line@[j], numeric_of(numerals)),
        decreases line.len() - i,
    {
        let c = line[i];
        if !(numeric_char(c, numerals) || c == ':' || c == '.') {
            return false;
        }
        i += 1;
    }
    true
}

/// Whether `line` carries caption text.
fn cue_text(line: &Vec<char>, numerals: Option<&Vec<char>>) -> (r: bool)
    ensures
        r == is_cue_text_by(line@, numeric_of(numerals)),
{
    let arrow = to_chars("-->");
    let header = to_chars("WEBVTT");
    let note = to_chars("NOTE");
    let kind = to_chars("Kind:");
    let language = to_chars("Language:");
    !contains(line, &arrow) && !starts_with(line, &header) && !starts_with(line, &note)
        && !starts_with(line, &kind) && !starts_with(line, &language) && trim(line).len() > 0
        && !timing_only(line, numerals)
}

/// Whether `line` carries caption text, with the numeric characters of
/// `char::is_numeric`.
pub fn carries_cue_text(line: &Vec<char>) -> (r: bool)
    ensures
        r == is_cue_text(line@),
{
    cue_text(line, None)
}

/// Whether `line` carries caption text, where the characters of `numerals`
/// are the numeric ones.
pub fn carries_cue_text_given(line: &Vec<char>, numerals: &Vec<char>) -> (r: bool)
    ensures
        r == is_cue_text_by(line@, listed(numerals@)),
{
    cue_text(line, Some(numerals))
}

/// `line` with its inline tags removed.
pub fn remove_tags(line: &Vec<char>) -> (r: Vec<char>)
    ensures
        r@ == strip_tags(line@),
        tag_free(r@),
{
    let mut cur: Vec<char> = slice(line, 0, line.len());
    assert(cur@ =~= line@);
    loop
        invariant
            strip_tags(cur@) == strip_tags(line@),
        decreases cur.len(),
    {
        let open = find_char(&cur, '<', 0);
        let close = find_char(&cur, '>', open);
        proof {
            lemma_tag_free(cur@);
        }
        if close < cur.len() {
            let mut next = slice(&cur, 0, open);
            let tail = slice(&cur, close + 1, cur.len());
            push_all(&mut next, &tail);
            cur = next;
        } else {
            return cur;
        }
    }
}

/// The plain text of the caption file `content`.
fn transcribe_lines(content: &Vec<char>, numerals: Option<&Vec<char>>) -> (transcript: String)
    ensures
        transcript@ == vtt_text_by(content@, numeric_of(numerals)),
{
    let ls = split_lines(content);
    let mut acc: Vec<char> = Vec::new();
    let mut last: Vec<char> = Vec::new();
    let mut i: usize = 0;
    let ghost all = lines(content@);
    let ghost numeric = numeric_of(numerals);
    assert(acc@ =~= Seq::<char>::empty());
    while i < ls.len()
        invariant
            i <= ls.len(),
            texts(ls@) == all,
            numeric == numeric_of(numerals),
            acc@ + transcript_from(all, i as int, last@, numeric) == transcript_from(
                all,
                0,
                Seq::empty(),
                numeric,
            ),
        decreases ls.len() - i,
    {
        let ghost before = acc@;
        let ghost rest = transcript_from(all, i as int, last@, numeric);
        assert(all[i as int] == ls@[i as int]@);
        if cue_text(&ls[i], numerals) {
            let stripped = remove_tags(&ls[i]);
            let clean = trim(&stripped);
            if clean.len() > 0 && !same_text(&clean, &last) {
                push_all(&mut acc, &clean);
                acc.push(' ');
                assert(acc@ =~= before + (clean@ + seq![' ']));
                assert(before + (clean@ + seq![' ']) + transcript_from(
                    all,
                    i + 1,
                    clean@,
                    numeric,
                ) =~= before + rest);
                last = clean;
            }
        }
        i += 1;
    }
    assert(transcript_from(all, i as int, last@, numeric) =~= Seq::<char>::empty());
    assert(acc@ =~= transcript_from(all, 0, Seq::empty(), numeric));
    let out = trim(&acc);
    from_chars(&out)
}

/// Converts a caption file into plain text: header, metadata, timing and
/// number lines are dropped, inline tags are removed from the others, a line
/// equal to the one accepted just before it is dropped, and what is left is
/// joined by single spaces.
pub fn parse_vtt_to_text(vtt_content: &str) -> (transcript: String)
    ensures
        transcript@ == vtt_text(vtt_content@),
{
    let content = to_chars(vtt_content);
    transcribe_lines(&content, None)
}

/// Converts a caption file into plain text as `parse_vtt_to_text` does,
/// with the characters of `numerals` as the numeric ones.
pub fn parse_vtt_to_text_given(vtt_content: &str, numerals: &str) -> (transcript: String)
    ensures
        transcript@ == vtt_text_by(vtt_content@, listed(numerals@)),
{
    let content = to_chars(vtt_content);
    let list = to_chars(numerals);
    transcribe_lines(&content, Some(&list))
}

/// No line holds a line feed.
pub proof fn lemma_lines_hold_no_line_feed(s: Seq<char>, from: int)
    requires
        0 <= from,
    ensures
        forall|k: int|
            0 <= k < lines_from(s, from).len() ==> free_of(#[trigger] lines_from(s, from)[k], '\n'),
    decreases s.len() - from,
{
    if from < s.len() {
        let end = index_of_from(s, '\n', from);
        lemma_index_of_from(s, '\n', from);
        if end < s.len() {
            lemma_lines_hold_no_line_feed(s, end + 1);
            let head = strip_cr(s.subrange(from, end));
            assert(free_of(s.subrange(from, end), '\n'));
            assert(free_of(head, '\n'));
            let rest = lines_from(s, end + 1);
            assert forall|k: int| 0 <= k < lines_from(s, from).len() implies free_of(
                #[trigger] lines_from(s, from)[k],
                '\n',
            ) by {
                if k > 0 {
                    assert(lines_from(s, from)[k] == rest[k - 1]);
                }
            }
        } else {
            assert(free_of(s.subrange(from, s.len() as int), '\n'));
        }
    }
}

/// Removing tags shortens the text or leaves it as it is, and brings in no
/// character.
pub proof fn lemma_strip_tags(s: Seq<char>, c: char)
    ensures
        strip_tags(s).len() <= s.len(),
        strip_tags(s) != s ==> strip_tags(s).len() < s.len(),
        free_of(s, c) ==> free_of(strip_tags(s), c),
    decreases s.len(),
{
    let open = index_of_from(s, '<', 0);
    let close = first_tag_end(s);
    if close < s.len() {
        lemma_tag_free(s);
        let cut = s.subrange(0, open) + s.subrange(close + 1, s.len() as int);
        lemma_strip_tags(cut, c);
        if free_of(s, c) {
            assert(free_of(cut, c));
        }
    }
}

/// A transcript holds no character but a space that its lines do not hold.
pub proof fn lemma_transcript_free_of(
    ls: Seq<Seq<char>>,
    i: int,
    last: Seq<char>,
    c: char,
    numeric: spec_fn(char) -> bool,
)
    requires
        0 <= i,
        c != ' ',
        forall|k: int| 0 <= k < ls.len() ==> free_of(#[trigger] ls[k], c),
    ensures
        free_of(transcript_from(ls, i, last, numeric), c),
    decreases ls.len() - i,
{
    if i < ls.len() {
        let text = clean_line(ls[i]);
        lemma_strip_tags(ls[i], c);
        lemma_trimmed(strip_tags(ls[i]), c);
        if is_cue_text_by(ls[i], numeric) && text.len() > 0 && text != last {
            lemma_transcript_free_of(ls, i + 1, text, c, numeric);
        } else {
            lemma_transcript_free_of(ls, i + 1, last, c, numeric);
        }
    }
}

/// What is left when tags are removed holds no tag.
pub proof fn lemma_strip_tags_leaves_none(s: Seq<char>)
    ensures
        tag_free(strip_tags(s)),
    decreases s.len(),
{
    let open = index_of_from(s, '<', 0);
    let close = first_tag_end(s);
    lemma_tag_free(s);
    if close < s.len() {
        lemma_strip_tags_leaves_none(s.subrange(0, open) + s.subrange(close + 1, s.len() as int));
    }
}

/// Trimming the beginning brings no tag into a text that holds none.
proof fn lemma_trimmed_tag_free_start(s: Seq<char>)
    requires
        tag_free(s),
    ensures
        tag_free(trim_start(s)),
    decreases s.len(),
{
    if s.len() > 0 && is_space(s[0]) {
        let front = s.drop_first();
        assert forall|i: int, j: int| 0 <= i < j < front.len() implies !(front[i] == '<'
            && front[j] == '>') by {
            assert(front[i] == s[i + 1] && front[j] == s[j + 1]);
        }
        lemma_trimmed_tag_free_start(front);
    }
}

/// Trimming the end brings no tag into a text that holds none.
proof fn lemma_trimmed_tag_free_end(s: Seq<char>)
    requires
        tag_free(s),
    ensures
        tag_free(trim_end(s)),
    decreases s.len(),
{
    if s.len() > 0 && is_space(s.last()) {
        let back = s.drop_last();
        assert forall|i: int, j: int| 0 <= i < j < back.len() implies !(back[i] == '<' && back[j]
            == '>') by {
            assert(back[i] == s[i] && back[j] == s[j]);
        }
        lemma_trimmed_tag_free_end(back);
    }
}

/// The text of a caption file of one line holds no tag: no `<` in it has a
/// `>` behind it, whichever characters are numeric.
pub proof fn lemma_one_line_leaves_no_tag(s: Seq<char>, numeric: spec_fn(char) -> bool)
    requires
        free_of(s, '\n'),
    ensures
        tag_free(vtt_text_by(s, numeric)),
{
    let none = Seq::<char>::empty();
    if s.len() == 0 {
        assert(lines(s) =~= Seq::<Seq<char>>::empty());
        assert(vtt_text_by(s, numeric) =~= none);
    } else {
        lemma_index_of_from(s, '\n', 0);
        assert(s.subrange(0, s.len() as int) =~= s);
        assert(lines(s) =~= seq![s]);
        let one = seq![s];
        let text = clean_line(s);
        lemma_strip_tags_leaves_none(s);
        lemma_trimmed_tag_free_start(strip_tags(s));
        lemma_trimmed_tag_free_end(trim_start(strip_tags(s)));
        lemma_trimmed(strip_tags(s), '\n');
        assert(transcript_from(one, 1, none, numeric) =~= none);
        assert(transcript_from(one, 1, text, numeric) =~= none);
        if is_cue_text_by(s, numeric) && text.len() > 0 {
            assert(text != none);
            assert(transcript_from(one, 0, none, numeric) =~= text + seq![' ']);
            lemma_trimmed_fixed(text);
        } else {
            assert(transcript_from(one, 0, none, numeric) =~= none);
            assert(vtt_text_by(s, numeric) =~= none);
        }
    }
}

/// Text that the parser gives back as it is: empty text, and text that,
/// read as one line, is a cue line without a tag.
pub open spec fn reads_as_itself(t: Seq<char>, numeric: spec_fn(char) -> bool) -> bool {
    t.len() == 0 || (is_cue_text_by(t, numeric) && strip_tags(t) == t)
}

/// What the parser makes of its own output: the output again if it reads as
/// itself, and a shorter text if it does not.
proof fn lemma_second_pass(s: Seq<char>, numeric: spec_fn(char) -> bool)
    ensures
        reads_as_itself(vtt_text_by(s, numeric), numeric) ==> vtt_text_by(
            vtt_text_by(s, numeric),
            numeric,
        ) == vtt_text_by(s, numeric),
        !reads_as_itself(vtt_text_by(s, numeric), numeric) ==> vtt_text_by(
            vtt_text_by(s, numeric),
            numeric,
        ).len() < vtt_text_by(s, numeric).len(),
{
    let joined = transcript_from(lines(s), 0, Seq::empty(), numeric);
    let t = vtt_text_by(s, numeric);
    lemma_lines_hold_no_line_feed(s, 0);
    lemma_transcript_free_of(lines(s), 0, Seq::empty(), '\n', numeric);
    lemma_trimmed(joined, '\n');
    if t.len() == 0 {
        assert(lines(t) =~= Seq::<Seq<char>>::empty());
        assert(vtt_text_by(t, numeric) =~= t);
    } else {
        lemma_index_of_from(t, '\n', 0);
        assert(t.subrange(0, t.len() as int) =~= t);
        assert(lines(t) =~= seq![t]);
        let one = seq![t];
        let text = clean_line(t);
        lemma_strip_tags(t, '\n');
        lemma_trimmed(strip_tags(t), '\n');
        assert(transcript_from(one, 1, Seq::empty(), numeric) =~= Seq::<char>::empty());
        assert(transcript_from(one, 1, text, numeric) =~= Seq::<char>::empty());
        if is_cue_text_by(t, numeric) && text.len() > 0 {
            assert(text != Seq::<char>::empty());
            assert(transcript_from(one, 0, Seq::empty(), numeric) =~= text + seq![' ']);
            lemma_trimmed_fixed(text);
            assert(vtt_text_by(t, numeric) == text);
            if strip_tags(t) == t {
                lemma_trimmed_fixed(t);
                assert(text == t);
            } else {
                assert(text.len() < t.len());
            }
        } else {
            assert(transcript_from(one, 0, Seq::empty(), numeric) =~= Seq::<char>::empty());
            assert(vtt_text_by(t, numeric) =~= Seq::<char>::empty());
            if is_cue_text_by(t, numeric) && strip_tags(t) == t {
                lemma_trimmed_fixed(t);
                assert(text == t);
            }
        }
    }
}

/// Parsing is idempotent on output that reads as itself: the parser's own
/// output, parsed again, is that output, whichever characters are numeric.
pub proof fn lemma_vtt_text_idempotent(s: Seq<char>, numeric: spec_fn(char) -> bool)
    requires
        reads_as_itself(vtt_text_by(s, numeric), numeric),
    ensures
        vtt_text_by(vtt_text_by(s, numeric), numeric) == vtt_text_by(s, numeric),
{
    lemma_second_pass(s, numeric);
}

/// On no other output is parsing idempotent: output that does not read as
/// itself gets shorter when it is parsed again.
pub proof fn lemma_vtt_text_shrinks(s: Seq<char>, numeric: spec_fn(char) -> bool)
    requires
        !reads_as_itself(vtt_text_by(s, numeric), numeric),
    ensures
        vtt_text_by(vtt_text_by(s, numeric), numeric).len() < vtt_text_by(s, numeric).len(),
{
    lemma_second_pass(s, numeric);
}

} // verus!
