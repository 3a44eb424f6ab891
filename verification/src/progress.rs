//! Progress lines of the extractor turned into progress events.

use crate::percent::{
    float_literal, is_float_literal, lemma_empty_is_no_number, reaches_hundred, whole_percent_in,
    whole_percent_of,
};
use crate::text::{
    from_chars, laid_out, lemma_words_of_laid_out, same_text, slice, split_words, texts, to_chars,
    well_laid, words,
};
use vstd::prelude::*;

verus! {

/// One progress report of the extractor. `percent` is the number that the
/// tool printed, as text; the other fields are the tool's own words, units
/// included, and are empty where the line did not give them.
#[derive(Debug)]
pub struct ProgressEvent {
    pub percent: String,
    pub bytes_done: String,
    pub bytes_total: String,
    pub rate: String,
    pub eta: String,
}

/// What a progress event holds, as plain text.
pub struct ProgressText {
    pub percent: Seq<char>,
    pub bytes_done: Seq<char>,
    pub bytes_total: Seq<char>,
    pub rate: Seq<char>,
    pub eta: Seq<char>,
}

impl View for ProgressEvent {
    type V = ProgressText;

    open spec fn view(&self) -> ProgressText {
        ProgressText {
            percent: self.percent@,
            bytes_done: self.bytes_done@,
            bytes_total: self.bytes_total@,
            rate: self.rate@,
            eta: self.eta@,
        }
    }
}

impl ProgressEvent {
    /// Whether the reported percentage is at least one hundred.
    pub fn is_complete(&self) -> (r: bool)
        ensures
            r == reaches_hundred(self.percent@),
    {
        self.whole_percent() == 100
    }

    /// The reported percentage as a whole number between 0 and 100: a
    /// fraction is cut off, less than nothing counts as nothing, and more
    /// than one hundred as one hundred.
    pub fn whole_percent(&self) -> (r: u8)
        ensures
            r == whole_percent_of(self.percent@),
            r <= 100,
            r == 100 <==> reaches_hundred(self.percent@),
    {
        let number = to_chars(self.percent.as_str());
        whole_percent_in(&number)
    }
}

/// `w` without its trailing percent signs.
pub open spec fn strip_percent(w: Seq<char>) -> Seq<char>
    decreases w.len(),
{
    if w.len() > 0 && w.last() == '%' {
        strip_percent(w.drop_last())
    } else {
        w
    }
}

/// `w` ends in a percent sign.
pub open spec fn ends_in_percent(w: Seq<char>) -> bool {
    w.len() > 0 && w.last() == '%'
}

/// The index of the first word at or after `from` that ends in a percent
/// sign; `ws.len()` when there is none.
pub open spec fn percent_index(ws: Seq<Seq<char>>, from: int) -> int
    decreases ws.len() - from,
{
    if from < 0 || from >= ws.len() {
        ws.len() as int
    } else if ends_in_percent(ws[from]) {
        from
    } else {
        percent_index(ws, from + 1)
    }
}

/// The index of the first word at or after `from` that equals `key`;
/// `ws.len()` when there is none.
pub open spec fn anchor_index(ws: Seq<Seq<char>>, key: Seq<char>, from: int) -> int
    decreases ws.len() - from,
{
    if from < 0 || from >= ws.len() {
        ws.len() as int
    } else if ws[from] == key {
        from
    } else {
        anchor_index(ws, key, from + 1)
    }
}

/// The word that directly follows the first word equal to `key`; empty where
/// no word equals `key` or nothing follows it.
pub open spec fn word_after(ws: Seq<Seq<char>>, key: Seq<char>) -> Seq<char> {
    let i = anchor_index(ws, key, 0);
    if i + 1 < ws.len() {
        ws[i + 1]
    } else {
        Seq::empty()
    }
}

/// The progress event that a line stands for. The first word that ends in a
/// percent sign gives the percentage; a line without such a word, or with one
/// that writes no number once its trailing percent signs are taken off,
/// stands for no event.
pub open spec fn progress_of(line: Seq<char>) -> Option<ProgressText> {
    let ws = words(line);
    let i = percent_index(ws, 0);
    if i < ws.len() && is_float_literal(strip_percent(ws[i])) {
        let number = strip_percent(ws[i]);
        Some(
            ProgressText {
                percent: number,
                bytes_done: number + seq!['%'],
                bytes_total: word_after(ws, "of"@),
                rate: word_after(ws, "at"@),
                eta: word_after(ws, "ETA"@),
            },
        )
    } else {
        None
    }
}

/// `percent_index` and `anchor_index` name the first word of their kind.
pub proof fn lemma_first_word(ws: Seq<Seq<char>>, key: Seq<char>, from: int)
    requires
        0 <= from <= ws.len(),
    ensures
        from <= percent_index(ws, from) <= ws.len(),
        percent_index(ws, from) < ws.len() ==> ends_in_percent(ws[percent_index(ws, from)]),
        forall|j: int|
            from <= j < percent_index(ws, from) ==> !ends_in_percent(#[trigger] ws[j]),
        from <= anchor_index(ws, key, from) <= ws.len(),
        anchor_index(ws, key, from) < ws.len() ==> ws[anchor_index(ws, key, from)] == key,
        forall|j: int| from <= j < anchor_index(ws, key, from) ==> #[trigger] ws[j] != key,
    decreases ws.len() - from,
{
    if from < ws.len() {
        lemma_first_word(ws, key, from + 1);
    }
}

/// The index of the first word that ends in a percent sign.
fn find_percent_word(ws: &Vec<Vec<char>>) -> (r: usize)
    ensures
        r == percent_index(texts(ws@), 0),
        r <= ws.len(),
{
    let mut i: usize = 0;
    while i < ws.len()
        invariant
            i <= ws.len(),
            percent_index(texts(ws@), 0) == percent_index(texts(ws@), i as int),
        decreases ws.len() - i,
    {
        assert(texts(ws@)[i as int] == ws@[i as int]@);
        let n: usize = ws[i].len();
        if n > 0 && ws[i][n - 1] == '%' {
            return i;
        }
        i += 1;
    }
    i
}

/// The word that directly follows the first word equal to `key`.
fn find_word_after(ws: &Vec<Vec<char>>, key: &str) -> (r: String)
    ensures
        r@ == word_after(texts(ws@), key@),
{
    let wanted = to_chars(key);
    let mut i: usize = 0;
    while i < ws.len()
        invariant
            i <= ws.len(),
            wanted@ == key@,
            anchor_index(texts(ws@), key@, 0) == anchor_index(texts(ws@), key@, i as int),
        decreases ws.len() - i,
    {
        assert(texts(ws@)[i as int] == ws@[i as int]@);
        if same_text(&ws[i], &wanted) {
            if i + 1 < ws.len() {
                assert(texts(ws@)[i + 1] == ws@[i + 1]@);
                return from_chars(&ws[i + 1]);
            } else {
                return String::new();
            }
        }
        i += 1;
    }
    String::new()
}

/// `w` without its trailing percent signs.
fn without_percent(w: &Vec<char>) -> (r: Vec<char>)
    ensures
        r@ == strip_percent(w@),
{
    let mut end: usize = w.len();
    assert(w@.subrange(0, end as int) =~= w@);
    while end > 0 && w[end - 1] == '%'
        invariant
            end <= w.len(),
            strip_percent(w@) == strip_percent(w@.subrange(0, end as int)),
        decreases end,
    {
        assert(w@.subrange(0, end as int).drop_last() =~= w@.subrange(0, end - 1));
        end -= 1;
    }
    slice(w, 0, end)
}

/// Reads one progress line of the extractor. The line is split at white
/// space; the first word that ends in a percent sign gives the percentage, and
/// the words after `of`, `at` and `ETA` give total size, rate and remaining
/// time. A line without a percentage, or with a malformed one, gives `None`.
pub fn parse_progress(line: &str) -> (r: Option<ProgressEvent>)
    ensures
        match r {
            Some(e) => progress_of(line@) == Some(e@),
            None => progress_of(line@) is None,
        },
{
    let chars = to_chars(line);
    let ws = split_words(&chars);
    let i: usize = find_percent_word(&ws);
    if i >= ws.len() {
        return None;
    }
    assert(texts(ws@)[i as int] == ws@[i as int]@);
    let number = without_percent(&ws[i]);
    if !float_literal(&number) {
        return None;
    }
    let percent = from_chars(&number);
    let mut bytes_done = from_chars(&number);
    bytes_done.push('%');
    let bytes_total = find_word_after(&ws, "of");
    let rate = find_word_after(&ws, "at");
    let eta = find_word_after(&ws, "ETA");
    let e = ProgressEvent { percent, bytes_done, bytes_total, rate, eta };
    assert(e@.bytes_done =~= number@ + seq!['%']);
    Some(e)
}

/// `i` is the index of the first word equal to `key`, and a word follows it.
pub open spec fn anchored_at(ws: Seq<Seq<char>>, key: Seq<char>, i: int) -> bool {
    &&& 0 <= i < ws.len() - 1
    &&& ws[i] == key
    &&& forall|j: int| 0 <= j < i ==> #[trigger] ws[j] != key
}

/// Take a line laid out from words and gaps of white space, whatever the
/// order of the words. If the first word that ends in a percent sign writes
/// a number before its trailing percent signs, and each of `of`, `at` and
/// `ETA` occurs with a word behind its first occurrence, then the line
/// stands for an event: its percentage is that number, and its total size,
/// rate and remaining time are the words directly behind `of`, `at` and
/// `ETA`.
pub proof fn lemma_progress_of_laid_out(
    ws: Seq<Seq<char>>,
    gaps: Seq<Seq<char>>,
    percent_at: int,
    of_at: int,
    at_at: int,
    eta_at: int,
)
    requires
        well_laid(ws, gaps),
        0 <= percent_at < ws.len(),
        ends_in_percent(ws[percent_at]),
        forall|j: int| 0 <= j < percent_at ==> !ends_in_percent(#[trigger] ws[j]),
        is_float_literal(strip_percent(ws[percent_at])),
        anchored_at(ws, "of"@, of_at),
        anchored_at(ws, "at"@, at_at),
        anchored_at(ws, "ETA"@, eta_at),
    ensures
        progress_of(laid_out(ws, gaps)) == Some(
            ProgressText {
                percent: strip_percent(ws[percent_at]),
                bytes_done: strip_percent(ws[percent_at]) + seq!['%'],
                bytes_total: ws[of_at + 1],
                rate: ws[at_at + 1],
                eta: ws[eta_at + 1],
            },
        ),
{
    lemma_words_of_laid_out(ws, gaps);
    lemma_first_word(ws, "of"@, 0);
    lemma_first_word(ws, "at"@, 0);
    lemma_first_word(ws, "ETA"@, 0);
    assert(percent_index(ws, 0) == percent_at);
    assert(anchor_index(ws, "of"@, 0) == of_at);
    assert(anchor_index(ws, "at"@, 0) == at_at);
    assert(anchor_index(ws, "ETA"@, 0) == eta_at);
}

/// A line stands for no event exactly when none of its words ends in a
/// percent sign, or the first that does writes no number before its
/// trailing percent signs, as when nothing stands before them. Whether the
/// words `of`, `at` and `ETA` are there has no part in it.
pub proof fn lemma_no_event(line: Seq<char>)
    ensures
        progress_of(line) is None <==> percent_index(words(line), 0) == words(line).len()
            || !is_float_literal(strip_percent(words(line)[percent_index(words(line), 0)])),
{
    lemma_first_word(words(line), Seq::empty(), 0);
}

/// Text made of percent signs alone writes no number once they are taken
/// off.
pub proof fn lemma_bare_percent_signs(w: Seq<char>)
    requires
        forall|i: int| 0 <= i < w.len() ==> w[i] == '%',
    ensures
        strip_percent(w).len() == 0,
        !is_float_literal(strip_percent(w)),
    decreases w.len(),
{
    if w.len() > 0 {
        lemma_bare_percent_signs(w.drop_last());
    }
    lemma_empty_is_no_number();
}

} // verus!
