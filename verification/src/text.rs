//! Character-sequence primitives shared by the parsers and builders.
//!
//! Text is modelled as `Seq<char>`; executable code works on `Vec<char>` and
//! converts from and to `str` at the public boundary.

use vstd::prelude::*;

verus! {

/// `String::push` appends one character.
pub assume_specification[ String::push ](s: &mut String, c: char)
    ensures
        final(s)@ == old(s)@.push(c),
;

/// The characters of `s`, in order.
pub fn to_chars(s: &str) -> (out: Vec<char>)
    ensures
        out@ == s@,
{
    let mut out: Vec<char> = Vec::new();
    for c in it: s.chars()
        invariant
            it.seq() == s@,
            out@ == it.seq().take(it.index()),
    {
        out.push(c);
    }
    assert(out@ == s@);
    out
}

/// The string made of the characters of `v`, in order.
pub fn from_chars(v: &Vec<char>) -> (out: String)
    ensures
        out@ == v@,
{
    let mut out = String::new();
    let mut i: usize = 0;
    while i < v.len()
        invariant
            i <= v.len(),
            out@ == v@.take(i as int),
        decreases v.len() - i,
    {
        out.push(v[i]);
        i += 1;
    }
    out
}

/// The characters with the Unicode `White_Space` property.
pub open spec fn is_space(c: char) -> bool {
    let n = c as u32;
    ||| 0x09 <= n <= 0x0D
    ||| n == 0x20
    ||| n == 0x85
    ||| n == 0xA0
    ||| n == 0x1680
    ||| 0x2000 <= n <= 0x200A
    ||| n == 0x2028
    ||| n == 0x2029
    ||| n == 0x202F
    ||| n == 0x205F
    ||| n == 0x3000
}

/// Whether `c` is white space.
pub fn is_whitespace(c: char) -> (r: bool)
    ensures
        r == is_space(c),
{
    let n: u32 = c as u32;
    (0x09 <= n && n <= 0x0D) || n == 0x20 || n == 0x85 || n == 0xA0 || n == 0x1680 || (0x2000 <= n
        && n <= 0x200A) || n == 0x2028 || n == 0x2029 || n == 0x202F || n == 0x205F || n == 0x3000
}

/// Whether two character vectors hold the same text.
pub fn same_text(a: &Vec<char>, b: &Vec<char>) -> (r: bool)
    ensures
        r == (a@ == b@),
{
    if a.len() != b.len() {
        return false;
    }
    let mut i: usize = 0;
    while i < a.len()
        invariant
            i <= a.len(),
            a.len() == b.len(),
            forall|j: int| 0 <= j < i ==> a@[j] == b@[j],
        decreases a.len() - i,
    {
        if a[i] != b[i] {
            return false;
        }
        i += 1;
    }
    assert(a@ =~= b@);
    true
}

/// The characters of `s` from index `from` up to, not including, `to`.
pub(crate) fn slice(s: &Vec<char>, from: usize, to: usize) -> (r: Vec<char>)
    requires
        from <= to <= s.len(),
    ensures
        r@ == s@.subrange(from as int, to as int),
{
    let mut r: Vec<char> = Vec::new();
    let mut i: usize = from;
    while i < to
        invariant
            from <= i <= to,
            to <= s.len(),
            r@ == s@.subrange(from as int, i as int),
        decreases to - i,
    {
        r.push(s[i]);
        assert(s@.subrange(from as int, i as int).push(s@[i as int]) =~= s@.subrange(
            from as int,
            i + 1,
        ));
        i += 1;
    }
    r
}

/// Appends the characters of `tail` to `s`.
pub fn push_all(s: &mut Vec<char>, tail: &Vec<char>)
    ensures
        final(s)@ == old(s)@ + tail@,
{
    let mut i: usize = 0;
    while i < tail.len()
        invariant
            i <= tail.len(),
            s@ == old(s)@ + tail@.take(i as int),
        decreases tail.len() - i,
    {
        s.push(tail[i]);
        assert(old(s)@ + tail@.take(i + 1) =~= (old(s)@ + tail@.take(i as int)).push(
            tail@[i as int],
        ));
        i += 1;
    }
    assert(tail@.take(tail.len() as int) =~= tail@);
}

/// `p` stands in `s` at index `i`.
pub open spec fn occurs_at(s: Seq<char>, p: Seq<char>, i: int) -> bool {
    0 <= i && i + p.len() <= s.len() && s.subrange(i, i + p.len()) == p
}

/// `p` stands somewhere in `s`.
pub open spec fn has_sub(s: Seq<char>, p: Seq<char>) -> bool {
    exists|i: int| occurs_at(s, p, i)
}

/// Whether `p` stands in `s` at index `i`.
pub fn matches_at(s: &Vec<char>, p: &Vec<char>, i: usize) -> (r: bool)
    ensures
        r == occurs_at(s@, p@, i as int),
{
    if p.len() > s.len() || i > s.len() - p.len() {
        return false;
    }
    let mut k: usize = 0;
    while k < p.len()
        invariant
            k <= p.len(),
            i + p.len() <= s.len(),
            forall|j: int| 0 <= j < k ==> s@[i + j] == p@[j],
        decreases p.len() - k,
    {
        if s[i + k] != p[k] {
            assert(s@.subrange(i as int, i + p.len())[k as int] == s@[i + k]);
            return false;
        }
        k += 1;
    }
    assert(s@.subrange(i as int, i + p.len()) =~= p@);
    true
}

/// Whether `s` begins with `p`.
pub fn starts_with(s: &Vec<char>, p: &Vec<char>) -> (r: bool)
    ensures
        r == occurs_at(s@, p@, 0),
{
    matches_at(s, p, 0)
}

/// The index of the first occurrence of `p` in `s` at or after `from`; -1
/// when there is none.
pub open spec fn sub_index(s: Seq<char>, p: Seq<char>, from: int) -> int
    decreases s.len() - p.len() - from + 1,
{
    if from < 0 || from + p.len() > s.len() {
        -1
    } else if occurs_at(s, p, from) {
        from
    } else {
        sub_index(s, p, from + 1)
    }
}

/// `sub_index` names an occurrence at or after `from`, and there is none
/// between `from` and it; it is -1 exactly when there is none at all.
pub proof fn lemma_sub_index(s: Seq<char>, p: Seq<char>, from: int)
    requires
        0 <= from,
    ensures
        sub_index(s, p, from) >= 0 ==> from <= sub_index(s, p, from) && occurs_at(
            s,
            p,
            sub_index(s, p, from),
        ),
        sub_index(s, p, from) >= -1,
        forall|j: int|
            from <= j && (j < sub_index(s, p, from) || sub_index(s, p, from) < 0) ==> !occurs_at(
                s,
                p,
                j,
            ),
    decreases s.len() - p.len() - from + 1,
{
    if from + p.len() <= s.len() && !occurs_at(s, p, from) {
        lemma_sub_index(s, p, from + 1);
    }
}

/// `p` stands somewhere in `s` exactly when `sub_index` finds it.
pub proof fn lemma_has_sub(s: Seq<char>, p: Seq<char>)
    ensures
        has_sub(s, p) <==> sub_index(s, p, 0) >= 0,
{
    lemma_sub_index(s, p, 0);
    if sub_index(s, p, 0) >= 0 {
        assert(occurs_at(s, p, sub_index(s, p, 0)));
    }
}

/// The index of the first occurrence of `p` in `s` at or after `from`.
pub fn find_sub_from(s: &Vec<char>, p: &Vec<char>, from: usize) -> (r: Option<usize>)
    ensures
        match r {
            Some(i) => sub_index(s@, p@, from as int) == i,
            None => sub_index(s@, p@, from as int) == -1,
        },
{
    if p.len() > s.len() || from > s.len() - p.len() {
        return None;
    }
    let last: usize = s.len() - p.len();
    let mut i: usize = from;
    loop
        invariant
            from <= i <= last,
            last == s.len() - p.len(),
            sub_index(s@, p@, from as int) == sub_index(s@, p@, i as int),
        decreases last - i,
    {
        if matches_at(s, p, i) {
            return Some(i);
        }
        if i == last {
            assert(sub_index(s@, p@, i + 1) == -1);
            return None;
        }
        i += 1;
    }
}

/// The index of the first occurrence of `p` in `s`.
pub fn find_sub(s: &Vec<char>, p: &Vec<char>) -> (r: Option<usize>)
    ensures
        match r {
            Some(i) => occurs_at(s@, p@, i as int) && forall|j: int|
                0 <= j < i ==> !occurs_at(s@, p@, j),
            None => !has_sub(s@, p@),
        },
{
    proof {
        lemma_sub_index(s@, p@, 0);
    }
    find_sub_from(s, p, 0)
}

/// Whether `p` stands somewhere in `s`.
pub fn contains(s: &Vec<char>, p: &Vec<char>) -> (r: bool)
    ensures
        r == has_sub(s@, p@),
{
    find_sub(s, p).is_some()
}

/// The index of the first `c` in `s` at or after `from`; `s.len()` when there
/// is none.
pub open spec fn index_of_from(s: Seq<char>, c: char, from: int) -> int
    decreases s.len() - from,
{
    if from < 0 || from >= s.len() {
        s.len() as int
    } else if s[from] == c {
        from
    } else {
        index_of_from(s, c, from + 1)
    }
}

/// `index_of_from` lies between `from` and the length, names a `c` when it is
/// below the length, and no `c` stands before it.
pub proof fn lemma_index_of_from(s: Seq<char>, c: char, from: int)
    requires
        0 <= from <= s.len(),
    ensures
        from <= index_of_from(s, c, from) <= s.len(),
        index_of_from(s, c, from) < s.len() ==> s[index_of_from(s, c, from)] == c,
        forall|j: int| from <= j < index_of_from(s, c, from) ==> s[j] != c,
    decreases s.len() - from,
{
    if from < s.len() && s[from] != c {
        lemma_index_of_from(s, c, from + 1);
    }
}

/// The index of the first `c` in `s` at or after `from`; `s.len()` when there
/// is none.
pub fn find_char(s: &Vec<char>, c: char, from: usize) -> (r: usize)
    ensures
        r == index_of_from(s@, c, from as int),
        r <= s.len(),
        from <= s.len() ==> from <= r,
{
    if from >= s.len() {
        return s.len();
    }
    let mut i: usize = from;
    while i < s.len() && s[i] != c
        invariant
            from <= i <= s.len(),
            index_of_from(s@, c, from as int) == index_of_from(s@, c, i as int),
        decreases s.len() - i,
    {
        i += 1;
    }
    i
}

/// `s` without its leading white space.
pub open spec fn trim_start(s: Seq<char>) -> Seq<char>
    decreases s.len(),
{
    if s.len() > 0 && is_space(s[0]) {
        trim_start(s.drop_first())
    } else {
        s
    }
}

/// `s` without its trailing white space.
pub open spec fn trim_end(s: Seq<char>) -> Seq<char>
    decreases s.len(),
{
    if s.len() > 0 && is_space(s.last()) {
        trim_end(s.drop_last())
    } else {
        s
    }
}

/// `s` without leading and trailing white space.
pub open spec fn trimmed(s: Seq<char>) -> Seq<char> {
    trim_end(trim_start(s))
}

/// `s` without leading and trailing white space.
pub fn trim(s: &Vec<char>) -> (r: Vec<char>)
    ensures
        r@ == trimmed(s@),
{
    let n: usize = s.len();
    let mut a: usize = 0;
    assert(s@.subrange(0, n as int) =~= s@);
    while a < n && is_whitespace(s[a])
        invariant
            a <= n,
            n == s.len(),
            trim_start(s@) == trim_start(s@.subrange(a as int, n as int)),
        decreases n - a,
    {
        assert(s@.subrange(a as int, n as int).drop_first() =~= s@.subrange(a + 1, n as int));
        a += 1;
    }
    let mut b: usize = n;
    while b > a && is_whitespace(s[b - 1])
        invariant
            a <= b <= n,
            n == s.len(),
            trim_end(s@.subrange(a as int, n as int)) == trim_end(s@.subrange(a as int, b as int)),
        decreases b - a,
    {
        assert(s@.subrange(a as int, b as int).drop_last() =~= s@.subrange(a as int, b - 1));
        b -= 1;
    }
    slice(s, a, b)
}

/// The texts held by a vector of character vectors.
pub open spec fn texts(v: Seq<Vec<char>>) -> Seq<Seq<char>> {
    Seq::new(v.len(), |i: int| v[i]@)
}

/// The texts held by a vector of strings.
pub open spec fn strings(v: Seq<String>) -> Seq<Seq<char>> {
    Seq::new(v.len(), |i: int| v[i]@)
}

/// The text of an optional string slice.
pub open spec fn opt_text(s: Option<&str>) -> Option<Seq<char>> {
    match s {
        Some(t) => Some(t@),
        None => None,
    }
}

/// The text of an optional string.
pub open spec fn owned_text(s: Option<String>) -> Option<Seq<char>> {
    match s {
        Some(t) => Some(t@),
        None => None,
    }
}

/// An optional string, borrowed.
pub fn borrowed(s: &Option<String>) -> (r: Option<&str>)
    ensures
        opt_text(r) == owned_text(*s),
{
    match s {
        Some(t) => Some(t.as_str()),
        None => None,
    }
}

/// `l` without one trailing carriage return.
pub open spec fn strip_cr(l: Seq<char>) -> Seq<char> {
    if l.len() > 0 && l.last() == '\r' {
        l.drop_last()
    } else {
        l
    }
}

/// The lines of `s` from index `from` on: a line ends at a line feed, which
/// is dropped together with a carriage return directly before it; text after
/// the last line feed is a line of its own unless it is empty.
pub open spec fn lines_from(s: Seq<char>, from: int) -> Seq<Seq<char>>
    decreases s.len() - from,
{
    if from < 0 || from >= s.len() {
        Seq::empty()
    } else {
        let end = index_of_from(s, '\n', from);
        proof {
            lemma_index_of_from(s, '\n', from);
        }
        if end >= s.len() {
            seq![s.subrange(from, s.len() as int)]
        } else {
            seq![strip_cr(s.subrange(from, end))] + lines_from(s, end + 1)
        }
    }
}

/// The lines of `s`.
pub open spec fn lines(s: Seq<char>) -> Seq<Seq<char>> {
    lines_from(s, 0)
}

/// The lines of `s`.
pub fn split_lines(s: &Vec<char>) -> (out: Vec<Vec<char>>)
    ensures
        texts(out@) == lines(s@),
{
    let n: usize = s.len();
    let mut out: Vec<Vec<char>> = Vec::new();
    let mut pos: usize = 0;
    assert(texts(out@) =~= Seq::<Seq<char>>::empty());
    while pos < n
        invariant
            pos <= n,
            n == s.len(),
            texts(out@) + lines_from(s@, pos as int) == lines(s@),
        decreases n - pos,
    {
        let end: usize = find_char(s, '\n', pos);
        let ghost before = texts(out@);
        let ghost rest = lines_from(s@, pos as int);
        if end == n {
            let line = slice(s, pos, n);
            out.push(line);
            assert(texts(out@) =~= before + rest);
            pos = n;
        } else {
            let mut stop: usize = end;
            if end > pos && s[end - 1] == '\r' {
                stop = end - 1;
            }
            let line = slice(s, pos, stop);
            assert(line@ =~= strip_cr(s@.subrange(pos as int, end as int)));
            out.push(line);
            assert(texts(out@) =~= before.push(line@));
            assert(before.push(line@) + lines_from(s@, end + 1) =~= before + rest);
            pos = end + 1;
        }
    }
    assert(lines_from(s@, pos as int) =~= Seq::<Seq<char>>::empty());
    out
}

/// The index of the first white-space character of `s` at or after `from`;
/// `s.len()` when there is none.
pub open spec fn word_end(s: Seq<char>, from: int) -> int
    decreases s.len() - from,
{
    if from < 0 || from >= s.len() {
        s.len() as int
    } else if is_space(s[from]) {
        from
    } else {
        word_end(s, from + 1)
    }
}

/// `word_end` lies between `from` and the length.
pub proof fn lemma_word_end(s: Seq<char>, from: int)
    requires
        0 <= from <= s.len(),
    ensures
        from <= word_end(s, from) <= s.len(),
        from < s.len() && !is_space(s[from]) ==> from < word_end(s, from),
    decreases s.len() - from,
{
    if from < s.len() && !is_space(s[from]) {
        lemma_word_end(s, from + 1);
    }
}

/// The words of `s` from index `from` on: the maximal runs of characters that
/// are not white space, in order.
pub open spec fn words_from(s: Seq<char>, from: int) -> Seq<Seq<char>>
    decreases s.len() - from,
{
    if from < 0 || from >= s.len() {
        Seq::empty()
    } else if is_space(s[from]) {
        words_from(s, from + 1)
    } else {
        let end = word_end(s, from);
        proof {
            lemma_word_end(s, from);
        }
        seq![s.subrange(from, end)] + words_from(s, end)
    }
}

/// The words of `s`.
pub open spec fn words(s: Seq<char>) -> Seq<Seq<char>> {
    words_from(s, 0)
}

/// The words of `s`.
pub fn split_words(s: &Vec<char>) -> (out: Vec<Vec<char>>)
    ensures
        texts(out@) == words(s@),
{
    let n: usize = s.len();
    let mut out: Vec<Vec<char>> = Vec::new();
    let mut pos: usize = 0;
    assert(texts(out@) =~= Seq::<Seq<char>>::empty());
    while pos < n
        invariant
            pos <= n,
            n == s.len(),
            texts(out@) + words_from(s@, pos as int) == words(s@),
        decreases n - pos,
    {
        if is_whitespace(s[pos]) {
            pos += 1;
        } else {
            let mut end: usize = pos + 1;
            while end < n && !is_whitespace(s[end])
                invariant
                    pos < end <= n,
                    n == s.len(),
                    word_end(s@, pos as int) == word_end(s@, end as int),
                decreases n - end,
            {
                end += 1;
            }
            let ghost before = texts(out@);
            let ghost rest = words_from(s@, pos as int);
            let word = slice(s, pos, end);
            out.push(word);
            assert(texts(out@) =~= before.push(word@));
            assert(before.push(word@) + words_from(s@, end as int) =~= before + rest);
            pos = end;
        }
    }
    assert(words_from(s@, pos as int) =~= Seq::<Seq<char>>::empty());
    out
}

/// `c` does not occur in `s`.
pub open spec fn free_of(s: Seq<char>, c: char) -> bool {
    forall|i: int| 0 <= i < s.len() ==> s[i] != c
}

/// What `trim_start` leaves is no longer than `s`, does not begin with white
/// space, ends as `s` ends, and holds no character that `s` does not hold.
pub proof fn lemma_trim_start(s: Seq<char>, c: char)
    ensures
        trim_start(s).len() <= s.len(),
        trim_start(s).len() > 0 ==> !is_space(trim_start(s)[0]),
        trim_start(s).len() > 0 ==> trim_start(s).last() == s.last(),
        free_of(s, c) ==> free_of(trim_start(s), c),
    decreases s.len(),
{
    if s.len() > 0 && is_space(s[0]) {
        lemma_trim_start(s.drop_first(), c);
    }
}

/// What `trim_end` leaves is no longer than `s`, does not end with white
/// space, begins as `s` begins, and holds no character that `s` does not hold.
pub proof fn lemma_trim_end(s: Seq<char>, c: char)
    ensures
        trim_end(s).len() <= s.len(),
        trim_end(s).len() > 0 ==> !is_space(trim_end(s).last()),
        trim_end(s).len() > 0 ==> trim_end(s)[0] == s[0],
        free_of(s, c) ==> free_of(trim_end(s), c),
    decreases s.len(),
{
    if s.len() > 0 && is_space(s.last()) {
        lemma_trim_end(s.drop_last(), c);
    }
}

/// Trimmed text is no longer than the text it came from, neither begins nor
/// ends with white space, and holds no character that the text does not hold.
pub proof fn lemma_trimmed(s: Seq<char>, c: char)
    ensures
        trimmed(s).len() <= s.len(),
        trimmed(s).len() > 0 ==> !is_space(trimmed(s)[0]) && !is_space(trimmed(s).last()),
        free_of(s, c) ==> free_of(trimmed(s), c),
{
    lemma_trim_start(s, c);
    lemma_trim_end(trim_start(s), c);
}

/// Text that neither begins nor ends with white space is its own trimmed form,
/// also with one space appended.
pub proof fn lemma_trimmed_fixed(t: Seq<char>)
    requires
        t.len() > 0 ==> !is_space(t[0]) && !is_space(t.last()),
    ensures
        trimmed(t) == t,
        t.len() > 0 ==> trimmed(t + seq![' ']) == t,
{
    if t.len() > 0 {
        let u = t + seq![' '];
        assert(u[0] == t[0]);
        assert(trim_start(u) == u);
        assert(u.last() == ' ');
        assert(u.drop_last() =~= t);
        assert(trim_end(u) == trim_end(t));
    }
}

/// Whether two strings hold the same text.
pub fn same_str(a: &str, b: &str) -> (r: bool)
    ensures
        r == (a@ == b@),
{
    let x = to_chars(a);
    let y = to_chars(b);
    same_text(&x, &y)
}

/// Whether `p` stands somewhere in `s`.
pub fn str_contains(s: &str, p: &str) -> (r: bool)
    ensures
        r == has_sub(s@, p@),
{
    let x = to_chars(s);
    let y = to_chars(p);
    contains(&x, &y)
}

/// Appends the characters of `tail` to `s`.
pub fn push_str(s: &mut Vec<char>, tail: &str)
    ensures
        final(s)@ == old(s)@ + tail@,
{
    let t = to_chars(tail);
    push_all(s, &t);
}

/// `s` with each occurrence of `p` at or after `from` replaced by `q`, the
/// occurrences being taken from left to right and not overlapping; the text
/// before `from` is left out.
pub open spec fn replaced_from(s: Seq<char>, p: Seq<char>, q: Seq<char>, from: int) -> Seq<char>
    decreases s.len() - from,
{
    let at = sub_index(s, p, from);
    if from < 0 || from > s.len() {
        Seq::empty()
    } else if at < 0 || p.len() == 0 {
        s.subrange(from, s.len() as int)
    } else {
        proof {
            lemma_sub_index(s, p, from);
        }
        s.subrange(from, at) + q + replaced_from(s, p, q, at + p.len())
    }
}

/// `s` with each occurrence of `p` replaced by `q`. An empty `p` occurs
/// nowhere: `s` is then left as it is.
pub open spec fn replaced(s: Seq<char>, p: Seq<char>, q: Seq<char>) -> Seq<char> {
    replaced_from(s, p, q, 0)
}

/// `s` with each occurrence of `p` replaced by `q`.
pub fn replace(s: &Vec<char>, p: &Vec<char>, q: &Vec<char>) -> (r: Vec<char>)
    ensures
        r@ == replaced(s@, p@, q@),
{
    let n: usize = s.len();
    if p.len() == 0 {
        return slice(s, 0, n);
    }
    let mut out: Vec<char> = Vec::new();
    let mut pos: usize = 0;
    loop
        invariant
            pos <= n,
            n == s.len(),
            p.len() > 0,
            out@ + replaced_from(s@, p@, q@, pos as int) == replaced(s@, p@, q@),
        decreases n - pos,
    {
        let ghost before = out@;
        let ghost rest = replaced_from(s@, p@, q@, pos as int);
        proof {
            lemma_sub_index(s@, p@, pos as int);
        }
        match find_sub_from(s, p, pos) {
            None => {
                let tail = slice(s, pos, n);
                push_all(&mut out, &tail);
                return out;
            },
            Some(at) => {
                let kept = slice(s, pos, at);
                push_all(&mut out, &kept);
                push_all(&mut out, q);
                assert(out@ + replaced_from(s@, p@, q@, at + p.len()) =~= before + rest);
                pos = at + p.len();
            },
        }
    }
}

/// A word: not empty, and free of white space.
pub open spec fn is_word(w: Seq<char>) -> bool {
    w.len() > 0 && forall|i: int| 0 <= i < w.len() ==> !is_space(#[trigger] w[i])
}

/// A gap: white space only, possibly none.
pub open spec fn is_gap(g: Seq<char>) -> bool {
    forall|i: int| 0 <= i < g.len() ==> is_space(#[trigger] g[i])
}

/// The line that begins with `gaps[0]` and goes on with each word of `ws`
/// followed by the next gap.
pub open spec fn laid_out(ws: Seq<Seq<char>>, gaps: Seq<Seq<char>>) -> Seq<char>
    decreases ws.len(),
{
    if ws.len() == 0 || gaps.len() == 0 {
        if gaps.len() == 0 {
            Seq::empty()
        } else {
            gaps[0]
        }
    } else {
        gaps[0] + ws[0] + laid_out(ws.drop_first(), gaps.drop_first())
    }
}

/// `ws` are words, `gaps` are gaps, one before each word and one after the
/// last, and the gaps between two words are not empty.
pub open spec fn well_laid(ws: Seq<Seq<char>>, gaps: Seq<Seq<char>>) -> bool {
    &&& gaps.len() == ws.len() + 1
    &&& forall|i: int| 0 <= i < ws.len() ==> is_word(#[trigger] ws[i])
    &&& forall|i: int| 0 <= i < gaps.len() ==> is_gap(#[trigger] gaps[i])
    &&& forall|i: int| 0 < i < ws.len() ==> (#[trigger] gaps[i]).len() > 0
}

/// A run free of white space that ends at white space or at the end of the
/// text ends a word there.
proof fn lemma_word_end_at(s: Seq<char>, from: int, to: int)
    requires
        0 <= from <= to <= s.len(),
        forall|j: int| from <= j < to ==> !is_space(#[trigger] s[j]),
        to == s.len() || is_space(s[to]),
    ensures
        word_end(s, from) == to,
    decreases to - from,
{
    if from < to {
        lemma_word_end_at(s, from + 1, to);
    }
}

/// Words do not depend on the text before the place from which they are
/// taken.
proof fn lemma_words_shift(a: Seq<char>, b: Seq<char>, k: int)
    requires
        0 <= k,
    ensures
        words_from(a + b, a.len() + k) == words_from(b, k),
    decreases b.len() - k,
{
    let s = a + b;
    let n = a.len() as int;
    if k < b.len() {
        assert(s[n + k] == b[k]);
        lemma_words_shift(a, b, k + 1);
        if !is_space(b[k]) {
            lemma_word_end(b, k);
            let end = word_end(b, k);
            lemma_word_end_shift(a, b, k);
            assert(s.subrange(n + k, n + end) =~= b.subrange(k, end));
            lemma_words_shift(a, b, end);
        }
    }
}

/// The end of a word does not depend on the text before the place from
/// which it is looked for.
proof fn lemma_word_end_shift(a: Seq<char>, b: Seq<char>, k: int)
    requires
        0 <= k,
    ensures
        word_end(a + b, a.len() + k) == a.len() + word_end(b, k),
    decreases b.len() - k,
{
    if k < b.len() {
        assert((a + b)[a.len() + k] == b[k]);
        lemma_word_end_shift(a, b, k + 1);
    }
}

/// A gap at the beginning of a text holds no word.
proof fn lemma_words_skip_gap(g: Seq<char>, s: Seq<char>, k: int)
    requires
        is_gap(g),
        0 <= k <= g.len(),
    ensures
        words_from(g + s, k) == words_from(g + s, g.len() as int),
    decreases g.len() - k,
{
    if k < g.len() {
        assert((g + s)[k] == g[k]);
        lemma_words_skip_gap(g, s, k + 1);
    }
}

/// The words of a line laid out from words and gaps are those words.
pub proof fn lemma_words_of_laid_out(ws: Seq<Seq<char>>, gaps: Seq<Seq<char>>)
    requires
        well_laid(ws, gaps),
    ensures
        words(laid_out(ws, gaps)) == ws,
    decreases ws.len(),
{
    let line = laid_out(ws, gaps);
    let none = Seq::<char>::empty();
    if ws.len() == 0 {
        assert(line == gaps[0]);
        assert(gaps[0] + none =~= gaps[0]);
        lemma_words_skip_gap(gaps[0], none, 0);
        assert(words(line) =~= ws);
    } else {
        let g = gaps[0];
        let w = ws[0];
        let rest = laid_out(ws.drop_first(), gaps.drop_first());
        assert(well_laid(ws.drop_first(), gaps.drop_first())) by {
            assert forall|i: int| 0 <= i < ws.drop_first().len() implies is_word(
                #[trigger] ws.drop_first()[i],
            ) by {
                assert(ws.drop_first()[i] == ws[i + 1]);
            }
            assert forall|i: int| 0 <= i < gaps.drop_first().len() implies is_gap(
                #[trigger] gaps.drop_first()[i],
            ) by {
                assert(gaps.drop_first()[i] == gaps[i + 1]);
            }
            assert forall|i: int| 0 < i < ws.drop_first().len() implies (
            #[trigger] gaps.drop_first()[i]).len() > 0 by {
                assert(gaps.drop_first()[i] == gaps[i + 1]);
            }
        }
        lemma_words_of_laid_out(ws.drop_first(), gaps.drop_first());
        // The rest is empty or begins with white space.
        let next_gap = gaps.drop_first()[0];
        assert(next_gap == gaps[1]);
        assert(is_gap(gaps[1]));
        if rest.len() > 0 {
            if ws.len() > 1 {
                assert(gaps[1].len() > 0);
                assert(rest[0] == next_gap[0]);
            } else {
                assert(rest == next_gap);
            }
            assert(is_space(next_gap[0]));
            assert(is_space(rest[0]));
        }
        let tail = w + rest;
        assert(line =~= g + tail);
        lemma_words_skip_gap(g, tail, 0);
        lemma_words_shift(g, tail, 0);
        assert(words(line) == words_from(tail, 0));
        assert(tail[0] == w[0]);
        assert forall|j: int| 0 <= j < w.len() implies !is_space(#[trigger] tail[j]) by {
            assert(tail[j] == w[j]);
        }
        if rest.len() > 0 {
            assert(tail[w.len() as int] == rest[0]);
        }
        lemma_word_end_at(tail, 0, w.len() as int);
        assert(tail.subrange(0, w.len() as int) =~= w);
        lemma_words_shift(w, rest, 0);
        assert(words_from(tail, 0) == seq![w] + words_from(rest, 0));
        assert(seq![w] + ws.drop_first() =~= ws);
    }
}

} // verus!
