use grably::numbers::{i32_literal, push_decimal};
use grably::text::{
    contains, find_char, find_sub, find_sub_from, from_chars, is_whitespace, matches_at, replace,
    same_text, split_lines, split_words, starts_with, to_chars, trim,
};

fn chars(s: &str) -> Vec<char> {
    to_chars(s)
}

fn strings(v: Vec<Vec<char>>) -> Vec<String> {
    v.iter().map(from_chars).collect()
}

/// A small deterministic generator of test texts over a given alphabet.
fn samples(alphabet: &[char], count: usize, max_len: usize) -> Vec<String> {
    let mut state: u64 = 0x2545F4914F6CDD1D;
    let mut out = Vec::new();
    for _ in 0..count {
        state = state.wrapping_mul(6364136223846793005).wrapping_add(1442695040888963407);
        let len = ((state >> 33) as usize) % (max_len + 1);
        let mut s = String::new();
        for _ in 0..len {
            state = state.wrapping_mul(6364136223846793005).wrapping_add(1442695040888963407);
            s.push(alphabet[((state >> 33) as usize) % alphabet.len()]);
        }
        out.push(s);
    }
    out
}

#[test]
fn chars_round_trip() {
    for s in ["", "a", "héllo wörld", "日本語\n\u{2028}"] {
        assert_eq!(from_chars(&to_chars(s)), s);
        assert_eq!(to_chars(s), s.chars().collect::<Vec<char>>());
    }
}

#[test]
fn whitespace_agrees_with_the_standard_library_on_every_character() {
    for n in 0..=0x10FFFFu32 {
        if let Some(c) = char::from_u32(n) {
            assert_eq!(is_whitespace(c), c.is_whitespace(), "U+{:04X}", n);
        }
    }
}

#[test]
fn trim_agrees_with_the_standard_library() {
    for s in samples(&[' ', '\t', '\n', '\r', 'a', 'b', '\u{a0}', '\u{3000}'], 400, 8) {
        assert_eq!(from_chars(&trim(&chars(&s))), s.trim(), "{:?}", s);
    }
    assert_eq!(from_chars(&trim(&chars("  \t "))), "");
    assert_eq!(from_chars(&trim(&chars(""))), "");
    assert_eq!(from_chars(&trim(&chars(" a b "))), "a b");
}

#[test]
fn lines_agree_with_the_standard_library() {
    for s in samples(&['a', 'b', '\n', '\r', ' '], 600, 10) {
        let expected: Vec<String> = s.lines().map(|l| l.to_string()).collect();
        assert_eq!(strings(split_lines(&chars(&s))), expected, "{:?}", s);
    }
}

#[test]
fn lines_edge_cases() {
    assert_eq!(strings(split_lines(&chars(""))), Vec::<String>::new());
    assert_eq!(strings(split_lines(&chars("\n"))), vec![""]);
    assert_eq!(strings(split_lines(&chars("a\r\nb\n"))), vec!["a", "b"]);
    assert_eq!(strings(split_lines(&chars("a\rb"))), vec!["a\rb"]);
    assert_eq!(strings(split_lines(&chars("a\r"))), vec!["a\r"]);
    assert_eq!(strings(split_lines(&chars("a\n\nb"))), vec!["a", "", "b"]);
}

#[test]
fn words_agree_with_the_standard_library() {
    for s in samples(&['a', 'b', '%', ' ', '\t', '\n', '\u{2003}'], 600, 12) {
        let expected: Vec<String> = s.split_whitespace().map(|l| l.to_string()).collect();
        assert_eq!(strings(split_words(&chars(&s))), expected, "{:?}", s);
    }
    assert_eq!(strings(split_words(&chars("   "))), Vec::<String>::new());
    assert_eq!(strings(split_words(&chars(" a  bc "))), vec!["a", "bc"]);
}

#[test]
fn search_agrees_with_the_standard_library() {
    let texts = samples(&['a', 'b', 'c'], 300, 9);
    let needles = samples(&['a', 'b', 'c'], 40, 3);
    for s in &texts {
        for p in &needles {
            let (sc, pc) = (chars(s), chars(p));
            assert_eq!(contains(&sc, &pc), s.contains(p.as_str()), "{:?} {:?}", s, p);
            assert_eq!(starts_with(&sc, &pc), s.starts_with(p.as_str()));
            assert_eq!(find_sub(&sc, &pc), s.find(p.as_str()));
            for from in 0..=sc.len() {
                assert_eq!(
                    find_sub_from(&sc, &pc, from),
                    s[from..].find(p.as_str()).map(|i| i + from)
                );
                assert_eq!(matches_at(&sc, &pc, from), s[from..].starts_with(p.as_str()));
            }
        }
    }
}

#[test]
fn search_edge_cases() {
    assert!(contains(&chars("abc"), &chars("")));
    assert!(contains(&chars(""), &chars("")));
    assert!(!contains(&chars(""), &chars("a")));
    assert!(!contains(&chars("ab"), &chars("abc")));
    assert_eq!(find_sub(&chars("abc"), &chars("")), Some(0));
    assert_eq!(find_sub_from(&chars("abc"), &chars(""), 3), Some(3));
    assert_eq!(find_sub_from(&chars("abc"), &chars("a"), 7), None);
    assert!(!matches_at(&chars("abc"), &chars("c"), usize::MAX));
    assert_eq!(find_char(&chars("a.b.c"), '.', 0), 1);
    assert_eq!(find_char(&chars("a.b.c"), '.', 2), 3);
    assert_eq!(find_char(&chars("a.b.c"), '.', 4), 5);
    assert_eq!(find_char(&chars(""), '.', 0), 0);
    assert_eq!(find_char(&chars("a.b"), '.', 9), 3);
}

#[test]
fn replace_agrees_with_the_standard_library() {
    let texts = samples(&['a', 'b'], 300, 10);
    for s in &texts {
        for (p, q) in [("a", "xy"), ("ab", ""), ("aa", "a"), ("aba", "b")] {
            let got = from_chars(&replace(&chars(s), &chars(p), &chars(q)));
            assert_eq!(got, s.replace(p, q), "{:?} {:?} {:?}", s, p, q);
        }
        // An empty pattern occurs nowhere.
        assert_eq!(from_chars(&replace(&chars(s), &chars(""), &chars("x"))), *s);
    }
}

#[test]
fn texts_are_compared() {
    assert!(same_text(&chars("abc"), &chars("abc")));
    assert!(!same_text(&chars("abc"), &chars("abd")));
    assert!(!same_text(&chars("abc"), &chars("ab")));
    assert!(same_text(&chars(""), &chars("")));
}

#[test]
fn decimal_digits_agree_with_the_standard_library() {
    for n in [0u64, 1, 9, 10, 11, 99, 100, 1234, 9999, 10000, 1_700_000_000, u64::MAX] {
        let mut out = chars("n=");
        push_decimal(&mut out, n);
        assert_eq!(from_chars(&out), format!("n={}", n));
    }
}

#[test]
fn integer_literals_agree_with_the_standard_library() {
    let fixed = [
        "", "+", "-", "0", "-0", "+0", "007", "1080", "137", "-137", "+137", "2147483647",
        "2147483648", "-2147483648", "-2147483649", "+2147483647", "+2147483648",
        "00000000000000000002147483647", "99999999999999999999999999", "12a", "a12", "1 2",
        " 12", "12 ", "1_000", "--1", "+-1", "٣", "1.0", "1e3", "bestvideo", "mp4",
    ];
    for s in fixed {
        assert_eq!(i32_literal(&chars(s)), s.parse::<i32>().is_ok(), "{:?}", s);
    }
    for s in samples(&['0', '1', '2', '9', '+', '-', 'x'], 2000, 12) {
        assert_eq!(i32_literal(&chars(&s)), s.parse::<i32>().is_ok(), "{:?}", s);
    }
}
