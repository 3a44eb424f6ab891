use grably::vtt::{
    carries_cue_text, carries_cue_text_given, parse_vtt_to_text, parse_vtt_to_text_given,
    remove_tags,
};
use grably::text::{from_chars, to_chars};

/// The same conversion written with the standard library's string methods.
fn by_std_methods(vtt_content: &str) -> String {
    let mut transcript = String::new();
    let mut last_text = String::new();
    for line in vtt_content.lines() {
        if !line.contains("-->")
            && !line.starts_with("WEBVTT")
            && !line.starts_with("NOTE")
            && !line.starts_with("Kind:")
            && !line.starts_with("Language:")
            && !line.trim().is_empty()
            && !line.chars().all(|c| c.is_numeric() || c == ':' || c == '.')
        {
            let mut clean_text = line.to_string();
            while let Some(start) = clean_text.find('<') {
                if let Some(length) = clean_text[start..].find('>') {
                    clean_text.replace_range(start..=start + length, "");
                } else {
                    break;
                }
            }
            clean_text = clean_text.trim().to_string();
            if !clean_text.is_empty() && clean_text != last_text {
                transcript.push_str(&clean_text);
                transcript.push(' ');
                last_text = clean_text;
            }
        }
    }
    transcript.trim().to_string()
}

#[test]
fn inline_tags_are_removed() {
    assert_eq!(
        parse_vtt_to_text("<00:00:01.000>Hello<00:00:02.000> world"),
        "Hello world"
    );
}

#[test]
fn headers_timings_and_numbers_are_dropped() {
    let vtt = "WEBVTT\nKind: captions\nLanguage: en\n\n1\n00:00:00.000 --> 00:00:02.000\nHello there\n\n2\n00:00:02.000 --> 00:00:04.000\nGeneral Kenobi\n";
    assert_eq!(parse_vtt_to_text(vtt), "Hello there General Kenobi");
}

#[test]
fn notes_and_blank_lines_are_dropped() {
    assert_eq!(parse_vtt_to_text("NOTE a remark\n   \n\t\nText\n"), "Text");
    assert_eq!(parse_vtt_to_text(""), "");
    assert_eq!(parse_vtt_to_text("\n\n\n"), "");
    assert_eq!(parse_vtt_to_text("WEBVTT"), "");
}

#[test]
fn a_header_word_that_does_not_begin_the_line_is_text() {
    assert_eq!(parse_vtt_to_text(" WEBVTT\nWe NOTE this"), "WEBVTT We NOTE this");
}

#[test]
fn adjacent_duplicates_are_dropped_but_not_distant_ones() {
    assert_eq!(parse_vtt_to_text("a\na\nb\na\n"), "a b a");
    assert_eq!(parse_vtt_to_text("a\n<c>a</c>\n a \n"), "a");
    assert_eq!(parse_vtt_to_text("a\n00:01 --> 00:02\n\na\n"), "a");
}

#[test]
fn lines_of_digits_colons_and_dots_are_dropped() {
    assert_eq!(parse_vtt_to_text("12\n00:00:01.500\n1.\n:\nx1\n"), "x1");
    // Digits of other scripts and other numeric characters count as numbers.
    assert_eq!(parse_vtt_to_text("٣٤:٥٦\n½\nok\n"), "ok");
    // A space makes the line text.
    assert_eq!(parse_vtt_to_text("1 2\n"), "1 2");
}

#[test]
fn every_tag_is_cut_from_its_opening_bracket_to_the_next_closing_one() {
    let cut = |s: &str| from_chars(&remove_tags(&to_chars(s)));
    assert_eq!(cut("a<b>c"), "ac");
    assert_eq!(cut("<<a>>"), ">");
    assert_eq!(cut("<a<b>c>"), "c>");
    assert_eq!(cut("a<b"), "a<b");
    assert_eq!(cut("a>b"), "a>b");
    assert_eq!(cut("<>"), "");
    assert_eq!(cut("<c.colorE5E5E5>word</c><00:00:01.000><c> next</c>"), "word next");
    // A closing bracket that stands before the tags does not keep them.
    assert_eq!(cut("a > b <i>c</i>"), "a > b c");
    assert_eq!(cut("a>b<c>d"), "a>bd");
    assert_eq!(cut(">><x>><y"), ">>><y");
    assert_eq!(parse_vtt_to_text("a > b <i>c</i>"), "a > b c");
}

#[test]
fn no_tag_is_left_in_the_text_of_one_line() {
    let alphabet = ['a', ' ', '<', '>', '/', '1'];
    let mut state: u64 = 5;
    for _ in 0..3000 {
        let mut s = String::new();
        state = state.wrapping_mul(6364136223846793005).wrapping_add(1442695040888963407);
        let len = ((state >> 33) as usize) % 16;
        for _ in 0..len {
            state = state.wrapping_mul(6364136223846793005).wrapping_add(1442695040888963407);
            s.push(alphabet[((state >> 33) as usize) % alphabet.len()]);
        }
        let text = parse_vtt_to_text(&s);
        if let Some(open) = text.find('<') {
            assert!(!text[open..].contains('>'), "{:?} gives {:?}", s, text);
        }
    }
}

#[test]
fn the_numeric_characters_can_be_given() {
    let digits = "0123456789";
    assert_eq!(parse_vtt_to_text_given("12\n00:01\nx1\n", digits), "x1");
    assert_eq!(parse_vtt_to_text_given("12\n00:01\nx1\n", ""), "12 00:01 x1");
    assert_eq!(parse_vtt_to_text_given("12\n21\n13\n", "12"), "13");
    assert_eq!(parse_vtt_to_text_given("ab\n:.\nabc\n", "ab"), "abc");
    assert_eq!(parse_vtt_to_text_given("a > b <i>c</i>", digits), "a > b c");
    assert_eq!(
        parse_vtt_to_text_given("<00:00:01.000>Hello<00:00:02.000> world", digits),
        "Hello world"
    );
    for vtt in ["WEBVTT\n\n1\n00:01 --> 00:02\nHello <b>there</b>\n7\n", "a\na\nb\n", ""] {
        assert_eq!(parse_vtt_to_text_given(vtt, digits), parse_vtt_to_text(vtt));
    }
    assert!(carries_cue_text_given(&to_chars("12:30"), &to_chars("")));
    assert!(!carries_cue_text_given(&to_chars("12:30"), &to_chars("0123")));
    assert!(carries_cue_text_given(&to_chars("12:40"), &to_chars("0123")));
    assert!(!carries_cue_text_given(&to_chars("a --> b"), &to_chars("")));
}

#[test]
fn cue_lines_are_told_from_the_rest() {
    let cue = |s: &str| carries_cue_text(&to_chars(s));
    assert!(cue("Hello"));
    assert!(!cue("a --> b"));
    assert!(!cue("WEBVTT - title"));
    assert!(!cue("Kind: captions"));
    assert!(!cue("Language: en"));
    assert!(!cue("NOTE"));
    assert!(!cue("   "));
    assert!(!cue("00:00:01.000"));
    assert!(cue("Kind of blue"));
}

#[test]
fn parsing_its_own_output_gives_the_same_text() {
    for vtt in [
        "WEBVTT\n\n00:00:00.000 --> 00:00:02.000\nHello <b>there</b>\n",
        "one\ntwo\ntwo\nthree word line\n",
        "<00:00:01.000>Hello<00:00:02.000> world",
        "",
    ] {
        let once = parse_vtt_to_text(vtt);
        assert_eq!(parse_vtt_to_text(&once), once);
    }
}

#[test]
fn output_that_reads_as_a_header_number_or_tag_is_not_kept_on_a_second_pass() {
    // The output is a number line.
    assert_eq!(parse_vtt_to_text("1 \n"), "1");
    assert_eq!(parse_vtt_to_text("1"), "");
    // The output begins like a header line.
    assert_eq!(parse_vtt_to_text(" WEBVTT\n"), "WEBVTT");
    assert_eq!(parse_vtt_to_text("WEBVTT"), "");
    // Two lines that are tag free join to a text with a tag.
    assert_eq!(parse_vtt_to_text("a<b\nc>d\n"), "a<b c>d");
    assert_eq!(parse_vtt_to_text("a<b c>d"), "ad");
    // A tag around a number leaves a number line.
    assert_eq!(parse_vtt_to_text("<c>12</c>"), "12");
    assert_eq!(parse_vtt_to_text("12"), "");
}

#[test]
fn agrees_with_the_conversion_written_with_the_standard_library() {
    let alphabet = ['a', 'b', ' ', '\n', '\r', '<', '>', '1', ':', '.', '-', 'W', 'N'];
    let mut state: u64 = 99;
    for _ in 0..3000 {
        let mut s = String::new();
        state = state.wrapping_mul(6364136223846793005).wrapping_add(1442695040888963407);
        let len = ((state >> 33) as usize) % 24;
        for _ in 0..len {
            state = state.wrapping_mul(6364136223846793005).wrapping_add(1442695040888963407);
            s.push(alphabet[((state >> 33) as usize) % alphabet.len()]);
        }
        assert_eq!(parse_vtt_to_text(&s), by_std_methods(&s), "{:?}", s);
    }
    for s in [
        "WEBVTT\nKind: captions\nLanguage: en\n\n00:00:00.160 --> 00:00:02.389 align:start position:0%\n \nhi<00:00:00.320><c> everyone</c>\n\n00:00:02.389 --> 00:00:02.399 align:start position:0%\nhi everyone\n \n",
        "NOTE x\n-->\nfoo --> bar\n",
    ] {
        assert_eq!(parse_vtt_to_text(s), by_std_methods(s));
    }
}
