use selection_replace::title::{is_whitespace, normalize_title, titles_match, SEPARATOR_DASH};

#[test]
fn whitespace_agrees_with_std_on_every_char() {
    for code in 0..=0x10FFFFu32 {
        if let Some(c) = char::from_u32(code) {
            assert_eq!(is_whitespace(c), c.is_whitespace(), "U+{:04X}", code);
        }
    }
}

#[test]
fn whitespace_knows_the_usual_characters() {
    assert!(is_whitespace(' '));
    assert!(is_whitespace('\t'));
    assert!(is_whitespace('\n'));
    assert!(is_whitespace('\r'));
    assert!(is_whitespace('\u{a0}'));
    assert!(is_whitespace('\u{3000}'));
    assert!(!is_whitespace('a'));
    assert!(!is_whitespace('\u{2013}'));
    assert!(!is_whitespace('\u{200b}'));
    assert!(!is_whitespace('\u{180e}'));
}

#[test]
fn separator_dash_is_the_en_dash() {
    assert_eq!(SEPARATOR_DASH, '–');
    assert_eq!(SEPARATOR_DASH as u32, 0x2013);
}

#[test]
fn normalize_keeps_what_stands_before_the_separator() {
    assert_eq!(normalize_title("Notepad – Untitled"), "Notepad");
    assert_eq!(normalize_title("Notepad – Untitled (2)"), "Notepad");
    assert_eq!(normalize_title("Paint – Untitled"), "Paint");
}

#[test]
fn normalize_cuts_at_the_first_separator_only() {
    assert_eq!(normalize_title("a – b – c"), "a");
    assert_eq!(normalize_title("My File – Editor – 3 tabs"), "MyFile");
}

#[test]
fn normalize_strips_all_whitespace() {
    assert_eq!(normalize_title(" A B "), "AB");
    assert_eq!(normalize_title("AB"), "AB");
    assert_eq!(normalize_title("A\tB\nC\r D"), "ABCD");
    assert_eq!(normalize_title("A\u{a0}B\u{3000}C\u{2003}D"), "ABCD");
    assert_eq!(normalize_title("   "), "");
}

#[test]
fn normalize_of_a_title_without_separator_is_the_stripped_title() {
    assert_eq!(normalize_title("Ghost Window"), "GhostWindow");
    assert_eq!(normalize_title("untitled.txt"), "untitled.txt");
}

#[test]
fn normalize_takes_only_the_en_dash_between_two_spaces_for_a_separator() {
    assert_eq!(normalize_title("a - b"), "a-b");
    assert_eq!(normalize_title("a — b"), "a—b");
    assert_eq!(normalize_title("a–b"), "a–b");
    assert_eq!(normalize_title("a –b"), "a–b");
    assert_eq!(normalize_title("a– b"), "a–b");
    assert_eq!(normalize_title("a\t–\tb"), "a–b");
    assert_eq!(normalize_title("a\u{a0}–\u{a0}b"), "a–b");
}

#[test]
fn normalize_at_the_edges() {
    assert_eq!(normalize_title(""), "");
    assert_eq!(normalize_title(" – "), "");
    assert_eq!(normalize_title(" – x"), "");
    assert_eq!(normalize_title("x – "), "x");
    assert_eq!(normalize_title("x –"), "x–");
    assert_eq!(normalize_title("– x"), "–x");
    assert_eq!(normalize_title(" –"), "–");
    assert_eq!(normalize_title("x  – y"), "x");
    assert_eq!(normalize_title(" – – "), "");
}

#[test]
fn normalize_handles_text_outside_ascii() {
    assert_eq!(normalize_title("文档 一 – 编辑器"), "文档一");
    assert_eq!(normalize_title("Ünï cödé 🦀 – app"), "Ünïcödé🦀");
}

#[test]
fn normalize_is_idempotent_on_samples() {
    let samples = [
        "",
        " ",
        "Notepad – Untitled",
        "Notepad – Untitled (2)",
        " A B ",
        "a – b – c",
        "x –",
        "– x",
        "a–b",
        "A\u{a0}B – C",
        "文档 一 – 编辑器",
        " – ",
    ];
    for sample in samples {
        let once = normalize_title(sample);
        let twice = normalize_title(&once);
        assert_eq!(twice, once, "{:?}", sample);
    }
}

#[test]
fn normalized_titles_hold_no_whitespace() {
    let samples = ["Notepad – Untitled", " A B ", "a\tb\u{2028}c", "x  – y"];
    for sample in samples {
        assert!(!normalize_title(sample).chars().any(|c| c.is_whitespace()));
    }
}

#[test]
fn titles_with_the_same_base_match() {
    assert!(titles_match("Notepad – Untitled", "Notepad – Untitled (2)"));
    assert!(titles_match("Notepad – Untitled (2)", "Notepad – Untitled"));
    assert!(titles_match("Notepad", "Notepad – anything"));
    assert!(titles_match("Note pad – a", "Notepad – b"));
}

#[test]
fn titles_with_different_bases_do_not_match() {
    assert!(!titles_match("Notepad – Untitled", "Paint – Untitled"));
    assert!(!titles_match("Notepad", "notepad"));
    assert!(!titles_match("Notepad", ""));
}

#[test]
fn whitespace_only_differences_are_ignored() {
    assert_eq!(normalize_title(" A B "), normalize_title("AB"));
    assert!(titles_match(" A B ", "AB"));
    assert!(titles_match("A\tB", "A B"));
}

#[test]
fn whitespace_inside_a_separator_is_not_ignored() {
    assert_eq!(normalize_title("A – B"), "A");
    assert_eq!(normalize_title("A–B"), "A–B");
    assert!(!titles_match("A – B", "A–B"));
}

#[test]
fn titles_that_normalize_to_nothing_match_each_other() {
    assert!(titles_match("", "   "));
    assert!(titles_match("", " – x"));
}
