use manning::chars::{chars_of, push_chars, same_chars, string_of};
use manning::text::{contains_chars, is_space_char, split_chars, trim_chars};

fn cs(s: &str) -> Vec<char> {
    s.chars().collect()
}

fn st(v: &[char]) -> String {
    v.iter().collect()
}

#[test]
fn chars_round_trip() {
    assert_eq!(chars_of("3月14日"), vec!['3', '月', '1', '4', '日']);
    assert_eq!(string_of(&vec!['早', '番']), "早番");
    assert_eq!(chars_of(""), Vec::<char>::new());
    assert_eq!(string_of(&Vec::new()), "");
}

#[test]
fn push_chars_appends_in_order() {
    let mut s = String::from("行:");
    push_chars(&mut s, &cs("12"));
    assert_eq!(s, "行:12");
}

#[test]
fn same_chars_compares_content() {
    assert!(same_chars(&cs("14"), &cs("14")));
    assert!(!same_chars(&cs("14"), &cs("15")));
    assert!(!same_chars(&cs("14"), &cs("140")));
    assert!(same_chars(&cs(""), &cs("")));
}

#[test]
fn white_space_is_what_std_calls_white_space() {
    for n in 0u32..=0x3100 {
        if let Some(c) = char::from_u32(n) {
            assert_eq!(is_space_char(c), c.is_whitespace(), "U+{:04X}", n);
        }
    }
    assert!(!is_space_char('\u{FEFF}'));
    assert!(!is_space_char('\u{200B}'));
}

#[test]
fn trim_removes_both_ends_only() {
    assert_eq!(st(&trim_chars(&cs("  3 / 14  "))), "3 / 14");
    assert_eq!(st(&trim_chars(&cs("\t\n早番\r\n"))), "早番");
    assert_eq!(st(&trim_chars(&cs("\u{3000}田中\u{00A0}"))), "田中");
    assert_eq!(st(&trim_chars(&cs("Sato"))), "Sato");
}

#[test]
fn trim_of_blank_text_is_empty() {
    assert_eq!(st(&trim_chars(&cs(""))), "");
    assert_eq!(st(&trim_chars(&cs("   "))), "");
    assert_eq!(st(&trim_chars(&cs(" \u{3000}\t"))), "");
}

#[test]
fn trim_agrees_with_std_on_samples() {
    for s in ["", " ", "a", " a", "a ", " a b ", "\u{2003}x\u{2028}", "　１４　", "x\u{200B}"] {
        assert_eq!(st(&trim_chars(&cs(s))), s.trim(), "{:?}", s);
    }
}

#[test]
fn split_gives_the_fields_between_separators() {
    let parts: Vec<String> = split_chars(&cs("2024/3/14"), '/').iter().map(|p| st(p)).collect();
    assert_eq!(parts, vec!["2024", "3", "14"]);
    let parts: Vec<String> = split_chars(&cs("3/14"), '/').iter().map(|p| st(p)).collect();
    assert_eq!(parts, vec!["3", "14"]);
}

#[test]
fn split_keeps_empty_fields() {
    let parts: Vec<String> = split_chars(&cs(""), '/').iter().map(|p| st(p)).collect();
    assert_eq!(parts, vec![""]);
    let parts: Vec<String> = split_chars(&cs("/"), '/').iter().map(|p| st(p)).collect();
    assert_eq!(parts, vec!["", ""]);
    let parts: Vec<String> = split_chars(&cs("a//b/"), '/').iter().map(|p| st(p)).collect();
    assert_eq!(parts, vec!["a", "", "b", ""]);
    let parts: Vec<String> = split_chars(&cs("abc"), '/').iter().map(|p| st(p)).collect();
    assert_eq!(parts, vec!["abc"]);
}

#[test]
fn split_agrees_with_std_on_samples() {
    for s in ["", "/", "//", "a", "a/", "/a", "1/2/3/4", "2024/ 3 /14", "早/番"] {
        let ours: Vec<String> = split_chars(&cs(s), '/').iter().map(|p| st(p)).collect();
        let theirs: Vec<String> = s.split('/').map(|p| p.to_string()).collect();
        assert_eq!(ours, theirs, "{:?}", s);
    }
}

#[test]
fn contains_finds_a_pattern_anywhere() {
    assert!(contains_chars(&cs("3/14 早番"), &cs("3/14")));
    assert!(contains_chars(&cs("本日は3月14日です"), &cs("3月14日")));
    assert!(contains_chars(&cs("13/14"), &cs("3/14")));
    assert!(contains_chars(&cs("abc"), &cs("c")));
    assert!(contains_chars(&cs("abc"), &cs("abc")));
}

#[test]
fn contains_rejects_what_is_not_there() {
    assert!(!contains_chars(&cs("3/1"), &cs("3/14")));
    assert!(!contains_chars(&cs("3-14"), &cs("3/14")));
    assert!(!contains_chars(&cs(""), &cs("3")));
    assert!(!contains_chars(&cs("ab"), &cs("abc")));
    assert!(!contains_chars(&cs("aab"), &cs("aba")));
}

#[test]
fn contains_accepts_the_empty_pattern() {
    assert!(contains_chars(&cs("abc"), &cs("")));
    assert!(contains_chars(&cs(""), &cs("")));
}
