use word_index::text::extension;
use word_index::text::lower_char;
use word_index::text::lowercase_is;
use word_index::text::push_decimal;
use word_index::text::push_hex;
use word_index::text::push_joined;
use word_index::text::starts_with;

#[test]
fn a_prefix_is_found_at_the_start_only() {
    assert!(starts_with("~$report.docx", "~$"));
    assert!(starts_with("~$", "~$"));
    assert!(starts_with("anything", ""));
    assert!(starts_with("", ""));
    assert!(!starts_with("~", "~$"));
    assert!(!starts_with("a~$", "~$"));
    assert!(!starts_with("", "."));
    assert!(starts_with(".git", "."));
    assert!(starts_with("收入.txt", "收"));
    assert!(!starts_with("收入.txt", "入"));
}

#[test]
fn the_extension_follows_the_last_dot() {
    assert_eq!(extension("report.txt"), Some("txt".to_string()));
    assert_eq!(extension("archive.tar.gz"), Some("gz".to_string()));
    assert_eq!(extension("report."), Some(String::new()));
    assert_eq!(extension("报告.docx"), Some("docx".to_string()));
    assert_eq!(extension(".hidden.md"), Some("md".to_string()));
    assert_eq!(extension("report"), None);
    assert_eq!(extension(".hidden"), None);
    assert_eq!(extension(""), None);
    assert_eq!(extension("a.b"), std::path::Path::new("a.b").extension().map(|e| e.to_str().unwrap().to_string()));
    assert_eq!(extension(".b"), std::path::Path::new(".b").extension().map(|e| e.to_str().unwrap().to_string()));
    assert_eq!(extension("a."), std::path::Path::new("a.").extension().map(|e| e.to_str().unwrap().to_string()));
}

#[test]
fn letters_are_compared_in_lower_case() {
    assert_eq!(lower_char('A'), 'a');
    assert_eq!(lower_char('Z'), 'z');
    assert_eq!(lower_char('m'), 'm');
    assert_eq!(lower_char('@'), '@');
    assert_eq!(lower_char('['), '[');
    assert_eq!(lower_char('É'), 'É');
    assert!(lowercase_is("TXT", "txt"));
    assert!(lowercase_is("tXt", "txt"));
    assert!(lowercase_is("", ""));
    assert!(!lowercase_is("txt", "TXT"));
    assert!(!lowercase_is("tx", "txt"));
    assert!(!lowercase_is("txtx", "txt"));
}

#[test]
fn numbers_are_written_in_decimal() {
    for n in [0u64, 7, 10, 42, 100, 1_700_000_000, u64::MAX] {
        let mut out = String::from("t:");
        push_decimal(&mut out, n);
        assert_eq!(out, format!("t:{}", n));
    }
}

#[test]
fn bytes_are_written_in_lower_case_hexadecimal() {
    let mut out = String::from("x");
    push_hex(&mut out, &[0x00, 0x0f, 0xa0, 0xff, 0x12]);
    assert_eq!(out, "x000fa0ff12");
    let mut empty = String::new();
    push_hex(&mut empty, &[]);
    assert_eq!(empty, "");
}

#[test]
fn items_are_joined_by_the_separator() {
    let mut out = String::from("[");
    push_joined(&mut out, &vec!["A".to_string(), "B".to_string(), "C".to_string()], " ");
    assert_eq!(out, "[A B C");
    let mut one = String::new();
    push_joined(&mut one, &vec!["A".to_string()], ", ");
    assert_eq!(one, "A");
    let mut none = String::from("-");
    push_joined(&mut none, &Vec::new(), ", ");
    assert_eq!(none, "-");
}
