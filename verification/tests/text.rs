use cargo_aur::text::{contains, push_lines, starts_with};

#[test]
fn starts_with_prefix() {
    assert!(starts_with("LICENSE-MIT", "LICENSE"));
    assert!(starts_with("LICENSE", "LICENSE"));
    assert!(starts_with("anything", ""));
    assert!(starts_with("", ""));
}

#[test]
fn starts_with_no_prefix() {
    assert!(!starts_with("LICENS", "LICENSE"));
    assert!(!starts_with("", "LICENSE"));
    assert!(!starts_with("license", "LICENSE"));
    assert!(!starts_with("A LICENSE", "LICENSE"));
}

#[test]
fn starts_with_counts_characters_not_bytes() {
    assert!(starts_with("héllo wörld", "héllo"));
    assert!(!starts_with("hello", "héllo"));
    assert!(!starts_with("é", "e"));
}

#[test]
fn contains_whole_names() {
    let list = vec!["MPL-2.0".to_string(), "Unlicense".to_string()];
    assert!(contains(&list, &"Unlicense".to_string()));
    assert!(!contains(&list, &"Unlicensed".to_string()));
    assert!(!contains(&list, &"".to_string()));
    assert!(!contains(&vec![], &"MPL-2.0".to_string()));
}

#[test]
fn push_lines_appends_a_line_for_each_item() {
    let mut out = "head\n".to_string();
    push_lines(&mut out, "<", &vec!["a".to_string(), "b".to_string()], ">\n");
    assert_eq!(out, "head\n<a>\n<b>\n");
    push_lines(&mut out, "<", &vec![], ">\n");
    assert_eq!(out, "head\n<a>\n<b>\n");
}
