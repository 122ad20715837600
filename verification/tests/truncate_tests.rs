use spotify_status::truncate::trim_to_length;

#[test]
fn test_trim_to_length_short() -> Result<(), String> {
    let less_than_30 = "hello";
    assert_eq!(trim_to_length(less_than_30, 30).len(), 5);
    Ok(())
}

#[test]
fn test_trim_to_length_limit() -> Result<(), String> {
    let exactly_30 = "aaaaaaaaaaaaaaaaaaaaaaaaaaaaaa";
    assert_eq!(trim_to_length(exactly_30, 30).len(), 30);
    Ok(())
}

#[test]
fn test_trim_to_length_above_limit() -> Result<(), String> {
    let more_than_30 = "aaaaaaaaaaaaaaaaaaaaaaaaaaaaaaaaaaa";
    assert_eq!(trim_to_length(more_than_30, 30).len(), 30);
    Ok(())
}

#[test]
fn within_budget_is_unchanged() {
    assert_eq!(trim_to_length("hello", 30), "hello");
    assert_eq!(trim_to_length("hello", 5), "hello");
    assert_eq!(trim_to_length("", 0), "");
    assert_eq!(trim_to_length("ab", 2), "ab");
}

#[test]
fn odd_excess_fills_the_budget() {
    let out = trim_to_length("abcdefghijklmnopqrstuvwxyz", 11);
    assert_eq!(out, "abcd...wxyz");
    assert_eq!(out.chars().count(), 11);
    assert_eq!(out.matches("...").count(), 1);
}

#[test]
fn even_excess_is_one_over_the_budget() {
    let out = trim_to_length("0123456789", 6);
    assert_eq!(out, "01...89");
    assert_eq!(out.chars().count(), 7);
}

#[test]
fn odd_length_keeps_one_more_behind() {
    assert_eq!(trim_to_length("0123456789a", 8), "01...89a");
}

#[test]
fn budget_of_three_leaves_the_marker() {
    assert_eq!(trim_to_length("abcd", 3), "...");
    assert_eq!(trim_to_length("abcde", 3), "...e");
}

#[test]
fn budget_under_three_leaves_the_marker() {
    assert_eq!(trim_to_length("abcdef", 2), "...");
    assert_eq!(trim_to_length("abcde", 2), "...");
    assert_eq!(trim_to_length("a", 0), "...");
}

#[test]
fn cuts_between_characters_not_bytes() {
    let out = trim_to_length("αβγδεζηθικλμν", 8);
    assert_eq!(out, "αβ...λμν");
    assert_eq!(out.chars().count(), 8);
    assert!(!out.contains('\u{FFFD}'));
}

#[test]
fn counts_characters_not_bytes() {
    assert_eq!(trim_to_length("ééééé", 5), "ééééé");
}

#[test]
fn dots_in_the_text_can_form_further_markers() {
    let out = trim_to_length("abc.efghijklmnopqrstuvwxyz", 11);
    assert_eq!(out, "abc....wxyz");
    assert_eq!(out.chars().count(), 11);
}
