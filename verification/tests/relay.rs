use report_relay::cells::first_column;
use report_relay::cells::read_cell;
use report_relay::cells::value_at;
use report_relay::dispatch::concat_texts;
use report_relay::dispatch::fallback_text;
use report_relay::dispatch::plan_report;
use report_relay::dispatch::Channel;
use report_relay::flags::flag_is_true;
use report_relay::text::normalize_cell;
use report_relay::text::replace_all;

fn strings(parts: &[&str]) -> Vec<String> {
    parts.iter().map(|p| String::from(*p)).collect()
}

#[test]
fn flag_true_on_exact_upper() {
    assert!(flag_is_true("TRUE"));
}

#[test]
fn flag_true_is_case_insensitive() {
    assert!(flag_is_true("True"));
    assert!(flag_is_true("true"));
    assert!(flag_is_true("tRuE"));
}

#[test]
fn flag_false_on_trailing_space() {
    assert!(!flag_is_true("TRUE "));
}

#[test]
fn flag_false_on_other_content() {
    assert!(!flag_is_true(""));
    assert!(!flag_is_true("true "));
    assert!(!flag_is_true("yes"));
    assert!(!flag_is_true("1"));
    assert!(!flag_is_true("FALSE"));
    assert!(!flag_is_true("TRUEE"));
}

#[test]
fn normalize_strips_anchor_and_entity() {
    let out = normalize_cell("<a href=\"http://x\">Link</a>&nbsp;text");
    assert_eq!(out, "http://x Link text");
}

#[test]
fn normalize_line_break_variants() {
    assert_eq!(normalize_cell("a\r\nb\rc\nd"), "a\nb\nc\nd");
}

#[test]
fn normalize_keeps_inner_whitespace() {
    assert_eq!(normalize_cell("  a  b  "), "  a  b  ");
}

#[test]
fn normalize_plain_text_unchanged() {
    assert_eq!(normalize_cell("plain cell"), "plain cell");
}

#[test]
fn replace_all_is_left_to_right_non_overlapping() {
    assert_eq!(replace_all("aaa", "aa", "b"), "ba");
    assert_eq!(replace_all("abcabc", "b", "xy"), "axycaxyc");
    assert_eq!(replace_all("abc", "z", "q"), "abc");
}

#[test]
fn read_cell_absent_grid_is_empty() {
    assert_eq!(read_cell(&None), "");
}

#[test]
fn read_cell_empty_grid_is_empty() {
    assert_eq!(read_cell(&Some(vec![])), "");
    assert_eq!(read_cell(&Some(vec![vec![]])), "");
}

#[test]
fn read_cell_takes_first_cell_of_first_row() {
    let grid = Some(vec![strings(&["x", "y"]), strings(&["z"])]);
    assert_eq!(read_cell(&grid), "x");
}

#[test]
fn read_cell_normalizes() {
    let grid = Some(vec![strings(&["one\r\ntwo"])]);
    assert_eq!(read_cell(&grid), "one\ntwo");
}

#[test]
fn first_column_absent_grid_is_empty() {
    assert_eq!(first_column(&None), Vec::<String>::new());
}

#[test]
fn first_column_takes_each_rows_first_cell() {
    let grid = Some(vec![strings(&["a"]), vec![], strings(&["b", "c"])]);
    assert_eq!(first_column(&grid), strings(&["a", "", "b"]));
}

#[test]
fn value_at_past_end_is_empty() {
    let col = strings(&["a", "b"]);
    assert_eq!(value_at(&col, 0), "a");
    assert_eq!(value_at(&col, 1), "b");
    assert_eq!(value_at(&col, 2), "");
}

#[test]
fn concat_inserts_no_separator() {
    assert_eq!(concat_texts(&strings(&["a", "b ", "", "c", "d"])), "ab cd");
    assert_eq!(concat_texts(&strings(&[])), "");
}

#[test]
fn fallback_prompt_exact() {
    assert_eq!(fallback_text(), "Please choose a report destination");
}

#[test]
fn dispatch_primary_only_posts_once() {
    let a = strings(&["one", "two", "three", "four", "five"]);
    let b = strings(&["", "", "", "", ""]);
    let plan = plan_report("TRUE", "FALSE", &a, &b);
    assert_eq!(plan.len(), 1);
    assert!(plan[0].channel == Channel::Primary);
    assert_eq!(plan[0].text, "onetwothreefourfive");
}

#[test]
fn dispatch_secondary_only_posts_once() {
    let a = strings(&["", "", "", "", ""]);
    let b = strings(&["1", "2", "3", "4", "5"]);
    let plan = plan_report("", "true", &a, &b);
    assert_eq!(plan.len(), 1);
    assert!(plan[0].channel == Channel::Secondary);
    assert_eq!(plan[0].text, "12345");
}

#[test]
fn dispatch_both_flags_post_twice_in_order() {
    let a = strings(&["a", "b", "c", "d", "e"]);
    let b = strings(&["v", "w", "x", "y", "z"]);
    let plan = plan_report("TRUE", "True", &a, &b);
    assert_eq!(plan.len(), 2);
    assert!(plan[0].channel == Channel::Primary);
    assert_eq!(plan[0].text, "abcde");
    assert!(plan[1].channel == Channel::Secondary);
    assert_eq!(plan[1].text, "vwxyz");
}

#[test]
fn dispatch_fallback_when_both_flags_clear() {
    let a = strings(&["a", "b", "c", "d", "e"]);
    let b = strings(&["v", "w", "x", "y", "z"]);
    let plan = plan_report("FALSE", "", &a, &b);
    assert_eq!(plan.len(), 1);
    assert!(plan[0].channel == Channel::Fallback);
    assert_eq!(plan[0].text, "Please choose a report destination");
}
