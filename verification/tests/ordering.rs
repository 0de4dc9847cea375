use graf::color::Color;
use graf::order::{name_before, sorted_distinct};
use graf::config::NodeColorMode;
use graf::render::{legend_entries, legend_rows, tag_color};

fn strings(items: &[&str]) -> Vec<String> {
    items.iter().map(|s| s.to_string()).collect()
}

#[test]
fn names_in_string_order() {
    assert!(name_before("a", "b"));
    assert!(name_before("ab", "abc"));
    assert!(!name_before("abc", "ab"));
    assert!(!name_before("same", "same"));
    assert!(name_before("Zeta", "alpha"));
    assert!(name_before("", "x"));
    assert!(name_before("z", "\u{e9}"));
}

#[test]
fn distinct_sorted_names() {
    let names = strings(&["rust", "cli", "rust", "Alpha", "cli", "zeta", ""]);
    assert_eq!(sorted_distinct(&names), strings(&["", "Alpha", "cli", "rust", "zeta"]));
    let mut expected = names.clone();
    expected.sort();
    expected.dedup();
    assert_eq!(sorted_distinct(&names), expected);
    assert_eq!(sorted_distinct(&Vec::new()), Vec::<String>::new());
}

#[test]
fn legend_takes_the_first_names() {
    let sorted = strings(&["a", "b", "c"]);
    let entries = legend_entries(&sorted, 2);
    assert_eq!(entries, vec![("a".to_string(), tag_color(0)), ("b".to_string(), tag_color(1))]);
    assert_eq!(legend_entries(&sorted, 10).len(), 3);
    assert_eq!(legend_entries(&sorted, 0), Vec::<(String, Color)>::new());
}

#[test]
fn legend_rows_follow_the_color_mode() {
    let tags = strings(&["a", "b", "c"]);
    let folders = strings(&["docs"]);
    assert_eq!(legend_rows(false, NodeColorMode::Tag, &tags, &folders, 10), None);
    assert_eq!(
        legend_rows(true, NodeColorMode::Tag, &tags, &folders, 2),
        Some(vec![("a".to_string(), tag_color(0)), ("b".to_string(), tag_color(1))])
    );
    assert_eq!(
        legend_rows(true, NodeColorMode::Folder, &tags, &folders, 10),
        Some(vec![("docs".to_string(), tag_color(0))])
    );
    assert_eq!(legend_rows(true, NodeColorMode::Folder, &tags, &strings(&[]), 10), None);
    assert_eq!(legend_rows(true, NodeColorMode::Uniform, &tags, &folders, 0), Some(vec![]));
}
