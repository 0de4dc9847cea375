use graf::color::Color;
use graf::config::{EdgeColorMode, LabelMode, NodeColorMode};
use graf::render::{edge_color, label_visible, node_color, tag_color, truncate_label, FeatureFlags};

#[test]
fn tag_colors_turn_by_the_golden_step() {
    // index 0: hue 0, red
    assert_eq!(tag_color(0), Color::Rgb(255, 0, 0));
    // index 1: hue 947 = 3 * 255 + 182, between cyan and blue
    assert_eq!(tag_color(1), Color::Rgb(0, 73, 255));
    // index 2: hue 1894 - 1530 = 364 = 255 + 109, between yellow and green
    assert_eq!(tag_color(2), Color::Rgb(146, 255, 0));
    // the circle repeats after 1530 tags
    assert_eq!(tag_color(1530), tag_color(0));
}

#[test]
fn no_two_tags_share_a_color() {
    let colors: std::collections::HashSet<Color> = (0..1530).map(tag_color).collect();
    assert_eq!(colors.len(), 1530);
}

#[test]
fn edge_colors() {
    assert_eq!(edge_color(EdgeColorMode::Source, Some(Color::Red), Some(Color::Blue), Color::Gray), Color::Red);
    assert_eq!(edge_color(EdgeColorMode::Target, Some(Color::Red), Some(Color::Blue), Color::Gray), Color::Blue);
    assert_eq!(edge_color(EdgeColorMode::Uniform, Some(Color::Red), Some(Color::Blue), Color::Gray), Color::Gray);
    assert_eq!(edge_color(EdgeColorMode::Source, None, Some(Color::Blue), Color::Gray), Color::Gray);
}

#[test]
fn labels() {
    assert!(label_visible(LabelMode::Selected, Some(3), 3, false));
    assert!(!label_visible(LabelMode::Selected, Some(3), 4, true));
    assert!(label_visible(LabelMode::Neighbors, Some(3), 4, true));
    assert!(!label_visible(LabelMode::Neighbors, None, 4, true));
    assert!(!label_visible(LabelMode::Neighbors, Some(3), 4, false));
    assert!(label_visible(LabelMode::All, None, 4, false));
    assert!(!label_visible(LabelMode::NoLabels, Some(4), 4, true));
}

#[test]
fn feature_flags() {
    let f = FeatureFlags { show_legend: true, show_grid: false, show_minimap: true, show_status_bar: false };
    assert!(f.show_legend && f.show_minimap && !f.show_grid && !f.show_status_bar);
}

#[test]
fn node_colors_follow_the_mode() {
    let palette = [Color::Cyan, Color::Magenta];
    let tag = Some(Color::Red);
    let folder = Some(Color::Blue);
    let count = Color::Yellow;
    assert_eq!(node_color(NodeColorMode::Tag, tag, folder, count, &palette), Color::Red);
    assert_eq!(node_color(NodeColorMode::Tag, None, folder, count, &palette), Color::Gray);
    assert_eq!(node_color(NodeColorMode::Folder, tag, folder, count, &palette), Color::Blue);
    assert_eq!(node_color(NodeColorMode::Folder, tag, None, count, &palette), Color::Gray);
    assert_eq!(node_color(NodeColorMode::LinkCount, tag, folder, count, &palette), Color::Yellow);
    assert_eq!(node_color(NodeColorMode::Uniform, tag, folder, count, &palette), Color::Cyan);
    assert_eq!(node_color(NodeColorMode::Uniform, tag, folder, count, &[]), Color::Gray);
}

#[test]
fn labels_are_cut_with_an_ellipsis() {
    assert_eq!(truncate_label("Short", 20), "Short");
    assert_eq!(truncate_label("Exactly5", 8), "Exactly5");
    assert_eq!(truncate_label("A longer title", 6), "A lon\u{2026}");
    assert_eq!(truncate_label("\u{e9}t\u{e9} long", 3), "\u{e9}t\u{2026}");
    assert_eq!(truncate_label("abc", 1), "\u{2026}");
    assert_eq!(truncate_label("abc", 0), "\u{2026}");
    assert_eq!(truncate_label("", 0), "");
    for max in 1..10 {
        assert!(truncate_label("a fairly long node title", max).chars().count() <= max);
    }
}
