use graf::config::{
    Background, BorderStyle, CanvasMarker, EdgeColorMode, LabelMode, LegendPosition, NodeColorMode,
    NodeShape, NodeSizeMode, Theme,
};

#[test]
fn theme_names_in_any_case() {
    assert_eq!(Theme::from_str("default"), Ok(Theme::Default));
    assert_eq!(Theme::from_str("TokyoNight"), Ok(Theme::TokyoNight));
    assert_eq!(Theme::from_str("tokyo_night"), Ok(Theme::TokyoNight));
    assert_eq!(Theme::from_str("tokyo-night"), Ok(Theme::TokyoNight));
    assert_eq!(Theme::from_str("Catppuccin-Mocha"), Ok(Theme::CatppuccinMocha));
    assert_eq!(Theme::from_str("GRUVBOX"), Ok(Theme::Gruvbox));
    assert_eq!(Theme::from_str("solarized_dark"), Ok(Theme::SolarizedDark));
    assert_eq!(Theme::from_str("SolarizedLight"), Ok(Theme::SolarizedLight));
}

#[test]
fn unknown_theme_is_reported_with_its_name() {
    assert_eq!(Theme::from_str("Monokai"), Err("Unknown theme: Monokai".to_string()));
    assert_eq!(Theme::from_str(""), Err("Unknown theme: ".to_string()));
}

#[test]
fn other_option_names() {
    assert_eq!(Background::from_str("SOLID"), Ok(Background::Solid));
    assert_eq!(Background::from_str("opaque"), Err("Unknown background: opaque".to_string()));
    assert_eq!(NodeColorMode::from_str("LinkCount"), Ok(NodeColorMode::LinkCount));
    assert_eq!(NodeColorMode::from_str("link_count"), Ok(NodeColorMode::LinkCount));
    assert_eq!(NodeColorMode::from_str("x"), Err("Unknown node_color_mode: x".to_string()));
    assert_eq!(EdgeColorMode::from_str("Target"), Ok(EdgeColorMode::Target));
    assert_eq!(EdgeColorMode::from_str("y"), Err("Unknown edge_color_mode: y".to_string()));
    assert_eq!(LabelMode::from_str("None"), Ok(LabelMode::NoLabels));
    assert_eq!(LabelMode::from_str("neighbors"), Ok(LabelMode::Neighbors));
    assert_eq!(LabelMode::from_str("some"), Err("Unknown label_mode: some".to_string()));
    assert_eq!(NodeSizeMode::from_str("fixed"), Ok(NodeSizeMode::Fixed));
    assert_eq!(NodeSizeMode::from_str("big"), Err("Unknown node_size_mode: big".to_string()));
    assert_eq!(CanvasMarker::from_str("HalfBlock"), Ok(CanvasMarker::HalfBlock));
    assert_eq!(CanvasMarker::from_str("dots"), Err("Unknown canvas_marker: dots".to_string()));
    assert_eq!(NodeShape::from_str("Diamond"), Ok(NodeShape::Diamond));
    assert_eq!(NodeShape::from_str("star"), Err("Unknown node_shape: star".to_string()));
    assert_eq!(BorderStyle::from_str("NONE"), Ok(BorderStyle::NoBorder));
    assert_eq!(BorderStyle::from_str("thick"), Err("Unknown border_style: thick".to_string()));
    assert_eq!(LegendPosition::from_str("BottomLeft"), Ok(LegendPosition::BottomLeft));
    assert_eq!(LegendPosition::from_str("top_right"), Ok(LegendPosition::TopRight));
    assert_eq!(LegendPosition::from_str("middle"), Err("Unknown legend position: middle".to_string()));
}

#[test]
fn names_read_back_from_lowercase() {
    assert_eq!(Theme::from_lowercase_name("nord"), Some(Theme::Nord));
    assert_eq!(Theme::from_lowercase_name("Nord"), None);
    assert_eq!(BorderStyle::from_lowercase_name("double"), Some(BorderStyle::Double));
}

#[test]
fn option_defaults() {
    assert_eq!(Theme::default(), Theme::Default);
    assert_eq!(Background::default(), Background::Transparent);
    assert_eq!(NodeColorMode::default(), NodeColorMode::Tag);
    assert_eq!(EdgeColorMode::default(), EdgeColorMode::Source);
    assert_eq!(LabelMode::default(), LabelMode::Selected);
    assert_eq!(NodeSizeMode::default(), NodeSizeMode::Fixed);
    assert_eq!(CanvasMarker::default(), CanvasMarker::Braille);
    assert_eq!(NodeShape::default(), NodeShape::Circle);
    assert_eq!(BorderStyle::default(), BorderStyle::Rounded);
    assert_eq!(LegendPosition::default(), LegendPosition::TopRight);
}
