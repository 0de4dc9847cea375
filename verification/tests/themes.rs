use graf::color::Color;
use graf::config::{Background, GrafConfig, Theme};

#[test]
fn default_theme_colors() {
    let c = GrafConfig::default();
    let t = c.theme_colors();
    // The default theme draws nodes in the terminal's own foreground color.
    assert_eq!(t.node_colors, vec![Color::Reset]);
    assert_eq!(t.legend_text_color, Color::Gray);
    assert_eq!(t.legend_border_color, Color::DarkGray);
    assert_eq!(t.edge_color, Color::DarkGray);
    assert_eq!(t.label_color, Color::Gray);
    assert_eq!(t.selected_indicator_color, Color::Reset);
    assert_eq!(t.background_color, None);
    assert_eq!(t.minimap_bg_color, None);
    assert_eq!(t.minimap_viewport_color, Color::White);
}

#[test]
fn solid_background_uses_the_theme_color() {
    let mut c = GrafConfig::default();
    c.visual.theme = Theme::Nord;
    c.visual.background = Background::Solid;
    let t = c.theme_colors();
    assert_eq!(t.background_color, Some(Color::Rgb(46, 52, 64)));
    assert_eq!(t.minimap_bg_color, Some(Color::Rgb(46, 52, 64)));
    assert_eq!(t.node_colors.len(), 8);
    assert_eq!(t.node_colors[0], Color::Rgb(136, 192, 208));
    c.visual.background = Background::Transparent;
    assert_eq!(c.theme_colors().background_color, None);
    c.visual.theme = Theme::Default;
    c.visual.background = Background::Solid;
    assert_eq!(c.theme_colors().background_color, Some(Color::Reset));
}

#[test]
fn overrides_replace_theme_colors() {
    let mut c = GrafConfig::default();
    c.visual.theme = Theme::Dracula;
    c.visual.colors.node_color = Some(Color::Rgb(1, 2, 3));
    c.visual.colors.border_color = Some(Color::Rgb(4, 5, 6));
    c.visual.colors.background_color = Some(Color::Rgb(7, 8, 9));
    c.visual.colors.selection_ring_color = Some(Color::Blue);
    let t = c.theme_colors();
    assert_eq!(t.node_colors, vec![Color::Rgb(1, 2, 3)]);
    assert_eq!(t.border_color, Color::Rgb(4, 5, 6));
    assert_eq!(t.legend_border_color, Color::Rgb(4, 5, 6));
    assert_eq!(t.minimap_border_color, Color::Rgb(4, 5, 6));
    assert_eq!(t.background_color, Some(Color::Rgb(7, 8, 9)));
    assert_eq!(t.minimap_bg_color, Some(Color::Rgb(7, 8, 9)));
    assert_eq!(t.selected_indicator_color, Color::Blue);
    assert_eq!(t.edge_color, Color::Rgb(98, 114, 164));
    assert_eq!(t.title_color, Color::Rgb(189, 147, 249));
    assert_eq!(t.minimap_viewport_color, Color::Rgb(255, 255, 255));
}

#[test]
fn every_theme_has_node_colors() {
    for theme in [
        Theme::Default,
        Theme::TokyoNight,
        Theme::CatppuccinMocha,
        Theme::Onedark,
        Theme::Gruvbox,
        Theme::Dracula,
        Theme::Nord,
        Theme::SolarizedLight,
        Theme::SolarizedDark,
    ] {
        let mut c = GrafConfig::default();
        c.visual.theme = theme;
        let expected = if theme == Theme::Default { 1 } else { 8 };
        assert_eq!(c.theme_colors().node_colors.len(), expected);
    }
}
