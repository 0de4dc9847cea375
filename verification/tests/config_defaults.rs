use graf::config::{
    default_border_title, default_double_click, default_edge_thickness, default_grid_divisions,
    default_label_max, default_max_iterations, default_max_legend_items, default_max_nodes,
    default_minimap_height, default_minimap_width, default_search_cursor_glyph,
    default_search_max_results, default_search_max_visible, default_search_popup_width,
    default_search_popup_y, default_thread_sleep_ms, default_true, BorderStyle, GrafConfig,
    LegendPosition, Theme,
};

#[test]
fn default_values() {
    assert_eq!(default_label_max(), 20);
    assert_eq!(default_edge_thickness(), 1);
    assert!(default_true());
    assert_eq!(default_max_iterations(), 800);
    assert_eq!(default_double_click(), 300);
    assert_eq!(default_border_title(), "graf");
    assert_eq!(default_max_nodes(), 500);
    assert_eq!(default_max_legend_items(), 10);
    assert_eq!(default_minimap_width(), 24);
    assert_eq!(default_minimap_height(), 12);
    assert_eq!(default_grid_divisions(), 10);
    assert_eq!(default_thread_sleep_ms(), 16);
    assert_eq!(default_search_max_results(), 20);
    assert_eq!(default_search_max_visible(), 10);
    assert_eq!(default_search_popup_width(), 50);
    assert_eq!(default_search_popup_y(), 3);
    assert_eq!(default_search_cursor_glyph(), "\u{258e}");
}

#[test]
fn default_configuration() {
    let c = GrafConfig::default();
    assert_eq!(c.visual.theme, Theme::Default);
    assert!(c.visual.show_legend);
    assert!(!c.visual.show_grid);
    assert!(c.visual.show_minimap);
    assert_eq!(c.visual.minimap_position, LegendPosition::TopRight);
    assert_eq!(c.visual.colors.node_color, None);
    assert!(c.physics.cooling);
    assert!(c.physics.prevent_overlapping);
    assert_eq!(c.physics.max_iterations, 800);
    assert_eq!(c.interaction.double_click_ms, 300);
    assert!(c.display.show_status_bar);
    assert_eq!(c.display.status_format, None);
    assert_eq!(c.display.border_style, BorderStyle::Rounded);
    assert_eq!(c.display.border_title, "graf");
    assert!(c.filter.exclude_tags.is_empty());
    assert!(c.filter.exclude_patterns.is_empty());
    assert_eq!(c.filter.min_links, 0);
    assert_eq!(c.filter.max_nodes, 500);
    assert_eq!(c.legend.max_items, 10);
    assert_eq!(c.search.max_results, 20);
    assert_eq!(c.search.popup_width, 50);
    assert_eq!(c.editor.command, "");
}
