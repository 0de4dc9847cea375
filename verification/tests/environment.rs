use graf::config::{Background, BorderStyle, GrafConfig, LabelMode, LegendPosition, Theme};
use graf::env::env_get;

fn vars(pairs: &[(&str, &str)]) -> Vec<(String, String)> {
    pairs.iter().map(|(a, b)| (a.to_string(), b.to_string())).collect()
}

#[test]
fn variables_set_settings() {
    let mut c = GrafConfig::default();
    let env = vars(&[
        ("GRAF_VISUAL_THEME", "Dracula"),
        ("GRAF_VISUAL_BACKGROUND", "solid"),
        ("GRAF_VISUAL_LABEL_MODE", "none"),
        ("GRAF_VISUAL_LABEL_MAX_LENGTH", "+30"),
        ("GRAF_VISUAL_EDGE_THICKNESS", "2"),
        ("GRAF_VISUAL_SHOW_GRID", "true"),
        ("GRAF_VISUAL_MINIMAP_POSITION", "bottom_left"),
        ("GRAF_PHYSICS_COOLING", "false"),
        ("GRAF_PHYSICS_THREAD_SLEEP_MS", "5"),
        ("GRAF_INTERACTION_DOUBLE_CLICK_MS", "450"),
        ("GRAF_DISPLAY_STATUS_FORMAT", "{files}"),
        ("GRAF_DISPLAY_BORDER_STYLE", "Double"),
        ("GRAF_DISPLAY_BORDER_TITLE", "{cwd}"),
        ("GRAF_FILTER_EXCLUDE_TAGS", " draft, private ,"),
        ("GRAF_FILTER_MAX_NODES", "0"),
        ("GRAF_LEGEND_POSITION", "topleft"),
        ("GRAF_SEARCH_POPUP_Y", "7"),
        ("GRAF_SEARCH_CURSOR_GLYPH", "|"),
        ("GRAF_EDITOR_COMMAND", "hx"),
        ("OTHER", "x"),
    ]);
    c.apply_env_overrides(&env);
    assert_eq!(c.visual.theme, Theme::Dracula);
    assert_eq!(c.visual.background, Background::Solid);
    assert_eq!(c.visual.label_mode, LabelMode::NoLabels);
    assert_eq!(c.visual.label_max_length, 30);
    assert_eq!(c.visual.edge_thickness, 2);
    assert!(c.visual.show_grid);
    assert_eq!(c.visual.minimap_position, LegendPosition::BottomLeft);
    assert!(!c.physics.cooling);
    assert_eq!(c.physics.thread_sleep_ms, 5);
    assert_eq!(c.interaction.double_click_ms, 450);
    assert_eq!(c.display.status_format, Some("{files}".to_string()));
    assert_eq!(c.display.border_style, BorderStyle::Double);
    assert_eq!(c.display.border_title, "{cwd}");
    assert_eq!(c.filter.exclude_tags, vec!["draft", "private", ""]);
    assert_eq!(c.filter.max_nodes, 0);
    assert_eq!(c.legend.position, LegendPosition::TopLeft);
    assert_eq!(c.search.popup_y, 7);
    assert_eq!(c.search.cursor_glyph, "|");
    assert_eq!(c.editor.command, "hx");
}

#[test]
fn unreadable_variables_keep_settings() {
    let mut c = GrafConfig::default();
    let env = vars(&[
        ("GRAF_VISUAL_THEME", "monokai"),
        ("GRAF_VISUAL_EDGE_THICKNESS", "70000"),
        ("GRAF_VISUAL_SHOW_LEGEND", "yes"),
        ("GRAF_FILTER_MAX_NODES", "-1"),
        ("GRAF_LEGEND_MAX_ITEMS", ""),
    ]);
    c.apply_env_overrides(&env);
    assert_eq!(c.visual.theme, Theme::Default);
    assert_eq!(c.visual.edge_thickness, 1);
    assert!(c.visual.show_legend);
    assert_eq!(c.filter.max_nodes, 500);
    assert_eq!(c.legend.max_items, 10);
}

#[test]
fn no_variables_change_nothing_and_repeats_change_nothing() {
    let mut c = GrafConfig::default();
    c.apply_env_overrides(&Vec::new());
    assert_eq!(c.visual.theme, Theme::Default);
    assert_eq!(c.display.border_title, "graf");
    let env = vars(&[("GRAF_VISUAL_THEME", "nord"), ("GRAF_FILTER_EXCLUDE_PATTERNS", "a,b")]);
    c.apply_env_overrides(&env);
    let once = (c.visual.theme, c.filter.exclude_patterns.clone());
    c.apply_env_overrides(&env);
    assert_eq!((c.visual.theme, c.filter.exclude_patterns.clone()), once);
}

#[test]
fn first_variable_of_a_name_counts() {
    let env = vars(&[("A", "1"), ("B", "2"), ("A", "3")]);
    assert_eq!(env_get(&env, "A"), Some(&"1".to_string()));
    assert_eq!(env_get(&env, "B"), Some(&"2".to_string()));
    assert_eq!(env_get(&env, "C"), None);
}
