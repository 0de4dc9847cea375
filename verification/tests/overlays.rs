use graf::config::{
    Background, BorderStyle, EdgeColorMode, LabelMode, LegendPosition, NodeColorMode, NodeSizeMode, Theme,
};
use graf::ui::{config_error_lines, help_lines, hint_for_lowercase, suggest_fix};

#[test]
fn hints_name_the_valid_values() {
    assert_eq!(
        suggest_fix("Unknown theme: monokai"),
        Some(
            "Valid themes: default, tokyonight, catppuccinmocha, onedark, gruvbox, dracula, nord, solarizedlight, solarizeddark"
                .to_string()
        )
    );
    assert_eq!(suggest_fix("BACKGROUND is wrong"), Some("Valid backgrounds: transparent, solid".to_string()));
    assert_eq!(
        suggest_fix("Unknown node_color_mode: x"),
        Some("Valid modes: tag, folder, linkcount, uniform".to_string())
    );
    assert_eq!(suggest_fix("Unknown edge_color_mode: x"), Some("Valid modes: source, target, uniform".to_string()));
    assert_eq!(suggest_fix("Unknown label_mode: x"), Some("Valid modes: selected, neighbors, all, none".to_string()));
    assert_eq!(suggest_fix("Unknown node_size_mode: x"), Some("Valid modes: fixed, linkcount".to_string()));
    assert_eq!(suggest_fix("Unknown border_style: x"), Some("Valid styles: plain, rounded, double, none".to_string()));
    assert_eq!(
        suggest_fix("bad legend_position"),
        Some("Valid positions: topright, topleft, bottomright, bottomleft".to_string())
    );
    assert_eq!(suggest_fix("visual.node_size must be 1.0-5.0, got 9"), None);
}

#[test]
fn first_named_setting_wins() {
    assert_eq!(hint_for_lowercase("theme and background"), hint_for_lowercase("theme"));
    assert_eq!(hint_for_lowercase("THEME"), None);
}

#[test]
fn config_error_screen() {
    let errors = vec!["Unknown theme: x".to_string(), "visual.edge_thickness must be 1-3, got 7".to_string()];
    let lines = config_error_lines(&errors, "/home/me/.config/graf/config.toml");
    assert_eq!(
        lines,
        vec![
            "Config Errors",
            "",
            "  - Unknown theme: x",
            "    -> Valid themes: default, tokyonight, catppuccinmocha, onedark, gruvbox, dracula, nord, solarizedlight, solarizeddark",
            "  - visual.edge_thickness must be 1-3, got 7",
            "",
            "Fix: /home/me/.config/graf/config.toml",
            "Press any key to close",
        ]
    );
}

#[test]
fn help_screen() {
    let lines = help_lines();
    assert_eq!(lines.len(), 14);
    assert_eq!(lines[0], "Keyboard");
    assert_eq!(lines[6], "  q/Esc     Quit");
    assert_eq!(lines[7], "");
    assert_eq!(lines[13], "  Dbl-click Open file");
}

#[test]
fn every_parse_error_gets_a_hint() {
    let errors = vec![
        Theme::from_str("Monokai").unwrap_err(),
        Background::from_str("Opaque").unwrap_err(),
        NodeColorMode::from_str("RAINBOW").unwrap_err(),
        EdgeColorMode::from_str("x").unwrap_err(),
        LabelMode::from_str("Some").unwrap_err(),
        NodeSizeMode::from_str("huge").unwrap_err(),
        BorderStyle::from_str("Thick").unwrap_err(),
    ];
    for e in &errors {
        assert!(suggest_fix(e).is_some(), "no hint for {}", e);
    }
}

#[test]
fn every_hinted_value_parses() {
    let values = |hint: Option<String>| -> Vec<String> {
        let h = hint.unwrap();
        let list = h.split(": ").nth(1).unwrap().to_string();
        list.split(", ").map(|s| s.to_string()).collect()
    };
    for v in values(suggest_fix("Unknown theme: x")) {
        assert!(Theme::from_str(&v).is_ok(), "{}", v);
    }
    for v in values(suggest_fix("Unknown background: x")) {
        assert!(Background::from_str(&v).is_ok(), "{}", v);
    }
    for v in values(suggest_fix("Unknown node_color_mode: x")) {
        assert!(NodeColorMode::from_str(&v).is_ok(), "{}", v);
    }
    for v in values(suggest_fix("Unknown edge_color_mode: x")) {
        assert!(EdgeColorMode::from_str(&v).is_ok(), "{}", v);
    }
    for v in values(suggest_fix("Unknown label_mode: x")) {
        assert!(LabelMode::from_str(&v).is_ok(), "{}", v);
    }
    for v in values(suggest_fix("Unknown node_size_mode: x")) {
        assert!(NodeSizeMode::from_str(&v).is_ok(), "{}", v);
    }
    for v in values(suggest_fix("Unknown border_style: x")) {
        assert!(BorderStyle::from_str(&v).is_ok(), "{}", v);
    }
    for v in values(suggest_fix("legend_position: x")) {
        assert!(LegendPosition::from_str(&v).is_ok(), "{}", v);
    }
    assert_eq!(Theme::from_str("catppuccinmocha"), Ok(Theme::CatppuccinMocha));
    assert_eq!(LegendPosition::from_str("bottomleft"), Ok(LegendPosition::BottomLeft));
    assert_eq!(Theme::from_str("NORD"), Ok(Theme::Nord));
}
