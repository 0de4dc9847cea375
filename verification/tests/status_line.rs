use graf::config::GrafConfig;

#[test]
fn title_takes_the_directory_name() {
    let mut c = GrafConfig::default();
    assert_eq!(c.expand_border_title("notes"), "graf");
    c.display.border_title = "graf - {cwd} ({cwd})".to_string();
    assert_eq!(c.expand_border_title("notes"), "graf - notes (notes)");
}

#[test]
fn default_status_line() {
    let c = GrafConfig::default();
    assert_eq!(
        c.expand_status_at(12, 30, Some("Index"), "2024-01-02", "03:04:05", "50%", "1.0x"),
        "Files: 12 | Links: 30 | Selected: Index"
    );
    assert_eq!(
        c.expand_status_at(0, 0, None, "2024-01-02", "03:04:05", "50%", "1.0x"),
        "Files: 0 | Links: 0 | Selected: none"
    );
}

#[test]
fn custom_status_line() {
    let mut c = GrafConfig::default();
    c.display.status_format = Some("{date} {time} {size} {ratio} {files}/{links} {selected} {unknown}".to_string());
    assert_eq!(
        c.expand_status_at(3, 4, Some("A"), "2024-01-02", "03:04:05", "75%", "2.5x"),
        "2024-01-02 03:04:05 75% 2.5x 3/4 A {unknown}"
    );
}

#[test]
fn replacements_apply_in_turn() {
    let mut c = GrafConfig::default();
    c.display.status_format = Some("[{selected}]".to_string());
    assert_eq!(
        c.expand_status_at(1, 2, Some("{date}"), "2024-01-02", "03:04:05", "1%", "1.0x"),
        "[2024-01-02]"
    );
    c.display.status_format = Some("{files}".to_string());
    assert_eq!(c.expand_status_at(7, 2, None, "d", "t", "s", "r"), "7");
}

#[test]
fn range_checks() {
    let mut c = GrafConfig::default();
    assert!(c.validate("2", true, "1.15", true).is_empty());
    c.visual.label_max_length = 0;
    c.visual.edge_thickness = 4;
    assert_eq!(
        c.validate("9", false, "0", false),
        vec![
            "visual.label_max_length must be 1-60, got 0",
            "visual.node_size must be 1.0-5.0, got 9",
            "visual.edge_thickness must be 1-3, got 4",
            "interaction.zoom_factor must be > 0, got 0",
        ]
    );
    c.visual.label_max_length = 61;
    c.visual.edge_thickness = 3;
    assert_eq!(c.validate("2", true, "1.15", true), vec!["visual.label_max_length must be 1-60, got 61"]);
    c.visual.label_max_length = 60;
    c.visual.edge_thickness = 0;
    assert_eq!(c.validate("2", true, "1.15", true), vec!["visual.edge_thickness must be 1-3, got 0"]);
}
