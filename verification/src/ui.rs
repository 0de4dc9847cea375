//! The text of the overlays: the help screen, the configuration-error
//! screen, and the hints it gives for each error.
use vstd::prelude::*;

use crate::config::{
    background_named, border_style_named, edge_color_mode_named, label_mode_named, node_color_mode_named,
    legend_position_named, node_size_mode_named, theme_named, Background, BorderStyle, EdgeColorMode, LabelMode,
    LegendPosition, NodeColorMode, NodeSizeMode, Theme,
};
use crate::text::{
    ascii_lower, ascii_lower_char, contains, has_substring, is_ascii_text, joined, lowercase, lowercase_of, occurs_at,
};

verus! {

/// The hint for a configuration error, given the error text in lowercase:
/// the valid values of the first setting the text names.
pub open spec fn hint_for(err_lower: Seq<char>) -> Option<Seq<char>> {
    if has_substring(err_lower, "theme"@) {
        Some("Valid themes: default, tokyonight, catppuccinmocha, onedark, gruvbox, dracula, nord, solarizedlight, solarizeddark"@)
    } else if has_substring(err_lower, "background"@) {
        Some("Valid backgrounds: transparent, solid"@)
    } else if has_substring(err_lower, "node_color_mode"@) {
        Some("Valid modes: tag, folder, linkcount, uniform"@)
    } else if has_substring(err_lower, "edge_color_mode"@) {
        Some("Valid modes: source, target, uniform"@)
    } else if has_substring(err_lower, "label_mode"@) {
        Some("Valid modes: selected, neighbors, all, none"@)
    } else if has_substring(err_lower, "node_size_mode"@) {
        Some("Valid modes: fixed, linkcount"@)
    } else if has_substring(err_lower, "border_style"@) {
        Some("Valid styles: plain, rounded, double, none"@)
    } else if has_substring(err_lower, "legend_position"@) {
        Some("Valid positions: topright, topleft, bottomright, bottomleft"@)
    } else {
        None
    }
}

/// The hint for an error whose text is already in lowercase.
pub fn hint_for_lowercase(err_lower: &str) -> (r: Option<String>)
    ensures
        match r {
            Some(h) => hint_for(err_lower@) == Some(h@),
            None => hint_for(err_lower@) is None,
        },
{
    if contains(err_lower, "theme") {
        Some(String::from_str("Valid themes: default, tokyonight, catppuccinmocha, onedark, gruvbox, dracula, nord, solarizedlight, solarizeddark"))
    } else if contains(err_lower, "background") {
        Some(String::from_str("Valid backgrounds: transparent, solid"))
    } else if contains(err_lower, "node_color_mode") {
        Some(String::from_str("Valid modes: tag, folder, linkcount, uniform"))
    } else if contains(err_lower, "edge_color_mode") {
        Some(String::from_str("Valid modes: source, target, uniform"))
    } else if contains(err_lower, "label_mode") {
        Some(String::from_str("Valid modes: selected, neighbors, all, none"))
    } else if contains(err_lower, "node_size_mode") {
        Some(String::from_str("Valid modes: fixed, linkcount"))
    } else if contains(err_lower, "border_style") {
        Some(String::from_str("Valid styles: plain, rounded, double, none"))
    } else if contains(err_lower, "legend_position") {
        Some(String::from_str("Valid positions: topright, topleft, bottomright, bottomleft"))
    } else {
        None
    }
}

/// A hint on how to fix a configuration error: the valid values of the
/// setting the error is about, matched in any letter case.
pub fn suggest_fix(err: &str) -> (r: Option<String>)
    ensures
        match r {
            Some(h) => hint_for(lowercase_of(err@)) == Some(h@),
            None => hint_for(lowercase_of(err@)) is None,
        },
        is_ascii_text(err@) ==> match r {
            Some(h) => hint_for(ascii_lower(err@)) == Some(h@),
            None => hint_for(ascii_lower(err@)) is None,
        },
{
    let lower = lowercase(err);
    hint_for_lowercase(lower.as_str())
}

/// The lines that report one configuration error, with its hint if any.
pub open spec fn error_entry_lines(err: Seq<char>) -> Seq<Seq<char>> {
    match hint_for(lowercase_of(err)) {
        Some(h) => seq!["  - "@ + err, "    -> "@ + h],
        None => seq!["  - "@ + err],
    }
}

/// The lines that report the given errors, in order.
pub open spec fn error_entries(errs: Seq<Seq<char>>) -> Seq<Seq<char>>
    decreases errs.len(),
{
    if errs.len() == 0 {
        Seq::empty()
    } else {
        error_entries(errs.drop_last()) + error_entry_lines(errs.last())
    }
}

/// The whole configuration-error screen.
pub open spec fn config_error_text(errs: Seq<Seq<char>>, config_path: Seq<char>) -> Seq<Seq<char>> {
    seq!["Config Errors"@, Seq::empty()] + error_entries(errs) + seq![
        Seq::empty(),
        "Fix: "@ + config_path,
        "Press any key to close"@,
    ]
}

/// The lines of the configuration-error screen: a heading, each error with
/// its hint, the configuration file to fix, and how to close the screen.
pub fn config_error_lines(errors: &Vec<String>, config_path: &str) -> (r: Vec<String>)
    ensures
        r@.map_values(|l: String| l@) == config_error_text(
            errors@.map_values(|e: String| e@),
            config_path@,
        ),
{
    let ghost errs = errors@.map_values(|e: String| e@);
    let mut lines: Vec<String> = Vec::new();
    lines.push(String::from_str("Config Errors"));
    lines.push(String::new());
    let mut i: usize = 0;
    proof {
        assert(errs.take(0) =~= Seq::<Seq<char>>::empty());
        assert(lines@.map_values(|l: String| l@) =~= seq!["Config Errors"@, Seq::empty()]);
    }
    while i < errors.len()
        invariant
            i <= errors.len(),
            errs == errors@.map_values(|e: String| e@),
            lines@.map_values(|l: String| l@) == seq!["Config Errors"@, Seq::<char>::empty()]
                + error_entries(errs.take(i as int)),
        decreases errors.len() - i,
    {
        let err = &errors[i];
        let ghost before = lines@.map_values(|l: String| l@);
        lines.push(joined("  - ", err.as_str()));
        let hint = suggest_fix(err.as_str());
        match hint {
            Some(h) => {
                lines.push(joined("    -> ", h.as_str()));
            },
            None => {},
        }
        proof {
            assert(errs.take(i + 1).drop_last() =~= errs.take(i as int));
            assert(errs.take(i + 1).last() == err@);
            assert(lines@.map_values(|l: String| l@) =~= before + error_entry_lines(err@));
        }
        i = i + 1;
    }
    proof {
        assert(errs.take(i as int) =~= errs);
    }
    let ghost before = lines@.map_values(|l: String| l@);
    lines.push(String::new());
    lines.push(joined("Fix: ", config_path));
    lines.push(String::from_str("Press any key to close"));
    proof {
        assert(lines@.map_values(|l: String| l@) =~= before + seq![
            Seq::empty(),
            "Fix: "@ + config_path@,
            "Press any key to close"@,
        ]);
    }
    lines
}

/// The lines of the help screen.
pub open spec fn help_text() -> Seq<Seq<char>> {
    seq![
        "Keyboard"@,
        "  Arrows    Pan view"@,
        "  +/-       Zoom in/out"@,
        "  Enter     Open selected file"@,
        "  a         Auto-fit view"@,
        "  ?         Toggle help"@,
        "  q/Esc     Quit"@,
        ""@,
        "Mouse"@,
        "  Scroll    Zoom in/out"@,
        "  Drag bg   Pan view"@,
        "  Drag node Move node"@,
        "  Click     Select node"@,
        "  Dbl-click Open file"@,
    ]
}

/// The lines of the help screen: the keyboard and mouse controls.
pub fn help_lines() -> (r: Vec<String>)
    ensures
        r@.map_values(|l: String| l@) == help_text(),
{
    let mut lines: Vec<String> = Vec::new();
    lines.push(String::from_str("Keyboard"));
    lines.push(String::from_str("  Arrows    Pan view"));
    lines.push(String::from_str("  +/-       Zoom in/out"));
    lines.push(String::from_str("  Enter     Open selected file"));
    lines.push(String::from_str("  a         Auto-fit view"));
    lines.push(String::from_str("  ?         Toggle help"));
    lines.push(String::from_str("  q/Esc     Quit"));
    lines.push(String::from_str(""));
    lines.push(String::from_str("Mouse"));
    lines.push(String::from_str("  Scroll    Zoom in/out"));
    lines.push(String::from_str("  Drag bg   Pan view"));
    lines.push(String::from_str("  Drag node Move node"));
    lines.push(String::from_str("  Click     Select node"));
    lines.push(String::from_str("  Dbl-click Open file"));
    assert(lines@.map_values(|l: String| l@) =~= help_text());
    lines
}

/// Lowering the letters of two texts put together lowers each.
proof fn lemma_ascii_lower_concat(a: Seq<char>, b: Seq<char>)
    ensures
        ascii_lower(a + b) == ascii_lower(a) + ascii_lower(b),
{
    assert(ascii_lower(a + b) =~= ascii_lower(a) + ascii_lower(b));
}

/// The message `prefix + name`, lowered, holds `keyword` right after the
/// eight characters of `Unknown `, so it gets a hint.
proof fn lemma_message_gets_hint(prefix: Seq<char>, lower_prefix: Seq<char>, name: Seq<char>, keyword: Seq<char>)
    requires
        ascii_lower(prefix) == lower_prefix,
        8 + keyword.len() <= lower_prefix.len(),
        lower_prefix.subrange(8, 8 + keyword.len() as int) == keyword,
        keyword == "theme"@ || keyword == "background"@ || keyword == "node_color_mode"@ || keyword
            == "edge_color_mode"@ || keyword == "label_mode"@ || keyword == "node_size_mode"@ || keyword
            == "border_style"@,
    ensures
        hint_for(ascii_lower(prefix + name)) is Some,
{
    lemma_ascii_lower_concat(prefix, name);
    let m = lower_prefix + ascii_lower(name);
    assert(m.subrange(8, 8 + keyword.len() as int) =~= keyword);
    assert(occurs_at(m, keyword, 8));
}

/// Every error that reading one of the seven hinted settings reports for an
/// ASCII name (`Unknown <setting>: <name>`) gets a hint.
pub proof fn lemma_parse_errors_get_hints(name: Seq<char>)
    ensures
        hint_for(ascii_lower("Unknown theme: "@ + name)) is Some,
        hint_for(ascii_lower("Unknown background: "@ + name)) is Some,
        hint_for(ascii_lower("Unknown node_color_mode: "@ + name)) is Some,
        hint_for(ascii_lower("Unknown edge_color_mode: "@ + name)) is Some,
        hint_for(ascii_lower("Unknown label_mode: "@ + name)) is Some,
        hint_for(ascii_lower("Unknown node_size_mode: "@ + name)) is Some,
        hint_for(ascii_lower("Unknown border_style: "@ + name)) is Some,
{
    reveal_strlit("theme");
    reveal_strlit("background");
    reveal_strlit("node_color_mode");
    reveal_strlit("edge_color_mode");
    reveal_strlit("label_mode");
    reveal_strlit("node_size_mode");
    reveal_strlit("border_style");
    reveal_strlit("Unknown theme: ");
    reveal_strlit("unknown theme: ");
    assert(ascii_lower("Unknown theme: "@) =~= "unknown theme: "@);
    assert("unknown theme: "@.subrange(8, 8 + "theme"@.len() as int) =~= "theme"@);
    lemma_message_gets_hint("Unknown theme: "@, "unknown theme: "@, name, "theme"@);
    reveal_strlit("Unknown background: ");
    reveal_strlit("unknown background: ");
    assert(ascii_lower("Unknown background: "@) =~= "unknown background: "@);
    assert("unknown background: "@.subrange(8, 8 + "background"@.len() as int) =~= "background"@);
    lemma_message_gets_hint("Unknown background: "@, "unknown background: "@, name, "background"@);
    reveal_strlit("Unknown node_color_mode: ");
    reveal_strlit("unknown node_color_mode: ");
    assert(ascii_lower("Unknown node_color_mode: "@) =~= "unknown node_color_mode: "@);
    assert("unknown node_color_mode: "@.subrange(8, 8 + "node_color_mode"@.len() as int) =~= "node_color_mode"@);
    lemma_message_gets_hint("Unknown node_color_mode: "@, "unknown node_color_mode: "@, name, "node_color_mode"@);
    reveal_strlit("Unknown edge_color_mode: ");
    reveal_strlit("unknown edge_color_mode: ");
    assert(ascii_lower("Unknown edge_color_mode: "@) =~= "unknown edge_color_mode: "@);
    assert("unknown edge_color_mode: "@.subrange(8, 8 + "edge_color_mode"@.len() as int) =~= "edge_color_mode"@);
    lemma_message_gets_hint("Unknown edge_color_mode: "@, "unknown edge_color_mode: "@, name, "edge_color_mode"@);
    reveal_strlit("Unknown label_mode: ");
    reveal_strlit("unknown label_mode: ");
    assert(ascii_lower("Unknown label_mode: "@) =~= "unknown label_mode: "@);
    assert("unknown label_mode: "@.subrange(8, 8 + "label_mode"@.len() as int) =~= "label_mode"@);
    lemma_message_gets_hint("Unknown label_mode: "@, "unknown label_mode: "@, name, "label_mode"@);
    reveal_strlit("Unknown node_size_mode: ");
    reveal_strlit("unknown node_size_mode: ");
    assert(ascii_lower("Unknown node_size_mode: "@) =~= "unknown node_size_mode: "@);
    assert("unknown node_size_mode: "@.subrange(8, 8 + "node_size_mode"@.len() as int) =~= "node_size_mode"@);
    lemma_message_gets_hint("Unknown node_size_mode: "@, "unknown node_size_mode: "@, name, "node_size_mode"@);
    reveal_strlit("Unknown border_style: ");
    reveal_strlit("unknown border_style: ");
    assert(ascii_lower("Unknown border_style: "@) =~= "unknown border_style: "@);
    assert("unknown border_style: "@.subrange(8, 8 + "border_style"@.len() as int) =~= "border_style"@);
    lemma_message_gets_hint("Unknown border_style: "@, "unknown border_style: "@, name, "border_style"@);
}

/// Every value that a hint lists reads as a value of its setting.
pub proof fn lemma_hint_values_parse()
    ensures
        theme_named("default"@) == Some(Theme::Default),
        theme_named("tokyonight"@) == Some(Theme::TokyoNight),
        theme_named("catppuccinmocha"@) == Some(Theme::CatppuccinMocha),
        theme_named("onedark"@) == Some(Theme::Onedark),
        theme_named("gruvbox"@) == Some(Theme::Gruvbox),
        theme_named("dracula"@) == Some(Theme::Dracula),
        theme_named("nord"@) == Some(Theme::Nord),
        theme_named("solarizedlight"@) == Some(Theme::SolarizedLight),
        theme_named("solarizeddark"@) == Some(Theme::SolarizedDark),
        background_named("transparent"@) == Some(Background::Transparent),
        background_named("solid"@) == Some(Background::Solid),
        node_color_mode_named("tag"@) == Some(NodeColorMode::Tag),
        node_color_mode_named("folder"@) == Some(NodeColorMode::Folder),
        node_color_mode_named("linkcount"@) == Some(NodeColorMode::LinkCount),
        node_color_mode_named("uniform"@) == Some(NodeColorMode::Uniform),
        edge_color_mode_named("source"@) == Some(EdgeColorMode::Source),
        edge_color_mode_named("target"@) == Some(EdgeColorMode::Target),
        edge_color_mode_named("uniform"@) == Some(EdgeColorMode::Uniform),
        label_mode_named("selected"@) == Some(LabelMode::Selected),
        label_mode_named("neighbors"@) == Some(LabelMode::Neighbors),
        label_mode_named("all"@) == Some(LabelMode::All),
        label_mode_named("none"@) == Some(LabelMode::NoLabels),
        node_size_mode_named("fixed"@) == Some(NodeSizeMode::Fixed),
        node_size_mode_named("linkcount"@) == Some(NodeSizeMode::LinkCount),
        border_style_named("plain"@) == Some(BorderStyle::Plain),
        border_style_named("rounded"@) == Some(BorderStyle::Rounded),
        border_style_named("double"@) == Some(BorderStyle::Double),
        border_style_named("none"@) == Some(BorderStyle::NoBorder),
        legend_position_named("topright"@) == Some(LegendPosition::TopRight),
        legend_position_named("topleft"@) == Some(LegendPosition::TopLeft),
        legend_position_named("bottomright"@) == Some(LegendPosition::BottomRight),
        legend_position_named("bottomleft"@) == Some(LegendPosition::BottomLeft),
{
    assert(theme_named("default"@) == Some(Theme::Default)) by {
        reveal_strlit("default");
    }
    assert(theme_named("tokyonight"@) == Some(Theme::TokyoNight)) by {
        reveal_strlit("tokyonight");
        reveal_strlit("default");
        assert("tokyonight"@.len() != "default"@.len());
        reveal_strlit("tokyo_night");
        assert("tokyonight"@.len() != "tokyo_night"@.len());
    }
    assert(theme_named("catppuccinmocha"@) == Some(Theme::CatppuccinMocha)) by {
        reveal_strlit("catppuccinmocha");
        reveal_strlit("default");
        assert("catppuccinmocha"@.len() != "default"@.len());
        reveal_strlit("tokyo_night");
        assert("catppuccinmocha"@.len() != "tokyo_night"@.len());
        reveal_strlit("tokyonight");
        assert("catppuccinmocha"@.len() != "tokyonight"@.len());
        reveal_strlit("tokyo-night");
        assert("catppuccinmocha"@.len() != "tokyo-night"@.len());
        reveal_strlit("catppuccin_mocha");
        assert("catppuccinmocha"@.len() != "catppuccin_mocha"@.len());
    }
    assert(theme_named("onedark"@) == Some(Theme::Onedark)) by {
        reveal_strlit("onedark");
        reveal_strlit("default");
        assert("onedark"@[0] != "default"@[0]);
        reveal_strlit("tokyo_night");
        assert("onedark"@.len() != "tokyo_night"@.len());
        reveal_strlit("tokyonight");
        assert("onedark"@.len() != "tokyonight"@.len());
        reveal_strlit("tokyo-night");
        assert("onedark"@.len() != "tokyo-night"@.len());
        reveal_strlit("catppuccin_mocha");
        assert("onedark"@.len() != "catppuccin_mocha"@.len());
        reveal_strlit("catppuccinmocha");
        assert("onedark"@.len() != "catppuccinmocha"@.len());
        reveal_strlit("catppuccin-mocha");
        assert("onedark"@.len() != "catppuccin-mocha"@.len());
    }
    assert(theme_named("gruvbox"@) == Some(Theme::Gruvbox)) by {
        reveal_strlit("gruvbox");
        reveal_strlit("default");
        assert("gruvbox"@[0] != "default"@[0]);
        reveal_strlit("tokyo_night");
        assert("gruvbox"@.len() != "tokyo_night"@.len());
        reveal_strlit("tokyonight");
        assert("gruvbox"@.len() != "tokyonight"@.len());
        reveal_strlit("tokyo-night");
        assert("gruvbox"@.len() != "tokyo-night"@.len());
        reveal_strlit("catppuccin_mocha");
        assert("gruvbox"@.len() != "catppuccin_mocha"@.len());
        reveal_strlit("catppuccinmocha");
        assert("gruvbox"@.len() != "catppuccinmocha"@.len());
        reveal_strlit("catppuccin-mocha");
        assert("gruvbox"@.len() != "catppuccin-mocha"@.len());
        reveal_strlit("onedark");
        assert("gruvbox"@[0] != "onedark"@[0]);
    }
    assert(theme_named("dracula"@) == Some(Theme::Dracula)) by {
        reveal_strlit("dracula");
        reveal_strlit("default");
        assert("dracula"@[1] != "default"@[1]);
        reveal_strlit("tokyo_night");
        assert("dracula"@.len() != "tokyo_night"@.len());
        reveal_strlit("tokyonight");
        assert("dracula"@.len() != "tokyonight"@.len());
        reveal_strlit("tokyo-night");
        assert("dracula"@.len() != "tokyo-night"@.len());
        reveal_strlit("catppuccin_mocha");
        assert("dracula"@.len() != "catppuccin_mocha"@.len());
        reveal_strlit("catppuccinmocha");
        assert("dracula"@.len() != "catppuccinmocha"@.len());
        reveal_strlit("catppuccin-mocha");
        assert("dracula"@.len() != "catppuccin-mocha"@.len());
        reveal_strlit("onedark");
        assert("dracula"@[0] != "onedark"@[0]);
        reveal_strlit("gruvbox");
        assert("dracula"@[0] != "gruvbox"@[0]);
    }
    assert(theme_named("nord"@) == Some(Theme::Nord)) by {
        reveal_strlit("nord");
        reveal_strlit("default");
        assert("nord"@.len() != "default"@.len());
        reveal_strlit("tokyo_night");
        assert("nord"@.len() != "tokyo_night"@.len());
        reveal_strlit("tokyonight");
        assert("nord"@.len() != "tokyonight"@.len());
        reveal_strlit("tokyo-night");
        assert("nord"@.len() != "tokyo-night"@.len());
        reveal_strlit("catppuccin_mocha");
        assert("nord"@.len() != "catppuccin_mocha"@.len());
        reveal_strlit("catppuccinmocha");
        assert("nord"@.len() != "catppuccinmocha"@.len());
        reveal_strlit("catppuccin-mocha");
        assert("nord"@.len() != "catppuccin-mocha"@.len());
        reveal_strlit("onedark");
        assert("nord"@.len() != "onedark"@.len());
        reveal_strlit("gruvbox");
        assert("nord"@.len() != "gruvbox"@.len());
        reveal_strlit("dracula");
        assert("nord"@.len() != "dracula"@.len());
    }
    assert(theme_named("solarizedlight"@) == Some(Theme::SolarizedLight)) by {
        reveal_strlit("solarizedlight");
        reveal_strlit("default");
        assert("solarizedlight"@.len() != "default"@.len());
        reveal_strlit("tokyo_night");
        assert("solarizedlight"@.len() != "tokyo_night"@.len());
        reveal_strlit("tokyonight");
        assert("solarizedlight"@.len() != "tokyonight"@.len());
        reveal_strlit("tokyo-night");
        assert("solarizedlight"@.len() != "tokyo-night"@.len());
        reveal_strlit("catppuccin_mocha");
        assert("solarizedlight"@.len() != "catppuccin_mocha"@.len());
        reveal_strlit("catppuccinmocha");
        assert("solarizedlight"@.len() != "catppuccinmocha"@.len());
        reveal_strlit("catppuccin-mocha");
        assert("solarizedlight"@.len() != "catppuccin-mocha"@.len());
        reveal_strlit("onedark");
        assert("solarizedlight"@.len() != "onedark"@.len());
        reveal_strlit("gruvbox");
        assert("solarizedlight"@.len() != "gruvbox"@.len());
        reveal_strlit("dracula");
        assert("solarizedlight"@.len() != "dracula"@.len());
        reveal_strlit("nord");
        assert("solarizedlight"@.len() != "nord"@.len());
        reveal_strlit("solarized_light");
        assert("solarizedlight"@.len() != "solarized_light"@.len());
    }
    assert(theme_named("solarizeddark"@) == Some(Theme::SolarizedDark)) by {
        reveal_strlit("solarizeddark");
        reveal_strlit("default");
        assert("solarizeddark"@.len() != "default"@.len());
        reveal_strlit("tokyo_night");
        assert("solarizeddark"@.len() != "tokyo_night"@.len());
        reveal_strlit("tokyonight");
        assert("solarizeddark"@.len() != "tokyonight"@.len());
        reveal_strlit("tokyo-night");
        assert("solarizeddark"@.len() != "tokyo-night"@.len());
        reveal_strlit("catppuccin_mocha");
        assert("solarizeddark"@.len() != "catppuccin_mocha"@.len());
        reveal_strlit("catppuccinmocha");
        assert("solarizeddark"@.len() != "catppuccinmocha"@.len());
        reveal_strlit("catppuccin-mocha");
        assert("solarizeddark"@.len() != "catppuccin-mocha"@.len());
        reveal_strlit("onedark");
        assert("solarizeddark"@.len() != "onedark"@.len());
        reveal_strlit("gruvbox");
        assert("solarizeddark"@.len() != "gruvbox"@.len());
        reveal_strlit("dracula");
        assert("solarizeddark"@.len() != "dracula"@.len());
        reveal_strlit("nord");
        assert("solarizeddark"@.len() != "nord"@.len());
        reveal_strlit("solarized_light");
        assert("solarizeddark"@.len() != "solarized_light"@.len());
        reveal_strlit("solarizedlight");
        assert("solarizeddark"@.len() != "solarizedlight"@.len());
        reveal_strlit("solarized_dark");
        assert("solarizeddark"@.len() != "solarized_dark"@.len());
    }
    assert(background_named("transparent"@) == Some(Background::Transparent)) by {
        reveal_strlit("transparent");
    }
    assert(background_named("solid"@) == Some(Background::Solid)) by {
        reveal_strlit("solid");
        reveal_strlit("transparent");
        assert("solid"@.len() != "transparent"@.len());
    }
    assert(node_color_mode_named("tag"@) == Some(NodeColorMode::Tag)) by {
        reveal_strlit("tag");
    }
    assert(node_color_mode_named("folder"@) == Some(NodeColorMode::Folder)) by {
        reveal_strlit("folder");
        reveal_strlit("tag");
        assert("folder"@.len() != "tag"@.len());
    }
    assert(node_color_mode_named("linkcount"@) == Some(NodeColorMode::LinkCount)) by {
        reveal_strlit("linkcount");
        reveal_strlit("tag");
        assert("linkcount"@.len() != "tag"@.len());
        reveal_strlit("folder");
        assert("linkcount"@.len() != "folder"@.len());
        reveal_strlit("link_count");
        assert("linkcount"@.len() != "link_count"@.len());
    }
    assert(node_color_mode_named("uniform"@) == Some(NodeColorMode::Uniform)) by {
        reveal_strlit("uniform");
        reveal_strlit("tag");
        assert("uniform"@.len() != "tag"@.len());
        reveal_strlit("folder");
        assert("uniform"@.len() != "folder"@.len());
        reveal_strlit("link_count");
        assert("uniform"@.len() != "link_count"@.len());
        reveal_strlit("linkcount");
        assert("uniform"@.len() != "linkcount"@.len());
    }
    assert(edge_color_mode_named("source"@) == Some(EdgeColorMode::Source)) by {
        reveal_strlit("source");
    }
    assert(edge_color_mode_named("target"@) == Some(EdgeColorMode::Target)) by {
        reveal_strlit("target");
        reveal_strlit("source");
        assert("target"@[0] != "source"@[0]);
    }
    assert(edge_color_mode_named("uniform"@) == Some(EdgeColorMode::Uniform)) by {
        reveal_strlit("uniform");
        reveal_strlit("source");
        assert("uniform"@.len() != "source"@.len());
        reveal_strlit("target");
        assert("uniform"@.len() != "target"@.len());
    }
    assert(label_mode_named("selected"@) == Some(LabelMode::Selected)) by {
        reveal_strlit("selected");
    }
    assert(label_mode_named("neighbors"@) == Some(LabelMode::Neighbors)) by {
        reveal_strlit("neighbors");
        reveal_strlit("selected");
        assert("neighbors"@.len() != "selected"@.len());
    }
    assert(label_mode_named("all"@) == Some(LabelMode::All)) by {
        reveal_strlit("all");
        reveal_strlit("selected");
        assert("all"@.len() != "selected"@.len());
        reveal_strlit("neighbors");
        assert("all"@.len() != "neighbors"@.len());
    }
    assert(label_mode_named("none"@) == Some(LabelMode::NoLabels)) by {
        reveal_strlit("none");
        reveal_strlit("selected");
        assert("none"@.len() != "selected"@.len());
        reveal_strlit("neighbors");
        assert("none"@.len() != "neighbors"@.len());
        reveal_strlit("all");
        assert("none"@.len() != "all"@.len());
    }
    assert(node_size_mode_named("fixed"@) == Some(NodeSizeMode::Fixed)) by {
        reveal_strlit("fixed");
    }
    assert(node_size_mode_named("linkcount"@) == Some(NodeSizeMode::LinkCount)) by {
        reveal_strlit("linkcount");
        reveal_strlit("fixed");
        assert("linkcount"@.len() != "fixed"@.len());
        reveal_strlit("link_count");
        assert("linkcount"@.len() != "link_count"@.len());
    }
    assert(border_style_named("plain"@) == Some(BorderStyle::Plain)) by {
        reveal_strlit("plain");
    }
    assert(border_style_named("rounded"@) == Some(BorderStyle::Rounded)) by {
        reveal_strlit("rounded");
        reveal_strlit("plain");
        assert("rounded"@.len() != "plain"@.len());
    }
    assert(border_style_named("double"@) == Some(BorderStyle::Double)) by {
        reveal_strlit("double");
        reveal_strlit("plain");
        assert("double"@.len() != "plain"@.len());
        reveal_strlit("rounded");
        assert("double"@.len() != "rounded"@.len());
    }
    assert(border_style_named("none"@) == Some(BorderStyle::NoBorder)) by {
        reveal_strlit("none");
        reveal_strlit("plain");
        assert("none"@.len() != "plain"@.len());
        reveal_strlit("rounded");
        assert("none"@.len() != "rounded"@.len());
        reveal_strlit("double");
        assert("none"@.len() != "double"@.len());
    }
    assert(legend_position_named("topright"@) == Some(LegendPosition::TopRight)) by {
        reveal_strlit("topright");
        reveal_strlit("top_right");
        assert("topright"@.len() != "top_right"@.len());
    }
    assert(legend_position_named("topleft"@) == Some(LegendPosition::TopLeft)) by {
        reveal_strlit("topleft");
        reveal_strlit("top_right");
        assert("topleft"@.len() != "top_right"@.len());
        reveal_strlit("topright");
        assert("topleft"@.len() != "topright"@.len());
        reveal_strlit("top_left");
        assert("topleft"@.len() != "top_left"@.len());
    }
    assert(legend_position_named("bottomright"@) == Some(LegendPosition::BottomRight)) by {
        reveal_strlit("bottomright");
        reveal_strlit("top_right");
        assert("bottomright"@.len() != "top_right"@.len());
        reveal_strlit("topright");
        assert("bottomright"@.len() != "topright"@.len());
        reveal_strlit("top_left");
        assert("bottomright"@.len() != "top_left"@.len());
        reveal_strlit("topleft");
        assert("bottomright"@.len() != "topleft"@.len());
        reveal_strlit("bottom_right");
        assert("bottomright"@.len() != "bottom_right"@.len());
    }
    assert(legend_position_named("bottomleft"@) == Some(LegendPosition::BottomLeft)) by {
        reveal_strlit("bottomleft");
        reveal_strlit("top_right");
        assert("bottomleft"@.len() != "top_right"@.len());
        reveal_strlit("topright");
        assert("bottomleft"@.len() != "topright"@.len());
        reveal_strlit("top_left");
        assert("bottomleft"@.len() != "top_left"@.len());
        reveal_strlit("topleft");
        assert("bottomleft"@.len() != "topleft"@.len());
        reveal_strlit("bottom_right");
        assert("bottomleft"@.len() != "bottom_right"@.len());
        reveal_strlit("bottomright");
        assert("bottomleft"@.len() != "bottomright"@.len());
        reveal_strlit("bottom_left");
        assert("bottomleft"@.len() != "bottom_left"@.len());
    }
}
} // verus!
