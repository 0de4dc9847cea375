//! Settings given by environment variables (`GRAF_<SECTION>_<KEY>`), which
//! take precedence over the configuration file. A variable whose text does
//! not read as a value of its setting leaves the setting as it was.
use vstd::prelude::*;

use crate::config::{
    background_named, border_style_named, canvas_marker_named, edge_color_mode_named, label_mode_named,
    legend_position_named, node_color_mode_named, node_shape_named, node_size_mode_named, theme_named,
    Background, BorderStyle, CanvasMarker, DisplayConfig, EdgeColorMode, EditorConfig, FilterConfig,
    GrafConfig, InteractionConfig, LabelMode, LegendConfig, LegendPosition, NodeColorMode, NodeShape,
    NodeSizeMode, PhysicsConfig, SearchConfig, Theme, VisualConfig,
};
use crate::text::{lowercase_of, parse_bool, parse_bool_spec, parse_unsigned, parse_unsigned_within, split_on, split_trimmed, str_eq, trimmed};

verus! {

/// The value of the first variable called `name`, if any.
pub open spec fn env_lookup(env: Seq<(String, String)>, name: Seq<char>) -> Option<Seq<char>>
    decreases env.len(),
{
    if env.len() == 0 {
        None
    } else if env[0].0@ == name {
        Some(env[0].1@)
    } else {
        env_lookup(env.subrange(1, env.len() as int), name)
    }
}

/// `old`, unless a new value was read.
pub open spec fn overridden<T>(old: T, read: Option<T>) -> T {
    match read {
        Some(v) => v,
        None => old,
    }
}

/// A `usize` read from a text.
pub open spec fn usize_text(s: Seq<char>) -> Option<usize> {
    match parse_unsigned_within(s, usize::MAX as nat) {
        Some(v) => Some(v as usize),
        None => None,
    }
}

/// A `u16` read from a text.
pub open spec fn u16_text(s: Seq<char>) -> Option<u16> {
    match parse_unsigned_within(s, u16::MAX as nat) {
        Some(v) => Some(v as u16),
        None => None,
    }
}

/// A `u64` read from a text.
pub open spec fn u64_text(s: Seq<char>) -> Option<u64> {
    match parse_unsigned_within(s, u64::MAX as nat) {
        Some(v) => Some(v as u64),
        None => None,
    }
}

pub open spec fn env_usize(env: Seq<(String, String)>, name: Seq<char>) -> Option<usize> {
    match env_lookup(env, name) {
        Some(s) => usize_text(s),
        None => None,
    }
}

pub open spec fn env_u16(env: Seq<(String, String)>, name: Seq<char>) -> Option<u16> {
    match env_lookup(env, name) {
        Some(s) => u16_text(s),
        None => None,
    }
}

pub open spec fn env_u64(env: Seq<(String, String)>, name: Seq<char>) -> Option<u64> {
    match env_lookup(env, name) {
        Some(s) => u64_text(s),
        None => None,
    }
}

pub open spec fn env_bool(env: Seq<(String, String)>, name: Seq<char>) -> Option<bool> {
    match env_lookup(env, name) {
        Some(s) => parse_bool_spec(s),
        None => None,
    }
}

pub open spec fn env_named<T: NamedSetting>(env: Seq<(String, String)>, name: Seq<char>) -> Option<T> {
    match env_lookup(env, name) {
        Some(s) => T::named(lowercase_of(s)),
        None => None,
    }
}

/// A text setting after the variable `name`: the variable's text if set.
pub open spec fn text_after(old: Seq<char>, env: Seq<(String, String)>, name: Seq<char>) -> Seq<char> {
    match env_lookup(env, name) {
        Some(s) => s,
        None => old,
    }
}

/// A list setting after the variable `name`: the variable's text split at
/// commas, each piece trimmed.
pub open spec fn list_after(old: Seq<Seq<char>>, env: Seq<(String, String)>, name: Seq<char>) -> Seq<Seq<char>> {
    match env_lookup(env, name) {
        Some(s) => split_on(s, ',').map_values(|p: Seq<char>| trimmed(p)),
        None => old,
    }
}

/// An option that has a name in the configuration.
pub trait NamedSetting: Sized {
    /// The value a lowercase name denotes.
    spec fn named(s: Seq<char>) -> Option<Self>;

    /// Reads a value from its name, in any letter case.
    fn parse_setting(s: &str) -> (r: Option<Self>)
        ensures
            r == Self::named(lowercase_of(s@)),
    ;
}

impl NamedSetting for Theme {
    open spec fn named(s: Seq<char>) -> Option<Theme> {
        theme_named(s)
    }

    fn parse_setting(s: &str) -> (r: Option<Theme>) {
        match Theme::from_str(s) {
            Ok(v) => Some(v),
            Err(_) => None,
        }
    }
}

impl NamedSetting for Background {
    open spec fn named(s: Seq<char>) -> Option<Background> {
        background_named(s)
    }

    fn parse_setting(s: &str) -> (r: Option<Background>) {
        match Background::from_str(s) {
            Ok(v) => Some(v),
            Err(_) => None,
        }
    }
}

impl NamedSetting for NodeColorMode {
    open spec fn named(s: Seq<char>) -> Option<NodeColorMode> {
        node_color_mode_named(s)
    }

    fn parse_setting(s: &str) -> (r: Option<NodeColorMode>) {
        match NodeColorMode::from_str(s) {
            Ok(v) => Some(v),
            Err(_) => None,
        }
    }
}

impl NamedSetting for EdgeColorMode {
    open spec fn named(s: Seq<char>) -> Option<EdgeColorMode> {
        edge_color_mode_named(s)
    }

    fn parse_setting(s: &str) -> (r: Option<EdgeColorMode>) {
        match EdgeColorMode::from_str(s) {
            Ok(v) => Some(v),
            Err(_) => None,
        }
    }
}

impl NamedSetting for LabelMode {
    open spec fn named(s: Seq<char>) -> Option<LabelMode> {
        label_mode_named(s)
    }

    fn parse_setting(s: &str) -> (r: Option<LabelMode>) {
        match LabelMode::from_str(s) {
            Ok(v) => Some(v),
            Err(_) => None,
        }
    }
}

impl NamedSetting for NodeSizeMode {
    open spec fn named(s: Seq<char>) -> Option<NodeSizeMode> {
        node_size_mode_named(s)
    }

    fn parse_setting(s: &str) -> (r: Option<NodeSizeMode>) {
        match NodeSizeMode::from_str(s) {
            Ok(v) => Some(v),
            Err(_) => None,
        }
    }
}

impl NamedSetting for CanvasMarker {
    open spec fn named(s: Seq<char>) -> Option<CanvasMarker> {
        canvas_marker_named(s)
    }

    fn parse_setting(s: &str) -> (r: Option<CanvasMarker>) {
        match CanvasMarker::from_str(s) {
            Ok(v) => Some(v),
            Err(_) => None,
        }
    }
}

impl NamedSetting for NodeShape {
    open spec fn named(s: Seq<char>) -> Option<NodeShape> {
        node_shape_named(s)
    }

    fn parse_setting(s: &str) -> (r: Option<NodeShape>) {
        match NodeShape::from_str(s) {
            Ok(v) => Some(v),
            Err(_) => None,
        }
    }
}

impl NamedSetting for BorderStyle {
    open spec fn named(s: Seq<char>) -> Option<BorderStyle> {
        border_style_named(s)
    }

    fn parse_setting(s: &str) -> (r: Option<BorderStyle>) {
        match BorderStyle::from_str(s) {
            Ok(v) => Some(v),
            Err(_) => None,
        }
    }
}

impl NamedSetting for LegendPosition {
    open spec fn named(s: Seq<char>) -> Option<LegendPosition> {
        legend_position_named(s)
    }

    fn parse_setting(s: &str) -> (r: Option<LegendPosition>) {
        match LegendPosition::from_str(s) {
            Ok(v) => Some(v),
            Err(_) => None,
        }
    }
}

/// The value of the first variable called `name`, if any.
pub fn env_get<'a>(env: &'a Vec<(String, String)>, name: &str) -> (r: Option<&'a String>)
    ensures
        match r {
            Some(v) => env_lookup(env@, name@) == Some(v@),
            None => env_lookup(env@, name@) is None,
        },
{
    let mut i: usize = 0;
    assert(env@.subrange(0, env@.len() as int) =~= env@);
    while i < env.len()
        invariant
            i <= env.len(),
            env_lookup(env@, name@) == env_lookup(env@.subrange(i as int, env@.len() as int), name@),
        decreases env.len() - i,
    {
        let ghost rest = env@.subrange(i as int, env@.len() as int);
        assert(rest[0] == env@[i as int]);
        assert(rest.subrange(1, rest.len() as int) =~= env@.subrange(i + 1, env@.len() as int));
        if str_eq(env[i].0.as_str(), name) {
            return Some(&env[i].1);
        }
        i = i + 1;
    }
    None
}

fn read_usize(env: &Vec<(String, String)>, name: &str, old: usize) -> (r: usize)
    ensures
        r == overridden(old, env_usize(env@, name@)),
{
    match env_get(env, name) {
        Some(s) => match parse_unsigned(s.as_str(), usize::MAX as u64) {
            Some(v) => v as usize,
            None => old,
        },
        None => old,
    }
}

fn read_u16(env: &Vec<(String, String)>, name: &str, old: u16) -> (r: u16)
    ensures
        r == overridden(old, env_u16(env@, name@)),
{
    match env_get(env, name) {
        Some(s) => match parse_unsigned(s.as_str(), u16::MAX as u64) {
            Some(v) => v as u16,
            None => old,
        },
        None => old,
    }
}

fn read_u64(env: &Vec<(String, String)>, name: &str, old: u64) -> (r: u64)
    ensures
        r == overridden(old, env_u64(env@, name@)),
{
    match env_get(env, name) {
        Some(s) => match parse_unsigned(s.as_str(), u64::MAX) {
            Some(v) => v,
            None => old,
        },
        None => old,
    }
}

fn read_bool(env: &Vec<(String, String)>, name: &str, old: bool) -> (r: bool)
    ensures
        r == overridden(old, env_bool(env@, name@)),
{
    match env_get(env, name) {
        Some(s) => match parse_bool(s.as_str()) {
            Some(v) => v,
            None => old,
        },
        None => old,
    }
}

fn read_named<T: NamedSetting>(env: &Vec<(String, String)>, name: &str, old: T) -> (r: T)
    ensures
        r == overridden(old, env_named::<T>(env@, name@)),
{
    match env_get(env, name) {
        Some(s) => match T::parse_setting(s.as_str()) {
            Some(v) => v,
            None => old,
        },
        None => old,
    }
}

fn read_text(env: &Vec<(String, String)>, name: &str, old: String) -> (r: String)
    ensures
        r@ == text_after(old@, env@, name@),
{
    match env_get(env, name) {
        Some(s) => s.clone(),
        None => old,
    }
}

fn read_list(env: &Vec<(String, String)>, name: &str, old: Vec<String>) -> (r: Vec<String>)
    ensures
        r@.map_values(|x: String| x@) == list_after(old@.map_values(|x: String| x@), env@, name@),
{
    match env_get(env, name) {
        Some(s) => split_trimmed(s.as_str(), ','),
        None => old,
    }
}

/// The `[visual]` section `new` is `old` with the variables of `env` applied.
pub open spec fn visual_after_env(old: VisualConfig, new: VisualConfig, env: Seq<(String, String)>) -> bool {
    &&& new.theme == overridden(old.theme, env_named::<Theme>(env, "GRAF_VISUAL_THEME"@))
    &&& new.background == overridden(old.background, env_named::<Background>(env, "GRAF_VISUAL_BACKGROUND"@))
    &&& new.node_color_mode == overridden(old.node_color_mode, env_named::<NodeColorMode>(env, "GRAF_VISUAL_NODE_COLOR_MODE"@))
    &&& new.edge_color_mode == overridden(old.edge_color_mode, env_named::<EdgeColorMode>(env, "GRAF_VISUAL_EDGE_COLOR_MODE"@))
    &&& new.label_mode == overridden(old.label_mode, env_named::<LabelMode>(env, "GRAF_VISUAL_LABEL_MODE"@))
    &&& new.label_max_length == overridden(old.label_max_length, env_usize(env, "GRAF_VISUAL_LABEL_MAX_LENGTH"@))
    &&& new.node_size_mode == overridden(old.node_size_mode, env_named::<NodeSizeMode>(env, "GRAF_VISUAL_NODE_SIZE_MODE"@))
    &&& new.edge_thickness == overridden(old.edge_thickness, env_u16(env, "GRAF_VISUAL_EDGE_THICKNESS"@))
    &&& new.show_legend == overridden(old.show_legend, env_bool(env, "GRAF_VISUAL_SHOW_LEGEND"@))
    &&& new.show_grid == overridden(old.show_grid, env_bool(env, "GRAF_VISUAL_SHOW_GRID"@))
    &&& new.show_minimap == overridden(old.show_minimap, env_bool(env, "GRAF_VISUAL_SHOW_MINIMAP"@))
    &&& new.minimap_position == overridden(old.minimap_position, env_named::<LegendPosition>(env, "GRAF_VISUAL_MINIMAP_POSITION"@))
    &&& new.minimap_width == overridden(old.minimap_width, env_u16(env, "GRAF_VISUAL_MINIMAP_WIDTH"@))
    &&& new.minimap_height == overridden(old.minimap_height, env_u16(env, "GRAF_VISUAL_MINIMAP_HEIGHT"@))
    &&& new.canvas_marker == overridden(old.canvas_marker, env_named::<CanvasMarker>(env, "GRAF_VISUAL_CANVAS_MARKER"@))
    &&& new.minimap_marker == overridden(old.minimap_marker, env_named::<CanvasMarker>(env, "GRAF_VISUAL_MINIMAP_MARKER"@))
    &&& new.node_shape == overridden(old.node_shape, env_named::<NodeShape>(env, "GRAF_VISUAL_NODE_SHAPE"@))
    &&& new.grid_divisions == overridden(old.grid_divisions, env_usize(env, "GRAF_VISUAL_GRID_DIVISIONS"@))
    &&& new.colors == old.colors
}

/// Applies the variables of the `[visual]` section.
pub fn apply_visual_env(c: &mut VisualConfig, env: &Vec<(String, String)>)
    ensures
        visual_after_env(*old(c), *final(c), env@),
{
    c.theme = read_named(env, "GRAF_VISUAL_THEME", c.theme);
    c.background = read_named(env, "GRAF_VISUAL_BACKGROUND", c.background);
    c.node_color_mode = read_named(env, "GRAF_VISUAL_NODE_COLOR_MODE", c.node_color_mode);
    c.edge_color_mode = read_named(env, "GRAF_VISUAL_EDGE_COLOR_MODE", c.edge_color_mode);
    c.label_mode = read_named(env, "GRAF_VISUAL_LABEL_MODE", c.label_mode);
    c.label_max_length = read_usize(env, "GRAF_VISUAL_LABEL_MAX_LENGTH", c.label_max_length);
    c.node_size_mode = read_named(env, "GRAF_VISUAL_NODE_SIZE_MODE", c.node_size_mode);
    c.edge_thickness = read_u16(env, "GRAF_VISUAL_EDGE_THICKNESS", c.edge_thickness);
    c.show_legend = read_bool(env, "GRAF_VISUAL_SHOW_LEGEND", c.show_legend);
    c.show_grid = read_bool(env, "GRAF_VISUAL_SHOW_GRID", c.show_grid);
    c.show_minimap = read_bool(env, "GRAF_VISUAL_SHOW_MINIMAP", c.show_minimap);
    c.minimap_position = read_named(env, "GRAF_VISUAL_MINIMAP_POSITION", c.minimap_position);
    c.minimap_width = read_u16(env, "GRAF_VISUAL_MINIMAP_WIDTH", c.minimap_width);
    c.minimap_height = read_u16(env, "GRAF_VISUAL_MINIMAP_HEIGHT", c.minimap_height);
    c.canvas_marker = read_named(env, "GRAF_VISUAL_CANVAS_MARKER", c.canvas_marker);
    c.minimap_marker = read_named(env, "GRAF_VISUAL_MINIMAP_MARKER", c.minimap_marker);
    c.node_shape = read_named(env, "GRAF_VISUAL_NODE_SHAPE", c.node_shape);
    c.grid_divisions = read_usize(env, "GRAF_VISUAL_GRID_DIVISIONS", c.grid_divisions);
}

/// The `[physics]` section `new` is `old` with the variables of `env` applied.
pub open spec fn physics_after_env(old: PhysicsConfig, new: PhysicsConfig, env: Seq<(String, String)>) -> bool {
    &&& new.max_iterations == overridden(old.max_iterations, env_usize(env, "GRAF_PHYSICS_MAX_ITERATIONS"@))
    &&& new.cooling == overridden(old.cooling, env_bool(env, "GRAF_PHYSICS_COOLING"@))
    &&& new.prevent_overlapping == overridden(old.prevent_overlapping, env_bool(env, "GRAF_PHYSICS_PREVENT_OVERLAPPING"@))
    &&& new.thread_sleep_ms == overridden(old.thread_sleep_ms, env_u64(env, "GRAF_PHYSICS_THREAD_SLEEP_MS"@))
}

/// Applies the variables of the `[physics]` section.
pub fn apply_physics_env(c: &mut PhysicsConfig, env: &Vec<(String, String)>)
    ensures
        physics_after_env(*old(c), *final(c), env@),
{
    c.max_iterations = read_usize(env, "GRAF_PHYSICS_MAX_ITERATIONS", c.max_iterations);
    c.cooling = read_bool(env, "GRAF_PHYSICS_COOLING", c.cooling);
    c.prevent_overlapping = read_bool(env, "GRAF_PHYSICS_PREVENT_OVERLAPPING", c.prevent_overlapping);
    c.thread_sleep_ms = read_u64(env, "GRAF_PHYSICS_THREAD_SLEEP_MS", c.thread_sleep_ms);
}

/// The `[interaction]` section `new` is `old` with the variables of `env` applied.
pub open spec fn interaction_after_env(old: InteractionConfig, new: InteractionConfig, env: Seq<(String, String)>) -> bool {
    &&& new.double_click_ms == overridden(old.double_click_ms, env_u64(env, "GRAF_INTERACTION_DOUBLE_CLICK_MS"@))
}

/// Applies the variables of the `[interaction]` section.
pub fn apply_interaction_env(c: &mut InteractionConfig, env: &Vec<(String, String)>)
    ensures
        interaction_after_env(*old(c), *final(c), env@),
{
    c.double_click_ms = read_u64(env, "GRAF_INTERACTION_DOUBLE_CLICK_MS", c.double_click_ms);
}

/// The `[display]` section `new` is `old` with the variables of `env` applied.
pub open spec fn display_after_env(old: DisplayConfig, new: DisplayConfig, env: Seq<(String, String)>) -> bool {
    &&& new.show_status_bar == overridden(old.show_status_bar, env_bool(env, "GRAF_DISPLAY_SHOW_STATUS_BAR"@))
    &&& (match env_lookup(env, "GRAF_DISPLAY_STATUS_FORMAT"@) { Some(s) => new.status_format is Some && new.status_format->0@ == s, None => new.status_format == old.status_format })
    &&& new.border_style == overridden(old.border_style, env_named::<BorderStyle>(env, "GRAF_DISPLAY_BORDER_STYLE"@))
    &&& new.border_title@ == text_after(old.border_title@, env, "GRAF_DISPLAY_BORDER_TITLE"@)
}

/// Applies the variables of the `[display]` section.
pub fn apply_display_env(c: &mut DisplayConfig, env: &Vec<(String, String)>)
    ensures
        display_after_env(*old(c), *final(c), env@),
{
    c.show_status_bar = read_bool(env, "GRAF_DISPLAY_SHOW_STATUS_BAR", c.show_status_bar);
    match env_get(env, "GRAF_DISPLAY_STATUS_FORMAT") {
        Some(s) => c.status_format = Some(s.clone()),
        None => {},
    }
    c.border_style = read_named(env, "GRAF_DISPLAY_BORDER_STYLE", c.border_style);
    let cur = c.border_title.clone();
    c.border_title = read_text(env, "GRAF_DISPLAY_BORDER_TITLE", cur);
}

/// The `[filter]` section `new` is `old` with the variables of `env` applied.
pub open spec fn filter_after_env(old: FilterConfig, new: FilterConfig, env: Seq<(String, String)>) -> bool {
    &&& new.exclude_tags@.map_values(|x: String| x@) == list_after(old.exclude_tags@.map_values(|x: String| x@), env, "GRAF_FILTER_EXCLUDE_TAGS"@)
    &&& new.exclude_patterns@.map_values(|x: String| x@) == list_after(old.exclude_patterns@.map_values(|x: String| x@), env, "GRAF_FILTER_EXCLUDE_PATTERNS"@)
    &&& new.min_links == overridden(old.min_links, env_usize(env, "GRAF_FILTER_MIN_LINKS"@))
    &&& new.max_nodes == overridden(old.max_nodes, env_usize(env, "GRAF_FILTER_MAX_NODES"@))
}

/// Applies the variables of the `[filter]` section.
pub fn apply_filter_env(c: &mut FilterConfig, env: &Vec<(String, String)>)
    ensures
        filter_after_env(*old(c), *final(c), env@),
{
    let cur = c.exclude_tags.clone();
    c.exclude_tags = read_list(env, "GRAF_FILTER_EXCLUDE_TAGS", cur);
    let cur = c.exclude_patterns.clone();
    c.exclude_patterns = read_list(env, "GRAF_FILTER_EXCLUDE_PATTERNS", cur);
    c.min_links = read_usize(env, "GRAF_FILTER_MIN_LINKS", c.min_links);
    c.max_nodes = read_usize(env, "GRAF_FILTER_MAX_NODES", c.max_nodes);
}

/// The `[legend]` section `new` is `old` with the variables of `env` applied.
pub open spec fn legend_after_env(old: LegendConfig, new: LegendConfig, env: Seq<(String, String)>) -> bool {
    &&& new.position == overridden(old.position, env_named::<LegendPosition>(env, "GRAF_LEGEND_POSITION"@))
    &&& new.max_items == overridden(old.max_items, env_usize(env, "GRAF_LEGEND_MAX_ITEMS"@))
}

/// Applies the variables of the `[legend]` section.
pub fn apply_legend_env(c: &mut LegendConfig, env: &Vec<(String, String)>)
    ensures
        legend_after_env(*old(c), *final(c), env@),
{
    c.position = read_named(env, "GRAF_LEGEND_POSITION", c.position);
    c.max_items = read_usize(env, "GRAF_LEGEND_MAX_ITEMS", c.max_items);
}

/// The `[search]` section `new` is `old` with the variables of `env` applied.
pub open spec fn search_after_env(old: SearchConfig, new: SearchConfig, env: Seq<(String, String)>) -> bool {
    &&& new.max_results == overridden(old.max_results, env_usize(env, "GRAF_SEARCH_MAX_RESULTS"@))
    &&& new.max_visible == overridden(old.max_visible, env_usize(env, "GRAF_SEARCH_MAX_VISIBLE"@))
    &&& new.popup_width == overridden(old.popup_width, env_u16(env, "GRAF_SEARCH_POPUP_WIDTH"@))
    &&& new.popup_y == overridden(old.popup_y, env_u16(env, "GRAF_SEARCH_POPUP_Y"@))
    &&& new.cursor_glyph@ == text_after(old.cursor_glyph@, env, "GRAF_SEARCH_CURSOR_GLYPH"@)
}

/// Applies the variables of the `[search]` section.
pub fn apply_search_env(c: &mut SearchConfig, env: &Vec<(String, String)>)
    ensures
        search_after_env(*old(c), *final(c), env@),
{
    c.max_results = read_usize(env, "GRAF_SEARCH_MAX_RESULTS", c.max_results);
    c.max_visible = read_usize(env, "GRAF_SEARCH_MAX_VISIBLE", c.max_visible);
    c.popup_width = read_u16(env, "GRAF_SEARCH_POPUP_WIDTH", c.popup_width);
    c.popup_y = read_u16(env, "GRAF_SEARCH_POPUP_Y", c.popup_y);
    let cur = c.cursor_glyph.clone();
    c.cursor_glyph = read_text(env, "GRAF_SEARCH_CURSOR_GLYPH", cur);
}

/// The `[editor]` section `new` is `old` with the variables of `env` applied.
pub open spec fn editor_after_env(old: EditorConfig, new: EditorConfig, env: Seq<(String, String)>) -> bool {
    &&& new.command@ == text_after(old.command@, env, "GRAF_EDITOR_COMMAND"@)
}

/// Applies the variables of the `[editor]` section.
pub fn apply_editor_env(c: &mut EditorConfig, env: &Vec<(String, String)>)
    ensures
        editor_after_env(*old(c), *final(c), env@),
{
    let cur = c.command.clone();
    c.command = read_text(env, "GRAF_EDITOR_COMMAND", cur);
}

/// `new` is `old` with the variables of `env` applied, section by section.
pub open spec fn config_after_env(old: GrafConfig, new: GrafConfig, env: Seq<(String, String)>) -> bool {
    &&& visual_after_env(old.visual, new.visual, env)
    &&& physics_after_env(old.physics, new.physics, env)
    &&& interaction_after_env(old.interaction, new.interaction, env)
    &&& display_after_env(old.display, new.display, env)
    &&& filter_after_env(old.filter, new.filter, env)
    &&& legend_after_env(old.legend, new.legend, env)
    &&& search_after_env(old.search, new.search, env)
    &&& editor_after_env(old.editor, new.editor, env)
}

/// Two configurations hold the same settings (texts and lists compared by
/// their characters).
pub open spec fn same_settings(a: GrafConfig, b: GrafConfig) -> bool {
    &&& a.visual == b.visual
    &&& a.physics == b.physics
    &&& a.interaction == b.interaction
    &&& a.display.show_status_bar == b.display.show_status_bar
    &&& (a.display.status_format is Some <==> b.display.status_format is Some)
    &&& (a.display.status_format is Some ==> a.display.status_format->0@ == b.display.status_format->0@)
    &&& a.display.border_style == b.display.border_style
    &&& a.display.border_title@ == b.display.border_title@
    &&& a.filter.exclude_tags@.map_values(|x: String| x@) == b.filter.exclude_tags@.map_values(|x: String| x@)
    &&& a.filter.exclude_patterns@.map_values(|x: String| x@) == b.filter.exclude_patterns@.map_values(
        |x: String| x@,
    )
    &&& a.filter.min_links == b.filter.min_links
    &&& a.filter.max_nodes == b.filter.max_nodes
    &&& a.legend == b.legend
    &&& a.search.max_results == b.search.max_results
    &&& a.search.max_visible == b.search.max_visible
    &&& a.search.popup_width == b.search.popup_width
    &&& a.search.popup_y == b.search.popup_y
    &&& a.search.cursor_glyph@ == b.search.cursor_glyph@
    &&& a.editor.command@ == b.editor.command@
}

impl GrafConfig {
    /// Applies the settings given by environment variables, `env` listing
    /// each variable with its text. Each setting takes the value its variable
    /// reads as; a setting without a variable, or whose variable does not
    /// read as a value of the setting, keeps its value. Lists are read as
    /// comma-separated items.
    pub fn apply_env_overrides(&mut self, env: &Vec<(String, String)>)
        ensures
            config_after_env(*old(self), *final(self), env@),
    {
        apply_visual_env(&mut self.visual, env);
        apply_physics_env(&mut self.physics, env);
        apply_interaction_env(&mut self.interaction, env);
        apply_display_env(&mut self.display, env);
        apply_filter_env(&mut self.filter, env);
        apply_legend_env(&mut self.legend, env);
        apply_search_env(&mut self.search, env);
        apply_editor_env(&mut self.editor, env);
    }
}

/// Without any variables the configuration keeps all its settings.
pub proof fn lemma_no_variables_no_change(old: GrafConfig, new: GrafConfig)
    requires
        config_after_env(old, new, Seq::empty()),
    ensures
        same_settings(old, new),
{
    assert(new.visual =~= old.visual);
    assert(new.physics =~= old.physics);
    assert(new.interaction =~= old.interaction);
    assert(new.legend =~= old.legend);
}

proof fn lemma_visual_idempotent(old: VisualConfig, mid: VisualConfig, new: VisualConfig, env: Seq<(String, String)>)
    requires
        visual_after_env(old, mid, env),
        visual_after_env(mid, new, env),
    ensures
        new == mid,
{
    lemma_visual_fields_idempotent(old, mid, new, env);
    assert(new =~= mid);
}

#[verifier::spinoff_prover]
proof fn lemma_visual_fields_idempotent(old: VisualConfig, mid: VisualConfig, new: VisualConfig, env: Seq<(String, String)>)
    requires
        visual_after_env(old, mid, env),
        visual_after_env(mid, new, env),
    ensures
        new.theme == mid.theme,
        new.background == mid.background,
        new.node_color_mode == mid.node_color_mode,
        new.edge_color_mode == mid.edge_color_mode,
        new.label_mode == mid.label_mode,
        new.label_max_length == mid.label_max_length,
        new.node_size_mode == mid.node_size_mode,
        new.edge_thickness == mid.edge_thickness,
        new.show_legend == mid.show_legend,
        new.show_grid == mid.show_grid,
        new.show_minimap == mid.show_minimap,
        new.minimap_position == mid.minimap_position,
        new.minimap_width == mid.minimap_width,
        new.minimap_height == mid.minimap_height,
        new.canvas_marker == mid.canvas_marker,
        new.minimap_marker == mid.minimap_marker,
        new.node_shape == mid.node_shape,
        new.grid_divisions == mid.grid_divisions,
        new.colors == mid.colors,
{
}

proof fn lemma_display_idempotent(old: DisplayConfig, mid: DisplayConfig, new: DisplayConfig, env: Seq<(String, String)>)
    requires
        display_after_env(old, mid, env),
        display_after_env(mid, new, env),
    ensures
        new.show_status_bar == mid.show_status_bar,
        new.status_format is Some <==> mid.status_format is Some,
        new.status_format is Some ==> new.status_format->0@ == mid.status_format->0@,
        new.border_style == mid.border_style,
        new.border_title@ == mid.border_title@,
{
}

proof fn lemma_filter_idempotent(old: FilterConfig, mid: FilterConfig, new: FilterConfig, env: Seq<(String, String)>)
    requires
        filter_after_env(old, mid, env),
        filter_after_env(mid, new, env),
    ensures
        new.exclude_tags@.map_values(|x: String| x@) == mid.exclude_tags@.map_values(|x: String| x@),
        new.exclude_patterns@.map_values(|x: String| x@) == mid.exclude_patterns@.map_values(|x: String| x@),
        new.min_links == mid.min_links,
        new.max_nodes == mid.max_nodes,
{
}

proof fn lemma_search_idempotent(old: SearchConfig, mid: SearchConfig, new: SearchConfig, env: Seq<(String, String)>)
    requires
        search_after_env(old, mid, env),
        search_after_env(mid, new, env),
    ensures
        new.max_results == mid.max_results,
        new.max_visible == mid.max_visible,
        new.popup_width == mid.popup_width,
        new.popup_y == mid.popup_y,
        new.cursor_glyph@ == mid.cursor_glyph@,
{
}

/// Applying the same variables a second time changes nothing more.
pub proof fn lemma_env_overrides_idempotent(old: GrafConfig, mid: GrafConfig, new: GrafConfig, env: Seq<(String, String)>)
    requires
        config_after_env(old, mid, env),
        config_after_env(mid, new, env),
    ensures
        same_settings(mid, new),
{
    lemma_visual_idempotent(old.visual, mid.visual, new.visual, env);
    lemma_display_idempotent(old.display, mid.display, new.display, env);
    lemma_filter_idempotent(old.filter, mid.filter, new.filter, env);
    lemma_search_idempotent(old.search, mid.search, new.search, env);
    assert(new.physics =~= mid.physics);
    assert(new.interaction =~= mid.interaction);
    assert(new.legend =~= mid.legend);
}

/// A variable is read from the first entry of the environment with its name,
/// wherever that entry stands; a name with no entry reads as unset.
pub proof fn lemma_variable_found_anywhere(env: Seq<(String, String)>, name: Seq<char>, j: int)
    ensures
        0 <= j < env.len() && env[j].0@ == name && (forall|i: int| 0 <= i < j ==> (#[trigger] env[i]).0@ != name)
            ==> env_lookup(env, name) == Some(env[j].1@),
        (forall|i: int| 0 <= i < env.len() ==> (#[trigger] env[i]).0@ != name) ==> env_lookup(env, name) is None,
    decreases env.len(),
{
    if env.len() > 0 {
        let rest = env.subrange(1, env.len() as int);
        lemma_variable_found_anywhere(rest, name, j - 1);
        if 0 <= j < env.len() && env[j].0@ == name && (forall|i: int| 0 <= i < j ==> (#[trigger] env[i]).0@ != name) {
            if j > 0 {
                assert(env[0].0@ != name);
                assert(rest[j - 1] == env[j]);
                assert forall|i: int| 0 <= i < j - 1 implies (#[trigger] rest[i]).0@ != name by {
                    assert(rest[i] == env[i + 1]);
                }
            }
        }
        if forall|i: int| 0 <= i < env.len() ==> (#[trigger] env[i]).0@ != name {
            assert(env[0].0@ != name);
            assert forall|i: int| 0 <= i < rest.len() implies (#[trigger] rest[i]).0@ != name by {
                assert(rest[i] == env[i + 1]);
            }
        }
    }
}

} // verus!
