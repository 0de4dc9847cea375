//! The configuration model: the option enums with their textual names, the
//! configuration sections with their defaults, and the defaults themselves.
use vstd::prelude::*;

use crate::color::Color;
use crate::text::{ascii_lower, is_ascii_text, is_plain_lower, joined, lowercase, lowercase_of, str_eq};

verus! {
/// A color scheme preset.
#[derive(Clone, Copy, Debug, PartialEq, Eq, Structural)]
pub enum Theme {
    Default,
    TokyoNight,
    CatppuccinMocha,
    Onedark,
    Gruvbox,
    Dracula,
    Nord,
    SolarizedLight,
    SolarizedDark,
}

/// The theme a lowercase name denotes.
pub open spec fn theme_named(s: Seq<char>) -> Option<Theme> {
    if s == "default"@ {
        Some(Theme::Default)
    } else if s == "tokyo_night"@ || s == "tokyonight"@ || s == "tokyo-night"@ {
        Some(Theme::TokyoNight)
    } else if s == "catppuccin_mocha"@ || s == "catppuccinmocha"@ || s == "catppuccin-mocha"@ {
        Some(Theme::CatppuccinMocha)
    } else if s == "onedark"@ {
        Some(Theme::Onedark)
    } else if s == "gruvbox"@ {
        Some(Theme::Gruvbox)
    } else if s == "dracula"@ {
        Some(Theme::Dracula)
    } else if s == "nord"@ {
        Some(Theme::Nord)
    } else if s == "solarized_light"@ || s == "solarizedlight"@ {
        Some(Theme::SolarizedLight)
    } else if s == "solarized_dark"@ || s == "solarizeddark"@ {
        Some(Theme::SolarizedDark)
    } else {
        None
    }
}

impl Theme {
    /// The theme a lowercase name denotes, if any.
    pub fn from_lowercase_name(name: &str) -> (r: Option<Theme>)
        ensures
            r == theme_named(name@),
    {
        if str_eq(name, "default") {
            Some(Theme::Default)
        } else if str_eq(name, "tokyo_night") || str_eq(name, "tokyonight") || str_eq(name, "tokyo-night") {
            Some(Theme::TokyoNight)
        } else if str_eq(name, "catppuccin_mocha") || str_eq(name, "catppuccinmocha") || str_eq(name, "catppuccin-mocha") {
            Some(Theme::CatppuccinMocha)
        } else if str_eq(name, "onedark") {
            Some(Theme::Onedark)
        } else if str_eq(name, "gruvbox") {
            Some(Theme::Gruvbox)
        } else if str_eq(name, "dracula") {
            Some(Theme::Dracula)
        } else if str_eq(name, "nord") {
            Some(Theme::Nord)
        } else if str_eq(name, "solarized_light") || str_eq(name, "solarizedlight") {
            Some(Theme::SolarizedLight)
        } else if str_eq(name, "solarized_dark") || str_eq(name, "solarizeddark") {
            Some(Theme::SolarizedDark)
        } else {
            None
        }
    }

    /// Reads a theme from its name, in any letter case; an unknown name
    /// gives the message `Unknown theme: ` followed by the name.
    pub fn from_str(s: &str) -> (r: Result<Theme, String>)
        ensures
            match r {
                Ok(v) => theme_named(lowercase_of(s@)) == Some(v),
                Err(e) => theme_named(lowercase_of(s@)) is None && e@ == "Unknown theme: "@ + s@,
            },
            forall|v: Theme| s@ == theme_name(v) ==> r == Ok::<Theme, String>(v),
            is_ascii_text(s@) ==> match r {
                Ok(v) => theme_named(ascii_lower(s@)) == Some(v),
                Err(_) => theme_named(ascii_lower(s@)) is None,
            },
    {
        let lower = lowercase(s);
        proof {
            assert forall|v: Theme| s@ == theme_name(v) implies theme_named(lowercase_of(s@)) == Some(v) by {
                lemma_theme_names_plain(v);
                lemma_theme_names_read_back(v);
            }
        }
        match Theme::from_lowercase_name(lower.as_str()) {
            Some(v) => Ok(v),
            None => Err(joined("Unknown theme: ", s)),
        }
    }
}

impl Default for Theme {
    fn default() -> (r: Self)
        ensures
            r == Theme::Default,
    {
        Theme::Default
    }
}

/// How the canvas background is drawn: left to the terminal, or filled with the theme's color.
#[derive(Clone, Copy, Debug, PartialEq, Eq, Structural)]
pub enum Background {
    Transparent,
    Solid,
}

/// The background a lowercase name denotes.
pub open spec fn background_named(s: Seq<char>) -> Option<Background> {
    if s == "transparent"@ {
        Some(Background::Transparent)
    } else if s == "solid"@ {
        Some(Background::Solid)
    } else {
        None
    }
}

impl Background {
    /// The background a lowercase name denotes, if any.
    pub fn from_lowercase_name(name: &str) -> (r: Option<Background>)
        ensures
            r == background_named(name@),
    {
        if str_eq(name, "transparent") {
            Some(Background::Transparent)
        } else if str_eq(name, "solid") {
            Some(Background::Solid)
        } else {
            None
        }
    }

    /// Reads a background from its name, in any letter case; an unknown name
    /// gives the message `Unknown background: ` followed by the name.
    pub fn from_str(s: &str) -> (r: Result<Background, String>)
        ensures
            match r {
                Ok(v) => background_named(lowercase_of(s@)) == Some(v),
                Err(e) => background_named(lowercase_of(s@)) is None && e@ == "Unknown background: "@ + s@,
            },
            forall|v: Background| s@ == background_name(v) ==> r == Ok::<Background, String>(v),
            is_ascii_text(s@) ==> match r {
                Ok(v) => background_named(ascii_lower(s@)) == Some(v),
                Err(_) => background_named(ascii_lower(s@)) is None,
            },
    {
        let lower = lowercase(s);
        proof {
            assert forall|v: Background| s@ == background_name(v) implies background_named(lowercase_of(s@)) == Some(v) by {
                lemma_background_names_plain(v);
                lemma_background_names_read_back(v);
            }
        }
        match Background::from_lowercase_name(lower.as_str()) {
            Some(v) => Ok(v),
            None => Err(joined("Unknown background: ", s)),
        }
    }
}

impl Default for Background {
    fn default() -> (r: Self)
        ensures
            r == Background::Transparent,
    {
        Background::Transparent
    }
}

/// How nodes are colored.
#[derive(Clone, Copy, Debug, PartialEq, Eq, Structural)]
pub enum NodeColorMode {
    Tag,
    Folder,
    LinkCount,
    Uniform,
}

/// The node_color_mode a lowercase name denotes.
pub open spec fn node_color_mode_named(s: Seq<char>) -> Option<NodeColorMode> {
    if s == "tag"@ {
        Some(NodeColorMode::Tag)
    } else if s == "folder"@ {
        Some(NodeColorMode::Folder)
    } else if s == "link_count"@ || s == "linkcount"@ {
        Some(NodeColorMode::LinkCount)
    } else if s == "uniform"@ {
        Some(NodeColorMode::Uniform)
    } else {
        None
    }
}

impl NodeColorMode {
    /// The node_color_mode a lowercase name denotes, if any.
    pub fn from_lowercase_name(name: &str) -> (r: Option<NodeColorMode>)
        ensures
            r == node_color_mode_named(name@),
    {
        if str_eq(name, "tag") {
            Some(NodeColorMode::Tag)
        } else if str_eq(name, "folder") {
            Some(NodeColorMode::Folder)
        } else if str_eq(name, "link_count") || str_eq(name, "linkcount") {
            Some(NodeColorMode::LinkCount)
        } else if str_eq(name, "uniform") {
            Some(NodeColorMode::Uniform)
        } else {
            None
        }
    }

    /// Reads a node_color_mode from its name, in any letter case; an unknown name
    /// gives the message `Unknown node_color_mode: ` followed by the name.
    pub fn from_str(s: &str) -> (r: Result<NodeColorMode, String>)
        ensures
            match r {
                Ok(v) => node_color_mode_named(lowercase_of(s@)) == Some(v),
                Err(e) => node_color_mode_named(lowercase_of(s@)) is None && e@ == "Unknown node_color_mode: "@ + s@,
            },
            forall|v: NodeColorMode| s@ == node_color_mode_name(v) ==> r == Ok::<NodeColorMode, String>(v),
            is_ascii_text(s@) ==> match r {
                Ok(v) => node_color_mode_named(ascii_lower(s@)) == Some(v),
                Err(_) => node_color_mode_named(ascii_lower(s@)) is None,
            },
    {
        let lower = lowercase(s);
        proof {
            assert forall|v: NodeColorMode| s@ == node_color_mode_name(v) implies node_color_mode_named(lowercase_of(s@)) == Some(v) by {
                lemma_node_color_mode_names_plain(v);
                lemma_node_color_mode_names_read_back(v);
            }
        }
        match NodeColorMode::from_lowercase_name(lower.as_str()) {
            Some(v) => Ok(v),
            None => Err(joined("Unknown node_color_mode: ", s)),
        }
    }
}

impl Default for NodeColorMode {
    fn default() -> (r: Self)
        ensures
            r == NodeColorMode::Tag,
    {
        NodeColorMode::Tag
    }
}

/// How edges are colored.
#[derive(Clone, Copy, Debug, PartialEq, Eq, Structural)]
pub enum EdgeColorMode {
    Source,
    Target,
    Uniform,
}

/// The edge_color_mode a lowercase name denotes.
pub open spec fn edge_color_mode_named(s: Seq<char>) -> Option<EdgeColorMode> {
    if s == "source"@ {
        Some(EdgeColorMode::Source)
    } else if s == "target"@ {
        Some(EdgeColorMode::Target)
    } else if s == "uniform"@ {
        Some(EdgeColorMode::Uniform)
    } else {
        None
    }
}

impl EdgeColorMode {
    /// The edge_color_mode a lowercase name denotes, if any.
    pub fn from_lowercase_name(name: &str) -> (r: Option<EdgeColorMode>)
        ensures
            r == edge_color_mode_named(name@),
    {
        if str_eq(name, "source") {
            Some(EdgeColorMode::Source)
        } else if str_eq(name, "target") {
            Some(EdgeColorMode::Target)
        } else if str_eq(name, "uniform") {
            Some(EdgeColorMode::Uniform)
        } else {
            None
        }
    }

    /// Reads a edge_color_mode from its name, in any letter case; an unknown name
    /// gives the message `Unknown edge_color_mode: ` followed by the name.
    pub fn from_str(s: &str) -> (r: Result<EdgeColorMode, String>)
        ensures
            match r {
                Ok(v) => edge_color_mode_named(lowercase_of(s@)) == Some(v),
                Err(e) => edge_color_mode_named(lowercase_of(s@)) is None && e@ == "Unknown edge_color_mode: "@ + s@,
            },
            forall|v: EdgeColorMode| s@ == edge_color_mode_name(v) ==> r == Ok::<EdgeColorMode, String>(v),
            is_ascii_text(s@) ==> match r {
                Ok(v) => edge_color_mode_named(ascii_lower(s@)) == Some(v),
                Err(_) => edge_color_mode_named(ascii_lower(s@)) is None,
            },
    {
        let lower = lowercase(s);
        proof {
            assert forall|v: EdgeColorMode| s@ == edge_color_mode_name(v) implies edge_color_mode_named(lowercase_of(s@)) == Some(v) by {
                lemma_edge_color_mode_names_plain(v);
                lemma_edge_color_mode_names_read_back(v);
            }
        }
        match EdgeColorMode::from_lowercase_name(lower.as_str()) {
            Some(v) => Ok(v),
            None => Err(joined("Unknown edge_color_mode: ", s)),
        }
    }
}

impl Default for EdgeColorMode {
    fn default() -> (r: Self)
        ensures
            r == EdgeColorMode::Source,
    {
        EdgeColorMode::Source
    }
}

/// Which node labels are shown.
#[derive(Clone, Copy, Debug, PartialEq, Eq, Structural)]
pub enum LabelMode {
    Selected,
    Neighbors,
    All,
    NoLabels,
}

/// The label_mode a lowercase name denotes.
pub open spec fn label_mode_named(s: Seq<char>) -> Option<LabelMode> {
    if s == "selected"@ {
        Some(LabelMode::Selected)
    } else if s == "neighbors"@ {
        Some(LabelMode::Neighbors)
    } else if s == "all"@ {
        Some(LabelMode::All)
    } else if s == "none"@ {
        Some(LabelMode::NoLabels)
    } else {
        None
    }
}

impl LabelMode {
    /// The label_mode a lowercase name denotes, if any.
    pub fn from_lowercase_name(name: &str) -> (r: Option<LabelMode>)
        ensures
            r == label_mode_named(name@),
    {
        if str_eq(name, "selected") {
            Some(LabelMode::Selected)
        } else if str_eq(name, "neighbors") {
            Some(LabelMode::Neighbors)
        } else if str_eq(name, "all") {
            Some(LabelMode::All)
        } else if str_eq(name, "none") {
            Some(LabelMode::NoLabels)
        } else {
            None
        }
    }

    /// Reads a label_mode from its name, in any letter case; an unknown name
    /// gives the message `Unknown label_mode: ` followed by the name.
    pub fn from_str(s: &str) -> (r: Result<LabelMode, String>)
        ensures
            match r {
                Ok(v) => label_mode_named(lowercase_of(s@)) == Some(v),
                Err(e) => label_mode_named(lowercase_of(s@)) is None && e@ == "Unknown label_mode: "@ + s@,
            },
            forall|v: LabelMode| s@ == label_mode_name(v) ==> r == Ok::<LabelMode, String>(v),
            is_ascii_text(s@) ==> match r {
                Ok(v) => label_mode_named(ascii_lower(s@)) == Some(v),
                Err(_) => label_mode_named(ascii_lower(s@)) is None,
            },
    {
        let lower = lowercase(s);
        proof {
            assert forall|v: LabelMode| s@ == label_mode_name(v) implies label_mode_named(lowercase_of(s@)) == Some(v) by {
                lemma_label_mode_names_plain(v);
                lemma_label_mode_names_read_back(v);
            }
        }
        match LabelMode::from_lowercase_name(lower.as_str()) {
            Some(v) => Ok(v),
            None => Err(joined("Unknown label_mode: ", s)),
        }
    }
}

impl Default for LabelMode {
    fn default() -> (r: Self)
        ensures
            r == LabelMode::Selected,
    {
        LabelMode::Selected
    }
}

/// How node sizes are chosen.
#[derive(Clone, Copy, Debug, PartialEq, Eq, Structural)]
pub enum NodeSizeMode {
    Fixed,
    LinkCount,
}

/// The node_size_mode a lowercase name denotes.
pub open spec fn node_size_mode_named(s: Seq<char>) -> Option<NodeSizeMode> {
    if s == "fixed"@ {
        Some(NodeSizeMode::Fixed)
    } else if s == "link_count"@ || s == "linkcount"@ {
        Some(NodeSizeMode::LinkCount)
    } else {
        None
    }
}

impl NodeSizeMode {
    /// The node_size_mode a lowercase name denotes, if any.
    pub fn from_lowercase_name(name: &str) -> (r: Option<NodeSizeMode>)
        ensures
            r == node_size_mode_named(name@),
    {
        if str_eq(name, "fixed") {
            Some(NodeSizeMode::Fixed)
        } else if str_eq(name, "link_count") || str_eq(name, "linkcount") {
            Some(NodeSizeMode::LinkCount)
        } else {
            None
        }
    }

    /// Reads a node_size_mode from its name, in any letter case; an unknown name
    /// gives the message `Unknown node_size_mode: ` followed by the name.
    pub fn from_str(s: &str) -> (r: Result<NodeSizeMode, String>)
        ensures
            match r {
                Ok(v) => node_size_mode_named(lowercase_of(s@)) == Some(v),
                Err(e) => node_size_mode_named(lowercase_of(s@)) is None && e@ == "Unknown node_size_mode: "@ + s@,
            },
            forall|v: NodeSizeMode| s@ == node_size_mode_name(v) ==> r == Ok::<NodeSizeMode, String>(v),
            is_ascii_text(s@) ==> match r {
                Ok(v) => node_size_mode_named(ascii_lower(s@)) == Some(v),
                Err(_) => node_size_mode_named(ascii_lower(s@)) is None,
            },
    {
        let lower = lowercase(s);
        proof {
            assert forall|v: NodeSizeMode| s@ == node_size_mode_name(v) implies node_size_mode_named(lowercase_of(s@)) == Some(v) by {
                lemma_node_size_mode_names_plain(v);
                lemma_node_size_mode_names_read_back(v);
            }
        }
        match NodeSizeMode::from_lowercase_name(lower.as_str()) {
            Some(v) => Ok(v),
            None => Err(joined("Unknown node_size_mode: ", s)),
        }
    }
}

impl Default for NodeSizeMode {
    fn default() -> (r: Self)
        ensures
            r == NodeSizeMode::Fixed,
    {
        NodeSizeMode::Fixed
    }
}

/// The glyphs a canvas is drawn with.
#[derive(Clone, Copy, Debug, PartialEq, Eq, Structural)]
pub enum CanvasMarker {
    Braille,
    HalfBlock,
    Dot,
}

/// The canvas_marker a lowercase name denotes.
pub open spec fn canvas_marker_named(s: Seq<char>) -> Option<CanvasMarker> {
    if s == "braille"@ {
        Some(CanvasMarker::Braille)
    } else if s == "half_block"@ || s == "halfblock"@ {
        Some(CanvasMarker::HalfBlock)
    } else if s == "dot"@ {
        Some(CanvasMarker::Dot)
    } else {
        None
    }
}

impl CanvasMarker {
    /// The canvas_marker a lowercase name denotes, if any.
    pub fn from_lowercase_name(name: &str) -> (r: Option<CanvasMarker>)
        ensures
            r == canvas_marker_named(name@),
    {
        if str_eq(name, "braille") {
            Some(CanvasMarker::Braille)
        } else if str_eq(name, "half_block") || str_eq(name, "halfblock") {
            Some(CanvasMarker::HalfBlock)
        } else if str_eq(name, "dot") {
            Some(CanvasMarker::Dot)
        } else {
            None
        }
    }

    /// Reads a canvas_marker from its name, in any letter case; an unknown name
    /// gives the message `Unknown canvas_marker: ` followed by the name.
    pub fn from_str(s: &str) -> (r: Result<CanvasMarker, String>)
        ensures
            match r {
                Ok(v) => canvas_marker_named(lowercase_of(s@)) == Some(v),
                Err(e) => canvas_marker_named(lowercase_of(s@)) is None && e@ == "Unknown canvas_marker: "@ + s@,
            },
            forall|v: CanvasMarker| s@ == canvas_marker_name(v) ==> r == Ok::<CanvasMarker, String>(v),
            is_ascii_text(s@) ==> match r {
                Ok(v) => canvas_marker_named(ascii_lower(s@)) == Some(v),
                Err(_) => canvas_marker_named(ascii_lower(s@)) is None,
            },
    {
        let lower = lowercase(s);
        proof {
            assert forall|v: CanvasMarker| s@ == canvas_marker_name(v) implies canvas_marker_named(lowercase_of(s@)) == Some(v) by {
                lemma_canvas_marker_names_plain(v);
                lemma_canvas_marker_names_read_back(v);
            }
        }
        match CanvasMarker::from_lowercase_name(lower.as_str()) {
            Some(v) => Ok(v),
            None => Err(joined("Unknown canvas_marker: ", s)),
        }
    }
}

impl Default for CanvasMarker {
    fn default() -> (r: Self)
        ensures
            r == CanvasMarker::Braille,
    {
        CanvasMarker::Braille
    }
}

/// The outline nodes are drawn with.
#[derive(Clone, Copy, Debug, PartialEq, Eq, Structural)]
pub enum NodeShape {
    Circle,
    Square,
    Diamond,
}

/// The node_shape a lowercase name denotes.
pub open spec fn node_shape_named(s: Seq<char>) -> Option<NodeShape> {
    if s == "circle"@ {
        Some(NodeShape::Circle)
    } else if s == "square"@ {
        Some(NodeShape::Square)
    } else if s == "diamond"@ {
        Some(NodeShape::Diamond)
    } else {
        None
    }
}

impl NodeShape {
    /// The node_shape a lowercase name denotes, if any.
    pub fn from_lowercase_name(name: &str) -> (r: Option<NodeShape>)
        ensures
            r == node_shape_named(name@),
    {
        if str_eq(name, "circle") {
            Some(NodeShape::Circle)
        } else if str_eq(name, "square") {
            Some(NodeShape::Square)
        } else if str_eq(name, "diamond") {
            Some(NodeShape::Diamond)
        } else {
            None
        }
    }

    /// Reads a node_shape from its name, in any letter case; an unknown name
    /// gives the message `Unknown node_shape: ` followed by the name.
    pub fn from_str(s: &str) -> (r: Result<NodeShape, String>)
        ensures
            match r {
                Ok(v) => node_shape_named(lowercase_of(s@)) == Some(v),
                Err(e) => node_shape_named(lowercase_of(s@)) is None && e@ == "Unknown node_shape: "@ + s@,
            },
            forall|v: NodeShape| s@ == node_shape_name(v) ==> r == Ok::<NodeShape, String>(v),
            is_ascii_text(s@) ==> match r {
                Ok(v) => node_shape_named(ascii_lower(s@)) == Some(v),
                Err(_) => node_shape_named(ascii_lower(s@)) is None,
            },
    {
        let lower = lowercase(s);
        proof {
            assert forall|v: NodeShape| s@ == node_shape_name(v) implies node_shape_named(lowercase_of(s@)) == Some(v) by {
                lemma_node_shape_names_plain(v);
                lemma_node_shape_names_read_back(v);
            }
        }
        match NodeShape::from_lowercase_name(lower.as_str()) {
            Some(v) => Ok(v),
            None => Err(joined("Unknown node_shape: ", s)),
        }
    }
}

impl Default for NodeShape {
    fn default() -> (r: Self)
        ensures
            r == NodeShape::Circle,
    {
        NodeShape::Circle
    }
}

/// The border drawn around the graph and overlays.
#[derive(Clone, Copy, Debug, PartialEq, Eq, Structural)]
pub enum BorderStyle {
    Plain,
    Rounded,
    Double,
    NoBorder,
}

/// The border_style a lowercase name denotes.
pub open spec fn border_style_named(s: Seq<char>) -> Option<BorderStyle> {
    if s == "plain"@ {
        Some(BorderStyle::Plain)
    } else if s == "rounded"@ {
        Some(BorderStyle::Rounded)
    } else if s == "double"@ {
        Some(BorderStyle::Double)
    } else if s == "none"@ {
        Some(BorderStyle::NoBorder)
    } else {
        None
    }
}

impl BorderStyle {
    /// The border_style a lowercase name denotes, if any.
    pub fn from_lowercase_name(name: &str) -> (r: Option<BorderStyle>)
        ensures
            r == border_style_named(name@),
    {
        if str_eq(name, "plain") {
            Some(BorderStyle::Plain)
        } else if str_eq(name, "rounded") {
            Some(BorderStyle::Rounded)
        } else if str_eq(name, "double") {
            Some(BorderStyle::Double)
        } else if str_eq(name, "none") {
            Some(BorderStyle::NoBorder)
        } else {
            None
        }
    }

    /// Reads a border_style from its name, in any letter case; an unknown name
    /// gives the message `Unknown border_style: ` followed by the name.
    pub fn from_str(s: &str) -> (r: Result<BorderStyle, String>)
        ensures
            match r {
                Ok(v) => border_style_named(lowercase_of(s@)) == Some(v),
                Err(e) => border_style_named(lowercase_of(s@)) is None && e@ == "Unknown border_style: "@ + s@,
            },
            forall|v: BorderStyle| s@ == border_style_name(v) ==> r == Ok::<BorderStyle, String>(v),
            is_ascii_text(s@) ==> match r {
                Ok(v) => border_style_named(ascii_lower(s@)) == Some(v),
                Err(_) => border_style_named(ascii_lower(s@)) is None,
            },
    {
        let lower = lowercase(s);
        proof {
            assert forall|v: BorderStyle| s@ == border_style_name(v) implies border_style_named(lowercase_of(s@)) == Some(v) by {
                lemma_border_style_names_plain(v);
                lemma_border_style_names_read_back(v);
            }
        }
        match BorderStyle::from_lowercase_name(lower.as_str()) {
            Some(v) => Ok(v),
            None => Err(joined("Unknown border_style: ", s)),
        }
    }
}

impl Default for BorderStyle {
    fn default() -> (r: Self)
        ensures
            r == BorderStyle::Rounded,
    {
        BorderStyle::Rounded
    }
}

/// A corner of the frame.
#[derive(Clone, Copy, Debug, PartialEq, Eq, Structural)]
pub enum LegendPosition {
    TopRight,
    TopLeft,
    BottomRight,
    BottomLeft,
}

/// The legend position a lowercase name denotes.
pub open spec fn legend_position_named(s: Seq<char>) -> Option<LegendPosition> {
    if s == "top_right"@ || s == "topright"@ {
        Some(LegendPosition::TopRight)
    } else if s == "top_left"@ || s == "topleft"@ {
        Some(LegendPosition::TopLeft)
    } else if s == "bottom_right"@ || s == "bottomright"@ {
        Some(LegendPosition::BottomRight)
    } else if s == "bottom_left"@ || s == "bottomleft"@ {
        Some(LegendPosition::BottomLeft)
    } else {
        None
    }
}

impl LegendPosition {
    /// The legend position a lowercase name denotes, if any.
    pub fn from_lowercase_name(name: &str) -> (r: Option<LegendPosition>)
        ensures
            r == legend_position_named(name@),
    {
        if str_eq(name, "top_right") || str_eq(name, "topright") {
            Some(LegendPosition::TopRight)
        } else if str_eq(name, "top_left") || str_eq(name, "topleft") {
            Some(LegendPosition::TopLeft)
        } else if str_eq(name, "bottom_right") || str_eq(name, "bottomright") {
            Some(LegendPosition::BottomRight)
        } else if str_eq(name, "bottom_left") || str_eq(name, "bottomleft") {
            Some(LegendPosition::BottomLeft)
        } else {
            None
        }
    }

    /// Reads a legend position from its name, in any letter case; an unknown name
    /// gives the message `Unknown legend position: ` followed by the name.
    pub fn from_str(s: &str) -> (r: Result<LegendPosition, String>)
        ensures
            match r {
                Ok(v) => legend_position_named(lowercase_of(s@)) == Some(v),
                Err(e) => legend_position_named(lowercase_of(s@)) is None && e@ == "Unknown legend position: "@ + s@,
            },
            forall|v: LegendPosition| s@ == legend_position_name(v) ==> r == Ok::<LegendPosition, String>(v),
            is_ascii_text(s@) ==> match r {
                Ok(v) => legend_position_named(ascii_lower(s@)) == Some(v),
                Err(_) => legend_position_named(ascii_lower(s@)) is None,
            },
    {
        let lower = lowercase(s);
        proof {
            assert forall|v: LegendPosition| s@ == legend_position_name(v) implies legend_position_named(lowercase_of(s@)) == Some(v) by {
                lemma_legend_position_names_plain(v);
                lemma_legend_position_names_read_back(v);
            }
        }
        match LegendPosition::from_lowercase_name(lower.as_str()) {
            Some(v) => Ok(v),
            None => Err(joined("Unknown legend position: ", s)),
        }
    }
}

impl Default for LegendPosition {
    fn default() -> (r: Self)
        ensures
            r == LegendPosition::TopRight,
    {
        LegendPosition::TopRight
    }
}

// ---------------------------------------------------------------------------
// Default values
// ---------------------------------------------------------------------------

/// Default longest label, in characters.
pub fn default_label_max() -> (r: usize)
    ensures
        r == 20,
{
    20
}

/// Default edge thickness, in lines.
pub fn default_edge_thickness() -> (r: u16)
    ensures
        r == 1,
{
    1
}

/// The default of the switches that are on unless configured off.
pub fn default_true() -> (r: bool)
    ensures
        r,
{
    true
}

/// Default cap on simulation steps.
pub fn default_max_iterations() -> (r: usize)
    ensures
        r == 800,
{
    800
}

/// Default double-click window, in milliseconds.
pub fn default_double_click() -> (r: u64)
    ensures
        r == 300,
{
    300
}

/// Default window title.
pub fn default_border_title() -> (r: String)
    ensures
        r@ == "graf"@,
{
    String::from_str("graf")
}

/// Default cap on the number of nodes.
pub fn default_max_nodes() -> (r: usize)
    ensures
        r == 500,
{
    500
}

/// Default number of legend entries.
pub fn default_max_legend_items() -> (r: usize)
    ensures
        r == 10,
{
    10
}

/// Default minimap width, in cells.
pub fn default_minimap_width() -> (r: u16)
    ensures
        r == 24,
{
    24
}

/// Default minimap height, in cells.
pub fn default_minimap_height() -> (r: u16)
    ensures
        r == 12,
{
    12
}

/// Default number of grid divisions.
pub fn default_grid_divisions() -> (r: usize)
    ensures
        r == 10,
{
    10
}

/// Default pause of the layout thread between steps, in milliseconds.
pub fn default_thread_sleep_ms() -> (r: u64)
    ensures
        r == 16,
{
    16
}

/// Default number of search results kept.
pub fn default_search_max_results() -> (r: usize)
    ensures
        r == 20,
{
    20
}

/// Default number of search results shown at once.
pub fn default_search_max_visible() -> (r: usize)
    ensures
        r == 10,
{
    10
}

/// Default width of the search popup, in cells.
pub fn default_search_popup_width() -> (r: u16)
    ensures
        r == 50,
{
    50
}

/// Default row of the search popup.
pub fn default_search_popup_y() -> (r: u16)
    ensures
        r == 3,
{
    3
}

/// Default glyph of the search cursor.
pub fn default_search_cursor_glyph() -> (r: String)
    ensures
        r@ == "\u{258e}"@,
{
    String::from_str("\u{258e}")
}

// ---------------------------------------------------------------------------
// Configuration sections
// ---------------------------------------------------------------------------

/// Colors that replace those of the theme, each where it is given.
#[derive(Clone, Copy, Debug, PartialEq, Eq, Structural)]
pub struct ColorOverrides {
    pub node_color: Option<Color>,
    pub edge_color: Option<Color>,
    pub label_color: Option<Color>,
    pub selection_ring_color: Option<Color>,
    pub border_color: Option<Color>,
    pub title_color: Option<Color>,
    pub grid_color: Option<Color>,
    pub legend_text_color: Option<Color>,
    pub status_bar_color: Option<Color>,
    pub background_color: Option<Color>,
}

impl ColorOverrides {
    pub open spec fn is_empty(self) -> bool {
        &&& self.node_color is None
        &&& self.edge_color is None
        &&& self.label_color is None
        &&& self.selection_ring_color is None
        &&& self.border_color is None
        &&& self.title_color is None
        &&& self.grid_color is None
        &&& self.legend_text_color is None
        &&& self.status_bar_color is None
        &&& self.background_color is None
    }
}

impl Default for ColorOverrides {
    fn default() -> (r: Self)
        ensures
            r.is_empty(),
    {
        ColorOverrides {
            node_color: None,
            edge_color: None,
            label_color: None,
            selection_ring_color: None,
            border_color: None,
            title_color: None,
            grid_color: None,
            legend_text_color: None,
            status_bar_color: None,
            background_color: None,
        }
    }
}

/// The `[visual]` section: appearance of the graph. The two settings that
/// are real numbers (node size and label offset) are held by the
/// application, which does the drawing.
#[derive(Clone, Debug)]
pub struct VisualConfig {
    pub theme: Theme,
    pub background: Background,
    pub node_color_mode: NodeColorMode,
    pub edge_color_mode: EdgeColorMode,
    pub label_mode: LabelMode,
    pub label_max_length: usize,
    pub node_size_mode: NodeSizeMode,
    pub edge_thickness: u16,
    pub show_legend: bool,
    pub show_grid: bool,
    pub show_minimap: bool,
    pub minimap_position: LegendPosition,
    pub minimap_width: u16,
    pub minimap_height: u16,
    pub canvas_marker: CanvasMarker,
    pub minimap_marker: CanvasMarker,
    pub node_shape: NodeShape,
    pub grid_divisions: usize,
    pub colors: ColorOverrides,
}

impl VisualConfig {
    /// Whether every setting of the `[visual]` section has its default value.
    pub open spec fn is_default(&self) -> bool {
        &&& self.theme == Theme::Default
        &&& self.background == Background::Transparent
        &&& self.node_color_mode == NodeColorMode::Tag
        &&& self.edge_color_mode == EdgeColorMode::Source
        &&& self.label_mode == LabelMode::Selected
        &&& self.label_max_length == 20
        &&& self.node_size_mode == NodeSizeMode::Fixed
        &&& self.edge_thickness == 1
        &&& self.show_legend
        &&& !self.show_grid
        &&& self.show_minimap
        &&& self.minimap_position == LegendPosition::TopRight
        &&& self.minimap_width == 24
        &&& self.minimap_height == 12
        &&& self.canvas_marker == CanvasMarker::Braille
        &&& self.minimap_marker == CanvasMarker::Braille
        &&& self.node_shape == NodeShape::Circle
        &&& self.grid_divisions == 10
        &&& self.colors.is_empty()
    }
}

impl Default for VisualConfig {
    fn default() -> (r: Self)
        ensures
            r.is_default(),
    {
        VisualConfig {
            theme: Theme::Default,
            background: Background::default(),
            node_color_mode: NodeColorMode::default(),
            edge_color_mode: EdgeColorMode::default(),
            label_mode: LabelMode::default(),
            label_max_length: default_label_max(),
            node_size_mode: NodeSizeMode::default(),
            edge_thickness: default_edge_thickness(),
            show_legend: default_true(),
            show_grid: false,
            show_minimap: default_true(),
            minimap_position: LegendPosition::default(),
            minimap_width: default_minimap_width(),
            minimap_height: default_minimap_height(),
            canvas_marker: CanvasMarker::default(),
            minimap_marker: CanvasMarker::default(),
            node_shape: NodeShape::default(),
            grid_divisions: default_grid_divisions(),
            colors: ColorOverrides::default(),
        }
    }
}

/// The `[physics]` section: the layout simulation. Its real-valued settings
/// (distances, damping, gravity, time step) are held by the application,
/// which runs the simulation.
#[derive(Clone, Debug)]
pub struct PhysicsConfig {
    pub max_iterations: usize,
    pub cooling: bool,
    pub prevent_overlapping: bool,
    pub thread_sleep_ms: u64,
}

impl PhysicsConfig {
    /// Whether every setting of the `[physics]` section has its default value.
    pub open spec fn is_default(&self) -> bool {
        &&& self.max_iterations == 800
        &&& self.cooling
        &&& self.prevent_overlapping
        &&& self.thread_sleep_ms == 16
    }
}

impl Default for PhysicsConfig {
    fn default() -> (r: Self)
        ensures
            r.is_default(),
    {
        PhysicsConfig {
            max_iterations: default_max_iterations(),
            cooling: default_true(),
            prevent_overlapping: default_true(),
            thread_sleep_ms: default_thread_sleep_ms(),
        }
    }
}

/// The `[interaction]` section: mouse and keyboard. Its real-valued settings
/// (zoom factor, pan and drag scaling) are held by the application.
#[derive(Clone, Debug)]
pub struct InteractionConfig {
    pub double_click_ms: u64,
}

impl InteractionConfig {
    /// Whether every setting of the `[interaction]` section has its default value.
    pub open spec fn is_default(&self) -> bool {
        &&& self.double_click_ms == 300
    }
}

impl Default for InteractionConfig {
    fn default() -> (r: Self)
        ensures
            r.is_default(),
    {
        InteractionConfig { double_click_ms: default_double_click() }
    }
}

/// The `[display]` section: status bar and window border.
#[derive(Clone, Debug)]
pub struct DisplayConfig {
    pub show_status_bar: bool,
    pub status_format: Option<String>,
    pub border_style: BorderStyle,
    pub border_title: String,
}

impl DisplayConfig {
    /// Whether every setting of the `[display]` section has its default value.
    pub open spec fn is_default(&self) -> bool {
        &&& self.show_status_bar
        &&& self.status_format is None
        &&& self.border_style == BorderStyle::Rounded
        &&& self.border_title@ == "graf"@
    }
}

impl Default for DisplayConfig {
    fn default() -> (r: Self)
        ensures
            r.is_default(),
    {
        DisplayConfig {
            show_status_bar: default_true(),
            status_format: None,
            border_style: BorderStyle::default(),
            border_title: default_border_title(),
        }
    }
}

/// The `[filter]` section: which files become nodes.
#[derive(Clone, Debug)]
pub struct FilterConfig {
    pub exclude_tags: Vec<String>,
    pub exclude_patterns: Vec<String>,
    pub min_links: usize,
    pub max_nodes: usize,
}

impl FilterConfig {
    /// Whether every setting of the `[filter]` section has its default value.
    pub open spec fn is_default(&self) -> bool {
        &&& self.exclude_tags@.len() == 0
        &&& self.exclude_patterns@.len() == 0
        &&& self.min_links == 0
        &&& self.max_nodes == 500
    }
}

impl Default for FilterConfig {
    fn default() -> (r: Self)
        ensures
            r.is_default(),
    {
        FilterConfig {
            exclude_tags: Vec::new(),
            exclude_patterns: Vec::new(),
            min_links: 0,
            max_nodes: default_max_nodes(),
        }
    }
}

/// The `[legend]` section.
#[derive(Clone, Debug)]
pub struct LegendConfig {
    pub position: LegendPosition,
    pub max_items: usize,
}

impl LegendConfig {
    /// Whether every setting of the `[legend]` section has its default value.
    pub open spec fn is_default(&self) -> bool {
        &&& self.position == LegendPosition::TopRight
        &&& self.max_items == 10
    }
}

impl Default for LegendConfig {
    fn default() -> (r: Self)
        ensures
            r.is_default(),
    {
        LegendConfig { position: LegendPosition::default(), max_items: default_max_legend_items() }
    }
}

/// The `[search]` section: the node search popup.
#[derive(Clone, Debug)]
pub struct SearchConfig {
    pub max_results: usize,
    pub max_visible: usize,
    pub popup_width: u16,
    pub popup_y: u16,
    pub cursor_glyph: String,
}

impl SearchConfig {
    /// Whether every setting of the `[search]` section has its default value.
    pub open spec fn is_default(&self) -> bool {
        &&& self.max_results == 20
        &&& self.max_visible == 10
        &&& self.popup_width == 50
        &&& self.popup_y == 3
        &&& self.cursor_glyph@ == "\u{258e}"@
    }
}

impl Default for SearchConfig {
    fn default() -> (r: Self)
        ensures
            r.is_default(),
    {
        SearchConfig {
            max_results: default_search_max_results(),
            max_visible: default_search_max_visible(),
            popup_width: default_search_popup_width(),
            popup_y: default_search_popup_y(),
            cursor_glyph: default_search_cursor_glyph(),
        }
    }
}

/// The `[editor]` section: the command files are opened with (empty for the
/// `EDITOR` environment variable).
#[derive(Clone, Debug)]
pub struct EditorConfig {
    pub command: String,
}

impl EditorConfig {
    /// Whether every setting of the `[editor]` section has its default value.
    pub open spec fn is_default(&self) -> bool {
        &&& self.command@.len() == 0
    }
}

impl Default for EditorConfig {
    fn default() -> (r: Self)
        ensures
            r.is_default(),
    {
        EditorConfig { command: String::new() }
    }
}

/// The whole configuration.
#[derive(Clone, Debug)]
pub struct GrafConfig {
    pub visual: VisualConfig,
    pub physics: PhysicsConfig,
    pub interaction: InteractionConfig,
    pub display: DisplayConfig,
    pub filter: FilterConfig,
    pub legend: LegendConfig,
    pub search: SearchConfig,
    pub editor: EditorConfig,
}

impl GrafConfig {
    /// Whether every setting of every section has its default value.
    pub open spec fn is_default(&self) -> bool {
        &&& self.visual.is_default()
        &&& self.physics.is_default()
        &&& self.interaction.is_default()
        &&& self.display.is_default()
        &&& self.filter.is_default()
        &&& self.legend.is_default()
        &&& self.search.is_default()
        &&& self.editor.is_default()
    }
}

impl Default for GrafConfig {
    fn default() -> (r: Self)
        ensures
            r.is_default(),
    {
        GrafConfig {
            visual: VisualConfig::default(),
            physics: PhysicsConfig::default(),
            interaction: InteractionConfig::default(),
            display: DisplayConfig::default(),
            filter: FilterConfig::default(),
            legend: LegendConfig::default(),
            search: SearchConfig::default(),
            editor: EditorConfig::default(),
        }
    }
}

// ---------------------------------------------------------------------------
// Names in the configuration file
// ---------------------------------------------------------------------------

/// The name a configuration file gives each value.
pub open spec fn theme_name(v: Theme) -> Seq<char> {
    match v {
        Theme::Default => "default"@,
        Theme::TokyoNight => "tokyo_night"@,
        Theme::CatppuccinMocha => "catppuccin_mocha"@,
        Theme::Onedark => "onedark"@,
        Theme::Gruvbox => "gruvbox"@,
        Theme::Dracula => "dracula"@,
        Theme::Nord => "nord"@,
        Theme::SolarizedLight => "solarized_light"@,
        Theme::SolarizedDark => "solarized_dark"@,
    }
}

/// Every theme's configuration name is plain lowercase text.
proof fn lemma_theme_names_plain(v: Theme)
    ensures
        is_plain_lower(theme_name(v)),
{
    reveal_strlit("default");
    reveal_strlit("tokyo_night");
    reveal_strlit("catppuccin_mocha");
    reveal_strlit("onedark");
    reveal_strlit("gruvbox");
    reveal_strlit("dracula");
    reveal_strlit("nord");
    reveal_strlit("solarized_light");
    reveal_strlit("solarized_dark");
}

/// Every value's configuration name reads back as that value.
pub proof fn lemma_theme_names_read_back(v: Theme)
    ensures
        theme_named(theme_name(v)) == Some(v),
{
    match v {
        Theme::Default => {
            reveal_strlit("default");
        },
        Theme::TokyoNight => {
            reveal_strlit("tokyo_night");
            reveal_strlit("default");
            assert("tokyo_night"@.len() != "default"@.len());
        },
        Theme::CatppuccinMocha => {
            reveal_strlit("catppuccin_mocha");
            reveal_strlit("default");
            assert("catppuccin_mocha"@.len() != "default"@.len());
            reveal_strlit("tokyo_night");
            assert("catppuccin_mocha"@.len() != "tokyo_night"@.len());
            reveal_strlit("tokyonight");
            assert("catppuccin_mocha"@.len() != "tokyonight"@.len());
            reveal_strlit("tokyo-night");
            assert("catppuccin_mocha"@.len() != "tokyo-night"@.len());
        },
        Theme::Onedark => {
            reveal_strlit("onedark");
            reveal_strlit("default");
            assert("onedark"@[0] != "default"@[0]);
            reveal_strlit("tokyo_night");
            assert("onedark"@.len() != "tokyo_night"@.len());
            reveal_strlit("tokyonight");
            assert("onedark"@.len() != "tokyonight"@.len());
            reveal_strlit("tokyo-night");
            assert("onedark"@.len() != "tokyo-night"@.len());
            reveal_strlit("catppuccin_mocha");
            assert("onedark"@.len() != "catppuccin_mocha"@.len());
            reveal_strlit("catppuccinmocha");
            assert("onedark"@.len() != "catppuccinmocha"@.len());
            reveal_strlit("catppuccin-mocha");
            assert("onedark"@.len() != "catppuccin-mocha"@.len());
        },
        Theme::Gruvbox => {
            reveal_strlit("gruvbox");
            reveal_strlit("default");
            assert("gruvbox"@[0] != "default"@[0]);
            reveal_strlit("tokyo_night");
            assert("gruvbox"@.len() != "tokyo_night"@.len());
            reveal_strlit("tokyonight");
            assert("gruvbox"@.len() != "tokyonight"@.len());
            reveal_strlit("tokyo-night");
            assert("gruvbox"@.len() != "tokyo-night"@.len());
            reveal_strlit("catppuccin_mocha");
            assert("gruvbox"@.len() != "catppuccin_mocha"@.len());
            reveal_strlit("catppuccinmocha");
            assert("gruvbox"@.len() != "catppuccinmocha"@.len());
            reveal_strlit("catppuccin-mocha");
            assert("gruvbox"@.len() != "catppuccin-mocha"@.len());
            reveal_strlit("onedark");
            assert("gruvbox"@[0] != "onedark"@[0]);
        },
        Theme::Dracula => {
            reveal_strlit("dracula");
            reveal_strlit("default");
            assert("dracula"@[1] != "default"@[1]);
            reveal_strlit("tokyo_night");
            assert("dracula"@.len() != "tokyo_night"@.len());
            reveal_strlit("tokyonight");
            assert("dracula"@.len() != "tokyonight"@.len());
            reveal_strlit("tokyo-night");
            assert("dracula"@.len() != "tokyo-night"@.len());
            reveal_strlit("catppuccin_mocha");
            assert("dracula"@.len() != "catppuccin_mocha"@.len());
            reveal_strlit("catppuccinmocha");
            assert("dracula"@.len() != "catppuccinmocha"@.len());
            reveal_strlit("catppuccin-mocha");
            assert("dracula"@.len() != "catppuccin-mocha"@.len());
            reveal_strlit("onedark");
            assert("dracula"@[0] != "onedark"@[0]);
            reveal_strlit("gruvbox");
            assert("dracula"@[0] != "gruvbox"@[0]);
        },
        Theme::Nord => {
            reveal_strlit("nord");
            reveal_strlit("default");
            assert("nord"@.len() != "default"@.len());
            reveal_strlit("tokyo_night");
            assert("nord"@.len() != "tokyo_night"@.len());
            reveal_strlit("tokyonight");
            assert("nord"@.len() != "tokyonight"@.len());
            reveal_strlit("tokyo-night");
            assert("nord"@.len() != "tokyo-night"@.len());
            reveal_strlit("catppuccin_mocha");
            assert("nord"@.len() != "catppuccin_mocha"@.len());
            reveal_strlit("catppuccinmocha");
            assert("nord"@.len() != "catppuccinmocha"@.len());
            reveal_strlit("catppuccin-mocha");
            assert("nord"@.len() != "catppuccin-mocha"@.len());
            reveal_strlit("onedark");
            assert("nord"@.len() != "onedark"@.len());
            reveal_strlit("gruvbox");
            assert("nord"@.len() != "gruvbox"@.len());
            reveal_strlit("dracula");
            assert("nord"@.len() != "dracula"@.len());
        },
        Theme::SolarizedLight => {
            reveal_strlit("solarized_light");
            reveal_strlit("default");
            assert("solarized_light"@.len() != "default"@.len());
            reveal_strlit("tokyo_night");
            assert("solarized_light"@.len() != "tokyo_night"@.len());
            reveal_strlit("tokyonight");
            assert("solarized_light"@.len() != "tokyonight"@.len());
            reveal_strlit("tokyo-night");
            assert("solarized_light"@.len() != "tokyo-night"@.len());
            reveal_strlit("catppuccin_mocha");
            assert("solarized_light"@.len() != "catppuccin_mocha"@.len());
            reveal_strlit("catppuccinmocha");
            assert("solarized_light"@[0] != "catppuccinmocha"@[0]);
            reveal_strlit("catppuccin-mocha");
            assert("solarized_light"@.len() != "catppuccin-mocha"@.len());
            reveal_strlit("onedark");
            assert("solarized_light"@.len() != "onedark"@.len());
            reveal_strlit("gruvbox");
            assert("solarized_light"@.len() != "gruvbox"@.len());
            reveal_strlit("dracula");
            assert("solarized_light"@.len() != "dracula"@.len());
            reveal_strlit("nord");
            assert("solarized_light"@.len() != "nord"@.len());
        },
        Theme::SolarizedDark => {
            reveal_strlit("solarized_dark");
            reveal_strlit("default");
            assert("solarized_dark"@.len() != "default"@.len());
            reveal_strlit("tokyo_night");
            assert("solarized_dark"@.len() != "tokyo_night"@.len());
            reveal_strlit("tokyonight");
            assert("solarized_dark"@.len() != "tokyonight"@.len());
            reveal_strlit("tokyo-night");
            assert("solarized_dark"@.len() != "tokyo-night"@.len());
            reveal_strlit("catppuccin_mocha");
            assert("solarized_dark"@.len() != "catppuccin_mocha"@.len());
            reveal_strlit("catppuccinmocha");
            assert("solarized_dark"@.len() != "catppuccinmocha"@.len());
            reveal_strlit("catppuccin-mocha");
            assert("solarized_dark"@.len() != "catppuccin-mocha"@.len());
            reveal_strlit("onedark");
            assert("solarized_dark"@.len() != "onedark"@.len());
            reveal_strlit("gruvbox");
            assert("solarized_dark"@.len() != "gruvbox"@.len());
            reveal_strlit("dracula");
            assert("solarized_dark"@.len() != "dracula"@.len());
            reveal_strlit("nord");
            assert("solarized_dark"@.len() != "nord"@.len());
            reveal_strlit("solarized_light");
            assert("solarized_dark"@.len() != "solarized_light"@.len());
            reveal_strlit("solarizedlight");
            assert("solarized_dark"@[9] != "solarizedlight"@[9]);
        },
    }
}

/// The name a configuration file gives each value.
pub open spec fn background_name(v: Background) -> Seq<char> {
    match v {
        Background::Transparent => "transparent"@,
        Background::Solid => "solid"@,
    }
}

/// Every configuration name of this setting is plain lowercase text.
proof fn lemma_background_names_plain(v: Background)
    ensures
        is_plain_lower(background_name(v)),
{
    reveal_strlit("transparent");
    reveal_strlit("solid");
}

/// Every value's configuration name reads back as that value.
pub proof fn lemma_background_names_read_back(v: Background)
    ensures
        background_named(background_name(v)) == Some(v),
{
    match v {
        Background::Transparent => {
            reveal_strlit("transparent");
        },
        Background::Solid => {
            reveal_strlit("solid");
            reveal_strlit("transparent");
            assert("solid"@.len() != "transparent"@.len());
        },
    }
}

/// The name a configuration file gives each value.
pub open spec fn node_color_mode_name(v: NodeColorMode) -> Seq<char> {
    match v {
        NodeColorMode::Tag => "tag"@,
        NodeColorMode::Folder => "folder"@,
        NodeColorMode::LinkCount => "link_count"@,
        NodeColorMode::Uniform => "uniform"@,
    }
}

/// Every configuration name of this setting is plain lowercase text.
proof fn lemma_node_color_mode_names_plain(v: NodeColorMode)
    ensures
        is_plain_lower(node_color_mode_name(v)),
{
    reveal_strlit("tag");
    reveal_strlit("folder");
    reveal_strlit("link_count");
    reveal_strlit("uniform");
}

/// Every value's configuration name reads back as that value.
pub proof fn lemma_node_color_mode_names_read_back(v: NodeColorMode)
    ensures
        node_color_mode_named(node_color_mode_name(v)) == Some(v),
{
    match v {
        NodeColorMode::Tag => {
            reveal_strlit("tag");
        },
        NodeColorMode::Folder => {
            reveal_strlit("folder");
            reveal_strlit("tag");
            assert("folder"@.len() != "tag"@.len());
        },
        NodeColorMode::LinkCount => {
            reveal_strlit("link_count");
            reveal_strlit("tag");
            assert("link_count"@.len() != "tag"@.len());
            reveal_strlit("folder");
            assert("link_count"@.len() != "folder"@.len());
        },
        NodeColorMode::Uniform => {
            reveal_strlit("uniform");
            reveal_strlit("tag");
            assert("uniform"@.len() != "tag"@.len());
            reveal_strlit("folder");
            assert("uniform"@.len() != "folder"@.len());
            reveal_strlit("link_count");
            assert("uniform"@.len() != "link_count"@.len());
            reveal_strlit("linkcount");
            assert("uniform"@.len() != "linkcount"@.len());
        },
    }
}

/// The name a configuration file gives each value.
pub open spec fn edge_color_mode_name(v: EdgeColorMode) -> Seq<char> {
    match v {
        EdgeColorMode::Source => "source"@,
        EdgeColorMode::Target => "target"@,
        EdgeColorMode::Uniform => "uniform"@,
    }
}

/// Every configuration name of this setting is plain lowercase text.
proof fn lemma_edge_color_mode_names_plain(v: EdgeColorMode)
    ensures
        is_plain_lower(edge_color_mode_name(v)),
{
    reveal_strlit("source");
    reveal_strlit("target");
    reveal_strlit("uniform");
}

/// Every value's configuration name reads back as that value.
pub proof fn lemma_edge_color_mode_names_read_back(v: EdgeColorMode)
    ensures
        edge_color_mode_named(edge_color_mode_name(v)) == Some(v),
{
    match v {
        EdgeColorMode::Source => {
            reveal_strlit("source");
        },
        EdgeColorMode::Target => {
            reveal_strlit("target");
            reveal_strlit("source");
            assert("target"@[0] != "source"@[0]);
        },
        EdgeColorMode::Uniform => {
            reveal_strlit("uniform");
            reveal_strlit("source");
            assert("uniform"@.len() != "source"@.len());
            reveal_strlit("target");
            assert("uniform"@.len() != "target"@.len());
        },
    }
}

/// The name a configuration file gives each value.
pub open spec fn label_mode_name(v: LabelMode) -> Seq<char> {
    match v {
        LabelMode::Selected => "selected"@,
        LabelMode::Neighbors => "neighbors"@,
        LabelMode::All => "all"@,
        LabelMode::NoLabels => "none"@,
    }
}

/// Every configuration name of this setting is plain lowercase text.
proof fn lemma_label_mode_names_plain(v: LabelMode)
    ensures
        is_plain_lower(label_mode_name(v)),
{
    reveal_strlit("selected");
    reveal_strlit("neighbors");
    reveal_strlit("all");
    reveal_strlit("none");
}

/// Every value's configuration name reads back as that value.
pub proof fn lemma_label_mode_names_read_back(v: LabelMode)
    ensures
        label_mode_named(label_mode_name(v)) == Some(v),
{
    match v {
        LabelMode::Selected => {
            reveal_strlit("selected");
        },
        LabelMode::Neighbors => {
            reveal_strlit("neighbors");
            reveal_strlit("selected");
            assert("neighbors"@.len() != "selected"@.len());
        },
        LabelMode::All => {
            reveal_strlit("all");
            reveal_strlit("selected");
            assert("all"@.len() != "selected"@.len());
            reveal_strlit("neighbors");
            assert("all"@.len() != "neighbors"@.len());
        },
        LabelMode::NoLabels => {
            reveal_strlit("none");
            reveal_strlit("selected");
            assert("none"@.len() != "selected"@.len());
            reveal_strlit("neighbors");
            assert("none"@.len() != "neighbors"@.len());
            reveal_strlit("all");
            assert("none"@.len() != "all"@.len());
        },
    }
}

/// The name a configuration file gives each value.
pub open spec fn node_size_mode_name(v: NodeSizeMode) -> Seq<char> {
    match v {
        NodeSizeMode::Fixed => "fixed"@,
        NodeSizeMode::LinkCount => "link_count"@,
    }
}

/// Every configuration name of this setting is plain lowercase text.
proof fn lemma_node_size_mode_names_plain(v: NodeSizeMode)
    ensures
        is_plain_lower(node_size_mode_name(v)),
{
    reveal_strlit("fixed");
    reveal_strlit("link_count");
}

/// Every value's configuration name reads back as that value.
pub proof fn lemma_node_size_mode_names_read_back(v: NodeSizeMode)
    ensures
        node_size_mode_named(node_size_mode_name(v)) == Some(v),
{
    match v {
        NodeSizeMode::Fixed => {
            reveal_strlit("fixed");
        },
        NodeSizeMode::LinkCount => {
            reveal_strlit("link_count");
            reveal_strlit("fixed");
            assert("link_count"@.len() != "fixed"@.len());
        },
    }
}

/// The name a configuration file gives each value.
pub open spec fn canvas_marker_name(v: CanvasMarker) -> Seq<char> {
    match v {
        CanvasMarker::Braille => "braille"@,
        CanvasMarker::HalfBlock => "half_block"@,
        CanvasMarker::Dot => "dot"@,
    }
}

/// Every configuration name of this setting is plain lowercase text.
proof fn lemma_canvas_marker_names_plain(v: CanvasMarker)
    ensures
        is_plain_lower(canvas_marker_name(v)),
{
    reveal_strlit("braille");
    reveal_strlit("half_block");
    reveal_strlit("dot");
}

/// Every value's configuration name reads back as that value.
pub proof fn lemma_canvas_marker_names_read_back(v: CanvasMarker)
    ensures
        canvas_marker_named(canvas_marker_name(v)) == Some(v),
{
    match v {
        CanvasMarker::Braille => {
            reveal_strlit("braille");
        },
        CanvasMarker::HalfBlock => {
            reveal_strlit("half_block");
            reveal_strlit("braille");
            assert("half_block"@.len() != "braille"@.len());
        },
        CanvasMarker::Dot => {
            reveal_strlit("dot");
            reveal_strlit("braille");
            assert("dot"@.len() != "braille"@.len());
            reveal_strlit("half_block");
            assert("dot"@.len() != "half_block"@.len());
            reveal_strlit("halfblock");
            assert("dot"@.len() != "halfblock"@.len());
        },
    }
}

/// The name a configuration file gives each value.
pub open spec fn node_shape_name(v: NodeShape) -> Seq<char> {
    match v {
        NodeShape::Circle => "circle"@,
        NodeShape::Square => "square"@,
        NodeShape::Diamond => "diamond"@,
    }
}

/// Every configuration name of this setting is plain lowercase text.
proof fn lemma_node_shape_names_plain(v: NodeShape)
    ensures
        is_plain_lower(node_shape_name(v)),
{
    reveal_strlit("circle");
    reveal_strlit("square");
    reveal_strlit("diamond");
}

/// Every value's configuration name reads back as that value.
pub proof fn lemma_node_shape_names_read_back(v: NodeShape)
    ensures
        node_shape_named(node_shape_name(v)) == Some(v),
{
    match v {
        NodeShape::Circle => {
            reveal_strlit("circle");
        },
        NodeShape::Square => {
            reveal_strlit("square");
            reveal_strlit("circle");
            assert("square"@[0] != "circle"@[0]);
        },
        NodeShape::Diamond => {
            reveal_strlit("diamond");
            reveal_strlit("circle");
            assert("diamond"@.len() != "circle"@.len());
            reveal_strlit("square");
            assert("diamond"@.len() != "square"@.len());
        },
    }
}

/// The name a configuration file gives each value.
pub open spec fn border_style_name(v: BorderStyle) -> Seq<char> {
    match v {
        BorderStyle::Plain => "plain"@,
        BorderStyle::Rounded => "rounded"@,
        BorderStyle::Double => "double"@,
        BorderStyle::NoBorder => "none"@,
    }
}

/// Every configuration name of this setting is plain lowercase text.
proof fn lemma_border_style_names_plain(v: BorderStyle)
    ensures
        is_plain_lower(border_style_name(v)),
{
    reveal_strlit("plain");
    reveal_strlit("rounded");
    reveal_strlit("double");
    reveal_strlit("none");
}

/// Every value's configuration name reads back as that value.
pub proof fn lemma_border_style_names_read_back(v: BorderStyle)
    ensures
        border_style_named(border_style_name(v)) == Some(v),
{
    match v {
        BorderStyle::Plain => {
            reveal_strlit("plain");
        },
        BorderStyle::Rounded => {
            reveal_strlit("rounded");
            reveal_strlit("plain");
            assert("rounded"@.len() != "plain"@.len());
        },
        BorderStyle::Double => {
            reveal_strlit("double");
            reveal_strlit("plain");
            assert("double"@.len() != "plain"@.len());
            reveal_strlit("rounded");
            assert("double"@.len() != "rounded"@.len());
        },
        BorderStyle::NoBorder => {
            reveal_strlit("none");
            reveal_strlit("plain");
            assert("none"@.len() != "plain"@.len());
            reveal_strlit("rounded");
            assert("none"@.len() != "rounded"@.len());
            reveal_strlit("double");
            assert("none"@.len() != "double"@.len());
        },
    }
}

/// The name a configuration file gives each value.
pub open spec fn legend_position_name(v: LegendPosition) -> Seq<char> {
    match v {
        LegendPosition::TopRight => "top_right"@,
        LegendPosition::TopLeft => "top_left"@,
        LegendPosition::BottomRight => "bottom_right"@,
        LegendPosition::BottomLeft => "bottom_left"@,
    }
}

/// Every configuration name of this setting is plain lowercase text.
proof fn lemma_legend_position_names_plain(v: LegendPosition)
    ensures
        is_plain_lower(legend_position_name(v)),
{
    reveal_strlit("top_right");
    reveal_strlit("top_left");
    reveal_strlit("bottom_right");
    reveal_strlit("bottom_left");
}

/// Every value's configuration name reads back as that value.
pub proof fn lemma_legend_position_names_read_back(v: LegendPosition)
    ensures
        legend_position_named(legend_position_name(v)) == Some(v),
{
    match v {
        LegendPosition::TopRight => {
            reveal_strlit("top_right");
        },
        LegendPosition::TopLeft => {
            reveal_strlit("top_left");
            reveal_strlit("top_right");
            assert("top_left"@.len() != "top_right"@.len());
            reveal_strlit("topright");
            assert("top_left"@[3] != "topright"@[3]);
        },
        LegendPosition::BottomRight => {
            reveal_strlit("bottom_right");
            reveal_strlit("top_right");
            assert("bottom_right"@.len() != "top_right"@.len());
            reveal_strlit("topright");
            assert("bottom_right"@.len() != "topright"@.len());
            reveal_strlit("top_left");
            assert("bottom_right"@.len() != "top_left"@.len());
            reveal_strlit("topleft");
            assert("bottom_right"@.len() != "topleft"@.len());
        },
        LegendPosition::BottomLeft => {
            reveal_strlit("bottom_left");
            reveal_strlit("top_right");
            assert("bottom_left"@.len() != "top_right"@.len());
            reveal_strlit("topright");
            assert("bottom_left"@.len() != "topright"@.len());
            reveal_strlit("top_left");
            assert("bottom_left"@.len() != "top_left"@.len());
            reveal_strlit("topleft");
            assert("bottom_left"@.len() != "topleft"@.len());
            reveal_strlit("bottom_right");
            assert("bottom_left"@.len() != "bottom_right"@.len());
            reveal_strlit("bottomright");
            assert("bottom_left"@[6] != "bottomright"@[6]);
        },
    }
}

/// The defaults of the configuration, as its documentation lists them: a
/// configuration with every setting at its default has these values.
pub proof fn lemma_documented_defaults(c: GrafConfig)
    requires
        c.is_default(),
    ensures
        c.visual.theme == Theme::Default,
        c.visual.background == Background::Transparent,
        c.visual.node_color_mode == NodeColorMode::Tag,
        c.visual.edge_color_mode == EdgeColorMode::Source,
        c.visual.label_mode == LabelMode::Selected,
        c.visual.label_max_length == 20,
        c.visual.node_size_mode == NodeSizeMode::Fixed,
        c.visual.edge_thickness == 1,
        c.visual.show_legend,
        !c.visual.show_grid,
        c.visual.show_minimap,
        c.visual.minimap_position == LegendPosition::TopRight,
        c.visual.minimap_width == 24,
        c.visual.minimap_height == 12,
        c.visual.canvas_marker == CanvasMarker::Braille,
        c.visual.minimap_marker == CanvasMarker::Braille,
        c.visual.node_shape == NodeShape::Circle,
        c.visual.grid_divisions == 10,
        c.visual.colors.node_color is None,
        c.visual.colors.background_color is None,
        c.physics.max_iterations == 800,
        c.physics.cooling,
        c.physics.prevent_overlapping,
        c.physics.thread_sleep_ms == 16,
        c.interaction.double_click_ms == 300,
        c.display.show_status_bar,
        c.display.status_format is None,
        c.display.border_style == BorderStyle::Rounded,
        c.display.border_title@ == "graf"@,
        c.filter.exclude_tags@.len() == 0,
        c.filter.exclude_patterns@.len() == 0,
        c.filter.min_links == 0,
        c.filter.max_nodes == 500,
        c.legend.position == LegendPosition::TopRight,
        c.legend.max_items == 10,
        c.search.max_results == 20,
        c.search.max_visible == 10,
        c.search.popup_width == 50,
        c.search.popup_y == 3,
        c.search.cursor_glyph@ == "\u{258e}"@,
        c.editor.command@.len() == 0,
{
}

} // verus!
