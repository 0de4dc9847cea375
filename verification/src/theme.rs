//! The colors of each theme, and how the configured overrides replace them.
use vstd::prelude::*;

use crate::color::Color;
use crate::config::{Background, ColorOverrides, GrafConfig, Theme};

verus! {

/// The colors a frame is drawn with.
pub struct ThemeColors {
    pub node_colors: Vec<Color>,
    pub edge_color: Color,
    pub border_color: Color,
    pub title_color: Color,
    pub label_color: Color,
    pub legend_text_color: Color,
    pub legend_border_color: Color,
    pub selected_indicator_color: Color,
    pub grid_color: Color,
    pub background_color: Option<Color>,
    pub status_bar_color: Color,
    pub minimap_border_color: Color,
    pub minimap_viewport_color: Color,
    pub minimap_bg_color: Option<Color>,
}

/// The colors of a frame as a mathematical value.
pub struct Palette {
    pub node_colors: Seq<Color>,
    pub edge_color: Color,
    pub border_color: Color,
    pub title_color: Color,
    pub label_color: Color,
    pub legend_text_color: Color,
    pub legend_border_color: Color,
    pub selected_indicator_color: Color,
    pub grid_color: Color,
    pub background_color: Option<Color>,
    pub status_bar_color: Color,
    pub minimap_border_color: Color,
    pub minimap_viewport_color: Color,
    pub minimap_bg_color: Option<Color>,
}

impl View for ThemeColors {
    type V = Palette;

    open spec fn view(&self) -> Palette {
        Palette {
            node_colors: self.node_colors@,
            edge_color: self.edge_color,
            border_color: self.border_color,
            title_color: self.title_color,
            label_color: self.label_color,
            legend_text_color: self.legend_text_color,
            legend_border_color: self.legend_border_color,
            selected_indicator_color: self.selected_indicator_color,
            grid_color: self.grid_color,
            background_color: self.background_color,
            status_bar_color: self.status_bar_color,
            minimap_border_color: self.minimap_border_color,
            minimap_viewport_color: self.minimap_viewport_color,
            minimap_bg_color: self.minimap_bg_color,
        }
    }
}

/// The colors of a theme, before any override.
pub open spec fn theme_palette(theme: Theme, background: Background) -> Palette {
    match theme {
        Theme::Default => Palette {
            node_colors: seq![Color::Reset],
            edge_color: Color::DarkGray,
            border_color: Color::DarkGray,
            title_color: Color::Gray,
            label_color: Color::Gray,
            legend_text_color: Color::Gray,
            legend_border_color: Color::DarkGray,
            selected_indicator_color: Color::Reset,
            grid_color: Color::DarkGray,
            background_color: match background {
                Background::Transparent => None,
                Background::Solid => Some(Color::Reset),
            },
            status_bar_color: Color::DarkGray,
            minimap_border_color: Color::DarkGray,
            minimap_viewport_color: Color::White,
            minimap_bg_color: None,
        },
        Theme::TokyoNight => Palette {
            node_colors: seq![
                Color::Rgb(122, 162, 247),
                Color::Rgb(187, 154, 247),
                Color::Rgb(125, 207, 255),
                Color::Rgb(224, 175, 104),
                Color::Rgb(158, 206, 106),
                Color::Rgb(247, 118, 142),
                Color::Rgb(148, 226, 213),
                Color::Rgb(255, 158, 100),
            ],
            edge_color: Color::Rgb(86, 95, 137),
            border_color: Color::Rgb(86, 95, 137),
            title_color: Color::Rgb(187, 154, 247),
            label_color: Color::Rgb(203, 206, 215),
            legend_text_color: Color::Rgb(203, 206, 215),
            legend_border_color: Color::Rgb(86, 95, 137),
            selected_indicator_color: Color::Rgb(255, 255, 255),
            grid_color: Color::Rgb(56, 62, 95),
            background_color: match background {
                Background::Transparent => None,
                Background::Solid => Some(Color::Rgb(26, 27, 38)),
            },
            status_bar_color: Color::Rgb(86, 95, 137),
            minimap_border_color: Color::Rgb(86, 95, 137),
            minimap_viewport_color: Color::Rgb(255, 255, 255),
            minimap_bg_color: Some(Color::Rgb(26, 27, 38)),
        },
        Theme::Gruvbox => Palette {
            node_colors: seq![
                Color::Rgb(184, 187, 38),
                Color::Rgb(215, 153, 33),
                Color::Rgb(204, 94, 74),
                Color::Rgb(214, 93, 14),
                Color::Rgb(104, 157, 106),
                Color::Rgb(131, 165, 152),
                Color::Rgb(146, 131, 116),
                Color::Rgb(254, 128, 25),
            ],
            edge_color: Color::Rgb(102, 92, 84),
            border_color: Color::Rgb(102, 92, 84),
            title_color: Color::Rgb(184, 187, 38),
            label_color: Color::Rgb(235, 219, 178),
            legend_text_color: Color::Rgb(235, 219, 178),
            legend_border_color: Color::Rgb(102, 92, 84),
            selected_indicator_color: Color::Rgb(251, 241, 199),
            grid_color: Color::Rgb(60, 56, 54),
            background_color: match background {
                Background::Transparent => None,
                Background::Solid => Some(Color::Rgb(40, 40, 40)),
            },
            status_bar_color: Color::Rgb(102, 92, 84),
            minimap_border_color: Color::Rgb(102, 92, 84),
            minimap_viewport_color: Color::Rgb(251, 241, 199),
            minimap_bg_color: Some(Color::Rgb(40, 40, 40)),
        },
        Theme::Dracula => Palette {
            node_colors: seq![
                Color::Rgb(139, 233, 253),
                Color::Rgb(189, 147, 249),
                Color::Rgb(139, 233, 253),
                Color::Rgb(255, 184, 108),
                Color::Rgb(80, 250, 123),
                Color::Rgb(255, 121, 198),
                Color::Rgb(255, 139, 127),
                Color::Rgb(255, 255, 150),
            ],
            edge_color: Color::Rgb(98, 114, 164),
            border_color: Color::Rgb(98, 114, 164),
            title_color: Color::Rgb(189, 147, 249),
            label_color: Color::Rgb(248, 248, 242),
            legend_text_color: Color::Rgb(248, 248, 242),
            legend_border_color: Color::Rgb(98, 114, 164),
            selected_indicator_color: Color::Rgb(255, 255, 255),
            grid_color: Color::Rgb(68, 71, 90),
            background_color: match background {
                Background::Transparent => None,
                Background::Solid => Some(Color::Rgb(40, 42, 54)),
            },
            status_bar_color: Color::Rgb(98, 114, 164),
            minimap_border_color: Color::Rgb(98, 114, 164),
            minimap_viewport_color: Color::Rgb(255, 255, 255),
            minimap_bg_color: Some(Color::Rgb(40, 42, 54)),
        },
        Theme::Nord => Palette {
            node_colors: seq![
                Color::Rgb(136, 192, 208),
                Color::Rgb(143, 188, 187),
                Color::Rgb(163, 190, 140),
                Color::Rgb(235, 219, 178),
                Color::Rgb(214, 140, 140),
                Color::Rgb(216, 170, 133),
                Color::Rgb(200, 200, 200),
                Color::Rgb(163, 190, 140),
            ],
            edge_color: Color::Rgb(67, 76, 94),
            border_color: Color::Rgb(67, 76, 94),
            title_color: Color::Rgb(136, 192, 208),
            label_color: Color::Rgb(216, 222, 233),
            legend_text_color: Color::Rgb(216, 222, 233),
            legend_border_color: Color::Rgb(67, 76, 94),
            selected_indicator_color: Color::Rgb(236, 239, 244),
            grid_color: Color::Rgb(59, 66, 82),
            background_color: match background {
                Background::Transparent => None,
                Background::Solid => Some(Color::Rgb(46, 52, 64)),
            },
            status_bar_color: Color::Rgb(67, 76, 94),
            minimap_border_color: Color::Rgb(67, 76, 94),
            minimap_viewport_color: Color::Rgb(236, 239, 244),
            minimap_bg_color: Some(Color::Rgb(46, 52, 64)),
        },
        Theme::SolarizedLight => Palette {
            node_colors: seq![
                Color::Rgb(181, 137, 0),
                Color::Rgb(203, 75, 22),
                Color::Rgb(220, 50, 47),
                Color::Rgb(211, 54, 130),
                Color::Rgb(108, 113, 196),
                Color::Rgb(38, 139, 210),
                Color::Rgb(42, 161, 152),
                Color::Rgb(133, 153, 0),
            ],
            edge_color: Color::Rgb(88, 110, 117),
            border_color: Color::Rgb(88, 110, 117),
            title_color: Color::Rgb(38, 139, 210),
            label_color: Color::Rgb(101, 123, 131),
            legend_text_color: Color::Rgb(101, 123, 131),
            legend_border_color: Color::Rgb(88, 110, 117),
            selected_indicator_color: Color::Rgb(0, 0, 0),
            grid_color: Color::Rgb(238, 232, 213),
            background_color: match background {
                Background::Transparent => None,
                Background::Solid => Some(Color::Rgb(253, 246, 227)),
            },
            status_bar_color: Color::Rgb(88, 110, 117),
            minimap_border_color: Color::Rgb(88, 110, 117),
            minimap_viewport_color: Color::Rgb(0, 0, 0),
            minimap_bg_color: Some(Color::Rgb(253, 246, 227)),
        },
        Theme::SolarizedDark => Palette {
            node_colors: seq![
                Color::Rgb(181, 137, 0),
                Color::Rgb(203, 75, 22),
                Color::Rgb(220, 50, 47),
                Color::Rgb(211, 54, 130),
                Color::Rgb(108, 113, 196),
                Color::Rgb(38, 139, 210),
                Color::Rgb(42, 161, 152),
                Color::Rgb(133, 153, 0),
            ],
            edge_color: Color::Rgb(147, 161, 161),
            border_color: Color::Rgb(147, 161, 161),
            title_color: Color::Rgb(38, 139, 210),
            label_color: Color::Rgb(131, 148, 150),
            legend_text_color: Color::Rgb(131, 148, 150),
            legend_border_color: Color::Rgb(147, 161, 161),
            selected_indicator_color: Color::Rgb(253, 246, 227),
            grid_color: Color::Rgb(0, 43, 54),
            background_color: match background {
                Background::Transparent => None,
                Background::Solid => Some(Color::Rgb(0, 43, 54)),
            },
            status_bar_color: Color::Rgb(147, 161, 161),
            minimap_border_color: Color::Rgb(147, 161, 161),
            minimap_viewport_color: Color::Rgb(253, 246, 227),
            minimap_bg_color: Some(Color::Rgb(0, 43, 54)),
        },
        Theme::CatppuccinMocha => Palette {
            node_colors: seq![
                Color::Rgb(137, 180, 250),
                Color::Rgb(203, 166, 247),
                Color::Rgb(116, 199, 236),
                Color::Rgb(249, 226, 175),
                Color::Rgb(166, 227, 161),
                Color::Rgb(245, 189, 220),
                Color::Rgb(242, 205, 205),
                Color::Rgb(250, 179, 135),
            ],
            edge_color: Color::Rgb(108, 112, 134),
            border_color: Color::Rgb(108, 112, 134),
            title_color: Color::Rgb(203, 166, 247),
            label_color: Color::Rgb(205, 214, 244),
            legend_text_color: Color::Rgb(205, 214, 244),
            legend_border_color: Color::Rgb(108, 112, 134),
            selected_indicator_color: Color::Rgb(205, 214, 244),
            grid_color: Color::Rgb(49, 50, 68),
            background_color: match background {
                Background::Transparent => None,
                Background::Solid => Some(Color::Rgb(30, 30, 46)),
            },
            status_bar_color: Color::Rgb(108, 112, 134),
            minimap_border_color: Color::Rgb(108, 112, 134),
            minimap_viewport_color: Color::Rgb(205, 214, 244),
            minimap_bg_color: Some(Color::Rgb(30, 30, 46)),
        },
        Theme::Onedark => Palette {
            node_colors: seq![
                Color::Rgb(97, 175, 239),
                Color::Rgb(198, 120, 221),
                Color::Rgb(86, 182, 194),
                Color::Rgb(229, 192, 123),
                Color::Rgb(152, 195, 121),
                Color::Rgb(224, 108, 117),
                Color::Rgb(224, 150, 108),
                Color::Rgb(171, 178, 191),
            ],
            edge_color: Color::Rgb(92, 99, 112),
            border_color: Color::Rgb(92, 99, 112),
            title_color: Color::Rgb(198, 120, 221),
            label_color: Color::Rgb(171, 178, 191),
            legend_text_color: Color::Rgb(171, 178, 191),
            legend_border_color: Color::Rgb(92, 99, 112),
            selected_indicator_color: Color::Rgb(220, 223, 228),
            grid_color: Color::Rgb(56, 63, 76),
            background_color: match background {
                Background::Transparent => None,
                Background::Solid => Some(Color::Rgb(40, 44, 52)),
            },
            status_bar_color: Color::Rgb(92, 99, 112),
            minimap_border_color: Color::Rgb(92, 99, 112),
            minimap_viewport_color: Color::Rgb(220, 223, 228),
            minimap_bg_color: Some(Color::Rgb(40, 44, 52)),
        },
    }
}

/// A palette with the given overrides put in: a node color replaces the
/// whole node palette, a border color every border, a background color both
/// backgrounds, and each other override its own color.
pub open spec fn apply_overrides(p: Palette, o: ColorOverrides) -> Palette {
    Palette {
        node_colors: match o.node_color {
            Some(c) => seq![c],
            None => p.node_colors,
        },
        edge_color: match o.edge_color {
            Some(c) => c,
            None => p.edge_color,
        },
        border_color: match o.border_color {
            Some(c) => c,
            None => p.border_color,
        },
        title_color: match o.title_color {
            Some(c) => c,
            None => p.title_color,
        },
        label_color: match o.label_color {
            Some(c) => c,
            None => p.label_color,
        },
        legend_text_color: match o.legend_text_color {
            Some(c) => c,
            None => p.legend_text_color,
        },
        legend_border_color: match o.border_color {
            Some(c) => c,
            None => p.legend_border_color,
        },
        selected_indicator_color: match o.selection_ring_color {
            Some(c) => c,
            None => p.selected_indicator_color,
        },
        grid_color: match o.grid_color {
            Some(c) => c,
            None => p.grid_color,
        },
        background_color: match o.background_color {
            Some(c) => Some(c),
            None => p.background_color,
        },
        status_bar_color: match o.status_bar_color {
            Some(c) => c,
            None => p.status_bar_color,
        },
        minimap_border_color: match o.border_color {
            Some(c) => c,
            None => p.minimap_border_color,
        },
        minimap_viewport_color: p.minimap_viewport_color,
        minimap_bg_color: match o.background_color {
            Some(c) => Some(c),
            None => p.minimap_bg_color,
        },
    }
}

/// The colors of a theme, before any override.
pub fn palette_of(theme: Theme, background: Background) -> (r: ThemeColors)
    ensures
        r@ == theme_palette(theme, background),
{
    match theme {
        Theme::Default => {
            let node_colors: Vec<Color> = vec![Color::Reset];
            assert(node_colors@ =~= seq![Color::Reset]);
            ThemeColors {
                node_colors,
                edge_color: Color::DarkGray,
                border_color: Color::DarkGray,
                title_color: Color::Gray,
                label_color: Color::Gray,
                legend_text_color: Color::Gray,
                legend_border_color: Color::DarkGray,
                selected_indicator_color: Color::Reset,
                grid_color: Color::DarkGray,
                background_color: match background {
                    Background::Transparent => None,
                    Background::Solid => Some(Color::Reset),
                },
                status_bar_color: Color::DarkGray,
                minimap_border_color: Color::DarkGray,
                minimap_viewport_color: Color::White,
                minimap_bg_color: None,
            }
        },
        Theme::TokyoNight => {
            let node_colors: Vec<Color> = vec![
                Color::Rgb(122, 162, 247),
                Color::Rgb(187, 154, 247),
                Color::Rgb(125, 207, 255),
                Color::Rgb(224, 175, 104),
                Color::Rgb(158, 206, 106),
                Color::Rgb(247, 118, 142),
                Color::Rgb(148, 226, 213),
                Color::Rgb(255, 158, 100),
            ];
            ThemeColors {
                node_colors,
                edge_color: Color::Rgb(86, 95, 137),
                border_color: Color::Rgb(86, 95, 137),
                title_color: Color::Rgb(187, 154, 247),
                label_color: Color::Rgb(203, 206, 215),
                legend_text_color: Color::Rgb(203, 206, 215),
                legend_border_color: Color::Rgb(86, 95, 137),
                selected_indicator_color: Color::Rgb(255, 255, 255),
                grid_color: Color::Rgb(56, 62, 95),
                background_color: match background {
                    Background::Transparent => None,
                    Background::Solid => Some(Color::Rgb(26, 27, 38)),
                },
                status_bar_color: Color::Rgb(86, 95, 137),
                minimap_border_color: Color::Rgb(86, 95, 137),
                minimap_viewport_color: Color::Rgb(255, 255, 255),
                minimap_bg_color: Some(Color::Rgb(26, 27, 38)),
            }
        },
        Theme::Gruvbox => {
            let node_colors: Vec<Color> = vec![
                Color::Rgb(184, 187, 38),
                Color::Rgb(215, 153, 33),
                Color::Rgb(204, 94, 74),
                Color::Rgb(214, 93, 14),
                Color::Rgb(104, 157, 106),
                Color::Rgb(131, 165, 152),
                Color::Rgb(146, 131, 116),
                Color::Rgb(254, 128, 25),
            ];
            ThemeColors {
                node_colors,
                edge_color: Color::Rgb(102, 92, 84),
                border_color: Color::Rgb(102, 92, 84),
                title_color: Color::Rgb(184, 187, 38),
                label_color: Color::Rgb(235, 219, 178),
                legend_text_color: Color::Rgb(235, 219, 178),
                legend_border_color: Color::Rgb(102, 92, 84),
                selected_indicator_color: Color::Rgb(251, 241, 199),
                grid_color: Color::Rgb(60, 56, 54),
                background_color: match background {
                    Background::Transparent => None,
                    Background::Solid => Some(Color::Rgb(40, 40, 40)),
                },
                status_bar_color: Color::Rgb(102, 92, 84),
                minimap_border_color: Color::Rgb(102, 92, 84),
                minimap_viewport_color: Color::Rgb(251, 241, 199),
                minimap_bg_color: Some(Color::Rgb(40, 40, 40)),
            }
        },
        Theme::Dracula => {
            let node_colors: Vec<Color> = vec![
                Color::Rgb(139, 233, 253),
                Color::Rgb(189, 147, 249),
                Color::Rgb(139, 233, 253),
                Color::Rgb(255, 184, 108),
                Color::Rgb(80, 250, 123),
                Color::Rgb(255, 121, 198),
                Color::Rgb(255, 139, 127),
                Color::Rgb(255, 255, 150),
            ];
            ThemeColors {
                node_colors,
                edge_color: Color::Rgb(98, 114, 164),
                border_color: Color::Rgb(98, 114, 164),
                title_color: Color::Rgb(189, 147, 249),
                label_color: Color::Rgb(248, 248, 242),
                legend_text_color: Color::Rgb(248, 248, 242),
                legend_border_color: Color::Rgb(98, 114, 164),
                selected_indicator_color: Color::Rgb(255, 255, 255),
                grid_color: Color::Rgb(68, 71, 90),
                background_color: match background {
                    Background::Transparent => None,
                    Background::Solid => Some(Color::Rgb(40, 42, 54)),
                },
                status_bar_color: Color::Rgb(98, 114, 164),
                minimap_border_color: Color::Rgb(98, 114, 164),
                minimap_viewport_color: Color::Rgb(255, 255, 255),
                minimap_bg_color: Some(Color::Rgb(40, 42, 54)),
            }
        },
        Theme::Nord => {
            let node_colors: Vec<Color> = vec![
                Color::Rgb(136, 192, 208),
                Color::Rgb(143, 188, 187),
                Color::Rgb(163, 190, 140),
                Color::Rgb(235, 219, 178),
                Color::Rgb(214, 140, 140),
                Color::Rgb(216, 170, 133),
                Color::Rgb(200, 200, 200),
                Color::Rgb(163, 190, 140),
            ];
            ThemeColors {
                node_colors,
                edge_color: Color::Rgb(67, 76, 94),
                border_color: Color::Rgb(67, 76, 94),
                title_color: Color::Rgb(136, 192, 208),
                label_color: Color::Rgb(216, 222, 233),
                legend_text_color: Color::Rgb(216, 222, 233),
                legend_border_color: Color::Rgb(67, 76, 94),
                selected_indicator_color: Color::Rgb(236, 239, 244),
                grid_color: Color::Rgb(59, 66, 82),
                background_color: match background {
                    Background::Transparent => None,
                    Background::Solid => Some(Color::Rgb(46, 52, 64)),
                },
                status_bar_color: Color::Rgb(67, 76, 94),
                minimap_border_color: Color::Rgb(67, 76, 94),
                minimap_viewport_color: Color::Rgb(236, 239, 244),
                minimap_bg_color: Some(Color::Rgb(46, 52, 64)),
            }
        },
        Theme::SolarizedLight => {
            let node_colors: Vec<Color> = vec![
                Color::Rgb(181, 137, 0),
                Color::Rgb(203, 75, 22),
                Color::Rgb(220, 50, 47),
                Color::Rgb(211, 54, 130),
                Color::Rgb(108, 113, 196),
                Color::Rgb(38, 139, 210),
                Color::Rgb(42, 161, 152),
                Color::Rgb(133, 153, 0),
            ];
            ThemeColors {
                node_colors,
                edge_color: Color::Rgb(88, 110, 117),
                border_color: Color::Rgb(88, 110, 117),
                title_color: Color::Rgb(38, 139, 210),
                label_color: Color::Rgb(101, 123, 131),
                legend_text_color: Color::Rgb(101, 123, 131),
                legend_border_color: Color::Rgb(88, 110, 117),
                selected_indicator_color: Color::Rgb(0, 0, 0),
                grid_color: Color::Rgb(238, 232, 213),
                background_color: match background {
                    Background::Transparent => None,
                    Background::Solid => Some(Color::Rgb(253, 246, 227)),
                },
                status_bar_color: Color::Rgb(88, 110, 117),
                minimap_border_color: Color::Rgb(88, 110, 117),
                minimap_viewport_color: Color::Rgb(0, 0, 0),
                minimap_bg_color: Some(Color::Rgb(253, 246, 227)),
            }
        },
        Theme::SolarizedDark => {
            let node_colors: Vec<Color> = vec![
                Color::Rgb(181, 137, 0),
                Color::Rgb(203, 75, 22),
                Color::Rgb(220, 50, 47),
                Color::Rgb(211, 54, 130),
                Color::Rgb(108, 113, 196),
                Color::Rgb(38, 139, 210),
                Color::Rgb(42, 161, 152),
                Color::Rgb(133, 153, 0),
            ];
            ThemeColors {
                node_colors,
                edge_color: Color::Rgb(147, 161, 161),
                border_color: Color::Rgb(147, 161, 161),
                title_color: Color::Rgb(38, 139, 210),
                label_color: Color::Rgb(131, 148, 150),
                legend_text_color: Color::Rgb(131, 148, 150),
                legend_border_color: Color::Rgb(147, 161, 161),
                selected_indicator_color: Color::Rgb(253, 246, 227),
                grid_color: Color::Rgb(0, 43, 54),
                background_color: match background {
                    Background::Transparent => None,
                    Background::Solid => Some(Color::Rgb(0, 43, 54)),
                },
                status_bar_color: Color::Rgb(147, 161, 161),
                minimap_border_color: Color::Rgb(147, 161, 161),
                minimap_viewport_color: Color::Rgb(253, 246, 227),
                minimap_bg_color: Some(Color::Rgb(0, 43, 54)),
            }
        },
        Theme::CatppuccinMocha => {
            let node_colors: Vec<Color> = vec![
                Color::Rgb(137, 180, 250),
                Color::Rgb(203, 166, 247),
                Color::Rgb(116, 199, 236),
                Color::Rgb(249, 226, 175),
                Color::Rgb(166, 227, 161),
                Color::Rgb(245, 189, 220),
                Color::Rgb(242, 205, 205),
                Color::Rgb(250, 179, 135),
            ];
            ThemeColors {
                node_colors,
                edge_color: Color::Rgb(108, 112, 134),
                border_color: Color::Rgb(108, 112, 134),
                title_color: Color::Rgb(203, 166, 247),
                label_color: Color::Rgb(205, 214, 244),
                legend_text_color: Color::Rgb(205, 214, 244),
                legend_border_color: Color::Rgb(108, 112, 134),
                selected_indicator_color: Color::Rgb(205, 214, 244),
                grid_color: Color::Rgb(49, 50, 68),
                background_color: match background {
                    Background::Transparent => None,
                    Background::Solid => Some(Color::Rgb(30, 30, 46)),
                },
                status_bar_color: Color::Rgb(108, 112, 134),
                minimap_border_color: Color::Rgb(108, 112, 134),
                minimap_viewport_color: Color::Rgb(205, 214, 244),
                minimap_bg_color: Some(Color::Rgb(30, 30, 46)),
            }
        },
        Theme::Onedark => {
            let node_colors: Vec<Color> = vec![
                Color::Rgb(97, 175, 239),
                Color::Rgb(198, 120, 221),
                Color::Rgb(86, 182, 194),
                Color::Rgb(229, 192, 123),
                Color::Rgb(152, 195, 121),
                Color::Rgb(224, 108, 117),
                Color::Rgb(224, 150, 108),
                Color::Rgb(171, 178, 191),
            ];
            ThemeColors {
                node_colors,
                edge_color: Color::Rgb(92, 99, 112),
                border_color: Color::Rgb(92, 99, 112),
                title_color: Color::Rgb(198, 120, 221),
                label_color: Color::Rgb(171, 178, 191),
                legend_text_color: Color::Rgb(171, 178, 191),
                legend_border_color: Color::Rgb(92, 99, 112),
                selected_indicator_color: Color::Rgb(220, 223, 228),
                grid_color: Color::Rgb(56, 63, 76),
                background_color: match background {
                    Background::Transparent => None,
                    Background::Solid => Some(Color::Rgb(40, 44, 52)),
                },
                status_bar_color: Color::Rgb(92, 99, 112),
                minimap_border_color: Color::Rgb(92, 99, 112),
                minimap_viewport_color: Color::Rgb(220, 223, 228),
                minimap_bg_color: Some(Color::Rgb(40, 44, 52)),
            }
        },
    }
}

/// `p` with the overrides `o` put in.
pub fn with_overrides(p: ThemeColors, o: ColorOverrides) -> (r: ThemeColors)
    ensures
        r@ == apply_overrides(p@, o),
{
    let node_colors = match o.node_color {
        Some(c) => {
            let v = vec![c];
            assert(v@ =~= seq![c]);
            v
        },
        None => p.node_colors,
    };
    ThemeColors {
        node_colors,
        edge_color: match o.edge_color {
            Some(c) => c,
            None => p.edge_color,
        },
        border_color: match o.border_color {
            Some(c) => c,
            None => p.border_color,
        },
        title_color: match o.title_color {
            Some(c) => c,
            None => p.title_color,
        },
        label_color: match o.label_color {
            Some(c) => c,
            None => p.label_color,
        },
        legend_text_color: match o.legend_text_color {
            Some(c) => c,
            None => p.legend_text_color,
        },
        legend_border_color: match o.border_color {
            Some(c) => c,
            None => p.legend_border_color,
        },
        selected_indicator_color: match o.selection_ring_color {
            Some(c) => c,
            None => p.selected_indicator_color,
        },
        grid_color: match o.grid_color {
            Some(c) => c,
            None => p.grid_color,
        },
        background_color: match o.background_color {
            Some(c) => Some(c),
            None => p.background_color,
        },
        status_bar_color: match o.status_bar_color {
            Some(c) => c,
            None => p.status_bar_color,
        },
        minimap_border_color: match o.border_color {
            Some(c) => c,
            None => p.minimap_border_color,
        },
        minimap_viewport_color: p.minimap_viewport_color,
        minimap_bg_color: match o.background_color {
            Some(c) => Some(c),
            None => p.minimap_bg_color,
        },
    }
}

impl GrafConfig {
    /// The colors to draw with: the configured theme's colors, with the
    /// configured overrides put in.
    pub fn theme_colors(&self) -> (r: ThemeColors)
        ensures
            r@ == apply_overrides(
                theme_palette(self.visual.theme, self.visual.background),
                self.visual.colors,
            ),
    {
        let base = palette_of(self.visual.theme, self.visual.background);
        with_overrides(base, self.visual.colors)
    }
}

/// Whatever the theme and overrides, there is at least one node color, so a
/// node color can always be picked from the palette.
pub proof fn lemma_node_palette_not_empty(theme: Theme, background: Background, o: ColorOverrides)
    ensures
        apply_overrides(theme_palette(theme, background), o).node_colors.len() > 0,
{
}

/// Without a background override, the canvas background is left to the
/// terminal exactly when the background setting is transparent; a solid
/// background is filled with the theme's color.
pub proof fn lemma_background_follows_setting(theme: Theme, background: Background, o: ColorOverrides)
    requires
        o.background_color is None,
    ensures
        (apply_overrides(theme_palette(theme, background), o).background_color is None) <==> (
        background == Background::Transparent),
{
}

/// A color given in the configuration is the color used, whatever the
/// theme: every color the override covers takes its value.
pub proof fn lemma_overrides_take_precedence(theme: Theme, background: Background, o: ColorOverrides)
    ensures
        ({
            let p = apply_overrides(theme_palette(theme, background), o);
            &&& (o.node_color matches Some(c) ==> p.node_colors == seq![c])
            &&& (o.edge_color matches Some(c) ==> p.edge_color == c)
            &&& (o.label_color matches Some(c) ==> p.label_color == c)
            &&& (o.selection_ring_color matches Some(c) ==> p.selected_indicator_color == c)
            &&& (o.border_color matches Some(c) ==> p.border_color == c && p.legend_border_color == c
                && p.minimap_border_color == c)
            &&& (o.title_color matches Some(c) ==> p.title_color == c)
            &&& (o.grid_color matches Some(c) ==> p.grid_color == c)
            &&& (o.legend_text_color matches Some(c) ==> p.legend_text_color == c)
            &&& (o.status_bar_color matches Some(c) ==> p.status_bar_color == c)
            &&& (o.background_color matches Some(c) ==> p.background_color == Some(c)
                && p.minimap_bg_color == Some(c))
        }),
{
}

/// With no overrides, the colors are exactly the theme's.
pub proof fn lemma_no_overrides_keep_theme(theme: Theme, background: Background, o: ColorOverrides)
    requires
        o.is_empty(),
    ensures
        apply_overrides(theme_palette(theme, background), o) == theme_palette(theme, background),
{
}

/// The default theme draws nodes in the terminal's own foreground color
/// (`Reset`), and labels and the legend in gray and dark gray.
pub proof fn lemma_default_theme_uses_terminal_colors(background: Background)
    ensures
        forall|i: int|
            0 <= i < theme_palette(Theme::Default, background).node_colors.len() ==> #[trigger] theme_palette(
                Theme::Default,
                background,
            ).node_colors[i] == Color::Reset,
        theme_palette(Theme::Default, background).label_color == Color::Gray,
        theme_palette(Theme::Default, background).legend_text_color == Color::Gray,
        theme_palette(Theme::Default, background).legend_border_color == Color::DarkGray,
{
}

/// The colors the Default preset draws with, for either background setting (its node colors are the terminal's own: see `lemma_default_theme_uses_terminal_colors`).
pub proof fn lemma_default_preset_colors(background: Background)
    ensures
        background == Background::Transparent ==> theme_palette(Theme::Default, background).background_color == None::<Color>,
        background == Background::Solid ==> theme_palette(Theme::Default, background).background_color == Some(Color::Reset),
        theme_palette(Theme::Default, background).edge_color == Color::DarkGray,
        theme_palette(Theme::Default, background).border_color == Color::DarkGray,
        theme_palette(Theme::Default, background).title_color == Color::Gray,
        theme_palette(Theme::Default, background).label_color == Color::Gray,
        theme_palette(Theme::Default, background).legend_text_color == Color::Gray,
        theme_palette(Theme::Default, background).legend_border_color == Color::DarkGray,
        theme_palette(Theme::Default, background).selected_indicator_color == Color::Reset,
        theme_palette(Theme::Default, background).grid_color == Color::DarkGray,
        theme_palette(Theme::Default, background).status_bar_color == Color::DarkGray,
        theme_palette(Theme::Default, background).minimap_border_color == Color::DarkGray,
        theme_palette(Theme::Default, background).minimap_viewport_color == Color::White,
        theme_palette(Theme::Default, background).minimap_bg_color == None::<Color>,
{
}

/// The colors the TokyoNight preset draws with, for either background setting.
pub proof fn lemma_tokyo_night_preset_colors(background: Background)
    ensures
        theme_palette(Theme::TokyoNight, background).node_colors == seq![
            Color::Rgb(122, 162, 247),
            Color::Rgb(187, 154, 247),
            Color::Rgb(125, 207, 255),
            Color::Rgb(224, 175, 104),
            Color::Rgb(158, 206, 106),
            Color::Rgb(247, 118, 142),
            Color::Rgb(148, 226, 213),
            Color::Rgb(255, 158, 100),
        ],
        background == Background::Transparent ==> theme_palette(Theme::TokyoNight, background).background_color == None::<Color>,
        background == Background::Solid ==> theme_palette(Theme::TokyoNight, background).background_color == Some(Color::Rgb(26, 27, 38)),
        theme_palette(Theme::TokyoNight, background).edge_color == Color::Rgb(86, 95, 137),
        theme_palette(Theme::TokyoNight, background).border_color == Color::Rgb(86, 95, 137),
        theme_palette(Theme::TokyoNight, background).title_color == Color::Rgb(187, 154, 247),
        theme_palette(Theme::TokyoNight, background).label_color == Color::Rgb(203, 206, 215),
        theme_palette(Theme::TokyoNight, background).legend_text_color == Color::Rgb(203, 206, 215),
        theme_palette(Theme::TokyoNight, background).legend_border_color == Color::Rgb(86, 95, 137),
        theme_palette(Theme::TokyoNight, background).selected_indicator_color == Color::Rgb(255, 255, 255),
        theme_palette(Theme::TokyoNight, background).grid_color == Color::Rgb(56, 62, 95),
        theme_palette(Theme::TokyoNight, background).status_bar_color == Color::Rgb(86, 95, 137),
        theme_palette(Theme::TokyoNight, background).minimap_border_color == Color::Rgb(86, 95, 137),
        theme_palette(Theme::TokyoNight, background).minimap_viewport_color == Color::Rgb(255, 255, 255),
        theme_palette(Theme::TokyoNight, background).minimap_bg_color == Some(Color::Rgb(26, 27, 38)),
{
}

/// The colors the Gruvbox preset draws with, for either background setting.
pub proof fn lemma_gruvbox_preset_colors(background: Background)
    ensures
        theme_palette(Theme::Gruvbox, background).node_colors == seq![
            Color::Rgb(184, 187, 38),
            Color::Rgb(215, 153, 33),
            Color::Rgb(204, 94, 74),
            Color::Rgb(214, 93, 14),
            Color::Rgb(104, 157, 106),
            Color::Rgb(131, 165, 152),
            Color::Rgb(146, 131, 116),
            Color::Rgb(254, 128, 25),
        ],
        background == Background::Transparent ==> theme_palette(Theme::Gruvbox, background).background_color == None::<Color>,
        background == Background::Solid ==> theme_palette(Theme::Gruvbox, background).background_color == Some(Color::Rgb(40, 40, 40)),
        theme_palette(Theme::Gruvbox, background).edge_color == Color::Rgb(102, 92, 84),
        theme_palette(Theme::Gruvbox, background).border_color == Color::Rgb(102, 92, 84),
        theme_palette(Theme::Gruvbox, background).title_color == Color::Rgb(184, 187, 38),
        theme_palette(Theme::Gruvbox, background).label_color == Color::Rgb(235, 219, 178),
        theme_palette(Theme::Gruvbox, background).legend_text_color == Color::Rgb(235, 219, 178),
        theme_palette(Theme::Gruvbox, background).legend_border_color == Color::Rgb(102, 92, 84),
        theme_palette(Theme::Gruvbox, background).selected_indicator_color == Color::Rgb(251, 241, 199),
        theme_palette(Theme::Gruvbox, background).grid_color == Color::Rgb(60, 56, 54),
        theme_palette(Theme::Gruvbox, background).status_bar_color == Color::Rgb(102, 92, 84),
        theme_palette(Theme::Gruvbox, background).minimap_border_color == Color::Rgb(102, 92, 84),
        theme_palette(Theme::Gruvbox, background).minimap_viewport_color == Color::Rgb(251, 241, 199),
        theme_palette(Theme::Gruvbox, background).minimap_bg_color == Some(Color::Rgb(40, 40, 40)),
{
}

/// The colors the Dracula preset draws with, for either background setting.
pub proof fn lemma_dracula_preset_colors(background: Background)
    ensures
        theme_palette(Theme::Dracula, background).node_colors == seq![
            Color::Rgb(139, 233, 253),
            Color::Rgb(189, 147, 249),
            Color::Rgb(139, 233, 253),
            Color::Rgb(255, 184, 108),
            Color::Rgb(80, 250, 123),
            Color::Rgb(255, 121, 198),
            Color::Rgb(255, 139, 127),
            Color::Rgb(255, 255, 150),
        ],
        background == Background::Transparent ==> theme_palette(Theme::Dracula, background).background_color == None::<Color>,
        background == Background::Solid ==> theme_palette(Theme::Dracula, background).background_color == Some(Color::Rgb(40, 42, 54)),
        theme_palette(Theme::Dracula, background).edge_color == Color::Rgb(98, 114, 164),
        theme_palette(Theme::Dracula, background).border_color == Color::Rgb(98, 114, 164),
        theme_palette(Theme::Dracula, background).title_color == Color::Rgb(189, 147, 249),
        theme_palette(Theme::Dracula, background).label_color == Color::Rgb(248, 248, 242),
        theme_palette(Theme::Dracula, background).legend_text_color == Color::Rgb(248, 248, 242),
        theme_palette(Theme::Dracula, background).legend_border_color == Color::Rgb(98, 114, 164),
        theme_palette(Theme::Dracula, background).selected_indicator_color == Color::Rgb(255, 255, 255),
        theme_palette(Theme::Dracula, background).grid_color == Color::Rgb(68, 71, 90),
        theme_palette(Theme::Dracula, background).status_bar_color == Color::Rgb(98, 114, 164),
        theme_palette(Theme::Dracula, background).minimap_border_color == Color::Rgb(98, 114, 164),
        theme_palette(Theme::Dracula, background).minimap_viewport_color == Color::Rgb(255, 255, 255),
        theme_palette(Theme::Dracula, background).minimap_bg_color == Some(Color::Rgb(40, 42, 54)),
{
}

/// The colors the Nord preset draws with, for either background setting.
pub proof fn lemma_nord_preset_colors(background: Background)
    ensures
        theme_palette(Theme::Nord, background).node_colors == seq![
            Color::Rgb(136, 192, 208),
            Color::Rgb(143, 188, 187),
            Color::Rgb(163, 190, 140),
            Color::Rgb(235, 219, 178),
            Color::Rgb(214, 140, 140),
            Color::Rgb(216, 170, 133),
            Color::Rgb(200, 200, 200),
            Color::Rgb(163, 190, 140),
        ],
        background == Background::Transparent ==> theme_palette(Theme::Nord, background).background_color == None::<Color>,
        background == Background::Solid ==> theme_palette(Theme::Nord, background).background_color == Some(Color::Rgb(46, 52, 64)),
        theme_palette(Theme::Nord, background).edge_color == Color::Rgb(67, 76, 94),
        theme_palette(Theme::Nord, background).border_color == Color::Rgb(67, 76, 94),
        theme_palette(Theme::Nord, background).title_color == Color::Rgb(136, 192, 208),
        theme_palette(Theme::Nord, background).label_color == Color::Rgb(216, 222, 233),
        theme_palette(Theme::Nord, background).legend_text_color == Color::Rgb(216, 222, 233),
        theme_palette(Theme::Nord, background).legend_border_color == Color::Rgb(67, 76, 94),
        theme_palette(Theme::Nord, background).selected_indicator_color == Color::Rgb(236, 239, 244),
        theme_palette(Theme::Nord, background).grid_color == Color::Rgb(59, 66, 82),
        theme_palette(Theme::Nord, background).status_bar_color == Color::Rgb(67, 76, 94),
        theme_palette(Theme::Nord, background).minimap_border_color == Color::Rgb(67, 76, 94),
        theme_palette(Theme::Nord, background).minimap_viewport_color == Color::Rgb(236, 239, 244),
        theme_palette(Theme::Nord, background).minimap_bg_color == Some(Color::Rgb(46, 52, 64)),
{
}

/// The colors the SolarizedLight preset draws with, for either background setting.
pub proof fn lemma_solarized_light_preset_colors(background: Background)
    ensures
        theme_palette(Theme::SolarizedLight, background).node_colors == seq![
            Color::Rgb(181, 137, 0),
            Color::Rgb(203, 75, 22),
            Color::Rgb(220, 50, 47),
            Color::Rgb(211, 54, 130),
            Color::Rgb(108, 113, 196),
            Color::Rgb(38, 139, 210),
            Color::Rgb(42, 161, 152),
            Color::Rgb(133, 153, 0),
        ],
        background == Background::Transparent ==> theme_palette(Theme::SolarizedLight, background).background_color == None::<Color>,
        background == Background::Solid ==> theme_palette(Theme::SolarizedLight, background).background_color == Some(Color::Rgb(253, 246, 227)),
        theme_palette(Theme::SolarizedLight, background).edge_color == Color::Rgb(88, 110, 117),
        theme_palette(Theme::SolarizedLight, background).border_color == Color::Rgb(88, 110, 117),
        theme_palette(Theme::SolarizedLight, background).title_color == Color::Rgb(38, 139, 210),
        theme_palette(Theme::SolarizedLight, background).label_color == Color::Rgb(101, 123, 131),
        theme_palette(Theme::SolarizedLight, background).legend_text_color == Color::Rgb(101, 123, 131),
        theme_palette(Theme::SolarizedLight, background).legend_border_color == Color::Rgb(88, 110, 117),
        theme_palette(Theme::SolarizedLight, background).selected_indicator_color == Color::Rgb(0, 0, 0),
        theme_palette(Theme::SolarizedLight, background).grid_color == Color::Rgb(238, 232, 213),
        theme_palette(Theme::SolarizedLight, background).status_bar_color == Color::Rgb(88, 110, 117),
        theme_palette(Theme::SolarizedLight, background).minimap_border_color == Color::Rgb(88, 110, 117),
        theme_palette(Theme::SolarizedLight, background).minimap_viewport_color == Color::Rgb(0, 0, 0),
        theme_palette(Theme::SolarizedLight, background).minimap_bg_color == Some(Color::Rgb(253, 246, 227)),
{
}

/// The colors the SolarizedDark preset draws with, for either background setting.
pub proof fn lemma_solarized_dark_preset_colors(background: Background)
    ensures
        theme_palette(Theme::SolarizedDark, background).node_colors == seq![
            Color::Rgb(181, 137, 0),
            Color::Rgb(203, 75, 22),
            Color::Rgb(220, 50, 47),
            Color::Rgb(211, 54, 130),
            Color::Rgb(108, 113, 196),
            Color::Rgb(38, 139, 210),
            Color::Rgb(42, 161, 152),
            Color::Rgb(133, 153, 0),
        ],
        background == Background::Transparent ==> theme_palette(Theme::SolarizedDark, background).background_color == None::<Color>,
        background == Background::Solid ==> theme_palette(Theme::SolarizedDark, background).background_color == Some(Color::Rgb(0, 43, 54)),
        theme_palette(Theme::SolarizedDark, background).edge_color == Color::Rgb(147, 161, 161),
        theme_palette(Theme::SolarizedDark, background).border_color == Color::Rgb(147, 161, 161),
        theme_palette(Theme::SolarizedDark, background).title_color == Color::Rgb(38, 139, 210),
        theme_palette(Theme::SolarizedDark, background).label_color == Color::Rgb(131, 148, 150),
        theme_palette(Theme::SolarizedDark, background).legend_text_color == Color::Rgb(131, 148, 150),
        theme_palette(Theme::SolarizedDark, background).legend_border_color == Color::Rgb(147, 161, 161),
        theme_palette(Theme::SolarizedDark, background).selected_indicator_color == Color::Rgb(253, 246, 227),
        theme_palette(Theme::SolarizedDark, background).grid_color == Color::Rgb(0, 43, 54),
        theme_palette(Theme::SolarizedDark, background).status_bar_color == Color::Rgb(147, 161, 161),
        theme_palette(Theme::SolarizedDark, background).minimap_border_color == Color::Rgb(147, 161, 161),
        theme_palette(Theme::SolarizedDark, background).minimap_viewport_color == Color::Rgb(253, 246, 227),
        theme_palette(Theme::SolarizedDark, background).minimap_bg_color == Some(Color::Rgb(0, 43, 54)),
{
}

/// The colors the CatppuccinMocha preset draws with, for either background setting.
pub proof fn lemma_catppuccin_mocha_preset_colors(background: Background)
    ensures
        theme_palette(Theme::CatppuccinMocha, background).node_colors == seq![
            Color::Rgb(137, 180, 250),
            Color::Rgb(203, 166, 247),
            Color::Rgb(116, 199, 236),
            Color::Rgb(249, 226, 175),
            Color::Rgb(166, 227, 161),
            Color::Rgb(245, 189, 220),
            Color::Rgb(242, 205, 205),
            Color::Rgb(250, 179, 135),
        ],
        background == Background::Transparent ==> theme_palette(Theme::CatppuccinMocha, background).background_color == None::<Color>,
        background == Background::Solid ==> theme_palette(Theme::CatppuccinMocha, background).background_color == Some(Color::Rgb(30, 30, 46)),
        theme_palette(Theme::CatppuccinMocha, background).edge_color == Color::Rgb(108, 112, 134),
        theme_palette(Theme::CatppuccinMocha, background).border_color == Color::Rgb(108, 112, 134),
        theme_palette(Theme::CatppuccinMocha, background).title_color == Color::Rgb(203, 166, 247),
        theme_palette(Theme::CatppuccinMocha, background).label_color == Color::Rgb(205, 214, 244),
        theme_palette(Theme::CatppuccinMocha, background).legend_text_color == Color::Rgb(205, 214, 244),
        theme_palette(Theme::CatppuccinMocha, background).legend_border_color == Color::Rgb(108, 112, 134),
        theme_palette(Theme::CatppuccinMocha, background).selected_indicator_color == Color::Rgb(205, 214, 244),
        theme_palette(Theme::CatppuccinMocha, background).grid_color == Color::Rgb(49, 50, 68),
        theme_palette(Theme::CatppuccinMocha, background).status_bar_color == Color::Rgb(108, 112, 134),
        theme_palette(Theme::CatppuccinMocha, background).minimap_border_color == Color::Rgb(108, 112, 134),
        theme_palette(Theme::CatppuccinMocha, background).minimap_viewport_color == Color::Rgb(205, 214, 244),
        theme_palette(Theme::CatppuccinMocha, background).minimap_bg_color == Some(Color::Rgb(30, 30, 46)),
{
}

/// The colors the Onedark preset draws with, for either background setting.
pub proof fn lemma_onedark_preset_colors(background: Background)
    ensures
        theme_palette(Theme::Onedark, background).node_colors == seq![
            Color::Rgb(97, 175, 239),
            Color::Rgb(198, 120, 221),
            Color::Rgb(86, 182, 194),
            Color::Rgb(229, 192, 123),
            Color::Rgb(152, 195, 121),
            Color::Rgb(224, 108, 117),
            Color::Rgb(224, 150, 108),
            Color::Rgb(171, 178, 191),
        ],
        background == Background::Transparent ==> theme_palette(Theme::Onedark, background).background_color == None::<Color>,
        background == Background::Solid ==> theme_palette(Theme::Onedark, background).background_color == Some(Color::Rgb(40, 44, 52)),
        theme_palette(Theme::Onedark, background).edge_color == Color::Rgb(92, 99, 112),
        theme_palette(Theme::Onedark, background).border_color == Color::Rgb(92, 99, 112),
        theme_palette(Theme::Onedark, background).title_color == Color::Rgb(198, 120, 221),
        theme_palette(Theme::Onedark, background).label_color == Color::Rgb(171, 178, 191),
        theme_palette(Theme::Onedark, background).legend_text_color == Color::Rgb(171, 178, 191),
        theme_palette(Theme::Onedark, background).legend_border_color == Color::Rgb(92, 99, 112),
        theme_palette(Theme::Onedark, background).selected_indicator_color == Color::Rgb(220, 223, 228),
        theme_palette(Theme::Onedark, background).grid_color == Color::Rgb(56, 63, 76),
        theme_palette(Theme::Onedark, background).status_bar_color == Color::Rgb(92, 99, 112),
        theme_palette(Theme::Onedark, background).minimap_border_color == Color::Rgb(92, 99, 112),
        theme_palette(Theme::Onedark, background).minimap_viewport_color == Color::Rgb(220, 223, 228),
        theme_palette(Theme::Onedark, background).minimap_bg_color == Some(Color::Rgb(40, 44, 52)),
{
}

/// Distinct presets draw with distinct palettes.
pub proof fn lemma_theme_palettes_distinct(t1: Theme, t2: Theme, background: Background)
    requires
        t1 != t2,
    ensures
        theme_palette(t1, background) != theme_palette(t2, background),
{
    lemma_default_preset_colors(background);
    lemma_tokyo_night_preset_colors(background);
    lemma_gruvbox_preset_colors(background);
    lemma_dracula_preset_colors(background);
    lemma_nord_preset_colors(background);
    lemma_solarized_light_preset_colors(background);
    lemma_solarized_dark_preset_colors(background);
    lemma_catppuccin_mocha_preset_colors(background);
    lemma_onedark_preset_colors(background);
    if theme_palette(t1, background) == theme_palette(t2, background) {
        let p1 = theme_palette(t1, background);
        let p2 = theme_palette(t2, background);
        assert(p1.node_colors[0] == p2.node_colors[0]);
        assert(p1.label_color == p2.label_color);
        assert(p1.grid_color == p2.grid_color);
        assert(p1.minimap_bg_color == p2.minimap_bg_color);
        assert(p1.title_color == p2.title_color);
    }
}

} // verus!
