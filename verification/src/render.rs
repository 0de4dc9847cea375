//! The choices made when drawing the graph: which color a tag gets, which
//! color an edge gets, which labels show, and which overlays are on.
use vstd::prelude::*;

use crate::color::Color;
use crate::config::{EdgeColorMode, LabelMode, NodeColorMode};
use crate::text::{chars_of, string_of};

verus! {

/// Which overlays are drawn over the graph.
#[derive(Clone, Copy, Debug, PartialEq, Eq, Structural)]
pub struct FeatureFlags {
    pub show_legend: bool,
    pub show_grid: bool,
    pub show_minimap: bool,
    pub show_status_bar: bool,
}

/// The number of hues the tag colors are drawn from: the fully saturated
/// colors at half lightness (HSL with saturation 100% and lightness 50%)
/// that 8-bit channels can show, 255 per sixth of the hue circle.
pub const HUE_STEPS: usize = 1530;

/// The golden-ratio step between the hues of consecutive tags: 947 of the
/// 1530 steps, the nearest step to 1530 / 1.618... that leaves no hue out.
pub const GOLDEN_STEP: usize = 947;

/// The color at position `h` (0 to 1529) of the hue circle, red at 0,
/// going through yellow, green, cyan, blue and magenta.
pub open spec fn wheel_color(h: int) -> Color {
    let t = (h % 255) as u8;
    let seg = h / 255;
    if seg == 0 {
        Color::Rgb(255, t, 0)
    } else if seg == 1 {
        Color::Rgb((255 - t) as u8, 255, 0)
    } else if seg == 2 {
        Color::Rgb(0, 255, t)
    } else if seg == 3 {
        Color::Rgb(0, (255 - t) as u8, 255)
    } else if seg == 4 {
        Color::Rgb(t, 0, 255)
    } else {
        Color::Rgb(255, 0, (255 - t) as u8)
    }
}

/// The position on the hue circle of a color of the circle.
spec fn wheel_position(c: Color) -> int {
    match c {
        Color::Rgb(r, g, b) => if r == 255 && b == 0 && g < 255 {
            g as int
        } else if g == 255 && b == 0 {
            255 + (255 - r)
        } else if r == 0 && g == 255 {
            510 + b
        } else if r == 0 && b == 255 {
            765 + (255 - g)
        } else if g == 0 && b == 255 {
            1020 + r
        } else {
            1275 + (255 - b)
        },
        _ => 0,
    }
}

/// The hue position of the tag at `index` in sorted order: the index times
/// the golden-ratio step, around the circle.
pub open spec fn tag_hue(index: int) -> int {
    ((index % 1530) * 947) % 1530
}

/// The color of the tag at `index` in sorted order.
pub open spec fn tag_color_of(index: int) -> Color {
    wheel_color(tag_hue(index))
}

/// The color of a tag: a hue of the full circle, each tag in sorted order
/// turning the hue by the golden-ratio step, so that consecutive tags get
/// far-apart hues and no two of the first 1530 tags share a color.
pub fn tag_color(index: usize) -> (r: Color)
    ensures
        r == tag_color_of(index as int),
{
    let h = ((index % HUE_STEPS) * GOLDEN_STEP) % HUE_STEPS;
    let t = (h % 255) as u8;
    let seg = h / 255;
    if seg == 0 {
        Color::Rgb(255, t, 0)
    } else if seg == 1 {
        Color::Rgb(255 - t, 255, 0)
    } else if seg == 2 {
        Color::Rgb(0, 255, t)
    } else if seg == 3 {
        Color::Rgb(0, 255 - t, 255)
    } else if seg == 4 {
        Color::Rgb(t, 0, 255)
    } else {
        Color::Rgb(255, 0, 255 - t)
    }
}

/// A position on the hue circle reads back from its color.
proof fn lemma_wheel_position(h: int)
    requires
        0 <= h < 1530,
    ensures
        wheel_position(wheel_color(h)) == h,
{
    let t = h % 255;
    let seg = h / 255;
    vstd::arithmetic::div_mod::lemma_fundamental_div_mod(h, 255);
    assert(0 <= t < 255);
    assert(0 <= seg < 6);
    assert(((t as u8) as int) == t);
}

/// Undoing the golden step: 947 times 1013 leaves one past a multiple of
/// 1530, so the hue of the tag at `x` gives back `x`.
proof fn lemma_tag_hue_inverse(x: int)
    requires
        0 <= x < 1530,
    ensures
        (tag_hue(x) * 1013) % 1530 == x,
{
    vstd::arithmetic::div_mod::lemma_small_mod(x as nat, 1530);
    vstd::arithmetic::div_mod::lemma_mul_mod_noop_left(x * 947, 1013, 1530);
    assert(x * 947 * 1013 == 1530 * (627 * x) + x) by (nonlinear_arith);
    vstd::arithmetic::div_mod::lemma_mod_multiples_vanish(627 * x, x, 1530);
}

/// The entries of the legend: the first `max_items` of the sorted names,
/// each with the color of its tag position.
pub fn legend_entries(sorted: &Vec<String>, max_items: usize) -> (r: Vec<(String, Color)>)
    ensures
        r.len() == if sorted.len() < max_items {
            sorted.len()
        } else {
            max_items
        },
        forall|k: int|
            0 <= k < r.len() ==> (#[trigger] r@[k]).0@ == sorted@[k]@ && r@[k].1 == tag_color_of(k),
{
    let n = if sorted.len() < max_items {
        sorted.len()
    } else {
        max_items
    };
    let mut r: Vec<(String, Color)> = Vec::new();
    let mut k: usize = 0;
    while k < n
        invariant
            n <= sorted.len(),
            k <= n,
            r.len() == k,
            forall|q: int| 0 <= q < k ==> (#[trigger] r@[q]).0@ == sorted@[q]@ && r@[q].1 == tag_color_of(q),
        decreases n - k,
    {
        r.push((sorted[k].clone(), tag_color(k)));
        k = k + 1;
    }
    r
}

/// The names the legend lists: the folders when nodes are colored by
/// folder, the tags otherwise.
pub open spec fn legend_names(mode: NodeColorMode, tags: Seq<String>, folders: Seq<String>) -> Seq<String> {
    if mode == NodeColorMode::Folder {
        folders
    } else {
        tags
    }
}

/// The rows of the legend, if one is drawn: none when the legend is off or
/// there is nothing to list; otherwise the first `max_items` of the sorted
/// folder names (when nodes are colored by folder) or tag names, each with
/// the color of its position.
pub fn legend_rows(
    show_legend: bool,
    mode: NodeColorMode,
    tags: &Vec<String>,
    folders: &Vec<String>,
    max_items: usize,
) -> (r: Option<Vec<(String, Color)>>)
    ensures
        ({
            let names = legend_names(mode, tags@, folders@);
            match r {
                None => !show_legend || names.len() == 0,
                Some(rows) => {
                    &&& show_legend
                    &&& names.len() > 0
                    &&& rows.len() == if names.len() < max_items {
                        names.len() as int
                    } else {
                        max_items as int
                    }
                    &&& forall|k: int|
                        0 <= k < rows.len() ==> (#[trigger] rows[k]).0@ == names[k]@ && rows[k].1
                            == tag_color_of(k)
                },
            }
        }),
{
    if !show_legend {
        return None;
    }
    let names = if mode == NodeColorMode::Folder {
        folders
    } else {
        tags
    };
    if names.len() == 0 {
        return None;
    }
    Some(legend_entries(names, max_items))
}

/// The color of an edge as the mode says.
pub open spec fn edge_color_of(
    mode: EdgeColorMode,
    source: Option<Color>,
    target: Option<Color>,
    default_color: Color,
) -> Color {
    match mode {
        EdgeColorMode::Source => match source {
            Some(c) => c,
            None => default_color,
        },
        EdgeColorMode::Target => match target {
            Some(c) => c,
            None => default_color,
        },
        EdgeColorMode::Uniform => default_color,
    }
}

/// The color of an edge: its source's or its target's color, or the theme's
/// edge color, as the mode says; the theme's edge color also stands in for an
/// end without a color.
pub fn edge_color(
    mode: EdgeColorMode,
    source: Option<Color>,
    target: Option<Color>,
    default_color: Color,
) -> (r: Color)
    ensures
        r == edge_color_of(mode, source, target, default_color),
{
    match mode {
        EdgeColorMode::Source => match source {
            Some(c) => c,
            None => default_color,
        },
        EdgeColorMode::Target => match target {
            Some(c) => c,
            None => default_color,
        },
        EdgeColorMode::Uniform => default_color,
    }
}

/// The color a node is drawn in, as the mode says: its first tag's color,
/// its folder's color, the color for its number of links, or the palette's
/// first color; gray when the chosen one is missing.
pub open spec fn node_color_of(
    mode: NodeColorMode,
    first_tag_color: Option<Color>,
    folder_color: Option<Color>,
    link_count_color: Color,
    palette: Seq<Color>,
) -> Color {
    match mode {
        NodeColorMode::Tag => match first_tag_color {
            Some(c) => c,
            None => Color::Gray,
        },
        NodeColorMode::Folder => match folder_color {
            Some(c) => c,
            None => Color::Gray,
        },
        NodeColorMode::LinkCount => link_count_color,
        NodeColorMode::Uniform => if palette.len() > 0 {
            palette[0]
        } else {
            Color::Gray
        },
    }
}

/// The color a node is drawn in. `first_tag_color` is the color of the
/// node's first tag, if it has one; `folder_color` that of its folder;
/// `link_count_color` the color for its number of links.
pub fn node_color(
    mode: NodeColorMode,
    first_tag_color: Option<Color>,
    folder_color: Option<Color>,
    link_count_color: Color,
    palette: &[Color],
) -> (r: Color)
    ensures
        r == node_color_of(mode, first_tag_color, folder_color, link_count_color, palette@),
{
    match mode {
        NodeColorMode::Tag => match first_tag_color {
            Some(c) => c,
            None => Color::Gray,
        },
        NodeColorMode::Folder => match folder_color {
            Some(c) => c,
            None => Color::Gray,
        },
        NodeColorMode::LinkCount => link_count_color,
        NodeColorMode::Uniform => if palette.len() > 0 {
            palette[0]
        } else {
            Color::Gray
        },
    }
}

/// A label cut to `max_len` characters: kept whole when it fits, else its
/// first `max_len - 1` characters and an ellipsis.
pub open spec fn label_text(s: Seq<char>, max_len: nat) -> Seq<char> {
    if s.len() <= max_len {
        s
    } else if max_len == 0 {
        seq!['\u{2026}']
    } else {
        s.take(max_len - 1).push('\u{2026}')
    }
}

/// A node's title cut to `max_len` characters for its label, the last kept
/// character giving way to an ellipsis when the title is longer.
pub fn truncate_label(s: &str, max_len: usize) -> (r: String)
    ensures
        r@ == label_text(s@, max_len as nat),
        max_len > 0 ==> r@.len() <= max_len,
        r@.len() <= s@.len(),
{
    let c = chars_of(s);
    if c.len() <= max_len {
        return string_of(c.as_slice());
    }
    let keep: usize = if max_len == 0 { 0 } else { max_len - 1 };
    let mut out: Vec<char> = Vec::new();
    let mut k: usize = 0;
    while k < keep
        invariant
            keep < c.len(),
            k <= keep,
            out@ == c@.take(k as int),
        decreases keep - k,
    {
        out.push(c[k]);
        k = k + 1;
        assert(out@ =~= c@.take(k as int));
    }
    out.push('\u{2026}');
    string_of(out.as_slice())
}

/// Whether a node's label shows: only the selected node's, the selected
/// node's and its neighbors', every label, or none, as the mode says.
/// `adjacent` tells whether an edge joins the node to the selected node.
pub open spec fn label_shown(mode: LabelMode, selected: Option<usize>, node: usize, adjacent: bool) -> bool {
    match mode {
        LabelMode::Selected => selected == Some(node),
        LabelMode::Neighbors => selected == Some(node) || (selected is Some && adjacent),
        LabelMode::All => true,
        LabelMode::NoLabels => false,
    }
}

/// Whether a node's label is drawn.
pub fn label_visible(mode: LabelMode, selected: Option<usize>, node: usize, adjacent: bool) -> (r: bool)
    ensures
        r == label_shown(mode, selected, node, adjacent),
{
    let is_selected = match selected {
        Some(s) => s == node,
        None => false,
    };
    match mode {
        LabelMode::Selected => is_selected,
        LabelMode::Neighbors => is_selected || (selected.is_some() && adjacent),
        LabelMode::All => true,
        LabelMode::NoLabels => false,
    }
}

/// No two tags share a color: tags at different positions among the first
/// 1530 in sorted order get different colors.
pub proof fn lemma_tag_colors_distinct(i: int, j: int)
    requires
        0 <= i < 1530,
        0 <= j < 1530,
        i != j,
    ensures
        tag_color_of(i) != tag_color_of(j),
{
    vstd::arithmetic::div_mod::lemma_mod_bound(i * 947, 1530);
    vstd::arithmetic::div_mod::lemma_mod_bound(j * 947, 1530);
    vstd::arithmetic::div_mod::lemma_small_mod(i as nat, 1530);
    vstd::arithmetic::div_mod::lemma_small_mod(j as nat, 1530);
    lemma_wheel_position(tag_hue(i));
    lemma_wheel_position(tag_hue(j));
    lemma_tag_hue_inverse(i);
    lemma_tag_hue_inverse(j);
}

/// Every tag color is a fully saturated color of half lightness: one channel
/// at 255, one at 0.
pub proof fn lemma_tag_colors_on_the_hue_circle(index: int)
    requires
        0 <= index,
    ensures
        tag_color_of(index) matches Color::Rgb(r, g, b) && (r == 255 || g == 255 || b == 255) && (r == 0 || g
            == 0 || b == 0),
{
}

/// The selected node's label shows unless labels are off, and no label shows
/// when they are.
pub proof fn lemma_selected_label_shown(mode: LabelMode, node: usize, other: usize, adjacent: bool)
    ensures
        mode != LabelMode::NoLabels ==> label_shown(mode, Some(node), node, adjacent),
        mode == LabelMode::NoLabels ==> !label_shown(mode, Some(node), other, adjacent),
{
}

/// Which labels show under each mode: every label in `all`, none in
/// `none`, only the selected node's in `selected`, and in `neighbors` the
/// selected node's and those of the nodes an edge joins to it. What is
/// selected never hides a label in `all`.
pub proof fn lemma_label_modes(selected: Option<usize>, node: usize, adjacent: bool)
    ensures
        label_shown(LabelMode::All, selected, node, adjacent),
        !label_shown(LabelMode::NoLabels, selected, node, adjacent),
        label_shown(LabelMode::Selected, selected, node, adjacent) <==> selected == Some(node),
        label_shown(LabelMode::Neighbors, selected, node, adjacent) <==> (selected == Some(node) || (selected
            is Some && adjacent)),
        label_shown(LabelMode::Selected, selected, node, adjacent) ==> label_shown(
            LabelMode::Neighbors,
            selected,
            node,
            adjacent,
        ),
{
}

/// Edge colors: an edge takes its source's color or its target's, as the
/// mode says, and the theme's edge color when that end has none or the mode
/// is uniform.
pub proof fn lemma_edge_colors(source: Option<Color>, target: Option<Color>, default_color: Color, c: Color)
    ensures
        source == Some(c) ==> edge_color_of(EdgeColorMode::Source, source, target, default_color) == c,
        target == Some(c) ==> edge_color_of(EdgeColorMode::Target, source, target, default_color) == c,
        source is None ==> edge_color_of(EdgeColorMode::Source, source, target, default_color) == default_color,
        target is None ==> edge_color_of(EdgeColorMode::Target, source, target, default_color) == default_color,
        edge_color_of(EdgeColorMode::Uniform, source, target, default_color) == default_color,
{
}

/// Node colors: a node takes its first tag's color in tag mode, its
/// folder's in folder mode, the link-count color in link-count mode and the
/// palette's first color in uniform mode; gray stands in when the chosen one
/// is missing.
pub proof fn lemma_node_colors(
    tag_color: Option<Color>,
    folder_color: Option<Color>,
    count_color: Color,
    palette: Seq<Color>,
    c: Color,
)
    ensures
        tag_color == Some(c) ==> node_color_of(NodeColorMode::Tag, tag_color, folder_color, count_color, palette) == c,
        tag_color is None ==> node_color_of(NodeColorMode::Tag, tag_color, folder_color, count_color, palette)
            == Color::Gray,
        folder_color == Some(c) ==> node_color_of(NodeColorMode::Folder, tag_color, folder_color, count_color, palette)
            == c,
        folder_color is None ==> node_color_of(NodeColorMode::Folder, tag_color, folder_color, count_color, palette)
            == Color::Gray,
        node_color_of(NodeColorMode::LinkCount, tag_color, folder_color, count_color, palette) == count_color,
        palette.len() > 0 ==> node_color_of(NodeColorMode::Uniform, tag_color, folder_color, count_color, palette)
            == palette[0],
        palette.len() == 0 ==> node_color_of(NodeColorMode::Uniform, tag_color, folder_color, count_color, palette)
            == Color::Gray,
{
}

/// A label is the whole title when it fits; otherwise exactly `max_len`
/// characters: the title's first `max_len - 1` and an ellipsis.
pub proof fn lemma_label_cut(s: Seq<char>, max_len: nat)
    ensures
        s.len() <= max_len ==> label_text(s, max_len) == s,
        s.len() > max_len && max_len > 0 ==> {
            let l = label_text(s, max_len);
            &&& l.len() == max_len
            &&& l.last() == '\u{2026}'
            &&& forall|k: int| 0 <= k < max_len - 1 ==> #[trigger] l[k] == s[k]
        },
{
}

} // verus!
