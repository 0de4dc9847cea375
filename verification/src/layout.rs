//! Placement of the overlays (minimap, legend, popups) on the terminal frame.
use vstd::prelude::*;
use vstd::string::StringSliceAdditionalSpecFns;
use vstd::utf8::*;

use crate::config::{GrafConfig, LegendPosition};

verus! {

/// A rectangle of terminal cells.
#[derive(Clone, Copy, Debug, PartialEq, Eq, Structural)]
pub struct Rect {
    pub x: u16,
    pub y: u16,
    pub width: u16,
    pub height: u16,
}

/// `a - b`, or zero when `b` is the larger (`u16::saturating_sub`).
pub open spec fn sat_sub(a: int, b: int) -> int {
    if a > b {
        a - b
    } else {
        0
    }
}

pub open spec fn min_int(a: int, b: int) -> int {
    if a < b {
        a
    } else {
        b
    }
}

/// A rectangle at `(x, y)` whose size is cut so that it ends within the
/// coordinate range.
pub open spec fn clipped_rect(x: u16, y: u16, width: u16, height: u16) -> Rect {
    Rect {
        x,
        y,
        width: min_int(width as int, u16::MAX - x) as u16,
        height: min_int(height as int, u16::MAX - y) as u16,
    }
}

/// A rectangle at `(x, y)` of the given size, cut so that it ends at or
/// before the largest coordinate (as `ratatui::layout::Rect::new` builds it).
pub fn rect_new(x: u16, y: u16, width: u16, height: u16) -> (r: Rect)
    ensures
        r == clipped_rect(x, y, width, height),
{
    let room_x = u16::MAX - x;
    let room_y = u16::MAX - y;
    Rect {
        x,
        y,
        width: if width < room_x {
            width
        } else {
            room_x
        },
        height: if height < room_y {
            height
        } else {
            room_y
        },
    }
}

/// The top-left cell of a `w` by `h` box put one cell inside the given
/// corner of `area`.
pub open spec fn corner_origin(area: Rect, pos: LegendPosition, w: u16, h: u16) -> (int, int) {
    let left = area.x + 1;
    let right = area.x + sat_sub(area.width as int, w + 1);
    let top = area.y + 1;
    let bottom = area.y + sat_sub(area.height as int, h + 1);
    match pos {
        LegendPosition::TopLeft => (left, top),
        LegendPosition::TopRight => (right, top),
        LegendPosition::BottomLeft => (left, bottom),
        LegendPosition::BottomRight => (right, bottom),
    }
}

/// Placing a `w` by `h` box in a corner of `area` stays within the range of
/// cell coordinates at every step.
pub open spec fn corner_fits(area: Rect, pos: LegendPosition, w: u16, h: u16) -> bool {
    let right_side = pos == LegendPosition::TopRight || pos == LegendPosition::BottomRight;
    let bottom_side = pos == LegendPosition::BottomLeft || pos == LegendPosition::BottomRight;
    &&& (right_side ==> w + 1 <= u16::MAX)
    &&& (bottom_side ==> h + 1 <= u16::MAX)
    &&& corner_origin(area, pos, w, h).0 <= u16::MAX
    &&& corner_origin(area, pos, w, h).1 <= u16::MAX
}

/// A `w` by `h` box placed in a corner of `area`.
pub open spec fn corner_box(area: Rect, pos: LegendPosition, w: u16, h: u16) -> Rect {
    clipped_rect(
        corner_origin(area, pos, w, h).0 as u16,
        corner_origin(area, pos, w, h).1 as u16,
        w,
        h,
    )
}

/// Whether a `w` by `h` box can be placed in the given corner of `area`.
pub fn corner_box_fits(area: Rect, pos: LegendPosition, w: u16, h: u16) -> (r: bool)
    ensures
        r == corner_fits(area, pos, w, h),
{
    let right_side = pos == LegendPosition::TopRight || pos == LegendPosition::BottomRight;
    let bottom_side = pos == LegendPosition::BottomLeft || pos == LegendPosition::BottomRight;
    if right_side && w == u16::MAX {
        return false;
    }
    if bottom_side && h == u16::MAX {
        return false;
    }
    let x: u32 = if right_side {
        area.x as u32 + area.width.saturating_sub(w + 1) as u32
    } else {
        area.x as u32 + 1
    };
    let y: u32 = if bottom_side {
        area.y as u32 + area.height.saturating_sub(h + 1) as u32
    } else {
        area.y as u32 + 1
    };
    x <= u16::MAX as u32 && y <= u16::MAX as u32
}

/// A `w` by `h` box in the given corner of `area`, one cell in from its
/// edges.
pub fn corner_rect(area: Rect, pos: LegendPosition, w: u16, h: u16) -> (r: Rect)
    requires
        corner_fits(area, pos, w, h),
    ensures
        r == corner_box(area, pos, w, h),
{
    let (x, y) = match pos {
        LegendPosition::TopLeft => (area.x + 1, area.y + 1),
        LegendPosition::TopRight => (area.x + area.width.saturating_sub(w + 1), area.y + 1),
        LegendPosition::BottomLeft => (area.x + 1, area.y + area.height.saturating_sub(h + 1)),
        LegendPosition::BottomRight => (
            area.x + area.width.saturating_sub(w + 1),
            area.y + area.height.saturating_sub(h + 1),
        ),
    };
    rect_new(x, y, w, h)
}

/// Where the minimap goes: its configured size, in its configured corner.
pub fn compute_minimap_area(frame_area: Rect, config: &GrafConfig) -> (r: Rect)
    requires
        corner_fits(
            frame_area,
            config.visual.minimap_position,
            config.visual.minimap_width,
            config.visual.minimap_height,
        ),
    ensures
        r == corner_box(
            frame_area,
            config.visual.minimap_position,
            config.visual.minimap_width,
            config.visual.minimap_height,
        ),
{
    corner_rect(
        frame_area,
        config.visual.minimap_position,
        config.visual.minimap_width,
        config.visual.minimap_height,
    )
}

/// The status bar: the frame's bottom row, one cell in from each side.
pub open spec fn status_box(area: Rect) -> Rect {
    clipped_rect(
        (area.x + 1) as u16,
        (area.y + sat_sub(area.height as int, 1)) as u16,
        sat_sub(area.width as int, 2) as u16,
        1,
    )
}

/// Placing the status bar stays within the range of cell coordinates.
pub open spec fn status_fits(area: Rect) -> bool {
    &&& area.x + 1 <= u16::MAX
    &&& area.y + sat_sub(area.height as int, 1) <= u16::MAX
}

/// Whether the status bar can be placed in `area`.
pub fn status_area_fits(area: Rect) -> (r: bool)
    ensures
        r == status_fits(area),
{
    area.x < u16::MAX && (area.y as u32) + (area.height.saturating_sub(1) as u32) <= u16::MAX as u32
}

/// Where the status bar goes: the bottom row of `area`, one cell in from
/// each side.
pub fn status_area(area: Rect) -> (r: Rect)
    requires
        status_fits(area),
    ensures
        r == status_box(area),
{
    rect_new(area.x + 1, area.y + area.height.saturating_sub(1), area.width.saturating_sub(2), 1)
}

/// The length of a text in bytes, as `str::len` gives it.
pub open spec fn byte_len(s: Seq<char>) -> nat {
    (encode_utf8(s).len() as usize) as nat
}

/// The number of bytes of the longest of the given lines.
pub open spec fn max_byte_len(lines: Seq<Seq<char>>) -> nat
    decreases lines.len(),
{
    if lines.len() == 0 {
        0
    } else {
        let rest = max_byte_len(lines.drop_last());
        let here = byte_len(lines.last());
        if here > rest {
            here
        } else {
            rest
        }
    }
}

/// The number of bytes of the longest of the given lines.
pub fn longest_line_bytes(lines: &Vec<String>) -> (r: usize)
    ensures
        r == max_byte_len(lines@.map_values(|l: String| l@)),
{
    let ghost ls = lines@.map_values(|l: String| l@);
    let mut best: usize = 0;
    let mut i: usize = 0;
    while i < lines.len()
        invariant
            i <= lines.len(),
            ls == lines@.map_values(|l: String| l@),
            best == max_byte_len(ls.take(i as int)),
        decreases lines.len() - i,
    {
        let line = lines[i].as_str();
        let n = line.len();
        assert(n == byte_len(ls[i as int]));
        assert(ls.take(i + 1).drop_last() =~= ls.take(i as int));
        assert(ls.take(i + 1).last() == lines@[i as int]@);
        if n > best {
            best = n;
        }
        i = i + 1;
    }
    assert(ls.take(i as int) =~= ls);
    best
}

/// The size of a legend box: as wide as its longest label plus the color
/// dot and borders, and one row per entry (at most `max_items`) plus borders.
pub open spec fn legend_size(labels: Seq<Seq<char>>, max_items: usize) -> (u16, u16) {
    let w = (max_byte_len(labels) + 4) as u16;
    let n = labels.len() as u16;
    let m = max_items as u16;
    let rows = if n < m {
        n
    } else {
        m
    };
    (w, (rows + 2) as u16)
}

/// The legend can be sized and placed without leaving the range of the
/// integer types involved.
pub open spec fn legend_fits(area: Rect, pos: LegendPosition, labels: Seq<Seq<char>>, max_items: usize) -> bool {
    let n = labels.len() as u16;
    let m = max_items as u16;
    let rows = if n < m {
        n
    } else {
        m
    };
    &&& max_byte_len(labels) + 4 <= usize::MAX
    &&& rows + 2 <= u16::MAX
    &&& corner_fits(area, pos, legend_size(labels, max_items).0, legend_size(labels, max_items).1)
}

/// Whether the legend for the given labels can be sized and placed.
pub fn legend_area_fits(area: Rect, pos: LegendPosition, labels: &Vec<String>, max_items: usize) -> (r: bool)
    ensures
        r == legend_fits(area, pos, labels@.map_values(|l: String| l@), max_items),
{
    let max_len = longest_line_bytes(labels);
    if max_len > usize::MAX - 4 {
        return false;
    }
    let n = labels.len() as u16;
    let m = max_items as u16;
    let rows = if n < m {
        n
    } else {
        m
    };
    if rows > u16::MAX - 2 {
        return false;
    }
    corner_box_fits(area, pos, (max_len + 4) as u16, rows + 2)
}

/// Where the legend goes: sized to its entries, in the configured corner.
pub fn legend_area(area: Rect, pos: LegendPosition, labels: &Vec<String>, max_items: usize) -> (r: Rect)
    requires
        legend_fits(area, pos, labels@.map_values(|l: String| l@), max_items),
    ensures
        ({
            let size = legend_size(labels@.map_values(|l: String| l@), max_items);
            r == corner_box(area, pos, size.0, size.1)
        }),
{
    let max_len = longest_line_bytes(labels);
    let legend_width = (max_len + 4) as u16;
    let n = labels.len() as u16;
    let m = max_items as u16;
    let rows = if n < m {
        n
    } else {
        m
    };
    let legend_height = rows + 2;
    corner_rect(area, pos, legend_width, legend_height)
}

/// A popup for the given lines, centered in a frame of the size of `area`:
/// as wide as the longest line plus borders and padding, one row per line
/// plus borders, each cut to the frame.
pub open spec fn popup_box(area: Rect, lines: Seq<Seq<char>>) -> Rect {
    let max_width = max_byte_len(lines) + 4;
    let height = (lines.len() as u16) + 2;
    Rect {
        x: (sat_sub(area.width as int, (max_width as usize) as u16 as int) / 2) as u16,
        y: (sat_sub(area.height as int, height) / 2) as u16,
        width: min_int(max_width as int, area.width as int) as u16,
        height: min_int(height, area.height as int) as u16,
    }
}

/// The popup for the given lines stays within the range of the integer
/// types involved.
pub open spec fn popup_fits(lines: Seq<Seq<char>>) -> bool {
    &&& max_byte_len(lines) + 4 <= usize::MAX
    &&& (lines.len() as u16) + 2 <= u16::MAX
}

/// Whether a popup for the given lines can be sized.
pub fn popup_box_fits(lines: &Vec<String>) -> (r: bool)
    ensures
        r == popup_fits(lines@.map_values(|l: String| l@)),
{
    let max_len = longest_line_bytes(lines);
    max_len <= usize::MAX - 4 && (lines.len() as u16) <= u16::MAX - 2
}

/// The area of a popup showing the given lines, centered in `area`'s size.
pub fn popup_area(area: Rect, lines: &Vec<String>) -> (r: Rect)
    requires
        popup_fits(lines@.map_values(|l: String| l@)),
    ensures
        r == popup_box(area, lines@.map_values(|l: String| l@)),
{
    let max_width = longest_line_bytes(lines) + 4;
    let height = lines.len() as u16 + 2;
    let width = if max_width < area.width as usize {
        max_width
    } else {
        area.width as usize
    };
    Rect {
        x: area.width.saturating_sub(max_width as u16) / 2,
        y: area.height.saturating_sub(height) / 2,
        width: width as u16,
        height: if height < area.height {
            height
        } else {
            area.height
        },
    }
}

/// A box that fits in a frame, with a cell to spare on each side, lies
/// inside the frame, one cell in from the edges of its corner, at its full
/// size.
pub proof fn lemma_corner_box_inside(area: Rect, pos: LegendPosition, w: u16, h: u16)
    requires
        w + 2 <= area.width,
        h + 2 <= area.height,
        area.x + area.width <= u16::MAX,
        area.y + area.height <= u16::MAX,
    ensures
        corner_fits(area, pos, w, h),
        ({
            let r = corner_box(area, pos, w, h);
            &&& r.width == w
            &&& r.height == h
            &&& area.x + 1 <= r.x
            &&& r.x + r.width + 1 <= area.x + area.width
            &&& area.y + 1 <= r.y
            &&& r.y + r.height + 1 <= area.y + area.height
        }),
{
}

/// A popup narrower and shorter than the frame lies within the frame's size,
/// centered, at its full size.
pub proof fn lemma_popup_centered(area: Rect, lines: Seq<Seq<char>>)
    requires
        max_byte_len(lines) + 4 <= area.width,
        lines.len() + 2 <= area.height,
    ensures
        popup_fits(lines),
        ({
            let r = popup_box(area, lines);
            &&& r.width == max_byte_len(lines) + 4
            &&& r.height == lines.len() + 2
            &&& r.x == (area.width - r.width) / 2
            &&& r.y == (area.height - r.height) / 2
            &&& r.x + r.width <= area.width
            &&& r.y + r.height <= area.height
        }),
{
    let mw = max_byte_len(lines) + 4;
    assert((mw as usize) as u16 == mw);
    assert((lines.len() as u16) == lines.len());
}

/// The status bar is one row on the bottom row of the area, one cell in
/// from its left edge and two cells narrower, when the area lies within the
/// coordinate range.
pub proof fn lemma_status_bar_on_bottom_row(area: Rect)
    requires
        area.height >= 1,
        area.width >= 2,
        area.x + area.width <= u16::MAX,
        area.y + area.height <= u16::MAX,
    ensures
        status_fits(area),
        ({
            let r = status_box(area);
            &&& r.x == area.x + 1
            &&& r.y == area.y + area.height - 1
            &&& r.width == area.width - 2
            &&& r.height == 1
        }),
{
}

} // verus!
