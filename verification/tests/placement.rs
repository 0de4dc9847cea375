use graf::config::{GrafConfig, LegendPosition};
use graf::layout::{
    compute_minimap_area, corner_box_fits, corner_rect, legend_area, longest_line_bytes, popup_area,
    popup_box_fits, status_area, status_area_fits, Rect,
};
use graf::ui::help_lines;

fn frame(width: u16, height: u16) -> Rect {
    Rect { x: 0, y: 0, width, height }
}

#[test]
fn minimap_in_each_corner() {
    let mut c = GrafConfig::default();
    let area = frame(80, 24);
    assert_eq!(compute_minimap_area(area, &c), Rect { x: 55, y: 1, width: 24, height: 12 });
    c.visual.minimap_position = LegendPosition::TopLeft;
    assert_eq!(compute_minimap_area(area, &c), Rect { x: 1, y: 1, width: 24, height: 12 });
    c.visual.minimap_position = LegendPosition::BottomLeft;
    assert_eq!(compute_minimap_area(area, &c), Rect { x: 1, y: 11, width: 24, height: 12 });
    c.visual.minimap_position = LegendPosition::BottomRight;
    assert_eq!(compute_minimap_area(area, &c), Rect { x: 55, y: 11, width: 24, height: 12 });
}

#[test]
fn minimap_in_a_small_frame() {
    let c = GrafConfig::default();
    let area = Rect { x: 5, y: 2, width: 10, height: 4 };
    assert_eq!(compute_minimap_area(area, &c), Rect { x: 5, y: 3, width: 24, height: 12 });
}

#[test]
fn rectangles_end_within_range() {
    assert_eq!(status_area(Rect { x: 65529, y: 10, width: 22, height: 1 }), Rect { x: 65530, y: 10, width: 5, height: 1 });
    assert_eq!(status_area(Rect { x: 0, y: 65534, width: 5, height: 2 }), Rect { x: 1, y: 65535, width: 3, height: 0 });
    assert_eq!(corner_rect(Rect { x: 65534, y: 0, width: 0, height: 0 }, LegendPosition::TopRight, 3, 2),
        Rect { x: 65534, y: 1, width: 1, height: 2 });
}

#[test]
fn corner_overflow_is_detected() {
    assert!(corner_box_fits(frame(80, 24), LegendPosition::TopRight, 24, 12));
    assert!(!corner_box_fits(frame(80, 24), LegendPosition::TopRight, u16::MAX, 12));
    assert!(!corner_box_fits(Rect { x: u16::MAX, y: 0, width: 1, height: 1 }, LegendPosition::TopLeft, 1, 1));
    assert!(corner_box_fits(frame(80, 24), LegendPosition::TopLeft, u16::MAX, u16::MAX));
}

#[test]
fn legend_is_sized_to_its_entries() {
    let labels = vec!["alpha".to_string(), "be".to_string(), "ß".to_string()];
    assert_eq!(longest_line_bytes(&labels), 5);
    assert_eq!(legend_area(frame(80, 24), LegendPosition::TopRight, &labels, 10), Rect { x: 70, y: 1, width: 9, height: 5 });
    assert_eq!(legend_area(frame(80, 24), LegendPosition::BottomLeft, &labels, 2), Rect { x: 1, y: 19, width: 9, height: 4 });
}

#[test]
fn popups_are_centered() {
    let lines = help_lines();
    assert!(popup_box_fits(&lines));
    assert_eq!(longest_line_bytes(&lines), 30);
    assert_eq!(popup_area(frame(80, 24), &lines), Rect { x: 23, y: 4, width: 34, height: 16 });
    assert_eq!(popup_area(frame(20, 10), &lines), Rect { x: 0, y: 0, width: 20, height: 10 });
}

#[test]
fn status_bar_sits_on_the_bottom_row() {
    let area = Rect { x: 0, y: 0, width: 80, height: 24 };
    assert!(status_area_fits(area));
    assert_eq!(status_area(area), Rect { x: 1, y: 23, width: 78, height: 1 });
    let small = Rect { x: 5, y: 2, width: 1, height: 0 };
    assert!(status_area_fits(small));
    assert_eq!(status_area(small), Rect { x: 6, y: 2, width: 0, height: 1 });
    assert!(!status_area_fits(Rect { x: u16::MAX, y: 0, width: 3, height: 3 }));
    assert!(!status_area_fits(Rect { x: 0, y: u16::MAX, width: 3, height: 3 }));
    // Placed near the end of the coordinate range, the bar is cut to fit.
    let edge = Rect { x: u16::MAX - 3, y: 0, width: 10, height: 1 };
    assert_eq!(status_area(edge), Rect { x: u16::MAX - 2, y: 0, width: 2, height: 1 });
}

#[test]
fn default_minimap_in_a_large_frame() {
    let mut c = GrafConfig::default();
    let area = Rect { x: 0, y: 0, width: 100, height: 40 };
    assert_eq!(compute_minimap_area(area, &c), Rect { x: 75, y: 1, width: 24, height: 12 });
    c.visual.minimap_position = LegendPosition::BottomLeft;
    assert_eq!(compute_minimap_area(area, &c), Rect { x: 1, y: 27, width: 24, height: 12 });
}
