use griddy::grid::layout::{layer_rect, LayerGeometry, ANCHOR_BOTTOM, ANCHOR_LEFT, ANCHOR_RIGHT, ANCHOR_TOP};
use griddy::grid::layout::{fullscreen_rect, minimap_cell_rect, overview_thumbnail_rect, slot_rect, total_fullscreen_rect};
use griddy::grid::window::Slot;

const W: i32 = 1920;
const H: i32 = 1080;
const INNER: i32 = 8;
const OUTER: i32 = 12;

#[test]
fn smart_gaps_half_left_fills_screen() {
    let r = slot_rect(Slot::HalfLeft, W, H, INNER, OUTER, true);
    assert_eq!(r.x, 0);
    assert_eq!(r.y, 0);
    assert_eq!(r.w, W / 2);
    assert_eq!(r.h, H);
}

#[test]
fn half_left_plus_half_right_covers_usable_width() {
    let left = slot_rect(Slot::HalfLeft, W, H, INNER, OUTER, false);
    let right = slot_rect(Slot::HalfRight, W, H, INNER, OUTER, false);
    let usable_w = W - 2 * OUTER;
    assert_eq!(left.w + right.w + INNER, usable_w);
}

#[test]
fn quarter_tl_tr_share_top_row() {
    let tl = slot_rect(Slot::QuarterTL, W, H, INNER, OUTER, false);
    let tr = slot_rect(Slot::QuarterTR, W, H, INNER, OUTER, false);
    assert_eq!(tl.y, tr.y);
    assert_eq!(tl.h, tr.h);
}

#[test]
fn quarter_tl_bl_share_left_col() {
    let tl = slot_rect(Slot::QuarterTL, W, H, INNER, OUTER, false);
    let bl = slot_rect(Slot::QuarterBL, W, H, INNER, OUTER, false);
    assert_eq!(tl.x, bl.x);
    assert_eq!(tl.w, bl.w);
}

#[test]
fn total_fullscreen_is_whole_output() {
    let r = total_fullscreen_rect(W, H);
    assert_eq!((r.x, r.y, r.w, r.h), (0, 0, W, H));
}

#[test]
fn fullscreen_respects_outer_gap() {
    let r = fullscreen_rect(W, H, OUTER);
    assert_eq!(r.x, OUTER);
    assert_eq!(r.y, OUTER);
    assert_eq!(r.w, W - 2 * OUTER);
    assert_eq!(r.h, H - 2 * OUTER);
}

#[test]
fn overview_thumbnail_grid_2x2_origin() {
    let r = overview_thumbnail_rect(0, 0, 2, 2, W, H, 16, 32);
    assert_eq!(r.x, 32);
    assert_eq!(r.y, 32);
}

#[test]
fn overview_thumbnail_col1_offset() {
    let r0 = overview_thumbnail_rect(0, 0, 2, 2, W, H, 16, 32);
    let r1 = overview_thumbnail_rect(1, 0, 2, 2, W, H, 16, 32);
    assert_eq!(r1.x, r0.x + r0.w + 16);
}

#[test]
fn minimap_cell_position() {
    let r = minimap_cell_rect(1, 2, 14, 3, 100, 200);
    assert_eq!(r.x, 100 + 1 * (14 + 3));
    assert_eq!(r.y, 200 + 2 * (14 + 3));
    assert_eq!(r.w, 14);
    assert_eq!(r.h, 14);
}

// The two halves split the usable width exactly, on a width that does not
// halve evenly.
#[test]
fn halves_span_odd_width() {
    let left = slot_rect(Slot::HalfLeft, 1001, 700, 7, 5, false);
    let right = slot_rect(Slot::HalfRight, 1001, 700, 7, 5, false);
    assert_eq!(left.x, 5);
    assert_eq!(left.x + left.w + 7, right.x);
    assert_eq!(right.x + right.w, 1001 - 5);
}

// Two quarters side by side cover the same columns as the halves.
#[test]
fn quarters_split_like_halves() {
    let left = slot_rect(Slot::HalfLeft, W, H, INNER, OUTER, false);
    let right = slot_rect(Slot::HalfRight, W, H, INNER, OUTER, false);
    let tl = slot_rect(Slot::QuarterTL, W, H, INNER, OUTER, false);
    let br = slot_rect(Slot::QuarterBR, W, H, INNER, OUTER, false);
    assert_eq!((tl.x, tl.w), (left.x, left.w));
    assert_eq!((br.x, br.w), (right.x, right.w));
    assert_eq!(tl.y, OUTER);
    assert_eq!(br.y + br.h, H - OUTER);
}

#[test]
fn fullscreen_rect_exact_values() {
    let r = fullscreen_rect(800, 600, 10);
    assert_eq!((r.x, r.y, r.w, r.h), (10, 10, 780, 580));
}

fn layer(anchor: u32, width: i32, height: i32, margin: i32) -> LayerGeometry {
    LayerGeometry {
        anchor,
        width,
        height,
        margin_top: margin,
        margin_right: margin,
        margin_bottom: margin,
        margin_left: margin,
    }
}

#[test]
fn layer_surface_rects() {
    // A bar along the top edge spans the output.
    let r = layer_rect(&layer(ANCHOR_TOP | ANCHOR_LEFT | ANCHOR_RIGHT, 0, 30, 0), 1920, 1080);
    assert_eq!((r.x, r.y, r.w, r.h), (0, 0, 1920, 30));
    // Unanchored: centered at its size.
    let r = layer_rect(&layer(0, 400, 300, 0), 1920, 1080);
    assert_eq!((r.x, r.y, r.w, r.h), (760, 390, 400, 300));
    // Bottom-right corner, inside its margins.
    let r = layer_rect(&layer(ANCHOR_BOTTOM | ANCHOR_RIGHT, 200, 100, 10), 1920, 1080);
    assert_eq!((r.x, r.y, r.w, r.h), (1710, 970, 200, 100));
    // Anchored to all edges with margins: fills the inside; at least 1x1.
    let r = layer_rect(&layer(15, 0, 0, 5), 1920, 1080);
    assert_eq!((r.x, r.y, r.w, r.h), (5, 5, 1910, 1070));
    let r = layer_rect(&layer(15, 0, 0, 600), 1000, 1000);
    assert_eq!((r.w, r.h), (1, 1));
}
