//! Pixel geometry of slots, promotion states, overview thumbnails and minimap cells.
use vstd::prelude::*;

use super::window::{Rect, Slot};

verus! {

/// Default gap sizes.
pub const DEFAULT_INNER_PX: i32 = 8;
pub const DEFAULT_OUTER_PX: i32 = 12;

pub open spec fn fits_i32(v: int) -> bool {
    i32::MIN <= v <= i32::MAX
}

/// `max(v, 1)`.
pub open spec fn at_least_1(v: int) -> int {
    if v < 1 {
        1
    } else {
        v
    }
}

/// Integer division rounding toward zero, as Rust's `/` on integers does.
pub open spec fn div_trunc(a: int, b: int) -> int {
    if a >= 0 {
        a / b
    } else {
        -((-a) / b)
    }
}

/// Outer and inner gap in effect: both zero under smart gaps.
pub open spec fn gaps_in_effect(inner_px: int, outer_px: int, smart_gaps: bool) -> (int, int) {
    if smart_gaps {
        (0, 0)
    } else {
        (outer_px, inner_px)
    }
}

/// The tiling lattice of one output: (usable_w, usable_h, left_w, right_w,
/// top_h, bot_h, x_r, y_b, outer, inner).
pub open spec fn lattice(output_w: int, output_h: int, inner_px: int, outer_px: int, smart_gaps: bool)
    -> (int, int, int, int, int, int, int, int, int, int)
{
    let (o, inner) = gaps_in_effect(inner_px, outer_px, smart_gaps);
    let usable_w = at_least_1(output_w - o - o);
    let usable_h = at_least_1(output_h - o - o);
    let half_inner = div_trunc(inner, 2);
    let left_w = at_least_1(usable_w / 2 - half_inner);
    let right_w = at_least_1(usable_w - left_w - inner);
    let top_h = at_least_1(usable_h / 2 - half_inner);
    let bot_h = at_least_1(usable_h - top_h - inner);
    (usable_w, usable_h, left_w, right_w, top_h, bot_h, o + left_w + inner, o + top_h + inner, o, inner)
}

/// Every intermediate value of the slot computation fits in an i32.
pub open spec fn slot_rect_in_range(output_w: int, output_h: int, inner_px: int, outer_px: int, smart_gaps: bool) -> bool {
    let (o, inner) = gaps_in_effect(inner_px, outer_px, smart_gaps);
    let (usable_w, usable_h, left_w, right_w, top_h, bot_h, x_r, y_b, _o, _i) =
        lattice(output_w, output_h, inner_px, outer_px, smart_gaps);
    let half_inner = div_trunc(inner, 2);
    &&& fits_i32(output_w - o)
    &&& fits_i32(output_w - o - o)
    &&& fits_i32(output_h - o)
    &&& fits_i32(output_h - o - o)
    &&& fits_i32(usable_w / 2 - half_inner)
    &&& fits_i32(usable_w - left_w)
    &&& fits_i32(usable_w - left_w - inner)
    &&& fits_i32(usable_h / 2 - half_inner)
    &&& fits_i32(usable_h - top_h)
    &&& fits_i32(usable_h - top_h - inner)
    &&& fits_i32(o + left_w)
    &&& fits_i32(o + left_w + inner)
    &&& fits_i32(o + top_h)
    &&& fits_i32(o + top_h + inner)
}

/// The rectangle of `slot` on an output of the given size.
pub open spec fn slot_rect_spec(slot: Slot, output_w: int, output_h: int, inner_px: int, outer_px: int, smart_gaps: bool)
    -> (int, int, int, int)
{
    let (usable_w, usable_h, left_w, right_w, top_h, bot_h, x_r, y_b, o, _inner) =
        lattice(output_w, output_h, inner_px, outer_px, smart_gaps);
    match slot {
        Slot::HalfLeft => (o, o, left_w, usable_h),
        Slot::HalfRight => (x_r, o, right_w, usable_h),
        Slot::QuarterTL => (o, o, left_w, top_h),
        Slot::QuarterTR => (x_r, o, right_w, top_h),
        Slot::QuarterBL => (o, y_b, left_w, bot_h),
        Slot::QuarterBR => (x_r, y_b, right_w, bot_h),
    }
}

pub open spec fn rect_is(r: Rect, v: (int, int, int, int)) -> bool {
    r.x == v.0 && r.y == v.1 && r.w == v.2 && r.h == v.3
}

fn max1(v: i32) -> (r: i32)
    ensures
        r == at_least_1(v as int),
{
    if v < 1 {
        1
    } else {
        v
    }
}

/// Pixel geometry of `slot` within a single output. With `smart_gaps`
/// (exactly one tiled window) all gaps collapse to zero.
pub fn slot_rect(slot: Slot, output_w: i32, output_h: i32, inner_px: i32, outer_px: i32, smart_gaps: bool) -> (r: Rect)
    requires
        slot_rect_in_range(output_w as int, output_h as int, inner_px as int, outer_px as int, smart_gaps),
    ensures
        rect_is(r, slot_rect_spec(slot, output_w as int, output_h as int, inner_px as int, outer_px as int, smart_gaps)),
{
    let (ol, or_, ot, ob, inner) = if smart_gaps {
        (0i32, 0i32, 0i32, 0i32, 0i32)
    } else {
        (outer_px, outer_px, outer_px, outer_px, inner_px)
    };
    let usable_w = max1(output_w - ol - or_);
    let usable_h = max1(output_h - ot - ob);
    let half_inner = inner / 2;
    let left_w = max1(usable_w / 2 - half_inner);
    let right_w = max1(usable_w - left_w - inner);
    let top_h = max1(usable_h / 2 - half_inner);
    let bot_h = max1(usable_h - top_h - inner);

    let x_l = ol;
    let x_r = ol + left_w + inner;
    let y_t = ot;
    let y_b = ot + top_h + inner;

    match slot {
        Slot::HalfLeft => Rect::new(x_l, y_t, left_w, usable_h),
        Slot::HalfRight => Rect::new(x_r, y_t, right_w, usable_h),
        Slot::QuarterTL => Rect::new(x_l, y_t, left_w, top_h),
        Slot::QuarterTR => Rect::new(x_r, y_t, right_w, top_h),
        Slot::QuarterBL => Rect::new(x_l, y_b, left_w, bot_h),
        Slot::QuarterBR => Rect::new(x_r, y_b, right_w, bot_h),
    }
}

pub open spec fn fullscreen_rect_in_range(output_w: int, output_h: int, outer_px: int) -> bool {
    &&& fits_i32(2 * outer_px)
    &&& fits_i32(output_w - 2 * outer_px)
    &&& fits_i32(output_h - 2 * outer_px)
}

/// Fullscreen state: the area inside the outer gaps.
pub fn fullscreen_rect(output_w: i32, output_h: i32, outer_px: i32) -> (r: Rect)
    requires
        fullscreen_rect_in_range(output_w as int, output_h as int, outer_px as int),
    ensures
        r.x == outer_px,
        r.y == outer_px,
        r.w == at_least_1(output_w - 2 * outer_px),
        r.h == at_least_1(output_h - 2 * outer_px),
{
    Rect::new(outer_px, outer_px, max1(output_w - 2 * outer_px), max1(output_h - 2 * outer_px))
}

/// TotalFullscreen: the entire output, no gaps.
pub fn total_fullscreen_rect(output_w: i32, output_h: i32) -> (r: Rect)
    ensures
        r == (Rect { x: 0, y: 0, w: output_w, h: output_h }),
{
    Rect::new(0, 0, output_w, output_h)
}

/// Thumbnail width and height, and the per-column and per-row steps.
pub open spec fn thumb_dims(cols: int, rows: int, screen_w: int, screen_h: int, gap_px: int, margin_px: int) -> (int, int) {
    let c = if cols < 1 { 1 } else { cols };
    let r = if rows < 1 { 1 } else { rows };
    let avail_w = screen_w - 2 * margin_px - (c - 1) * gap_px;
    let avail_h = screen_h - 2 * margin_px - (r - 1) * gap_px;
    let aw = if avail_w < c { c } else { avail_w };
    let ah = if avail_h < r { r } else { avail_h };
    (aw / c, ah / r)
}

pub open spec fn overview_in_range(
    col: int, row: int, cols: int, rows: int, screen_w: int, screen_h: int, gap_px: int, margin_px: int,
) -> bool {
    let c = if cols < 1 { 1 } else { cols };
    let r = if rows < 1 { 1 } else { rows };
    let (tw, th) = thumb_dims(cols, rows, screen_w, screen_h, gap_px, margin_px);
    &&& fits_i32(2 * margin_px)
    &&& fits_i32(screen_w - 2 * margin_px)
    &&& fits_i32(screen_h - 2 * margin_px)
    &&& fits_i32((c - 1) * gap_px)
    &&& fits_i32((r - 1) * gap_px)
    &&& fits_i32(screen_w - 2 * margin_px - (c - 1) * gap_px)
    &&& fits_i32(screen_h - 2 * margin_px - (r - 1) * gap_px)
    &&& fits_i32(tw + gap_px)
    &&& fits_i32(th + gap_px)
    &&& fits_i32(col * (tw + gap_px))
    &&& fits_i32(row * (th + gap_px))
    &&& fits_i32(margin_px + col * (tw + gap_px))
    &&& fits_i32(margin_px + row * (th + gap_px))
}

/// Screen-space rect of a workspace thumbnail in overview mode; `gap_px`
/// separates thumbnails and `margin_px` is the outer margin.
pub fn overview_thumbnail_rect(
    col: u8,
    row: u8,
    cols: u8,
    rows: u8,
    screen_w: i32,
    screen_h: i32,
    gap_px: i32,
    margin_px: i32,
) -> (r: Rect)
    requires
        overview_in_range(col as int, row as int, cols as int, rows as int, screen_w as int, screen_h as int,
            gap_px as int, margin_px as int),
    ensures
        ({
            let (tw, th) = thumb_dims(cols as int, rows as int, screen_w as int, screen_h as int, gap_px as int,
                margin_px as int);
            &&& r.x == margin_px + col * (tw + gap_px)
            &&& r.y == margin_px + row * (th + gap_px)
            &&& r.w == at_least_1(tw)
            &&& r.h == at_least_1(th)
        }),
{
    let cols: i32 = if cols < 1 { 1 } else { cols as i32 };
    let rows: i32 = if rows < 1 { 1 } else { rows as i32 };
    let aw = screen_w - 2 * margin_px - (cols - 1) * gap_px;
    let ah = screen_h - 2 * margin_px - (rows - 1) * gap_px;
    let avail_w = if aw < cols { cols } else { aw };
    let avail_h = if ah < rows { rows } else { ah };
    let thumb_w = avail_w / cols;
    let thumb_h = avail_h / rows;
    let tx = margin_px + col as i32 * (thumb_w + gap_px);
    let ty = margin_px + row as i32 * (thumb_h + gap_px);
    Rect::new(tx, ty, max1(thumb_w), max1(thumb_h))
}

pub open spec fn minimap_in_range(col: int, row: int, cell_px: int, gap_px: int, anchor_x: int, anchor_y: int) -> bool {
    &&& fits_i32(cell_px + gap_px)
    &&& fits_i32(col * (cell_px + gap_px))
    &&& fits_i32(row * (cell_px + gap_px))
    &&& fits_i32(anchor_x + col * (cell_px + gap_px))
    &&& fits_i32(anchor_y + row * (cell_px + gap_px))
}

/// Screen-space rect of a single minimap cell; `anchor_x/y` is the top-left
/// of the whole minimap widget.
pub fn minimap_cell_rect(col: u8, row: u8, cell_px: i32, gap_px: i32, anchor_x: i32, anchor_y: i32) -> (r: Rect)
    requires
        minimap_in_range(col as int, row as int, cell_px as int, gap_px as int, anchor_x as int, anchor_y as int),
    ensures
        r.x == anchor_x + col * (cell_px + gap_px),
        r.y == anchor_y + row * (cell_px + gap_px),
        r.w == at_least_1(cell_px as int),
        r.h == at_least_1(cell_px as int),
{
    let tx = anchor_x + col as i32 * (cell_px + gap_px);
    let ty = anchor_y + row as i32 * (cell_px + gap_px);
    Rect::new(tx, ty, max1(cell_px), max1(cell_px))
}

// ─── Layer surfaces ──────────────────────────────────────────────────────────

/// Anchor edges of a layer surface (the wlr-layer-shell bits).
pub const ANCHOR_TOP: u32 = 1;
pub const ANCHOR_BOTTOM: u32 = 2;
pub const ANCHOR_LEFT: u32 = 4;
pub const ANCHOR_RIGHT: u32 = 8;

/// What a layer surface asks for: the edges it is anchored to, its size (0 =
/// as large as the output on that axis) and its margins.
#[derive(Debug, Clone, Copy, PartialEq, Eq, Structural)]
pub struct LayerGeometry {
    pub anchor: u32,
    pub width: i32,
    pub height: i32,
    pub margin_top: i32,
    pub margin_right: i32,
    pub margin_bottom: i32,
    pub margin_left: i32,
}

/// `anchor` holds every edge of `bits`.
pub open spec fn anchored(anchor: u32, bits: u32) -> bool {
    anchor & bits == bits
}

/// Position and size on one axis of a layer surface: anchored to both ends
/// it spans the output inside its margins; to one end it sits at that
/// margin; to neither it is centered. Its size is at least 1.
pub open spec fn layer_axis(both: bool, far: bool, near: bool, req: int, m_near: int, m_far: int, out: int) -> (int, int) {
    let size = if both {
        out - m_near - m_far
    } else if req > 0 {
        req
    } else {
        out
    };
    let pos = if both {
        m_near
    } else if far {
        out - m_far - size
    } else if near {
        m_near
    } else {
        div_trunc(out - size, 2)
    };
    (pos, at_least_1(size))
}

/// Every step of `layer_axis` fits in an `i32`.
pub open spec fn layer_axis_fits(both: bool, far: bool, near: bool, req: int, m_near: int, m_far: int, out: int) -> bool {
    let size = if both {
        out - m_near - m_far
    } else if req > 0 {
        req
    } else {
        out
    };
    &&& both ==> fits_i32(out - m_near) && fits_i32(out - m_near - m_far)
    &&& (!both && far) ==> fits_i32(out - m_far) && fits_i32(out - m_far - size)
    &&& (!both && !far && !near) ==> fits_i32(out - size)
}

/// The rectangle of layer surface `g` on an output of the given size.
pub open spec fn layer_rect_spec(g: LayerGeometry, output_w: int, output_h: int) -> (int, int, int, int) {
    let (x, w) = layer_axis(anchored(g.anchor, ANCHOR_LEFT | ANCHOR_RIGHT), anchored(g.anchor, ANCHOR_RIGHT),
        anchored(g.anchor, ANCHOR_LEFT), g.width as int, g.margin_left as int, g.margin_right as int, output_w);
    let (y, h) = layer_axis(anchored(g.anchor, ANCHOR_TOP | ANCHOR_BOTTOM), anchored(g.anchor, ANCHOR_BOTTOM),
        anchored(g.anchor, ANCHOR_TOP), g.height as int, g.margin_top as int, g.margin_bottom as int, output_h);
    (x, y, w, h)
}

/// Every step of `layer_rect_spec` fits in an `i32`.
pub open spec fn layer_fits(g: LayerGeometry, output_w: int, output_h: int) -> bool {
    &&& layer_axis_fits(anchored(g.anchor, ANCHOR_LEFT | ANCHOR_RIGHT), anchored(g.anchor, ANCHOR_RIGHT),
        anchored(g.anchor, ANCHOR_LEFT), g.width as int, g.margin_left as int, g.margin_right as int, output_w)
    &&& layer_axis_fits(anchored(g.anchor, ANCHOR_TOP | ANCHOR_BOTTOM), anchored(g.anchor, ANCHOR_BOTTOM),
        anchored(g.anchor, ANCHOR_TOP), g.height as int, g.margin_top as int, g.margin_bottom as int, output_h)
}

fn layer_axis_exec(both: bool, far: bool, near: bool, req: i32, m_near: i32, m_far: i32, out: i32) -> (r: (i32, i32))
    requires
        layer_axis_fits(both, far, near, req as int, m_near as int, m_far as int, out as int),
    ensures
        (r.0 as int, r.1 as int) == layer_axis(both, far, near, req as int, m_near as int, m_far as int, out as int),
{
    let size = if both {
        out - m_near - m_far
    } else if req > 0 {
        req
    } else {
        out
    };
    let pos = if both {
        m_near
    } else if far {
        out - m_far - size
    } else if near {
        m_near
    } else {
        (out - size) / 2
    };
    (pos, max1(size))
}

/// The rectangle of layer surface `g` on an output of the given size.
pub fn layer_rect(g: &LayerGeometry, output_w: i32, output_h: i32) -> (r: Rect)
    requires
        layer_fits(*g, output_w as int, output_h as int),
    ensures
        rect_is(r, layer_rect_spec(*g, output_w as int, output_h as int)),
{
    let lr = ANCHOR_LEFT | ANCHOR_RIGHT;
    let tb = ANCHOR_TOP | ANCHOR_BOTTOM;
    let (x, w) = layer_axis_exec(g.anchor & lr == lr, g.anchor & ANCHOR_RIGHT == ANCHOR_RIGHT, g.anchor & ANCHOR_LEFT
        == ANCHOR_LEFT, g.width, g.margin_left, g.margin_right, output_w);
    let (y, h) = layer_axis_exec(g.anchor & tb == tb, g.anchor & ANCHOR_BOTTOM == ANCHOR_BOTTOM, g.anchor & ANCHOR_TOP
        == ANCHOR_TOP, g.height, g.margin_top, g.margin_bottom, output_h);
    Rect::new(x, y, w, h)
}

} // verus!
