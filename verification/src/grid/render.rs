//! Window geometry, configure payloads, render order and hit testing.
use vstd::prelude::*;

use super::layout::{at_least_1, div_trunc, fits_i32, gaps_in_effect, lattice, slot_rect, slot_rect_in_range, slot_rect_spec, total_fullscreen_rect};
use super::window::{Rect, Slot, WindowId, WindowState};
use super::workspace::Workspace;
use super::{special, ConfigureRequest, Grid, Window};

verus! {

fn fits_i32_exec(v: i64) -> (r: bool)
    ensures
        r == fits_i32(v as int),
{
    v >= i32::MIN as i64 && v <= i32::MAX as i64
}

fn at_least_1_exec(v: i64) -> (r: i64)
    ensures
        r == at_least_1(v as int),
{
    if v < 1 {
        1
    } else {
        v
    }
}

/// Slot `s` of a usable area of `w` x `h` at (`ux`, `uy`) can be computed
/// within `i32`.
pub open spec fn slot_fits(s: Slot, w: int, h: int, inner_px: int, outer_px: int, smart: bool, ux: int, uy: int) -> bool {
    &&& slot_rect_in_range(w, h, inner_px, outer_px, smart)
    &&& fits_i32(slot_rect_spec(s, w, h, inner_px, outer_px, smart).0 + ux)
    &&& fits_i32(slot_rect_spec(s, w, h, inner_px, outer_px, smart).1 + uy)
}

/// Whether every slot of a usable area of `w` x `h` at (`ux`, `uy`) can be
/// computed within `i32`, for one smart-gaps setting.
fn slots_fit(w: i32, h: i32, inner_px: i32, outer_px: i32, smart: bool, ux: i32, uy: i32) -> (r: bool)
    ensures
        r == forall|s: Slot| #[trigger] slot_fits(s, w as int, h as int, inner_px as int, outer_px as int, smart, ux as int, uy as int),
{
    let (o, inner): (i64, i64) = if smart {
        (0, 0)
    } else {
        (outer_px as i64, inner_px as i64)
    };
    let w64 = w as i64;
    let h64 = h as i64;
    let usable_w = at_least_1_exec(w64 - o - o);
    let usable_h = at_least_1_exec(h64 - o - o);
    let half_inner = inner / 2;
    let left_w = at_least_1_exec(usable_w / 2 - half_inner);
    let top_h = at_least_1_exec(usable_h / 2 - half_inner);
    let x_r = o + left_w + inner;
    let y_b = o + top_h + inner;
    let in_range = fits_i32_exec(w64 - o) && fits_i32_exec(w64 - o - o) && fits_i32_exec(h64 - o) && fits_i32_exec(h64 - o - o)
        && fits_i32_exec(usable_w / 2 - half_inner) && fits_i32_exec(usable_w - left_w) && fits_i32_exec(
        usable_w - left_w - inner,
    ) && fits_i32_exec(usable_h / 2 - half_inner) && fits_i32_exec(usable_h - top_h) && fits_i32_exec(
        usable_h - top_h - inner,
    ) && fits_i32_exec(o + left_w) && fits_i32_exec(o + left_w + inner) && fits_i32_exec(o + top_h) && fits_i32_exec(
        o + top_h + inner,
    );
    let x_l_ok = fits_i32_exec(o + ux as i64);
    let x_r_ok = fits_i32_exec(x_r + ux as i64);
    let y_t_ok = fits_i32_exec(o + uy as i64);
    let y_b_ok = fits_i32_exec(y_b + uy as i64);
    let r = in_range && x_l_ok && x_r_ok && y_t_ok && y_b_ok;
    proof {
        let (wi, hi, ii, oi, xi, yi) = (w as int, h as int, inner_px as int, outer_px as int, ux as int, uy as int);
        assert(gaps_in_effect(ii, oi, smart) == (o as int, inner as int));
        assert(half_inner == div_trunc(inner as int, 2));
        let l = lattice(wi, hi, ii, oi, smart);
        assert(l.0 == usable_w && l.1 == usable_h && l.2 == left_w && l.4 == top_h);
        assert(l.6 == x_r && l.7 == y_b && l.8 == o);
        assert(in_range == slot_rect_in_range(wi, hi, ii, oi, smart));
        if r {
            assert forall|s: Slot| #[trigger] slot_fits(s, wi, hi, ii, oi, smart, xi, yi) by {
                let v = slot_rect_spec(s, wi, hi, ii, oi, smart);
                assert(v.0 == o || v.0 == x_r);
                assert(v.1 == o || v.1 == y_b);
            }
        } else if !in_range || !x_l_ok || !y_t_ok {
            assert(!slot_fits(Slot::HalfLeft, wi, hi, ii, oi, smart, xi, yi));
        } else if !x_r_ok {
            assert(!slot_fits(Slot::HalfRight, wi, hi, ii, oi, smart, xi, yi));
        } else {
            assert(!slot_fits(Slot::QuarterBL, wi, hi, ii, oi, smart, xi, yi));
        }
    }
    r
}

impl Grid {
    /// Whether `layout_ok` holds: the tiled geometry of every slot stays
    /// within `i32`, with and without smart gaps.
    pub fn layout_fits(&self) -> (r: bool)
        ensures
            r == self.layout_ok(),
    {
        let a = slots_fit(self.usable_w, self.usable_h, self.inner_gap_px, self.outer_gap_px, false, self.usable_x,
            self.usable_y);
        let b = slots_fit(self.usable_w, self.usable_h, self.inner_gap_px, self.outer_gap_px, true, self.usable_x,
            self.usable_y);
        proof {
            let (wi, hi, ii, oi, xi, yi) = (self.usable_w as int, self.usable_h as int, self.inner_gap_px as int,
                self.outer_gap_px as int, self.usable_x as int, self.usable_y as int);
            if a && b {
                assert forall|smart: bool, s: Slot| #[trigger] slot_fits(s, wi, hi, ii, oi, smart, xi, yi) by {
                    if smart {
                        assert(slot_fits(s, wi, hi, ii, oi, true, xi, yi));
                    } else {
                        assert(slot_fits(s, wi, hi, ii, oi, false, xi, yi));
                    }
                }
            } else if !a {
                let s = choose|s: Slot| !slot_fits(s, wi, hi, ii, oi, false, xi, yi);
                assert(!slot_fits(s, wi, hi, ii, oi, false, xi, yi));
            } else {
                let s = choose|s: Slot| !slot_fits(s, wi, hi, ii, oi, true, xi, yi);
                assert(!slot_fits(s, wi, hi, ii, oi, true, xi, yi));
            }
        }
        a && b
    }
}

impl Grid {
    /// Tiled geometry on the usable area is computable without overflow,
    /// with and without smart gaps, for every slot.
    pub open spec fn layout_ok(&self) -> bool {
        forall|smart: bool, s: Slot| #[trigger] slot_fits(s, self.usable_w as int, self.usable_h as int,
            self.inner_gap_px as int, self.outer_gap_px as int, smart, self.usable_x as int, self.usable_y as int)
    }

    /// Smart gaps apply on a workspace holding exactly one window, tiled.
    pub open spec fn smart_gaps_at(&self, c: int, r: int) -> bool {
        let ws = self.ws_at(c, r);
        ws.tiled_len() == 1 && ws.floating@.len() == 0 && ws.fullscreen_stack@.len() == 0
            && ws.total_fullscreen_stack@.len() == 0
    }

    /// The pixel rectangle of window `w` given its state and slot.
    pub open spec fn rect_of(&self, w: Window) -> Option<Rect> {
        if w.workspace.0 == 255 {
            None
        } else {
            match w.current_state {
                WindowState::Tiled => match w.current_slot {
                    None => None,
                    Some(slot) => {
                        let v = slot_rect_spec(slot, self.usable_w as int, self.usable_h as int,
                            self.inner_gap_px as int, self.outer_gap_px as int,
                            self.smart_gaps_at(w.workspace.0 as int, w.workspace.1 as int));
                        Some(Rect {
                            x: (v.0 + self.usable_x) as i32,
                            y: (v.1 + self.usable_y) as i32,
                            w: v.2 as i32,
                            h: v.3 as i32,
                        })
                    },
                },
                WindowState::Floating => Some(w.floating_geom),
                WindowState::Fullscreen => Some(Rect {
                    x: self.usable_x,
                    y: self.usable_y,
                    w: at_least_1(self.usable_w as int) as i32,
                    h: at_least_1(self.usable_h as int) as i32,
                }),
                WindowState::TotalFullscreen => Some(Rect { x: 0, y: 0, w: self.output_w, h: self.output_h }),
            }
        }
    }

    /// The rectangle of window `id`, None for an unknown or special window.
    pub open spec fn rect_spec(&self, id: WindowId) -> Option<Rect> {
        if self.has_window(id) {
            self.rect_of(self.win(id))
        } else {
            None
        }
    }

    pub(crate) fn rect_at(&self, i: usize) -> (r: Option<Rect>)
        requires
            self.wf(),
            self.layout_ok(),
            i < self.windows@.len(),
        ensures
            r == self.rect_of(self.windows@[i as int]),
    {
        let window = &self.windows[i];
        // Special-workspace windows have no layout position.
        if window.workspace.0 == 255 {
            return None;
        }
        proof {
            assert(self.placed_or_special(self.windows@[i as int].workspace));
            if window.workspace != special() {
                assert(self.allocated(window.workspace.0 as int, window.workspace.1 as int));
            }
            assert(self.workspaces@[window.workspace.1 as int]@.len() <= 255);
            assert(self.ws_at(window.workspace.0 as int, window.workspace.1 as int).wf());
        }
        let ws = self.ws(window.workspace.0, window.workspace.1);
        let smart = ws.should_use_smart_gaps();
        match window.current_state {
            WindowState::Tiled => {
                let slot = match window.current_slot {
                    Some(s) => s,
                    None => return None,
                };
                proof {
                    assert(slot_fits(slot, self.usable_w as int, self.usable_h as int, self.inner_gap_px as int,
                        self.outer_gap_px as int, smart, self.usable_x as int, self.usable_y as int));
                    assert(slot_rect_in_range(self.usable_w as int, self.usable_h as int, self.inner_gap_px as int,
                        self.outer_gap_px as int, smart));
                    assert(fits_i32(slot_rect_spec(slot, self.usable_w as int, self.usable_h as int,
                        self.inner_gap_px as int, self.outer_gap_px as int, smart).0 + self.usable_x));
                }
                let mut r = slot_rect(slot, self.usable_w, self.usable_h, self.inner_gap_px, self.outer_gap_px, smart);
                // Offset by the usable area origin.
                r.x = r.x + self.usable_x;
                r.y = r.y + self.usable_y;
                Some(r)
            },
            WindowState::Floating => Some(window.floating_geom),
            WindowState::Fullscreen => {
                // Fullscreen respects exclusive zones (stays within the usable area).
                let w = if self.usable_w < 1 { 1 } else { self.usable_w };
                let h = if self.usable_h < 1 { 1 } else { self.usable_h };
                Some(Rect::new(self.usable_x, self.usable_y, w, h))
            },
            WindowState::TotalFullscreen => Some(total_fullscreen_rect(self.output_w, self.output_h)),
        }
    }

    /// The pixel rectangle of a window given its current state and slot.
    pub fn compute_rect(&self, id: WindowId) -> (r: Option<Rect>)
        requires
            self.wf(),
            self.layout_ok(),
        ensures
            r == self.rect_spec(id),
    {
        match self.find_window(id) {
            Some(i) => self.rect_at(i),
            None => None,
        }
    }

    /// The configure event owed to window `id`: its size, whether it is
    /// focused, and whether it is in a fullscreen state.
    pub open spec fn configure_spec(&self, id: WindowId) -> Option<ConfigureRequest> {
        match self.rect_spec(id) {
            None => None,
            Some(rect) => Some(ConfigureRequest {
                w: rect.w,
                h: rect.h,
                activated: self.focused_window == Some(id),
                fullscreen: self.win(id).current_state == WindowState::Fullscreen
                    || self.win(id).current_state == WindowState::TotalFullscreen,
            }),
        }
    }

    /// What a configure event for window `id` carries; None when the window
    /// is unknown or has no position.
    pub fn configure_request(&self, id: WindowId) -> (r: Option<ConfigureRequest>)
        requires
            self.wf(),
            self.layout_ok(),
        ensures
            r == self.configure_spec(id),
    {
        let i = match self.find_window(id) {
            Some(i) => i,
            None => return None,
        };
        let rect = match self.rect_at(i) {
            Some(r) => r,
            None => return None,
        };
        let activated = match self.focused_window {
            Some(f) => f == id,
            None => false,
        };
        let state = self.windows[i].current_state;
        let fullscreen = match state {
            WindowState::Fullscreen | WindowState::TotalFullscreen => true,
            _ => false,
        };
        Some(ConfigureRequest { w: rect.w, h: rect.h, activated, fullscreen })
    }

    /// Visible pairs (window id, rectangle) from a Z-order list: ids with a
    /// known, positioned, unswallowed window.
    pub open spec fn visible_from(&self, ids: Seq<WindowId>) -> Seq<(WindowId, Rect)>
        decreases ids.len(),
    {
        if ids.len() == 0 {
            Seq::empty()
        } else {
            let prev = self.visible_from(ids.drop_last());
            let id = ids.last();
            if self.rect_spec(id) is Some && !self.win(id).is_swallowed {
                prev.push((id, self.rect_spec(id)->0))
            } else {
                prev
            }
        }
    }

    /// Windows on the focused workspace in bottom-to-top Z order, with rects.
    pub fn visible_windows(&self) -> (r: Vec<(WindowId, Rect)>)
        requires
            self.wf(),
            self.layout_ok(),
        ensures
            r@ == (if self.in_grid(self.focused) {
                self.visible_from(self.ws_at(self.focused.0 as int, self.focused.1 as int).z_order())
            } else {
                Seq::empty()
            }),
    {
        self.visible_windows_for_ws(self.focused)
    }

    /// Windows on a given workspace in bottom-to-top Z order, with rects;
    /// windows hidden by swallowing are left out.
    pub fn visible_windows_for_ws(&self, ws_coords: (u8, u8)) -> (r: Vec<(WindowId, Rect)>)
        requires
            self.wf(),
            self.layout_ok(),
        ensures
            r@ == (if self.in_grid(ws_coords) {
                self.visible_from(self.ws_at(ws_coords.0 as int, ws_coords.1 as int).z_order())
            } else {
                Seq::empty()
            }),
    {
        if ws_coords.0 >= self.cols || ws_coords.1 >= self.rows {
            return Vec::new();
        }
        proof {
            assert(self.workspaces@[ws_coords.1 as int]@.len() >= self.cols);
            assert(self.ws_at(ws_coords.0 as int, ws_coords.1 as int).wf());
        }
        let order = self.ws(ws_coords.0, ws_coords.1).windows_in_z_order();
        let mut r: Vec<(WindowId, Rect)> = Vec::new();
        let mut k: usize = 0;
        while k < order.len()
            invariant
                self.wf(),
                self.layout_ok(),
                k <= order@.len(),
                r@ == self.visible_from(order@.take(k as int)),
            decreases order.len() - k,
        {
            let id = order[k];
            assert(order@.take(k as int + 1).drop_last() =~= order@.take(k as int));
            if let Some(i) = self.find_window(id) {
                if let Some(rect) = self.rect_at(i) {
                    if !self.windows[i].is_swallowed {
                        r.push((id, rect));
                    }
                }
            }
            k += 1;
        }
        assert(order@.take(order@.len() as int) =~= order@);
        r
    }

    /// Whether pixel (x, y) lies in `rect`.
    pub open spec fn hits(rect: Rect, x: int, y: int) -> bool {
        rect.x <= x < rect.x + rect.w && rect.y <= y < rect.y + rect.h
    }

    /// The topmost window of `order[..k]` whose rectangle holds (x, y).
    pub open spec fn topmost_hit(&self, order: Seq<WindowId>, k: int, x: int, y: int) -> Option<WindowId>
        decreases k,
    {
        if k <= 0 {
            None
        } else {
            let id = order[k - 1];
            if self.rect_spec(id) is Some && Self::hits(self.rect_spec(id)->0, x, y) {
                Some(id)
            } else {
                self.topmost_hit(order, k - 1, x, y)
            }
        }
    }

    /// Hit test: the topmost window at pixel (x, y) on the focused workspace.
    /// Fractional pointer positions are floored by the caller, which gives
    /// the same answer as testing the fractional position against the
    /// integer rectangle edges.
    pub fn window_at(&self, x: i64, y: i64) -> (r: Option<WindowId>)
        requires
            self.wf(),
            self.layout_ok(),
        ensures
            r == ({
                let order = self.ws_at(self.focused.0 as int, self.focused.1 as int).z_order();
                self.topmost_hit(order, order.len() as int, x as int, y as int)
            }),
    {
        let (fc, fr) = self.focused;
        proof {
            assert(self.ws_at(fc as int, fr as int).wf());
        }
        let order = self.ws(fc, fr).windows_in_z_order();
        let mut k: usize = order.len();
        // Walk the Z order top to bottom so the topmost hit wins.
        while k > 0
            invariant
                self.wf(),
                self.layout_ok(),
                k <= order@.len(),
                order@ == self.ws_at(self.focused.0 as int, self.focused.1 as int).z_order(),
                self.topmost_hit(order@, order@.len() as int, x as int, y as int)
                    == self.topmost_hit(order@, k as int, x as int, y as int),
            decreases k,
        {
            let id = order[k - 1];
            if let Some(rect) = self.compute_rect(id) {
                let rx = rect.x as i64;
                let ry = rect.y as i64;
                if x >= rx && x < rx + rect.w as i64 && y >= ry && y < ry + rect.h as i64 {
                    assert(Self::hits(rect, x as int, y as int));
                    assert(self.topmost_hit(order@, k as int, x as int, y as int) == Some(id));
                    return Some(id);
                }
            }
            k -= 1;
        }
        None
    }
}

} // verus!
