//! Applying a workspace template: gather the open windows it names onto
//! its cell, and spawn the others with a hint that places them there.
use vstd::prelude::*;

use super::{fxv, push_fx, DispatchState, Effect, EffectV};
use crate::config::rules::{glob_chars, glob_match};
use crate::config::templates::{TemplateConfig, TemplateWindowConfig};
use crate::grid::posts::{assign_slot_post, move_window_to_post};
use crate::grid::window::WindowId;
use crate::grid::{Grid, PlacementHints, Window};
use crate::keybind::parse::{parse_slot, slot_spec};
use crate::toplevel::{no_hints, HintsV};

verus! {

/// Whether `s` matches the glob `pat`, character by character.
pub fn glob_matches(pat: &str, s: &str) -> (r: bool)
    ensures
        r == glob_chars(pat@, s@),
{
    glob_match(pat, s)
}

/// The first template for cell `coord`.
pub open spec fn template_for(ts: Seq<TemplateConfig>, coord: (u8, u8)) -> Option<TemplateConfig>
    decreases ts.len(),
{
    if ts.len() == 0 {
        None
    } else {
        match template_for(ts.drop_last(), coord) {
            Some(t) => Some(t),
            None => if ts.last().cell[0] == coord.0 && ts.last().cell[1] == coord.1 {
                Some(ts.last())
            } else {
                None
            },
        }
    }
}

/// The first window in `ws` whose app_id matches the glob `pat`.
pub open spec fn matching_window(ws: Seq<Window>, pat: Seq<char>) -> Option<WindowId>
    decreases ws.len(),
{
    if ws.len() == 0 {
        None
    } else {
        match matching_window(ws.drop_last(), pat) {
            Some(id) => Some(id),
            None => if glob_chars(pat, ws.last().app_id@) {
                Some(ws.last().id)
            } else {
                None
            },
        }
    }
}

/// The window a template window stands for: the first open window that its
/// app_id glob matches.
pub open spec fn template_match(g: Grid, w: TemplateWindowConfig) -> Option<WindowId> {
    match w.app_id {
        Some(p) => matching_window(g.windows@, p@),
        None => None,
    }
}

/// One template window, from grid `g0`, spawn hint `h0` and effects `f0`:
/// a matching window gets focus, moves to `coord` and takes the slot, if
/// any (when the focused window is not in a special workspace); with none,
/// the command is spawned with a hint for `coord` and the slot.
pub open spec fn template_one(
    g0: Grid,
    g1: Grid,
    h0: Option<HintsV>,
    h1: Option<HintsV>,
    f0: Seq<EffectV>,
    f1: Seq<EffectV>,
    w: TemplateWindowConfig,
    coord: (u8, u8),
) -> bool {
    match template_match(g0, w) {
        Some(id) => {
            let gf = Grid { focused_window: Some(id), ..g0 };
            &&& h1 == h0
            &&& f1 == f0
            &&& if gf.focus_placed() {
                exists|gm: Grid|
                    {
                        &&& #[trigger] move_window_to_post(&gf, &gm, coord)
                        &&& match slot_spec(w.slot@) {
                            Some(s) => if gm.focus_placed() {
                                assign_slot_post(&gm, &g1, s)
                            } else {
                                g1 == gm
                            },
                            None => g1 == gm,
                        }
                    }
            } else {
                g1 == gf
            }
        },
        None => {
            &&& g1 == g0
            &&& h1 == Some(HintsV { workspace: Some(coord), slot: slot_spec(w.slot@), ..no_hints() })
            &&& f1 == f0.push(EffectV::Exec(w.command@))
        },
    }
}

/// The template windows `ws`, in order.
pub open spec fn template_ran(
    g0: Grid,
    g: Grid,
    h0: Option<HintsV>,
    h: Option<HintsV>,
    f0: Seq<EffectV>,
    f: Seq<EffectV>,
    ws: Seq<TemplateWindowConfig>,
    coord: (u8, u8),
) -> bool
    decreases ws.len(),
{
    if ws.len() == 0 {
        g == g0 && h == h0 && f == f0
    } else {
        exists|gm: Grid, hm: Option<HintsV>, fm: Seq<EffectV>|
            template_ran(g0, gm, h0, hm, f0, fm, ws.drop_last(), coord)
                && #[trigger] template_one(gm, g, hm, h, fm, f, ws.last(), coord)
    }
}

proof fn lemma_ran_step(
    g0: Grid,
    gm: Grid,
    g: Grid,
    h0: Option<HintsV>,
    hm: Option<HintsV>,
    h: Option<HintsV>,
    f0: Seq<EffectV>,
    fm: Seq<EffectV>,
    f: Seq<EffectV>,
    ws: Seq<TemplateWindowConfig>,
    coord: (u8, u8),
)
    requires
        ws.len() > 0,
        template_ran(g0, gm, h0, hm, f0, fm, ws.drop_last(), coord),
        template_one(gm, g, hm, h, fm, f, ws.last(), coord),
    ensures
        template_ran(g0, g, h0, h, f0, f, ws, coord),
{
    assert(template_one(gm, g, hm, h, fm, f, ws.last(), coord));
}

pub open spec fn hint_view(h: Option<PlacementHints>) -> Option<HintsV> {
    match h {
        Some(h) => Some(h.view()),
        None => None,
    }
}

/// What applying the template of `coord` leaves (`force` re-applies one
/// already applied): nothing without a template or when applied before;
/// else the cell is recorded as applied and the template's windows run.
pub open spec fn template_applied(
    o: DispatchState,
    n: DispatchState,
    f0: Seq<EffectV>,
    f: Seq<EffectV>,
    templates: Seq<TemplateConfig>,
    coord: (u8, u8),
    force: bool,
) -> bool {
    if (!force && o.applied_templates@.contains(coord)) || template_for(templates, coord) is None {
        n == o && f == f0
    } else {
        let t = template_for(templates, coord).unwrap();
        &&& n == DispatchState {
            grid: n.grid,
            spawn_hint: n.spawn_hint,
            applied_templates: n.applied_templates,
            ..o
        }
        &&& n.applied_templates@ == if o.applied_templates@.contains(coord) {
            o.applied_templates@
        } else {
            o.applied_templates@.push(coord)
        }
        &&& template_ran(o.grid, n.grid, hint_view(o.spawn_hint), hint_view(n.spawn_hint), f0, f, t.windows@, coord)
    }
}

impl Grid {
    /// Whether the focused window, if any, is not in a special workspace.
    pub fn focus_is_placed(&self) -> (r: bool)
        requires
            self.wf(),
        ensures
            r == self.focus_placed(),
    {
        match self.focused_window {
            Some(id) => match self.find_window(id) {
                Some(i) => !(self.windows[i].workspace.0 == 255 && self.windows[i].workspace.1 == 255),
                None => true,
            },
            None => true,
        }
    }
}

fn find_template(ts: &Vec<TemplateConfig>, coord: (u8, u8)) -> (r: Option<usize>)
    ensures
        match r {
            Some(i) => i < ts@.len() && template_for(ts@, coord) == Some(ts@[i as int]),
            None => template_for(ts@, coord) is None,
        },
{
    let mut i: usize = 0;
    while i < ts.len()
        invariant
            i <= ts@.len(),
            template_for(ts@.take(i as int), coord) is None,
        decreases ts.len() - i,
    {
        proof {
            assert(ts@.take(i as int + 1).drop_last() =~= ts@.take(i as int));
        }
        if ts[i].cell[0] == coord.0 && ts[i].cell[1] == coord.1 {
            proof {
                lemma_template_prefix(ts@, coord, i as int + 1);
            }
            return Some(i);
        }
        i += 1;
    }
    proof {
        assert(ts@.take(i as int) =~= ts@);
    }
    None
}

proof fn lemma_template_prefix(ts: Seq<TemplateConfig>, coord: (u8, u8), k: int)
    requires
        0 <= k <= ts.len(),
        template_for(ts.take(k), coord) is Some,
    ensures
        template_for(ts, coord) == template_for(ts.take(k), coord),
    decreases ts.len() - k,
{
    if k < ts.len() {
        assert(ts.take(k + 1).drop_last() =~= ts.take(k));
        lemma_template_prefix(ts, coord, k + 1);
    } else {
        assert(ts.take(k) =~= ts);
    }
}

proof fn lemma_match_prefix(ws: Seq<Window>, pat: Seq<char>, k: int)
    requires
        0 <= k <= ws.len(),
        matching_window(ws.take(k), pat) is Some,
    ensures
        matching_window(ws, pat) == matching_window(ws.take(k), pat),
    decreases ws.len() - k,
{
    if k < ws.len() {
        assert(ws.take(k + 1).drop_last() =~= ws.take(k));
        lemma_match_prefix(ws, pat, k + 1);
    } else {
        assert(ws.take(k) =~= ws);
    }
}

fn find_match(g: &Grid, w: &TemplateWindowConfig) -> (r: Option<WindowId>)
    ensures
        r == template_match(*g, *w),
{
    if w.app_id.is_none() {
        return None;
    }
    let pat = w.app_id.as_ref().unwrap();
    assert(w.app_id is Some);
    assert(*pat == w.app_id->0);
    assert(template_match(*g, *w) == matching_window(g.windows@, pat@));
    let mut i: usize = 0;
    while i < g.windows.len()
        invariant
            i <= g.windows@.len(),
            matching_window(g.windows@.take(i as int), pat@) is None,
            template_match(*g, *w) == matching_window(g.windows@, pat@),
        decreases g.windows.len() - i,
    {
        proof {
            assert(g.windows@.take(i as int + 1).drop_last() =~= g.windows@.take(i as int));
        }
        if glob_matches(pat.as_str(), g.windows[i].app_id.as_str()) {
            proof {
                assert(template_match(*g, *w) == matching_window(g.windows@, pat@));
                assert(g.windows@.take(i as int + 1).last() == g.windows@[i as int]);
                assert(matching_window(g.windows@.take(i as int + 1), pat@) == Some(g.windows@[i as int].id));
                lemma_match_prefix(g.windows@, pat@, i as int + 1);
            }
            return Some(g.windows[i].id);
        }
        i += 1;
    }
    proof {
        assert(g.windows@.take(i as int) =~= g.windows@);
    }
    None
}

fn contains_cell(v: &Vec<(u8, u8)>, c: (u8, u8)) -> (r: bool)
    ensures
        r == v@.contains(c),
{
    let mut i: usize = 0;
    while i < v.len()
        invariant
            i <= v@.len(),
            forall|k: int| 0 <= k < i ==> v@[k] != c,
        decreases v.len() - i,
    {
        if v[i].0 == c.0 && v[i].1 == c.1 {
            proof {
                assert(v@[i as int] == c);
            }
            return true;
        }
        i += 1;
    }
    false
}

/// The grid after gathering window `id` to `coord` into `slot`: as in
/// `template_one` for a matching window.
pub open spec fn gathered(g0: Grid, g1: Grid, id: WindowId, coord: (u8, u8), slot: Option<crate::grid::window::Slot>) -> bool {
    let gf = Grid { focused_window: Some(id), ..g0 };
    if gf.focus_placed() {
        exists|gm: Grid|
            {
                &&& #[trigger] move_window_to_post(&gf, &gm, coord)
                &&& match slot {
                    Some(s) => if gm.focus_placed() {
                        assign_slot_post(&gm, &g1, s)
                    } else {
                        g1 == gm
                    },
                    None => g1 == gm,
                }
            }
    } else {
        g1 == gf
    }
}

impl Grid {
    fn gather(&mut self, id: WindowId, coord: (u8, u8), slot: Option<crate::grid::window::Slot>)
        requires
            old(self).wf(),
        ensures
            final(self).wf(),
            gathered(*old(self), *final(self), id, coord, slot),
    {
        self.focused_window = Some(id);
        proof {
            assert(self.win_keys() =~= old(self).win_keys());
            Grid::lemma_wf_windows_only(old(self), self);
        }
        if self.focus_is_placed() {
            let ghost gf = *self;
            self.move_window_to(coord);
            let ghost gm = *self;
            if let Some(s) = slot {
                if self.focus_is_placed() {
                    self.assign_slot(s);
                }
            }
            proof {
                assert(move_window_to_post(&gf, &gm, coord));
            }
        }
    }
}

impl DispatchState {
    /// Run one template window.
    fn run_template_window(&mut self, w: &TemplateWindowConfig, coord: (u8, u8), fx: &mut Vec<Effect>)
        requires
            old(self).wf(),
        ensures
            final(self).wf(),
            *final(self) == (DispatchState { grid: final(self).grid, spawn_hint: final(self).spawn_hint, ..*old(self) }),
            template_one(
                old(self).grid,
                final(self).grid,
                hint_view(old(self).spawn_hint),
                hint_view(final(self).spawn_hint),
                fxv(old(fx)@),
                fxv(final(fx)@),
                *w,
                coord,
            ),
    {
        let slot = parse_slot(w.slot.as_str());
        match find_match(&self.grid, w) {
            Some(id) => {
                self.grid.gather(id, coord, slot);
            },
            None => {
                let mut h = PlacementHints::default();
                h.workspace = Some(coord);
                h.slot = slot;
                self.spawn_hint = Some(h);
                push_fx(fx, Effect::Exec(w.command.clone()));
            },
        }
    }

    /// Apply the template of `coord`, once unless `force`.
    pub fn apply_workspace_template(
        &mut self,
        templates: &Vec<TemplateConfig>,
        coord: (u8, u8),
        force: bool,
        fx: &mut Vec<Effect>,
    )
        requires
            old(self).wf(),
        ensures
            final(self).wf(),
            template_applied(*old(self), *final(self), fxv(old(fx)@), fxv(final(fx)@), templates@, coord, force),
    {
        let already = contains_cell(&self.applied_templates, coord);
        if !force && already {
            return;
        }
        let ti = match find_template(templates, coord) {
            Some(i) => i,
            None => return,
        };
        if !already {
            self.applied_templates.push(coord);
        }
        let t = &templates[ti];
        let ghost g0 = self.grid;
        let ghost h0 = hint_view(self.spawn_hint);
        let ghost f0 = fxv(fx@);
        let ghost s1 = *self;
        let mut k: usize = 0;
        while k < t.windows.len()
            invariant
                self.wf(),
                k <= t.windows@.len(),
                *self == (DispatchState { grid: self.grid, spawn_hint: self.spawn_hint, ..s1 }),
                template_ran(g0, self.grid, h0, hint_view(self.spawn_hint), f0, fxv(fx@), t.windows@.take(k as int), coord),
            decreases t.windows.len() - k,
        {
            let ghost gm = self.grid;
            let ghost hm = hint_view(self.spawn_hint);
            let ghost fm = fxv(fx@);
            self.run_template_window(&t.windows[k], coord, fx);
            proof {
                let ws = t.windows@.take(k as int + 1);
                assert(ws.drop_last() =~= t.windows@.take(k as int));
                assert(ws.last() == t.windows@[k as int]);
                assert(template_ran(g0, gm, h0, hm, f0, fm, ws.drop_last(), coord));
                lemma_ran_step(g0, gm, self.grid, h0, hm, hint_view(self.spawn_hint), f0, fm, fxv(fx@), ws, coord);
            }
            k += 1;
        }
        proof {
            assert(t.windows@.take(k as int) =~= t.windows@);
        }
    }
}

} // verus!
