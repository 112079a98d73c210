//! Named special workspaces (scratchpads) and applying a template on demand.
use vstd::prelude::*;

use super::template::template_applied;
use super::{fxv, no_fx, sync_fx, urgency_cleared, DispatchConfig, DispatchState, Effect, EffectV};
use crate::grid::posts::{attach_window_from_special_post, detach_window_to_special_post};
use crate::grid::window::WindowId;
use crate::grid::Grid;
use crate::keybind::action::{view_of, Action, ActionV};
use crate::text::str_eq;
use crate::toplevel::opt_view;

verus! {

/// The special workspaces, as plain values.
pub open spec fn sw_view(s: DispatchState) -> Seq<(Seq<char>, Seq<WindowId>)> {
    s.special_workspaces@.map_values(|p: (String, Vec<WindowId>)| (p.0@, p.1@))
}

/// The position of the special workspace `name`.
pub open spec fn sw_index(sw: Seq<(Seq<char>, Seq<WindowId>)>, name: Seq<char>) -> Option<int>
    decreases sw.len(),
{
    if sw.len() == 0 {
        None
    } else {
        match sw_index(sw.drop_last(), name) {
            Some(i) => Some(i),
            None => if sw.last().0 == name {
                Some(sw.len() - 1)
            } else {
                None
            },
        }
    }
}

/// `sw` with an entry for `name`, added empty at the end when missing.
pub open spec fn with_entry(sw: Seq<(Seq<char>, Seq<WindowId>)>, name: Seq<char>) -> Seq<(Seq<char>, Seq<WindowId>)> {
    if sw_index(sw, name) is Some {
        sw
    } else {
        sw.push((name, Seq::empty()))
    }
}

/// The windows sent to the special workspace `name`.
pub open spec fn sw_ids(sw: Seq<(Seq<char>, Seq<WindowId>)>, name: Seq<char>) -> Seq<WindowId> {
    match sw_index(sw, name) {
        Some(i) => sw[i].1,
        None => Seq::empty(),
    }
}

/// The windows `ids`, in order, brought from special workspaces onto `target`.
pub open spec fn attached_all(g0: Grid, g: Grid, ids: Seq<WindowId>, target: (u8, u8)) -> bool
    decreases ids.len(),
{
    if ids.len() == 0 {
        g == g0
    } else {
        exists|gm: Grid|
            attached_all(g0, gm, ids.drop_last(), target) && #[trigger] attach_window_from_special_post(
                &gm,
                &g,
                ids.last(),
                target,
            )
    }
}

pub open spec fn is_special_act(a: ActionV) -> bool {
    a is ToggleSpecial || a is MoveToSpecial || a is ApplyTemplate
}

/// What an action of this group does.
pub open spec fn special_step(a: ActionV, o: DispatchState, n: DispatchState, cfg: DispatchConfig, fx: Seq<EffectV>) -> bool {
    match a {
        ActionV::ToggleSpecial(name) => if opt_view(o.active_special) == Some(name) {
            exists|g1: Grid|
                {
                    &&& #[trigger] attached_all(o.grid, g1, sw_ids(sw_view(o), name), o.grid.focused)
                    &&& urgency_cleared(&g1, &n.grid)
                    &&& n == DispatchState { grid: n.grid, active_special: None, ..o }
                    &&& fx == sync_fx(cfg)
                }
        } else {
            &&& urgency_cleared(&o.grid, &n.grid)
            &&& n == DispatchState {
                grid: n.grid,
                active_special: n.active_special,
                special_workspaces: n.special_workspaces,
                ..o
            }
            &&& opt_view(n.active_special) == Some(name)
            &&& sw_view(n) == with_entry(sw_view(o), name)
            &&& fx == sync_fx(cfg)
        },
        ActionV::MoveToSpecial(name) => match o.grid.focused_window {
            Some(w) => exists|g1: Grid|
                {
                    let sw = with_entry(sw_view(o), name);
                    let i = sw_index(sw, name).unwrap();
                    &&& #[trigger] detach_window_to_special_post(&o.grid, &g1, w)
                    &&& urgency_cleared(&g1, &n.grid)
                    &&& n == DispatchState { grid: n.grid, special_workspaces: n.special_workspaces, ..o }
                    &&& sw_view(n) == sw.update(i, (name, sw[i].1.push(w)))
                    &&& fx == sync_fx(cfg)
                },
            None => n == o && fx.len() == 0,
        },
        ActionV::ApplyTemplate(c, r) => {
            let coord = if c == 255 && r == 255 {
                o.grid.focused
            } else {
                (c, r)
            };
            template_applied(o, n, Seq::empty(), fx, cfg.templates@, coord, true)
        },
        _ => n == o && fx.len() == 0,
    }
}

proof fn lemma_sw_prefix(sw: Seq<(Seq<char>, Seq<WindowId>)>, name: Seq<char>, k: int)
    requires
        0 <= k <= sw.len(),
        sw_index(sw.take(k), name) is Some,
    ensures
        sw_index(sw, name) == sw_index(sw.take(k), name),
    decreases sw.len() - k,
{
    if k < sw.len() {
        assert(sw.take(k + 1).drop_last() =~= sw.take(k));
        lemma_sw_prefix(sw, name, k + 1);
    } else {
        assert(sw.take(k) =~= sw);
    }
}

proof fn lemma_sw_index_bound(sw: Seq<(Seq<char>, Seq<WindowId>)>, name: Seq<char>)
    ensures
        sw_index(sw, name) matches Some(i) ==> 0 <= i < sw.len() && sw[i].0 == name,
    decreases sw.len(),
{
    if sw.len() > 0 {
        lemma_sw_index_bound(sw.drop_last(), name);
    }
}

impl DispatchState {
    /// The position of the special workspace `name`.
    fn find_special(&self, name: &str) -> (r: Option<usize>)
        ensures
            match r {
                Some(i) => sw_index(sw_view(*self), name@) == Some(i as int),
                None => sw_index(sw_view(*self), name@) is None,
            },
    {
        let ghost sw = sw_view(*self);
        let mut i: usize = 0;
        while i < self.special_workspaces.len()
            invariant
                i <= self.special_workspaces@.len(),
                sw == sw_view(*self),
                sw_index(sw.take(i as int), name@) is None,
            decreases self.special_workspaces.len() - i,
        {
            proof {
                assert(sw.take(i as int + 1).drop_last() =~= sw.take(i as int));
            }
            if str_eq(self.special_workspaces[i].0.as_str(), name) {
                proof {
                    assert(sw.take(i as int + 1).last() == sw[i as int]);
                    lemma_sw_prefix(sw, name@, i as int + 1);
                }
                return Some(i);
            }
            i += 1;
        }
        proof {
            assert(sw.take(i as int) =~= sw);
        }
        None
    }

    /// The entry of `name`, added when missing; its position.
    fn ensure_special(&mut self, name: &str) -> (r: usize)
        ensures
            *final(self) == (DispatchState { special_workspaces: final(self).special_workspaces, ..*old(self) }),
            sw_view(*final(self)) == with_entry(sw_view(*old(self)), name@),
            sw_index(sw_view(*final(self)), name@) == Some(r as int),
            r < final(self).special_workspaces@.len(),
    {
        match self.find_special(name) {
            Some(i) => {
                proof {
                    lemma_sw_index_bound(sw_view(*self), name@);
                }
                i
            },
            None => {
                let ghost sw0 = sw_view(*self);
                self.special_workspaces.push((String::from_str(name), Vec::new()));
                proof {
                    assert(sw_view(*self) =~= sw0.push((name@, Seq::empty())));
                    assert(sw_view(*self).drop_last() =~= sw0);
                }
                self.special_workspaces.len() - 1
            },
        }
    }

    fn toggle_special(&mut self, name: String, cfg: &DispatchConfig) -> (fx: Vec<Effect>)
        requires
            old(self).wf(),
        ensures
            final(self).wf(),
            special_step(ActionV::ToggleSpecial(name@), *old(self), *final(self), *cfg, fxv(fx@)),
    {
        let mut fx = no_fx();
        let same = match &self.active_special {
            Some(a) => str_eq(a.as_str(), name.as_str()),
            None => false,
        };
        if same {
            self.active_special = None;
            let target = self.grid.focused;
            let ids: Vec<WindowId> = match self.find_special(name.as_str()) {
                Some(i) => {
                    proof {
                        lemma_sw_index_bound(sw_view(*old(self)), name@);
                    }
                    self.special_workspaces[i].1.clone()
                },
                None => Vec::new(),
            };
            assert(ids@ == sw_ids(sw_view(*old(self)), name@));
            let ghost g0 = self.grid;
            let mut k: usize = 0;
            while k < ids.len()
                invariant
                    self.wf(),
                    k <= ids@.len(),
                    self.grid.focused == target,
                    *self == (DispatchState { grid: self.grid, active_special: None, ..*old(self) }),
                    attached_all(g0, self.grid, ids@.take(k as int), target),
                decreases ids.len() - k,
            {
                let ghost gm = self.grid;
                self.grid.attach_window_from_special(ids[k], target);
                proof {
                    let t = ids@.take(k as int + 1);
                    assert(t.drop_last() =~= ids@.take(k as int));
                    assert(attach_window_from_special_post(&gm, &self.grid, t.last(), target));
                }
                k += 1;
            }
            proof {
                assert(ids@.take(k as int) =~= ids@);
            }
            let ghost g1 = self.grid;
            self.sync_focus(cfg, &mut fx);
            proof {
                assert(attached_all(old(self).grid, g1, sw_ids(sw_view(*old(self)), name@), old(self).grid.focused));
            }
        } else {
            self.active_special = Some(name.clone());
            self.ensure_special(name.as_str());
            self.sync_focus(cfg, &mut fx);
        }
        fx
    }

    fn move_to_special(&mut self, name: String, cfg: &DispatchConfig) -> (fx: Vec<Effect>)
        requires
            old(self).wf(),
        ensures
            final(self).wf(),
            special_step(ActionV::MoveToSpecial(name@), *old(self), *final(self), *cfg, fxv(fx@)),
    {
        let mut fx = no_fx();
        let w = match self.grid.focused_window {
            Some(w) => w,
            None => return fx,
        };
        self.grid.detach_window_to_special(w);
        let ghost g1 = self.grid;
        let ghost sw0 = sw_view(*self);
        let i = self.ensure_special(name.as_str());
        let ghost sw1 = sw_view(*self);
        let ghost ws0 = self.special_workspaces@;
        proof {
            lemma_sw_index_bound(sw1, name@);
        }
        self.special_workspaces[i].1.push(w);
        proof {
            assert(self.special_workspaces@[i as int].1@ == ws0[i as int].1@.push(w));
            assert(forall|j: int| 0 <= j < ws0.len() && j != i ==> self.special_workspaces@[j] == ws0[j]);
            assert(sw_view(*self) =~= sw1.update(i as int, (name@, sw1[i as int].1.push(w))));
        }
        self.sync_focus(cfg, &mut fx);
        proof {
            assert(detach_window_to_special_post(&old(self).grid, &g1, w));
        }
        fx
    }

    /// Run an action of this group.
    pub fn dispatch_special(&mut self, action: Action, cfg: &DispatchConfig) -> (fx: Vec<Effect>)
        requires
            old(self).wf(),
            is_special_act(view_of(action)),
        ensures
            final(self).wf(),
            special_step(view_of(action), *old(self), *final(self), *cfg, fxv(fx@)),
    {
        match action {
            Action::ToggleSpecial(name) => self.toggle_special(name, cfg),
            Action::MoveToSpecial(name) => self.move_to_special(name, cfg),
            Action::ApplyTemplate(c, r) => {
                let coord = if c == 255 && r == 255 {
                    self.grid.focused
                } else {
                    (c, r)
                };
                let mut fx = no_fx();
                self.apply_workspace_template(&cfg.templates, coord, true, &mut fx);
                fx
            },
            _ => no_fx(),
        }
    }
}

} // verus!
