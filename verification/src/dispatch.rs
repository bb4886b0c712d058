//! The event loop's decisions: one structure owns all mutable session
//! state, and each kind of event becomes a pure state change plus the
//! action the surrounding loop must perform.
//!
//! The loop itself, with its readiness waits and device reads, lives
//! outside the engine; nothing here blocks.
use vstd::prelude::*;

verus! {

use crate::layer::FunctionLayer;
use crate::button::ButtonImage;
use crate::geometry::spec_geom_ok;
use crate::layer::spec_virtual_column;
use crate::{BUTTON_SPACING_PX, FN_TAP_THRESHOLD_MS};

/// What the loop must do after a touch decision: focus a compositor
/// workspace, or press or release a button's key codes on the virtual
/// input device (true presses, false releases), always followed by one
/// synchronization event.
pub enum TouchAction {
    FocusWorkspace(u8),
    ToggleKeys(Vec<u16>, bool),
}

/// All mutable session state: the three layers, which one is shown, the
/// Fn tap-cycle position, the pending Fn press, the pending full redraw,
/// and which touch slot holds which button.
pub struct UiState {
    pub layers: Vec<FunctionLayer>,
    pub active_layer: usize,
    pub fn_tap_layer: usize,
    pub fn_press_ms: Option<u64>,
    pub needs_complete_redraw: bool,
    pub touches: Vec<(i32, usize, usize)>,
}

/// The slot's binding: the layer and button it was bound to on
/// touch-down, the first entry that carries the slot.
pub open spec fn spec_touch_get(t: Seq<(i32, usize, usize)>, slot: i32) -> Option<(usize, usize)>
    decreases t.len(),
{
    if t.len() == 0 {
        None
    } else if t[0].0 == slot {
        Some((t[0].1, t[0].2))
    } else {
        spec_touch_get(t.skip(1), slot)
    }
}

/// The touch table without any binding for this slot.
pub open spec fn spec_touch_remove(t: Seq<(i32, usize, usize)>, slot: i32) -> Seq<(i32, usize, usize)>
    decreases t.len(),
{
    if t.len() == 0 {
        Seq::empty()
    } else {
        let rest = spec_touch_remove(t.drop_last(), slot);
        if t.last().0 == slot {
            rest
        } else {
            rest.push(t.last())
        }
    }
}

/// The touch table with this slot now bound to this layer and button.
pub open spec fn spec_touch_upsert(t: Seq<(i32, usize, usize)>, slot: i32, layer: usize, button: usize) -> Seq<(i32, usize, usize)> {
    spec_touch_remove(t, slot).push((slot, layer, button))
}

fn touch_get(t: &Vec<(i32, usize, usize)>, slot: i32) -> (r: Option<(usize, usize)>)
    ensures
        r == spec_touch_get(t@, slot),
{
    let mut i: usize = 0;
    proof {
        assert(t@.skip(0) =~= t@);
    }
    while i < t.len()
        invariant
            i <= t@.len(),
            spec_touch_get(t@, slot) == spec_touch_get(t@.skip(i as int), slot),
        decreases t@.len() - i,
    {
        if t[i].0 == slot {
            return Some((t[i].1, t[i].2));
        }
        proof {
            assert(t@.skip(i as int).skip(1) =~= t@.skip(i + 1));
        }
        i += 1;
    }
    None
}

fn touch_remove(t: &Vec<(i32, usize, usize)>, slot: i32) -> (r: Vec<(i32, usize, usize)>)
    ensures
        r@ == spec_touch_remove(t@, slot),
{
    let mut out: Vec<(i32, usize, usize)> = Vec::new();
    let mut i: usize = 0;
    while i < t.len()
        invariant
            i <= t@.len(),
            out@ == spec_touch_remove(t@.take(i as int), slot),
        decreases t@.len() - i,
    {
        proof {
            assert(t@.take(i + 1).drop_last() =~= t@.take(i as int));
            assert(t@.take(i + 1).last() == t@[i as int]);
        }
        if t[i].0 != slot {
            out.push(t[i]);
        }
        i += 1;
    }
    proof {
        assert(t@.take(t@.len() as int) =~= t@);
    }
    out
}

proof fn lemma_remove_no_slot(t: Seq<(i32, usize, usize)>, slot: i32)
    ensures
        forall|k: int| 0 <= k < spec_touch_remove(t, slot).len()
            ==> (#[trigger] spec_touch_remove(t, slot)[k]).0 != slot,
    decreases t.len(),
{
    if t.len() > 0 {
        lemma_remove_no_slot(t.drop_last(), slot);
        let r0 = spec_touch_remove(t.drop_last(), slot);
        let r = spec_touch_remove(t, slot);
        if t.last().0 != slot {
            assert forall|k: int| 0 <= k < r.len() implies (#[trigger] r[k]).0 != slot by {
                if k < r0.len() {
                    assert(r[k] == r0[k]);
                } else {
                    assert(r[k] == t.last());
                }
            }
        }
    }
}

proof fn lemma_get_absent(t: Seq<(i32, usize, usize)>, slot: i32)
    requires
        forall|k: int| 0 <= k < t.len() ==> (#[trigger] t[k]).0 != slot,
    ensures
        spec_touch_get(t, slot) is None,
    decreases t.len(),
{
    if t.len() > 0 {
        assert(t.skip(1).len() == t.len() - 1);
        assert forall|k: int| 0 <= k < t.skip(1).len()
            implies (#[trigger] t.skip(1)[k]).0 != slot by {
            assert(t.skip(1)[k] == t[k + 1]);
        }
        lemma_get_absent(t.skip(1), slot);
    }
}

proof fn lemma_get_push_absent(t: Seq<(i32, usize, usize)>, e: (i32, usize, usize), slot: i32)
    requires
        forall|k: int| 0 <= k < t.len() ==> (#[trigger] t[k]).0 != slot,
        e.0 == slot,
    ensures
        spec_touch_get(t.push(e), slot) == Some((e.1, e.2)),
    decreases t.len(),
{
    if t.len() == 0 {
        assert(t.push(e)[0] == e);
    } else {
        assert(t.push(e)[0] == t[0]);
        assert(t.push(e).skip(1) =~= t.skip(1).push(e));
        assert forall|k: int| 0 <= k < t.skip(1).len()
            implies (#[trigger] t.skip(1)[k]).0 != slot by {
            assert(t.skip(1)[k] == t[k + 1]);
        }
        lemma_get_push_absent(t.skip(1), e, slot);
    }
}

/// A slot bound on touch-down stays bound to that layer and button until
/// its release removes it, whatever the table held before: binding a slot
/// makes its lookup yield exactly the new binding, and clearing it makes
/// the lookup empty.
pub proof fn lemma_touch_slot_binding(t: Seq<(i32, usize, usize)>, slot: i32, layer: usize, button: usize)
    ensures
        spec_touch_get(spec_touch_upsert(t, slot, layer, button), slot) == Some((layer, button)),
        spec_touch_get(spec_touch_remove(t, slot), slot) is None,
{
    lemma_remove_no_slot(t, slot);
    lemma_get_push_absent(spec_touch_remove(t, slot), (slot, layer, button), slot);
    lemma_get_absent(spec_touch_remove(t, slot), slot);
}

/// How one Fn key edge moves the session: a press remembers its time and
/// peeks at the last layer (when there is more than one); a release
/// within the tap threshold advances the tap cycle by one and shows it,
/// a longer hold falls back to the cycle position unchanged. Every edge
/// but a press on a single-layer stack forces a full redraw on release.
pub open spec fn spec_fn_key_rel(pre: UiState, pressed: bool, now_ms: u64, post: UiState) -> bool {
    &&& post.layers == pre.layers
    &&& post.touches == pre.touches
    &&& if pressed {
        &&& post.fn_press_ms == Some(now_ms)
        &&& post.fn_tap_layer == pre.fn_tap_layer
        &&& if pre.layers@.len() > 1 {
            post.active_layer == pre.layers@.len() - 1 && post.needs_complete_redraw
        } else {
            post.active_layer == pre.active_layer
                && post.needs_complete_redraw == pre.needs_complete_redraw
        }
    } else {
        let was_tap = match pre.fn_press_ms {
            Some(t) => now_ms >= t && now_ms - t < FN_TAP_THRESHOLD_MS,
            None => false,
        };
        &&& post.fn_press_ms is None
        &&& post.needs_complete_redraw
        &&& if was_tap {
            post.fn_tap_layer == ((pre.fn_tap_layer + 1) as int % pre.layers@.len() as int)
                && post.active_layer == post.fn_tap_layer
        } else {
            post.fn_tap_layer == pre.fn_tap_layer && post.active_layer == pre.fn_tap_layer
        }
    }
}

/// A tap, press and release within the threshold, advances the tap cycle
/// by exactly one modulo the layer count and shows that layer; a hold of
/// the threshold or longer releases back to the cycle position, which
/// does not move. This is the only path that changes the active layer
/// outside a configuration reload.
pub proof fn lemma_fn_tap_and_hold(pre: UiState, mid: UiState, post: UiState, t_down: u64, t_up: u64)
    requires
        spec_fn_key_rel(pre, true, t_down, mid),
        spec_fn_key_rel(mid, false, t_up, post),
        t_up >= t_down,
    ensures
        t_up - t_down < FN_TAP_THRESHOLD_MS ==> {
            &&& post.fn_tap_layer == ((pre.fn_tap_layer + 1) as int % pre.layers@.len() as int)
            &&& post.active_layer == post.fn_tap_layer
        },
        t_up - t_down >= FN_TAP_THRESHOLD_MS ==> {
            &&& post.fn_tap_layer == pre.fn_tap_layer
            &&& post.active_layer == pre.fn_tap_layer
        },
{
}

impl UiState {
    /// A fresh session over freshly built layers: the first layer shown,
    /// the tap cycle at its start, everything awaiting a first full
    /// paint. A configuration reload comes back through here, resetting
    /// both indices.
    pub fn new(layers: Vec<FunctionLayer>) -> (r: UiState)
        ensures
            r.layers == layers,
            r.active_layer == 0,
            r.fn_tap_layer == 0,
            r.fn_press_ms is None,
            r.needs_complete_redraw,
            r.touches@.len() == 0,
    {
        UiState {
            layers,
            active_layer: 0,
            fn_tap_layer: 0,
            fn_press_ms: None,
            needs_complete_redraw: true,
            touches: Vec::new(),
        }
    }

    /// Feeds one Fn key edge into the tap/hold state machine.
    pub fn handle_fn_key(&mut self, pressed: bool, now_ms: u64)
        requires
            old(self).layers@.len() >= 1,
            old(self).active_layer < old(self).layers@.len(),
            old(self).fn_tap_layer < old(self).layers@.len(),
        ensures
            spec_fn_key_rel(*old(self), pressed, now_ms, *final(self)),
            final(self).active_layer < final(self).layers@.len(),
            final(self).fn_tap_layer < final(self).layers@.len(),
    {
        if pressed {
            self.fn_press_ms = Some(now_ms);
            if self.layers.len() > 1 {
                self.active_layer = self.layers.len() - 1;
                self.needs_complete_redraw = true;
            }
        } else {
            let was_tap = match self.fn_press_ms {
                Some(t) => now_ms >= t && now_ms - t < FN_TAP_THRESHOLD_MS,
                None => false,
            };
            if was_tap {
                let n = self.layers.len();
                self.fn_tap_layer = (self.fn_tap_layer + 1) % n;
            }
            self.active_layer = self.fn_tap_layer;
            self.fn_press_ms = None;
            self.needs_complete_redraw = true;
        }
    }

    /// The active layer's own well-formedness together with sane panel
    /// geometry: what touch routing needs to hit-test it.
    pub open spec fn spec_touchable(&self, width: int) -> bool {
        &&& self.active_layer < self.layers@.len()
        &&& self.layers@[self.active_layer as int].wf()
        &&& spec_geom_ok(width, 0, BUTTON_SPACING_PX as int,
            self.layers@[self.active_layer as int].virtual_button_count as int)
    }

    /// The workspace index stored for a button, if the active layer's
    /// workspace table names it.
    pub open spec fn spec_ws_idx_for(ids: Seq<(usize, u8)>, button: usize) -> Option<u8>
        decreases ids.len(),
    {
        if ids.len() == 0 {
            None
        } else if ids[0].0 == button {
            Some(ids[0].1)
        } else {
            Self::spec_ws_idx_for(ids.skip(1), button)
        }
    }

    /// Routes a touch-down: hit-tests the active layer, binds the slot to
    /// the struck button, and yields the action, focusing a workspace for
    /// a workspace button, pressing keys for any other. Returns the
    /// struck button index alongside.
    ///
    /// The layers keep their shape: only the struck button's pressed and
    /// repaint flags may move.
    pub fn handle_touch_down(&mut self, slot: i32, x: u32, y: u32, width: u16, height: u16)
        -> (r: (Option<usize>, Option<TouchAction>))
        requires
            old(self).spec_touchable(width as int),
            width >= 1,
            x <= width,
        ensures
            final(self).active_layer == old(self).active_layer,
            final(self).fn_tap_layer == old(self).fn_tap_layer,
            final(self).fn_press_ms == old(self).fn_press_ms,
            final(self).needs_complete_redraw == old(self).needs_complete_redraw,
            final(self).layers@.len() == old(self).layers@.len(),
            // A miss reports the reason a hit test reports it: no button
            // owning the struck column accepts the touch.
            r.0 is None ==> *final(self) == *old(self) && r.1 is None && {
                let layer = old(self).layers@[old(self).active_layer as int];
                let virt = spec_virtual_column(x as int, width as int,
                    layer.virtual_button_count as int);
                forall|i: int| layer.spec_is_column_button(virt, i)
                    ==> !layer.spec_hit_accept(width as int, height as int, x as int, y as int, i)
            },
            r.0 matches Some(b) ==> {
                let la = old(self).active_layer as int;
                let layer = old(self).layers@[la];
                &&& b < layer.buttons@.len()
                &&& layer.spec_is_column_button(spec_virtual_column(x as int, width as int,
                    layer.virtual_button_count as int), b as int)
                &&& layer.spec_hit_accept(width as int, height as int, x as int, y as int, b as int)
                &&& final(self).touches@
                    == spec_touch_upsert(old(self).touches@, slot, old(self).active_layer, b)
                &&& forall|j: int| 0 <= j < old(self).layers@.len() && j != la
                    ==> final(self).layers@[j] == old(self).layers@[j]
                &&& (if layer.buttons@[b as int].1.image is NiriWorkspace {
                    &&& final(self).layers@[la] == layer
                    &&& r.1 == (match Self::spec_ws_idx_for(layer.niri_workspace_ids@, b) {
                        Some(idx) => Some(TouchAction::FocusWorkspace(idx)),
                        None => None::<TouchAction>,
                    })
                } else {
                    let fl = final(self).layers@[la];
                    &&& fl.buttons@.len() == layer.buttons@.len()
                    &&& (forall|k: int| 0 <= k < layer.buttons@.len() && k != b
                        ==> fl.buttons@[k] == layer.buttons@[k])
                    &&& fl.buttons@[b as int].0 == layer.buttons@[b as int].0
                    &&& fl.buttons@[b as int].1.active
                    &&& fl.buttons@[b as int].1.image == layer.buttons@[b as int].1.image
                    &&& fl.buttons@[b as int].1.action == layer.buttons@[b as int].1.action
                    &&& (!layer.buttons@[b as int].1.active ==> fl.buttons@[b as int].1.changed
                        && (r.1 matches Some(a) && a matches TouchAction::ToggleKeys(codes, down)
                            && codes@ == layer.buttons@[b as int].1.action@ && down))
                    &&& (layer.buttons@[b as int].1.active
                        ==> fl.buttons@[b as int] == layer.buttons@[b as int] && r.1 is None)
                })
            },
    {
        let la = self.active_layer;
        let hit = self.layers[la].hit(width, height, x, y, None);
        let b = match hit {
            Some(b) => b,
            None => {
                return (None, None);
            },
        };
        let removed = touch_remove(&self.touches, slot);
        self.touches = removed;
        self.touches.push((slot, la, b));
        if matches!(self.layers[la].buttons[b].1.image, ButtonImage::NiriWorkspace { .. }) {
            let action = match Self::ws_idx_for(&self.layers[la].niri_workspace_ids, b) {
                Some(idx) => Some(TouchAction::FocusWorkspace(idx)),
                None => None,
            };
            (Some(b), action)
        } else {
            // hit acceptance guarantees the button is clickable
            let emit = self.layers[la].buttons[b].1.set_active(true);
            if emit {
                let codes = crate::copy_key_codes(&self.layers[la].buttons[b].1.action);
                (Some(b), Some(TouchAction::ToggleKeys(codes, true)))
            } else {
                (Some(b), None)
            }
        }
    }

    /// Looks a button up in the workspace table.
    fn ws_idx_for(ids: &Vec<(usize, u8)>, button: usize) -> (r: Option<u8>)
        ensures
            r == Self::spec_ws_idx_for(ids@, button),
    {
        let mut i: usize = 0;
        proof {
            assert(ids@.skip(0) =~= ids@);
        }
        while i < ids.len()
            invariant
                i <= ids@.len(),
                Self::spec_ws_idx_for(ids@, button)
                    == Self::spec_ws_idx_for(ids@.skip(i as int), button),
            decreases ids@.len() - i,
        {
            if ids[i].0 == button {
                return Some(ids[i].1);
            }
            proof {
                assert(ids@.skip(i as int).skip(1) =~= ids@.skip(i + 1));
            }
            i += 1;
        }
        None
    }

    /// Routes a touch motion: an unbound slot does nothing; a bound one
    /// re-validates the touch against the bound button's own rectangle
    /// alone, pressing it while inside and releasing it while outside,
    /// never resolving to a neighbouring button.
    pub fn handle_touch_motion(&mut self, slot: i32, x: u32, y: u32, width: u16, height: u16)
        -> (r: Option<TouchAction>)
        requires
            old(self).spec_touchable(width as int),
            width >= 1,
            x <= width,
        ensures
            final(self).touches == old(self).touches,
            final(self).active_layer == old(self).active_layer,
            final(self).fn_tap_layer == old(self).fn_tap_layer,
            final(self).fn_press_ms == old(self).fn_press_ms,
            final(self).needs_complete_redraw == old(self).needs_complete_redraw,
            final(self).layers@.len() == old(self).layers@.len(),
            spec_touch_get(old(self).touches@, slot) is None
                ==> *final(self) == *old(self) && r is None,
            spec_touch_get(old(self).touches@, slot) matches Some((layer, b)) ==> {
                let active = old(self).layers@[old(self).active_layer as int];
                let inside = b < active.buttons@.len()
                    && active.spec_hit_accept(width as int, height as int, x as int, y as int, b as int);
                &&& (forall|j: int| 0 <= j < old(self).layers@.len() && j != layer
                    ==> final(self).layers@[j] == old(self).layers@[j])
                &&& layer < old(self).layers@.len() && b < old(self).layers@[layer as int].buttons@.len() ==> {
                    let ol = old(self).layers@[layer as int];
                    let fl = final(self).layers@[layer as int];
                    &&& fl.buttons@.len() == ol.buttons@.len()
                    &&& (forall|k: int| 0 <= k < ol.buttons@.len() && k != b
                        ==> fl.buttons@[k] == ol.buttons@[k])
                    &&& (ol.buttons@[b as int].1.clickable ==> {
                        &&& fl.buttons@[b as int].1.active == inside
                        &&& fl.buttons@[b as int].1.image == ol.buttons@[b as int].1.image
                        &&& (ol.buttons@[b as int].1.active != inside
                            ==> (r matches Some(a) && a matches TouchAction::ToggleKeys(codes, down)
                                && codes@ == ol.buttons@[b as int].1.action@ && down == inside))
                        &&& (ol.buttons@[b as int].1.active == inside
                            ==> fl.buttons@[b as int] == ol.buttons@[b as int] && r is None)
                    })
                    &&& (!ol.buttons@[b as int].1.clickable
                        ==> fl.buttons@[b as int] == ol.buttons@[b as int] && r is None)
                }
            },
    {
        let bound = touch_get(&self.touches, slot);
        let (layer, b) = match bound {
            Some(lb) => lb,
            None => {
                return None;
            },
        };
        let la = self.active_layer;
        let inside = self.layers[la].hit(width, height, x, y, Some(b)).is_some();
        if layer < self.layers.len() && b < self.layers[layer].buttons.len() {
            let emit = self.layers[layer].buttons[b].1.set_active(inside);
            if emit {
                let codes = crate::copy_key_codes(&self.layers[layer].buttons[b].1.action);
                return Some(TouchAction::ToggleKeys(codes, inside));
            }
        }
        None
    }

    /// Routes a touch release: releases the bound button and clears the
    /// slot's binding; an unbound slot does nothing.
    pub fn handle_touch_up(&mut self, slot: i32) -> (r: Option<TouchAction>)
        ensures
            final(self).active_layer == old(self).active_layer,
            final(self).fn_tap_layer == old(self).fn_tap_layer,
            final(self).fn_press_ms == old(self).fn_press_ms,
            final(self).needs_complete_redraw == old(self).needs_complete_redraw,
            final(self).layers@.len() == old(self).layers@.len(),
            spec_touch_get(old(self).touches@, slot) is None
                ==> *final(self) == *old(self) && r is None,
            spec_touch_get(old(self).touches@, slot) matches Some((layer, b)) ==> {
                &&& final(self).touches@ == spec_touch_remove(old(self).touches@, slot)
                &&& (forall|j: int| 0 <= j < old(self).layers@.len() && j != layer
                    ==> final(self).layers@[j] == old(self).layers@[j])
                &&& layer < old(self).layers@.len() && b < old(self).layers@[layer as int].buttons@.len() ==> {
                    let ol = old(self).layers@[layer as int];
                    let fl = final(self).layers@[layer as int];
                    &&& fl.buttons@.len() == ol.buttons@.len()
                    &&& (forall|k: int| 0 <= k < ol.buttons@.len() && k != b
                        ==> fl.buttons@[k] == ol.buttons@[k])
                    &&& (ol.buttons@[b as int].1.clickable ==> {
                        &&& !fl.buttons@[b as int].1.active
                        &&& (ol.buttons@[b as int].1.active
                            ==> (r matches Some(a) && a matches TouchAction::ToggleKeys(codes, down)
                                && codes@ == ol.buttons@[b as int].1.action@ && !down))
                        &&& (!ol.buttons@[b as int].1.active
                            ==> fl.buttons@[b as int] == ol.buttons@[b as int] && r is None)
                    })
                    &&& (!ol.buttons@[b as int].1.clickable
                        ==> fl.buttons@[b as int] == ol.buttons@[b as int] && r is None)
                }
            },
    {
        let bound = touch_get(&self.touches, slot);
        let (layer, b) = match bound {
            Some(lb) => lb,
            None => {
                return None;
            },
        };
        let mut action: Option<TouchAction> = None;
        if layer < self.layers.len() && b < self.layers[layer].buttons.len() {
            let emit = self.layers[layer].buttons[b].1.set_active(false);
            if emit {
                let codes = crate::copy_key_codes(&self.layers[layer].buttons[b].1.action);
                action = Some(TouchAction::ToggleKeys(codes, false));
            }
        }
        let removed = touch_remove(&self.touches, slot);
        self.touches = removed;
        action
    }
}

/// Marks every battery button of a layer for repaint, as the periodic
/// battery tick does; everything else stays put.
pub fn mark_battery_changed(layer: &mut FunctionLayer)
    ensures
        final(layer).buttons@.len() == old(layer).buttons@.len(),
        forall|k: int| 0 <= k < old(layer).buttons@.len() ==> {
            let ob = old(layer).buttons@[k];
            let fb = #[trigger] final(layer).buttons@[k];
            &&& fb.0 == ob.0
            &&& fb.1.image == ob.1.image
            &&& fb.1.action == ob.1.action
            &&& fb.1.active == ob.1.active
            &&& fb.1.clickable == ob.1.clickable
            &&& fb.1.changed == (ob.1.changed || ob.1.image is Battery)
        },
        final(layer).virtual_button_count == old(layer).virtual_button_count,
        final(layer).displays_time == old(layer).displays_time,
        final(layer).displays_battery == old(layer).displays_battery,
        final(layer).displays_live == old(layer).displays_live,
        final(layer).faster_refresh == old(layer).faster_refresh,
        final(layer).niri_workspace_ids == old(layer).niri_workspace_ids,
        final(layer).source_config == old(layer).source_config,
{
    let n = layer.buttons.len();
    let mut i: usize = 0;
    while i < n
        invariant
            n == layer.buttons@.len(),
            i <= n,
            layer.buttons@.len() == old(layer).buttons@.len(),
            layer.virtual_button_count == old(layer).virtual_button_count,
            layer.displays_time == old(layer).displays_time,
            layer.displays_battery == old(layer).displays_battery,
            layer.displays_live == old(layer).displays_live,
            layer.faster_refresh == old(layer).faster_refresh,
            layer.niri_workspace_ids == old(layer).niri_workspace_ids,
            layer.source_config == old(layer).source_config,
            forall|k: int| i <= k < n
                ==> #[trigger] layer.buttons@[k] == old(layer).buttons@[k],
            forall|k: int| 0 <= k < i ==> {
                let ob = old(layer).buttons@[k];
                let fb = #[trigger] layer.buttons@[k];
                &&& fb.0 == ob.0
                &&& fb.1.image == ob.1.image
                &&& fb.1.action == ob.1.action
                &&& fb.1.active == ob.1.active
                &&& fb.1.clickable == ob.1.clickable
                &&& fb.1.changed == (ob.1.changed || ob.1.image is Battery)
            },
        decreases n - i,
    {
        if matches!(layer.buttons[i].1.image, ButtonImage::Battery { .. }) {
            layer.buttons[i].1.changed = true;
        }
        i += 1;
    }
}

/// Marks every live-module button, volume, brightness or wifi, for
/// repaint, as the periodic live poll does; everything else stays put.
pub fn mark_live_changed(layer: &mut FunctionLayer)
    ensures
        final(layer).buttons@.len() == old(layer).buttons@.len(),
        forall|k: int| 0 <= k < old(layer).buttons@.len() ==> {
            let ob = old(layer).buttons@[k];
            let fb = #[trigger] final(layer).buttons@[k];
            &&& fb.0 == ob.0
            &&& fb.1.image == ob.1.image
            &&& fb.1.action == ob.1.action
            &&& fb.1.active == ob.1.active
            &&& fb.1.clickable == ob.1.clickable
            &&& fb.1.changed == (ob.1.changed
                || ob.1.image is Volume || ob.1.image is Brightness || ob.1.image is Wifi)
        },
        final(layer).virtual_button_count == old(layer).virtual_button_count,
        final(layer).displays_time == old(layer).displays_time,
        final(layer).displays_battery == old(layer).displays_battery,
        final(layer).displays_live == old(layer).displays_live,
        final(layer).faster_refresh == old(layer).faster_refresh,
        final(layer).niri_workspace_ids == old(layer).niri_workspace_ids,
        final(layer).source_config == old(layer).source_config,
{
    let n = layer.buttons.len();
    let mut i: usize = 0;
    while i < n
        invariant
            n == layer.buttons@.len(),
            i <= n,
            layer.buttons@.len() == old(layer).buttons@.len(),
            layer.virtual_button_count == old(layer).virtual_button_count,
            layer.displays_time == old(layer).displays_time,
            layer.displays_battery == old(layer).displays_battery,
            layer.displays_live == old(layer).displays_live,
            layer.faster_refresh == old(layer).faster_refresh,
            layer.niri_workspace_ids == old(layer).niri_workspace_ids,
            layer.source_config == old(layer).source_config,
            forall|k: int| i <= k < n
                ==> #[trigger] layer.buttons@[k] == old(layer).buttons@[k],
            forall|k: int| 0 <= k < i ==> {
                let ob = old(layer).buttons@[k];
                let fb = #[trigger] layer.buttons@[k];
                &&& fb.0 == ob.0
                &&& fb.1.image == ob.1.image
                &&& fb.1.action == ob.1.action
                &&& fb.1.active == ob.1.active
                &&& fb.1.clickable == ob.1.clickable
                &&& fb.1.changed == (ob.1.changed
                    || ob.1.image is Volume || ob.1.image is Brightness || ob.1.image is Wifi)
            },
        decreases n - i,
    {
        let is_live = matches!(layer.buttons[i].1.image,
            ButtonImage::Volume | ButtonImage::Brightness | ButtonImage::Wifi);
        if is_live {
            layer.buttons[i].1.changed = true;
        }
        i += 1;
    }
}

/// Whether anything must be painted this frame: a pending full redraw or
/// any button marked changed.
pub fn needs_redraw(layer: &FunctionLayer, complete: bool) -> (r: bool)
    ensures
        r == (complete || exists|k: int| 0 <= k < layer.buttons@.len()
            && (#[trigger] layer.buttons@[k]).1.changed),
{
    if complete {
        return true;
    }
    let n = layer.buttons.len();
    let mut i: usize = 0;
    while i < n
        invariant
            n == layer.buttons@.len(),
            i <= n,
            forall|k: int| 0 <= k < i ==> !(#[trigger] layer.buttons@[k]).1.changed,
        decreases n - i,
    {
        if layer.buttons[i].1.changed {
            return true;
        }
        i += 1;
    }
    false
}

/// The wait timeout for the next loop iteration, in milliseconds: the
/// time to the next whole-minute tick, capped by the fixed ceiling so
/// periodic refresh is never starved, and by the next scheduled burn-in
/// shift when one is pending.
pub fn next_timeout_ms(now_second: u32, ceiling_ms: u64, pixel_shift_ms: Option<u64>) -> (r: u64)
    requires
        now_second <= 60,
    ensures
        ({
            let tick = ((60 - now_second) * 1000) as u64;
            let base = if tick < ceiling_ms { tick } else { ceiling_ms };
            r == (match pixel_shift_ms {
                Some(p) => if p < base { p } else { base },
                None => base,
            })
        }),
{
    let tick: u64 = ((60 - now_second) as u64) * 1000;
    let mut r = if tick < ceiling_ms { tick } else { ceiling_ms };
    if let Some(p) = pixel_shift_ms {
        if p < r {
            r = p;
        }
    }
    r
}

} // verus!
