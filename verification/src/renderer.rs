//! Repaint planning: which buttons must be painted this frame, where each
//! one's rectangle lies, and which pixel regions of the physical surface
//! become dirty.
//!
//! A full redraw clears the whole surface and repaints every button,
//! yielding one full-frame dirty rectangle. An incremental redraw repaints
//! only buttons whose `changed` flag is set, one dirty rectangle each,
//! clipped to a vertical band that excludes the rounded-corner bleed.
//! Painting itself, with its fonts and colors, happens outside the engine;
//! the plan fixes every coordinate and flag the painter needs.
use vstd::prelude::*;

verus! {

use crate::button::{Button, ButtonImage};
use crate::layer::FunctionLayer;
use crate::geometry::{button_geometry, spec_button_width, spec_geom_ok, spec_left_edge};
use crate::BUTTON_SPACING_PX;

/// Corner radius of a button's rounded rectangle, in pixels.
pub const BUTTON_RADIUS_PX: u64 = 8;

/// A dirty region of the physical surface, in the portrait frame the
/// display hardware addresses: `x1` and `x2` run along the panel's short
/// axis, `y1` and `y2` along its long axis.
#[derive(Clone, Copy, PartialEq, Eq, Structural, Debug)]
pub struct DirtyRect {
    pub x1: u16,
    pub y1: u16,
    pub x2: u16,
    pub y2: u16,
}

/// One button to paint this frame: where, and with which of its states.
#[derive(Clone, Copy, PartialEq, Eq, Structural, Debug)]
pub struct PaintOp {
    /// Index of the button within the layer.
    pub index: usize,
    /// Left edge in landscape pixels, burn-in shift applied.
    pub left_edge: i64,
    /// Width in pixels.
    pub width: u64,
    /// Whether the button is painted pressed.
    pub active: bool,
    /// Whether its background outline is painted at all.
    pub draw_outline: bool,
}

/// Clamps a coordinate into the range the display hardware addresses.
pub open spec fn spec_clamp_u16(v: int) -> u16 {
    if v < 0 {
        0
    } else if v > 0xFFFF {
        0xFFFF
    } else {
        v as u16
    }
}

fn clamp_u16(v: i64) -> (r: u16)
    ensures
        r == spec_clamp_u16(v as int),
{
    if v < 0 {
        0
    } else if v > 0xFFFF {
        0xFFFF
    } else {
        v as u16
    }
}

/// The dirty rectangle one repainted button leaves behind, in the
/// portrait frame: its pixel span across, and along the long axis the
/// band from 15% to 85% of the height widened by the corner radius.
pub open spec fn spec_dirty_rect(height: int, left: int, bw: int) -> DirtyRect {
    let band_low = 3 * height / 20;
    let band_high = 17 * height / 20;
    DirtyRect {
        x1: spec_clamp_u16(height - band_high - BUTTON_RADIUS_PX as int),
        y1: spec_clamp_u16(left),
        x2: spec_clamp_u16(height - band_low + BUTTON_RADIUS_PX as int),
        y2: spec_clamp_u16(left + bw),
    }
}

fn dirty_rect_for(height: u64, left: i64, bw: u64) -> (r: DirtyRect)
    requires
        height <= 0xFFFF,
        -0x40000 <= left <= 0x40000,
        bw <= 0xFFFF,
    ensures
        r == spec_dirty_rect(height as int, left as int, bw as int),
{
    let band_low: i64 = (3 * height / 20) as i64;
    let band_high: i64 = (17 * height / 20) as i64;
    DirtyRect {
        x1: clamp_u16(height as i64 - band_high - BUTTON_RADIUS_PX as i64),
        y1: clamp_u16(left),
        x2: clamp_u16(height as i64 - band_low + BUTTON_RADIUS_PX as i64),
        y2: clamp_u16(left + bw as i64),
    }
}

/// The paint command for button `i` of the layer: its span's geometry
/// shifted by the burn-in offset, and the outline decision, which paints
/// a background only behind pressable, non-spacer buttons that are
/// pressed or whose outlines the configuration asks for.
pub open spec fn spec_paint_op(s: Seq<(usize, Button)>, i: int, count: int, width: int,
    margin: int, shift_x: int, outlines: bool) -> PaintOp {
    let start = s[i].0 as int;
    let end = if i + 1 < s.len() { s[i + 1].0 as int } else { count };
    PaintOp {
        index: i as usize,
        left_edge: (spec_left_edge(start, width, margin, BUTTON_SPACING_PX as int, count)
            + shift_x + margin / 2) as i64,
        width: spec_button_width(start, end, width, margin, BUTTON_SPACING_PX as int, count) as u64,
        active: s[i].1.active,
        draw_outline: !(s[i].1.image is Spacer) && s[i].1.clickable
            && (outlines || s[i].1.active),
    }
}

/// Whether button `i` is painted this frame.
pub open spec fn spec_painted(s: Seq<(usize, Button)>, complete: bool, i: int) -> bool {
    complete || s[i].1.changed
}

/// The paint commands for the first `i` buttons, in index order, keeping
/// exactly the buttons painted this frame.
pub open spec fn spec_plan_ops(s: Seq<(usize, Button)>, complete: bool, count: int, width: int,
    margin: int, shift_x: int, outlines: bool, i: int) -> Seq<PaintOp>
    decreases i,
{
    if i <= 0 {
        Seq::empty()
    } else {
        let rest = spec_plan_ops(s, complete, count, width, margin, shift_x, outlines, i - 1);
        if spec_painted(s, complete, i - 1) {
            rest.push(spec_paint_op(s, i - 1, count, width, margin, shift_x, outlines))
        } else {
            rest
        }
    }
}

impl FunctionLayer {
    /// Plans one frame: decides which buttons are painted, computes their
    /// rectangles, clears their `changed` flags, and returns the paint
    /// commands together with the dirty regions to hand to the display.
    ///
    /// On a full redraw every button is painted and the single dirty
    /// region covers the whole surface; otherwise only changed buttons
    /// are painted, one dirty region each.
    pub fn plan_draw(&mut self, width: u64, height: u64, shift_x: i64, shift_margin: u64,
        show_button_outlines: bool, complete_redraw: bool) -> (r: (Vec<PaintOp>, Vec<DirtyRect>))
        requires
            old(self).wf(),
            spec_geom_ok(width as int, shift_margin as int, BUTTON_SPACING_PX as int,
                old(self).virtual_button_count as int),
            height <= 0xFFFF,
            -0x10000 <= shift_x <= 0x10000,
        ensures
            final(self).wf(),
            final(self).buttons@.len() == old(self).buttons@.len(),
            final(self).virtual_button_count == old(self).virtual_button_count,
            final(self).displays_time == old(self).displays_time,
            final(self).displays_battery == old(self).displays_battery,
            final(self).displays_live == old(self).displays_live,
            final(self).faster_refresh == old(self).faster_refresh,
            final(self).niri_workspace_ids == old(self).niri_workspace_ids,
            final(self).source_config == old(self).source_config,
            // Painted buttons come out clean; nothing else about a button
            // moves.
            forall|k: int| 0 <= k < old(self).buttons@.len() ==> {
                &&& (#[trigger] final(self).buttons@[k]).0 == old(self).buttons@[k].0
                &&& final(self).buttons@[k].1.image == old(self).buttons@[k].1.image
                &&& final(self).buttons@[k].1.action == old(self).buttons@[k].1.action
                &&& final(self).buttons@[k].1.active == old(self).buttons@[k].1.active
                &&& final(self).buttons@[k].1.clickable == old(self).buttons@[k].1.clickable
                &&& final(self).buttons@[k].1.changed
                    == (old(self).buttons@[k].1.changed
                        && !spec_painted(old(self).buttons@, complete_redraw, k))
            },
            // Exactly the painted buttons appear, in index order, with
            // their computed geometry.
            r.0@ =~= spec_plan_ops(old(self).buttons@, complete_redraw,
                old(self).virtual_button_count as int, width as int, shift_margin as int,
                shift_x as int, show_button_outlines, old(self).buttons@.len() as int),
            // A full redraw dirties the whole frame; an incremental one
            // dirties one clipped band per painted button.
            complete_redraw ==> r.1@ =~= seq![DirtyRect {
                x1: 0u16, y1: 0u16, x2: height as u16, y2: width as u16 }],
            !complete_redraw ==> r.1@.len() == r.0@.len()
                && (forall|k: int| 0 <= k < r.1@.len() ==> #[trigger] r.1@[k]
                    == spec_dirty_rect(height as int, r.0@[k].left_edge as int,
                        r.0@[k].width as int)),
    {
        let ghost orig = old(self).buttons@;
        let count = self.virtual_button_count;
        let mut ops: Vec<PaintOp> = Vec::new();
        let mut rects: Vec<DirtyRect> = Vec::new();
        if complete_redraw {
            rects.push(DirtyRect { x1: 0, y1: 0, x2: height as u16, y2: width as u16 });
        }
        let n = self.buttons.len();
        let mut i: usize = 0;
        while i < n
            invariant
                n == self.buttons@.len(),
                i <= n,
                count == old(self).virtual_button_count,
                self.virtual_button_count == old(self).virtual_button_count,
                self.displays_time == old(self).displays_time,
                self.displays_battery == old(self).displays_battery,
                self.displays_live == old(self).displays_live,
                self.faster_refresh == old(self).faster_refresh,
                self.niri_workspace_ids == old(self).niri_workspace_ids,
                self.source_config == old(self).source_config,
                orig == old(self).buttons@,
                orig.len() == n,
                old(self).wf(),
                spec_geom_ok(width as int, shift_margin as int, BUTTON_SPACING_PX as int,
                    count as int),
                height <= 0xFFFF,
                -0x10000 <= shift_x <= 0x10000,
                forall|k: int| 0 <= k < n ==> {
                    &&& (#[trigger] self.buttons@[k]).0 == orig[k].0
                    &&& self.buttons@[k].1.image == orig[k].1.image
                    &&& self.buttons@[k].1.action == orig[k].1.action
                    &&& self.buttons@[k].1.active == orig[k].1.active
                    &&& self.buttons@[k].1.clickable == orig[k].1.clickable
                },
                forall|k: int| i <= k < n
                    ==> (#[trigger] self.buttons@[k]).1.changed == orig[k].1.changed,
                forall|k: int| 0 <= k < i ==> (#[trigger] self.buttons@[k]).1.changed
                    == (orig[k].1.changed && !spec_painted(orig, complete_redraw, k)),
                ops@ =~= spec_plan_ops(orig, complete_redraw, count as int, width as int,
                    shift_margin as int, shift_x as int, show_button_outlines, i as int),
                complete_redraw ==> rects@ =~= seq![DirtyRect {
                    x1: 0u16, y1: 0u16, x2: height as u16, y2: width as u16 }],
                !complete_redraw ==> rects@.len() == ops@.len()
                    && (forall|k: int| 0 <= k < rects@.len() ==> #[trigger] rects@[k]
                        == spec_dirty_rect(height as int, ops@[k].left_edge as int,
                            ops@[k].width as int)),
            decreases n - i,
        {
            let painted = complete_redraw || self.buttons[i].1.changed;
            if painted {
                let start = self.buttons[i].0;
                let end = if i + 1 < n {
                    self.buttons[i + 1].0
                } else {
                    count
                };
                let (left0, bw) = button_geometry(start, end, count, width, shift_margin,
                    BUTTON_SPACING_PX);
                let left: i64 = left0 as i64 + shift_x + (shift_margin / 2) as i64;
                let active = self.buttons[i].1.active;
                let draw_outline = !matches!(self.buttons[i].1.image, ButtonImage::Spacer)
                    && self.buttons[i].1.clickable
                    && (show_button_outlines || active);
                ops.push(PaintOp { index: i, left_edge: left, width: bw, active, draw_outline });
                if !complete_redraw {
                    rects.push(dirty_rect_for(height, left, bw));
                }
                self.buttons[i].1.changed = false;
            }
            i += 1;
        }
        (ops, rects)
    }
}

} // verus!
