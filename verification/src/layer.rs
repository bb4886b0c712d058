//! Layers: ordered rows of buttons laid out along a virtual coordinate
//! axis with stretch-based widths.
//!
//! Every button occupies a half-open span of virtual width units; the
//! running offset before a button is its `virtual_start_offset`, and the
//! final running offset is the layer's `virtual_button_count`.
use vstd::prelude::*;

verus! {

use crate::button::{
    Button, ButtonImage, spec_button_outcome, spec_live_choice, spec_needs_faster_refresh,
    spec_parse_battery_mode, spec_resolve_time_format, strftime_items_of,
};
use crate::config::{ButtonConfig, ESC_PANEL_WIDTH_PX, spec_is_esc_config};
use crate::niri::{spec_opt_view, NiriState, Workspace};
use crate::geometry::{
    button_geometry, lemma_div_sum_le, lemma_geometry_bound, spec_button_width,
    spec_geom_ok, spec_left_edge, spec_slot_step, spec_width_num,
};
use crate::BUTTON_SPACING_PX;
use vstd::arithmetic::div_mod::{
    lemma_fundamental_div_mod, lemma_fundamental_div_mod_converse,
    lemma_div_is_ordered, lemma_div_multiples_vanish,
};

/// One switchable row of buttons, with the flags the event loop consults
/// to decide when the row must be repainted.
pub struct FunctionLayer {
    pub displays_time: bool,
    pub displays_battery: bool,
    pub displays_live: bool,
    pub buttons: Vec<(usize, Button)>,
    pub virtual_button_count: usize,
    pub faster_refresh: bool,
    pub niri_workspace_ids: Vec<(usize, u8)>,
    pub source_config: Vec<ButtonConfig>,
}

/// The virtual width of one configured button: its declared stretch,
/// defaulting to 1 and clamped up to at least 1.
pub open spec fn spec_stretch(c: ButtonConfig) -> int {
    match c.stretch {
        Some(s) => if s < 1 { 1int } else { s as int },
        None => 1int,
    }
}

/// The virtual start offset of button `i`: the sum of the stretches of
/// the buttons before it.
pub open spec fn spec_offset(cfg: Seq<ButtonConfig>, i: int) -> int
    decreases i,
{
    if i <= 0 {
        0
    } else {
        spec_offset(cfg, i - 1) + spec_stretch(cfg[i - 1])
    }
}

/// Offsets grow strictly along the row.
pub proof fn lemma_offset_monotone(cfg: Seq<ButtonConfig>, i: int, j: int)
    requires
        0 <= i < j <= cfg.len(),
    ensures
        spec_offset(cfg, i) < spec_offset(cfg, j),
    decreases j - i,
{
    if j == i + 1 {
        assert(spec_stretch(cfg[i]) >= 1);
    } else {
        lemma_offset_monotone(cfg, i, j - 1);
        assert(spec_stretch(cfg[j - 1]) >= 1);
    }
}

impl FunctionLayer {
    /// A layer's structural invariant: at least one button, the first at
    /// virtual offset zero, offsets strictly increasing, and every offset
    /// inside the virtual width of the row, so the last button's span,
    /// which ends at `virtual_button_count`, is never empty.
    pub open spec fn wf(&self) -> bool {
        &&& self.buttons@.len() >= 1
        &&& self.buttons@[0].0 == 0
        &&& forall|i: int, j: int| 0 <= i < j < self.buttons@.len()
            ==> self.buttons@[i].0 < self.buttons@[j].0
        &&& forall|i: int| 0 <= i < self.buttons@.len()
            ==> #[trigger] self.buttons@[i].0 < self.virtual_button_count
    }

    /// The virtual span of button `i`: it starts at its own offset and
    /// ends at the next button's, or at the row's end for the last one.
    pub open spec fn spec_span_end(&self, i: int) -> int {
        if i + 1 < self.buttons@.len() {
            self.buttons@[i + 1].0 as int
        } else {
            self.virtual_button_count as int
        }
    }
}

/// The vertical band of the panel that accepts touches: the middle 80%,
/// one tenth of the height cut off at either edge.
pub open spec fn spec_in_touch_band(y: int, height: int) -> bool {
    10 * y >= height && 10 * y <= 9 * height
}

/// The virtual column a touch at `x` lands in: the panel is divided into
/// `count` equal columns.
pub open spec fn spec_virtual_column(x: int, width: int, count: int) -> int {
    x * count / width
}

impl FunctionLayer {
    /// Button `i` owns the virtual column `virt`: its offset is the last
    /// one at or before that column.
    pub open spec fn spec_is_column_button(&self, virt: int, i: int) -> bool {
        &&& 0 <= i < self.buttons@.len()
        &&& self.buttons@[i].0 <= virt
        &&& i + 1 < self.buttons@.len() ==> self.buttons@[i + 1].0 > virt
    }

    /// The touch at `x` falls within button `i`'s computed pixel span.
    /// Hit testing reserves no burn-in margin.
    pub open spec fn spec_in_span(&self, width: int, x: int, i: int) -> bool {
        let s = self.buttons@[i].0 as int;
        let e = self.spec_span_end(i);
        let left = spec_left_edge(s, width, 0, BUTTON_SPACING_PX as int, self.virtual_button_count as int);
        let bw = spec_button_width(s, e, width, 0, BUTTON_SPACING_PX as int, self.virtual_button_count as int);
        left <= x <= left + bw
    }

    /// A touch at `(x, y)` is accepted for button `i`: the button can be
    /// pressed, the touch is in the vertical band, and inside the span.
    pub open spec fn spec_hit_accept(&self, width: int, height: int, x: int, y: int, i: int) -> bool {
        &&& self.buttons@[i].1.clickable
        &&& spec_in_touch_band(y, height)
        &&& self.spec_in_span(width, x, i)
    }

    /// At most one button owns any virtual column.
    pub proof fn lemma_column_button_unique(&self, virt: int, i: int, j: int)
        requires
            self.wf(),
            self.spec_is_column_button(virt, i),
            self.spec_is_column_button(virt, j),
        ensures
            i == j,
    {
        if i < j {
            assert(self.buttons@[i + 1].0 <= self.buttons@[j].0);
        }
        if j < i {
            assert(self.buttons@[j + 1].0 <= self.buttons@[i].0);
        }
    }

    /// Maps a touch point to the button it presses, or `None` when it
    /// strikes nothing pressable.
    ///
    /// Without a pinned index the virtual column under `x` picks the
    /// candidate button; with one (a motion event re-validating an earlier
    /// press) that button alone is re-checked against its own rectangle,
    /// so a drifting touch can never activate a neighbour.
    pub fn hit(&self, width: u16, height: u16, x: u32, y: u32, pinned: Option<usize>) -> (r: Option<usize>)
        requires
            self.wf(),
            width >= 1,
            x <= width,
            spec_geom_ok(width as int, 0, BUTTON_SPACING_PX as int, self.virtual_button_count as int),
        ensures
            pinned matches Some(p) ==> r == (
                if p < self.buttons@.len()
                    && self.spec_hit_accept(width as int, height as int, x as int, y as int, p as int) {
                    Some(p)
                } else {
                    None::<usize>
                }),
            pinned is None ==> {
                let virt = spec_virtual_column(x as int, width as int, self.virtual_button_count as int);
                &&& (r matches Some(i) ==> self.spec_is_column_button(virt, i as int)
                    && self.spec_hit_accept(width as int, height as int, x as int, y as int, i as int))
                &&& (r is None ==> forall|i: int| self.spec_is_column_button(virt, i)
                    ==> !self.spec_hit_accept(width as int, height as int, x as int, y as int, i))
            },
    {
        let count = self.virtual_button_count;
        let ghost virt_g = spec_virtual_column(x as int, width as int, count as int);
        let i = match pinned {
            Some(p) => p,
            None => {
                proof {
                    assert((x as int) * (count as int) <= (width as int) * (count as int)
                        && (width as int) * (count as int) <= 0xFFFF * 0x10000)
                        by (nonlinear_arith)
                        requires x <= width, width <= 0xFFFF, 0 <= count <= 0x10000, 0 <= x;
                    lemma_div_is_ordered((x as int) * (count as int),
                        (width as int) * (count as int), width as int);
                    lemma_div_multiples_vanish(count as int, width as int);
                    assert((width as int) * (count as int) == (width as int) * (count as int));
                }
                let virt_w: u64 = (x as u64) * (count as u64) / (width as u64);
                assert(virt_w <= count as u64);
                let virt = virt_w as usize;
                let n = self.buttons.len();
                let mut j: usize = 0;
                while j + 1 < n && self.buttons[j + 1].0 <= virt
                    invariant
                        self.wf(),
                        n == self.buttons@.len(),
                        j < n,
                        virt == virt_g,
                        self.buttons@[j as int].0 <= virt,
                    decreases self.buttons@.len() - j,
                {
                    j += 1;
                }
                proof {
                    assert(self.spec_is_column_button(virt_g, j as int));
                }
                j
            },
        };
        if i >= self.buttons.len() {
            return None;
        }
        if !self.buttons[i].1.clickable {
            proof {
                if pinned is None {
                    assert forall|k: int| self.spec_is_column_button(virt_g, k)
                        implies !self.spec_hit_accept(width as int, height as int, x as int, y as int, k) by {
                        self.lemma_column_button_unique(virt_g, k, i as int);
                    }
                }
            }
            return None;
        }
        let y10: u64 = 10 * (y as u64);
        if y10 < height as u64 || y10 > 9 * (height as u64) {
            proof {
                if pinned is None {
                    assert forall|k: int| self.spec_is_column_button(virt_g, k)
                        implies !self.spec_hit_accept(width as int, height as int, x as int, y as int, k) by {
                        self.lemma_column_button_unique(virt_g, k, i as int);
                    }
                }
            }
            return None;
        }
        let start = self.buttons[i].0;
        let end = if i + 1 < self.buttons.len() {
            self.buttons[i + 1].0
        } else {
            count
        };
        let (left, bw) = button_geometry(start, end, count, width as u64, 0, BUTTON_SPACING_PX);
        if (x as u64) < left || (x as u64) > left + bw {
            proof {
                if pinned is None {
                    assert forall|k: int| self.spec_is_column_button(virt_g, k)
                        implies !self.spec_hit_accept(width as int, height as int, x as int, y as int, k) by {
                        self.lemma_column_button_unique(virt_g, k, i as int);
                    }
                }
            }
            return None;
        }
        Some(i)
    }
}

/// A touch strictly inside a pressable button's computed span, within
/// the vertical touch band, is accepted for that same button and no
/// other: the virtual column under any such `x` is owned by the button
/// itself, so hit testing with no pinned index picks it, never a
/// neighbour.
pub proof fn lemma_strictly_inside_resolves(l: &FunctionLayer, width: int, height: int, i: int, x: int, y: int)
    requires
        l.wf(),
        width >= 1,
        spec_geom_ok(width, 0, BUTTON_SPACING_PX as int, l.virtual_button_count as int),
        0 <= i < l.buttons@.len(),
        l.buttons@[i].1.clickable,
        spec_in_touch_band(y, height),
        spec_left_edge(l.buttons@[i].0 as int, width, 0, BUTTON_SPACING_PX as int,
            l.virtual_button_count as int) < x,
        x < spec_left_edge(l.buttons@[i].0 as int, width, 0, BUTTON_SPACING_PX as int,
            l.virtual_button_count as int)
            + spec_button_width(l.buttons@[i].0 as int, l.spec_span_end(i), width, 0,
                BUTTON_SPACING_PX as int, l.virtual_button_count as int),
    ensures
        l.spec_is_column_button(spec_virtual_column(x, width, l.virtual_button_count as int), i),
        l.spec_hit_accept(width, height, x, y, i),
        forall|j: int| l.spec_is_column_button(
            spec_virtual_column(x, width, l.virtual_button_count as int), j) ==> j == i,
{
    let virt_c = spec_virtual_column(x, width, l.virtual_button_count as int);
    lemma_inside_column(l, width, i, x);
    assert forall|j: int| l.spec_is_column_button(virt_c, j) implies j == i by {
        l.lemma_column_button_unique(virt_c, j, i);
    }
}

/// The column under a point strictly inside a button's span belongs to
/// that button.
proof fn lemma_inside_column(l: &FunctionLayer, width: int, i: int, x: int)
    requires
        l.wf(),
        width >= 1,
        spec_geom_ok(width, 0, BUTTON_SPACING_PX as int, l.virtual_button_count as int),
        0 <= i < l.buttons@.len(),
        spec_left_edge(l.buttons@[i].0 as int, width, 0, BUTTON_SPACING_PX as int,
            l.virtual_button_count as int) < x,
        x < spec_left_edge(l.buttons@[i].0 as int, width, 0, BUTTON_SPACING_PX as int,
            l.virtual_button_count as int)
            + spec_button_width(l.buttons@[i].0 as int, l.spec_span_end(i), width, 0,
                BUTTON_SPACING_PX as int, l.virtual_button_count as int),
    ensures
        l.spec_is_column_button(spec_virtual_column(x, width, l.virtual_button_count as int), i),
{
    let s = l.buttons@[i].0 as int;
    let e = l.spec_span_end(i);
    let c = l.virtual_button_count as int;
    let sp = BUTTON_SPACING_PX as int;
    let u = spec_slot_step(width, 0, sp);
    let n = spec_width_num(width, 0, sp, c);
    let left = spec_left_edge(s, width, 0, sp, c);
    let bw = spec_button_width(s, e, width, 0, sp, c);
    let virt = spec_virtual_column(x, width, c);

    // The column under x is at least s: x exceeds the floored left edge,
    // so x * c exceeds s * (width + spacing) and hence s * width.
    lemma_fundamental_div_mod(s * u, c);
    assert(left * c > s * u - c) by (nonlinear_arith)
        requires s * u == c * left + (s * u) % c, 0 <= (s * u) % c < c, c >= 1;
    assert(x * c >= (left + 1) * c) by (nonlinear_arith)
        requires x >= left + 1, c >= 1;
    assert((left + 1) * c == left * c + c) by (nonlinear_arith);
    assert(s * u >= s * width) by (nonlinear_arith)
        requires s >= 0, u >= width;
    assert(x * c > s * width);
    lemma_div_is_ordered(s * width, x * c, width);
    lemma_div_multiples_vanish(s, width);
    assert((width * s) / width == s);
    assert(s * width == width * s) by (nonlinear_arith);
    assert(virt >= s);

    // And strictly below the span's end: x stays under the floored right
    // edge, so x * c stays under e * width.
    if i + 1 < l.buttons@.len() {
        lemma_div_sum_le(s * u, n + (e - s - 1) * u, c);
        assert(s * u + (n + (e - s - 1) * u) == (e - 1) * u + n) by (nonlinear_arith);
        assert((e - 1) * u + n <= e * width) by (nonlinear_arith)
            requires
                e <= c,
                sp >= 0,
                u == width + sp,
                n == width - sp * (c - 1),
                width >= 0;
        lemma_div_is_ordered((e - 1) * u + n, e * width, c);
        assert(left + bw <= (e * width) / c);
        assert(x + 1 <= (e * width) / c);
        lemma_fundamental_div_mod(e * width, c);
        assert((x + 1) * c <= e * width) by (nonlinear_arith)
            requires
                x + 1 <= (e * width) / c,
                e * width == c * ((e * width) / c) + (e * width) % c,
                0 <= (e * width) % c < c,
                c >= 1;
        assert(x * c <= e * width - c) by (nonlinear_arith)
            requires (x + 1) * c <= e * width, c >= 1;
        assert(x * c <= e * width - 1);
        // e * width - 1 divided by width is e - 1.
        assert(e * width - 1 == (e - 1) * width + (width - 1)) by (nonlinear_arith);
        lemma_fundamental_div_mod_converse(e * width - 1, width, e - 1, width - 1);
        lemma_div_is_ordered(x * c, e * width - 1, width);
        assert(virt <= e - 1);
        assert(l.buttons@[i + 1].0 == e);
    }
}

/// An entry on which layer construction fails: a clock whose format the
/// outside parser rejects, or, with a power-supply device at hand, a
/// battery entry whose display mode is invalid.
pub open spec fn spec_entry_may_fail(c: ButtonConfig, dev: Option<&str>) -> bool {
    if c.text is Some || c.icon is Some {
        false
    } else {
        match c.time {
            Some(t) => strftime_items_of(spec_resolve_time_format(t@)) is None,
            None => match c.battery {
                Some(m) => dev is Some && spec_parse_battery_mode(m@) is None,
                None => false,
            },
        }
    }
}

/// What first construction makes of a configuration: one button per
/// entry with the outcome its entry describes, offsets by the running sum
/// of stretches, and the periodic-refresh flags read off the entries.
pub open spec fn spec_layer_from(cfg: Seq<ButtonConfig>, dev: Option<&str>, layer: FunctionLayer) -> bool {
    &&& layer.wf()
    &&& layer.buttons@.len() == cfg.len()
    &&& forall|i: int| 0 <= i < cfg.len()
        ==> #[trigger] layer.buttons@[i].0 == spec_offset(cfg, i)
    &&& layer.virtual_button_count == spec_offset(cfg, cfg.len() as int)
    &&& forall|i: int| 0 <= i < cfg.len()
        ==> spec_button_outcome(&cfg[i], dev, Some(#[trigger] layer.buttons@[i].1))
    &&& layer.displays_time == (exists|i: int| 0 <= i < cfg.len()
        && (#[trigger] cfg[i].time) is Some)
    &&& layer.displays_battery == (exists|i: int| 0 <= i < cfg.len()
        && (#[trigger] cfg[i].battery) is Some)
    &&& layer.displays_live == (exists|i: int| 0 <= i < cfg.len()
        && spec_live_choice(&cfg[i]) is Some)
    &&& layer.faster_refresh == (exists|i: int| 0 <= i < layer.buttons@.len()
        && spec_needs_faster_refresh(&layer.buttons@[i].1))
    &&& layer.niri_workspace_ids@.len() == 0
}

impl FunctionLayer {
    /// Builds a layer from its configuration entries, one button per
    /// entry, assigning virtual offsets by the running sum of stretches.
    ///
    /// `None` is a fatal configuration error: an empty layer, an invalid
    /// entry, or a row too wide to address.
    pub fn with_config(cfg: &Vec<ButtonConfig>, battery_device: Option<&str>) -> (r: Option<FunctionLayer>)
        ensures
            cfg@.len() == 0 ==> r is None,
            r is None ==> cfg@.len() == 0
                || (exists|i: int| 0 <= i < cfg@.len() && spec_entry_may_fail(cfg@[i], battery_device))
                || spec_offset(cfg@, cfg@.len() as int) > usize::MAX,
            r matches Some(layer) ==> spec_layer_from(cfg@, battery_device, layer)
                && layer.source_config@.len() == 0,
    {
        if cfg.len() == 0 {
            return None;
        }
        let mut displays_time = false;
        let mut displays_battery = false;
        let mut displays_live = false;
        let mut buttons: Vec<(usize, Button)> = Vec::new();
        let mut virtual_button_count: usize = 0;
        let mut k: usize = 0;
        while k < cfg.len()
            invariant
                k <= cfg@.len(),
                cfg@.len() >= 1,
                buttons@.len() == k,
                virtual_button_count == spec_offset(cfg@, k as int),
                forall|i: int| 0 <= i < k ==> #[trigger] buttons@[i].0 == spec_offset(cfg@, i),
                forall|i: int| 0 <= i < k
                    ==> spec_button_outcome(&cfg@[i], battery_device, Some(#[trigger] buttons@[i].1)),
                displays_time == (exists|i: int| 0 <= i < k && (#[trigger] cfg@[i].time) is Some),
                displays_battery == (exists|i: int| 0 <= i < k && (#[trigger] cfg@[i].battery) is Some),
                displays_live == (exists|i: int| 0 <= i < k && spec_live_choice(&cfg@[i]) is Some),
            decreases cfg@.len() - k,
        {
            let entry = &cfg[k];
            let stretch = match entry.stretch {
                Some(s) => if s < 1 { 1 } else { s },
                None => 1,
            };
            if virtual_button_count > usize::MAX - stretch {
                proof {
                    assert(spec_offset(cfg@, k + 1) > usize::MAX);
                    if k + 1 < cfg@.len() {
                        lemma_offset_monotone(cfg@, k + 1, cfg@.len() as int);
                    }
                }
                return None;
            }
            let b = match Button::with_config(entry, battery_device) {
                Some(b) => b,
                None => {
                    assert(spec_entry_may_fail(cfg@[k as int], battery_device));
                    return None;
                },
            };
            if entry.time.is_some() {
                displays_time = true;
            }
            if entry.battery.is_some() {
                displays_battery = true;
            }
            if matches!(entry.volume, Some(true)) || matches!(entry.brightness, Some(true))
                || matches!(entry.wifi, Some(true)) {
                displays_live = true;
            }
            buttons.push((virtual_button_count, b));
            virtual_button_count = virtual_button_count + stretch;
            k += 1;
        }
        let mut faster_refresh = false;
        let mut k2: usize = 0;
        while k2 < buttons.len()
            invariant
                k2 <= buttons@.len(),
                faster_refresh == (exists|i: int| 0 <= i < k2
                    && spec_needs_faster_refresh(&buttons@[i].1)),
            decreases buttons@.len() - k2,
        {
            if buttons[k2].1.needs_faster_refresh() {
                faster_refresh = true;
            }
            k2 += 1;
        }
        proof {
            assert(buttons@[0].0 == spec_offset(cfg@, 0));
            assert forall|i: int, j: int| 0 <= i < j < buttons@.len()
                implies buttons@[i].0 < buttons@[j].0 by {
                lemma_offset_monotone(cfg@, i, j);
            }
            assert forall|i: int| 0 <= i < buttons@.len()
                implies #[trigger] buttons@[i].0 < virtual_button_count by {
                lemma_offset_monotone(cfg@, i, cfg@.len() as int);
            }
        }
        Some(FunctionLayer {
            displays_time,
            displays_battery,
            displays_live,
            buttons,
            virtual_button_count,
            faster_refresh,
            niri_workspace_ids: Vec::new(),
            source_config: Vec::new(),
        })
    }
}

/// The virtual width one entry takes in a rebuild, clamped up to 1 like
/// at first construction.
pub open spec fn spec_rebuild_stretch(c: ButtonConfig) -> int {
    spec_stretch(c)
}

/// The shape the information layer takes when its template is expanded
/// against `ws` workspaces: the running virtual offset, one offset per
/// button, and for every workspace button the pair of its button index
/// and its position in `ws`. A workspace entry expands to one
/// single-width button per workspace; every other entry stays one button
/// of its own stretch.
pub open spec fn spec_info_shape(cfg: Seq<ButtonConfig>, ws: Seq<Workspace>, i: int)
    -> (int, Seq<int>, Seq<(int, int)>)
    decreases i,
{
    if i <= 0 {
        (0, Seq::empty(), Seq::empty())
    } else {
        let (virt, offs, m) = spec_info_shape(cfg, ws, i - 1);
        let c = cfg[i - 1];
        if c.niri_workspaces == Some(true) {
            (
                virt + ws.len(),
                offs + Seq::new(ws.len(), |k: int| virt + k),
                m + Seq::new(ws.len(), |k: int| (offs.len() + k, k)),
            )
        } else {
            (virt + spec_rebuild_stretch(c), offs.push(virt), m)
        }
    }
}

/// The expanded shape is well formed: offsets start at zero, grow
/// strictly, and stay under the final running offset.
pub proof fn lemma_info_shape_wf(cfg: Seq<ButtonConfig>, ws: Seq<Workspace>, i: int)
    requires
        0 <= i <= cfg.len(),
    ensures
        ({
            let (virt, offs, m) = spec_info_shape(cfg, ws, i);
            &&& 0 <= virt
            &&& offs.len() == 0 ==> virt == 0
            &&& offs.len() >= 1 ==> offs[0] == 0
            &&& forall|a: int, b: int| 0 <= a < b < offs.len() ==> offs[a] < offs[b]
            &&& forall|a: int| 0 <= a < offs.len() ==> #[trigger] offs[a] < virt
            &&& forall|a: int| 0 <= a < m.len()
                ==> 0 <= #[trigger] m[a].0 < offs.len() && 0 <= m[a].1 < ws.len()
        }),
    decreases i,
{
    if i > 0 {
        lemma_info_shape_wf(cfg, ws, i - 1);
        let (virt0, offs0, m0) = spec_info_shape(cfg, ws, i - 1);
        let (virt, offs, m) = spec_info_shape(cfg, ws, i);
        let c = cfg[i - 1];
        if c.niri_workspaces == Some(true) {
            assert forall|a: int, b: int| 0 <= a < b < offs.len()
                implies offs[a] < offs[b] by {
                if b >= offs0.len() {
                    assert(offs[b] == virt0 + (b - offs0.len()));
                    if a >= offs0.len() {
                        assert(offs[a] == virt0 + (a - offs0.len()));
                    } else {
                        assert(offs[a] == offs0[a]);
                    }
                } else {
                    assert(offs[a] == offs0[a]);
                    assert(offs[b] == offs0[b]);
                }
            }
            assert forall|a: int| 0 <= a < offs.len()
                implies #[trigger] offs[a] < virt by {
                if a >= offs0.len() {
                    assert(offs[a] == virt0 + (a - offs0.len()));
                }
            }
            if offs.len() >= 1 {
                if offs0.len() >= 1 {
                    assert(offs[0] == offs0[0]);
                } else {
                    assert(offs[0] == virt0 + 0);
                }
            }
        } else {
            assert(spec_rebuild_stretch(c) >= 1);
            assert forall|a: int, b: int| 0 <= a < b < offs.len()
                implies offs[a] < offs[b] by {
                if b == offs0.len() {
                    assert(offs[b] == virt0);
                    assert(offs[a] == offs0[a]);
                }
            }
            if offs0.len() == 0 {
                assert(offs[0] == virt0);
            }
        }
    }
}

/// The running offset of the expanded shape never shrinks as entries are
/// taken in.
pub proof fn lemma_info_shape_virt_monotone(cfg: Seq<ButtonConfig>, ws: Seq<Workspace>, i: int, j: int)
    requires
        0 <= i <= j <= cfg.len(),
    ensures
        spec_info_shape(cfg, ws, i).0 <= spec_info_shape(cfg, ws, j).0,
    decreases j - i,
{
    if i < j {
        lemma_info_shape_virt_monotone(cfg, ws, i, j - 1);
        assert(spec_info_shape(cfg, ws, j - 1).0 <= spec_info_shape(cfg, ws, j).0) by {
            if cfg[j - 1].niri_workspaces != Some(true) {
                assert(spec_rebuild_stretch(cfg[j - 1]) >= 1);
            }
        }
    }
}

/// Which button each non-workspace entry of the template became: pairs
/// of entry index and button index, in template order.
pub open spec fn spec_info_entmap(cfg: Seq<ButtonConfig>, ws: Seq<Workspace>, i: int) -> Seq<(int, int)>
    decreases i,
{
    if i <= 0 {
        Seq::empty()
    } else {
        let prev = spec_info_entmap(cfg, ws, i - 1);
        if cfg[i - 1].niri_workspaces == Some(true) {
            prev
        } else {
            prev.push((i - 1, spec_info_shape(cfg, ws, i - 1).1.len() as int))
        }
    }
}

/// What a non-workspace entry's button holds after a rebuild: a title
/// entry shows the focused window's title, empty when none is focused;
/// any other entry builds exactly the button its configuration describes,
/// so the template's own buttons remain stable across rebuilds.
pub open spec fn spec_info_entry_ok(c: ButtonConfig, title: Option<Seq<char>>, dev: Option<&str>, b: Button) -> bool {
    if c.niri_window_title == Some(true) {
        &&& (b.image matches ButtonImage::NiriWindowTitle(t)
            && t@ == (match title { Some(v) => v, None => Seq::<char>::empty() }))
        &&& b.action@ == Seq::<u16>::empty()
        &&& !b.active
        &&& b.changed
        &&& !b.clickable
    } else {
        spec_button_outcome(&c, dev, Some(b))
    }
}

/// A template entry that is neither the workspace strip nor the window
/// title: it expands to one button of its own configuration.
pub open spec fn spec_plain_entry(c: ButtonConfig) -> bool {
    c.niri_workspaces != Some(true) && c.niri_window_title != Some(true)
}

/// What the rebuilt information layer's parts satisfy: offsets follow the
/// expanded shape exactly, every workspace button shows its workspace's
/// index and focus in workspace order with the index table naming it, and
/// every other button is what its template entry describes.
pub open spec fn spec_info_parts_ok(cfg: Seq<ButtonConfig>, ws: Seq<Workspace>,
    title: Option<Seq<char>>, dev: Option<&str>,
    buttons: Seq<(usize, Button)>, ids: Seq<(usize, u8)>, virt: int) -> bool {
    let (v, offs, m) = spec_info_shape(cfg, ws, cfg.len() as int);
    let em = spec_info_entmap(cfg, ws, cfg.len() as int);
    &&& virt == v
    &&& buttons.len() == offs.len()
    &&& forall|k: int| 0 <= k < buttons.len() ==> (#[trigger] buttons[k]).0 == offs[k]
    &&& ids.len() == m.len()
    &&& forall|k: int| 0 <= k < m.len()
        ==> (#[trigger] ids[k]).0 as int == m[k].0 && ids[k].1 == ws[m[k].1].idx
    &&& forall|k: int| 0 <= k < m.len() ==> {
        let b = (#[trigger] buttons[m[k].0]).1;
        &&& b.image matches ButtonImage::NiriWorkspace { idx, focused }
            && idx == ws[m[k].1].idx && focused == ws[m[k].1].is_focused
        &&& !b.active
        &&& b.changed
        &&& b.clickable
        &&& b.action@ == Seq::<u16>::empty()
    }
    &&& forall|k: int| 0 <= k < em.len() ==> {
        let p = #[trigger] em[k];
        &&& 0 <= p.0 < cfg.len()
        &&& 0 <= p.1 < buttons.len()
        &&& spec_info_entry_ok(cfg[p.0], title, dev, buttons[p.1].1)
    }
}

/// Appending one button extends the any-clock-needs-sub-minute flag by
/// exactly that button's own need.
proof fn lemma_needs_flag_push(s: Seq<(usize, Button)>, b: (usize, Button), flag: bool)
    requires
        flag == (exists|j: int| 0 <= j < s.len()
            && spec_needs_faster_refresh(&(#[trigger] s[j]).1)),
    ensures
        (flag || spec_needs_faster_refresh(&b.1))
            == (exists|j: int| 0 <= j < s.push(b).len()
                && spec_needs_faster_refresh(&(#[trigger] s.push(b)[j]).1)),
{
    if flag {
        let j = choose|j: int| 0 <= j < s.len()
            && spec_needs_faster_refresh(&(#[trigger] s[j]).1);
        assert(s.push(b)[j] == s[j]);
    }
    if spec_needs_faster_refresh(&b.1) {
        assert(s.push(b)[s.len() as int] == b);
    }
    if exists|j: int| 0 <= j < s.push(b).len()
        && spec_needs_faster_refresh(&(#[trigger] s.push(b)[j]).1) {
        let j = choose|j: int| 0 <= j < s.push(b).len()
            && spec_needs_faster_refresh(&(#[trigger] s.push(b)[j]).1);
        if j < s.len() {
            assert(s.push(b)[j] == s[j]);
        } else {
            assert(s.push(b)[j] == b);
        }
    }
}

/// Expands the information layer's template against the compositor
/// mirror: a workspace entry becomes one button per workspace, a window
/// title entry one label with the focused title (empty when none), and
/// every other entry the button its configuration describes.
///
/// `None` only on a fatal entry or a row too wide to address.
fn build_info_buttons(cfg: &Vec<ButtonConfig>, niri: &NiriState, battery_device: Option<&str>)
    -> (r: Option<(Vec<(usize, Button)>, Vec<(usize, u8)>, usize, bool, bool, bool)>)
    ensures
        r matches Some(parts) ==> spec_info_parts_ok(cfg@, niri.workspaces@,
            spec_opt_view(niri.focused_window_title), battery_device,
            parts.0@, parts.1@, parts.2 as int),
        r matches Some(parts) ==> {
            &&& parts.3 == (exists|i: int| 0 <= i < cfg@.len()
                && spec_plain_entry(#[trigger] cfg@[i]) && cfg@[i].time is Some)
            &&& parts.4 == (exists|k: int| 0 <= k < parts.0@.len()
                && spec_needs_faster_refresh(&(#[trigger] parts.0@[k]).1))
            &&& parts.5 == (exists|i: int| 0 <= i < cfg@.len()
                && spec_plain_entry(#[trigger] cfg@[i]) && spec_live_choice(&cfg@[i]) is Some)
        },
        r is None ==> (exists|i: int| 0 <= i < cfg@.len()
                && spec_entry_may_fail(cfg@[i], battery_device))
            || spec_info_shape(cfg@, niri.workspaces@, cfg@.len() as int).0 > usize::MAX,
{
    let ghost wsg = niri.workspaces@;
    let ghost titleg = spec_opt_view(niri.focused_window_title);
    let mut buttons: Vec<(usize, Button)> = Vec::new();
    let mut ids: Vec<(usize, u8)> = Vec::new();
    let mut virt: usize = 0;
    let mut displays_time = false;
    let mut faster_refresh = false;
    let mut displays_live = false;
    let mut e: usize = 0;
    while e < cfg.len()
        invariant
            e <= cfg@.len(),
            wsg == niri.workspaces@,
            titleg == spec_opt_view(niri.focused_window_title),
            displays_time == (exists|i: int| 0 <= i < e
                && spec_plain_entry(#[trigger] cfg@[i]) && cfg@[i].time is Some),
            faster_refresh == (exists|k: int| 0 <= k < buttons@.len()
                && spec_needs_faster_refresh(&(#[trigger] buttons@[k]).1)),
            displays_live == (exists|i: int| 0 <= i < e
                && spec_plain_entry(#[trigger] cfg@[i]) && spec_live_choice(&cfg@[i]) is Some),
            ({
                let em = spec_info_entmap(cfg@, wsg, e as int);
                forall|k: int| 0 <= k < em.len() ==> {
                    let p = #[trigger] em[k];
                    &&& 0 <= p.0 < e
                    &&& 0 <= p.1 < buttons@.len()
                    &&& spec_info_entry_ok(cfg@[p.0], titleg, battery_device, buttons@[p.1].1)
                }
            }),
            ({
                let (v, offs, m) = spec_info_shape(cfg@, wsg, e as int);
                &&& virt == v
                &&& buttons@.len() == offs.len()
                &&& (forall|k: int| 0 <= k < buttons@.len() ==> (#[trigger] buttons@[k]).0 == offs[k])
                &&& ids@.len() == m.len()
                &&& (forall|k: int| 0 <= k < m.len()
                    ==> (#[trigger] ids@[k]).0 as int == m[k].0 && ids@[k].1 == wsg[m[k].1].idx)
                &&& (forall|k: int| 0 <= k < m.len() ==> {
                    let b = (#[trigger] buttons@[m[k].0]).1;
                    &&& b.image matches ButtonImage::NiriWorkspace { idx, focused }
                        && idx == wsg[m[k].1].idx && focused == wsg[m[k].1].is_focused
                    &&& !b.active
                    &&& b.changed
                    &&& b.clickable
                    &&& b.action@ == Seq::<u16>::empty()
                })
            }),
        decreases cfg@.len() - e,
    {
        let ghost (v0, offs0, m0) = spec_info_shape(cfg@, wsg, e as int);
        let ghost btns0 = buttons@;
        proof {
            lemma_info_shape_wf(cfg@, wsg, e as int);
        }
        let entry = &cfg[e];
        if matches!(entry.niri_workspaces, Some(true)) {
            let nws = niri.workspaces.len();
            if virt > usize::MAX - nws {
                proof {
                    lemma_info_shape_virt_monotone(cfg@, wsg, e + 1, cfg@.len() as int);
                }
                return None;
            }
            let mut k: usize = 0;
            while k < nws
                invariant
                    k <= nws,
                    nws == wsg.len(),
                    wsg == niri.workspaces@,
                    virt + nws <= usize::MAX,
                    virt == v0,
                    faster_refresh == (exists|j: int| 0 <= j < buttons@.len()
                        && spec_needs_faster_refresh(&(#[trigger] buttons@[j]).1)),
                    buttons@.len() == offs0.len() + k,
                    ids@.len() == m0.len() + k,
                    (v0, offs0, m0) == spec_info_shape(cfg@, wsg, e as int),
                    btns0.len() == offs0.len(),
                    forall|j: int| 0 <= j < btns0.len()
                        ==> #[trigger] buttons@[j] == btns0[j],
                    forall|j: int| 0 <= j < m0.len()
                        ==> 0 <= (#[trigger] m0[j]).0 < offs0.len() && 0 <= m0[j].1 < wsg.len(),
                    forall|j: int| 0 <= j < offs0.len()
                        ==> (#[trigger] buttons@[j]).0 == offs0[j],
                    forall|j: int| 0 <= j < k
                        ==> (#[trigger] buttons@[offs0.len() + j]).0 == v0 + j,
                    forall|j: int| 0 <= j < m0.len()
                        ==> (#[trigger] ids@[j]).0 as int == m0[j].0 && ids@[j].1 == wsg[m0[j].1].idx,
                    forall|j: int| 0 <= j < k
                        ==> (#[trigger] ids@[m0.len() + j]).0 as int == offs0.len() + j
                            && ids@[m0.len() + j].1 == wsg[j].idx,
                    forall|j: int| 0 <= j < m0.len() ==> {
                        let b = (#[trigger] buttons@[m0[j].0]).1;
                        &&& b.image matches ButtonImage::NiriWorkspace { idx, focused }
                            && idx == wsg[m0[j].1].idx && focused == wsg[m0[j].1].is_focused
                        &&& !b.active
                        &&& b.changed
                        &&& b.clickable
                        &&& b.action@ == Seq::<u16>::empty()
                    },
                    forall|j: int| 0 <= j < k ==> {
                        let b = (#[trigger] buttons@[offs0.len() + j]).1;
                        &&& b.image matches ButtonImage::NiriWorkspace { idx, focused }
                            && idx == wsg[j].idx && focused == wsg[j].is_focused
                        &&& !b.active
                        &&& b.changed
                        &&& b.clickable
                        &&& b.action@ == Seq::<u16>::empty()
                    },
                decreases nws - k,
            {
                let ws = niri.workspaces[k];
                let btn_index = buttons.len();
                ids.push((btn_index, ws.idx));
                let b = Button::new_niri_workspace(ws.idx, ws.is_focused, ws.id);
                let ghost btns_pre = buttons@;
                let off = virt + k;
                buttons.push((off, b));
                proof {
                    // a workspace button is no clock: the refresh flag
                    // cannot move
                    lemma_needs_flag_push(btns_pre, (off, b), faster_refresh);
                }
                k += 1;
            }
            virt = virt + nws;
            proof {
                let (v1, offs1, m1) = spec_info_shape(cfg@, wsg, e + 1);
                assert(offs1 == offs0 + Seq::new(wsg.len(), |k: int| v0 + k));
                assert(m1 == m0 + Seq::new(wsg.len(), |k: int| (offs0.len() + k, k)));
                assert forall|k: int| 0 <= k < buttons@.len()
                    implies (#[trigger] buttons@[k]).0 == offs1[k] by {
                    if k < offs0.len() {
                        assert(offs1[k] == offs0[k]);
                    } else {
                        let j = k - offs0.len();
                        assert(buttons@[offs0.len() + j].0 == v0 + j);
                        assert(offs1[k] == v0 + j);
                    }
                }
                assert forall|k: int| 0 <= k < m1.len()
                    implies (#[trigger] ids@[k]).0 as int == m1[k].0
                        && ids@[k].1 == wsg[m1[k].1].idx by {
                    if k < m0.len() {
                        assert(m1[k] == m0[k]);
                        assert(ids@[k].0 as int == m0[k].0 && ids@[k].1 == wsg[m0[k].1].idx);
                    } else {
                        let j = k - m0.len();
                        assert(ids@[m0.len() + j].0 as int == offs0.len() + j
                            && ids@[m0.len() + j].1 == wsg[j].idx);
                        assert(m1[k] == (offs0.len() + j, j));
                    }
                }
                let em1 = spec_info_entmap(cfg@, wsg, e + 1);
                assert(em1 == spec_info_entmap(cfg@, wsg, e as int));
                assert forall|k: int| 0 <= k < em1.len() implies {
                    let p = #[trigger] em1[k];
                    &&& 0 <= p.0 < e + 1
                    &&& 0 <= p.1 < buttons@.len()
                    &&& spec_info_entry_ok(cfg@[p.0], titleg, battery_device, buttons@[p.1].1)
                } by {
                    assert(em1[k] == spec_info_entmap(cfg@, wsg, e as int)[k]);
                    assert(buttons@[em1[k].1] == btns0[em1[k].1]);
                }
                assert forall|k: int| 0 <= k < m1.len() implies {
                    let b = (#[trigger] buttons@[m1[k].0]).1;
                    &&& b.image matches ButtonImage::NiriWorkspace { idx, focused }
                        && idx == wsg[m1[k].1].idx && focused == wsg[m1[k].1].is_focused
                    &&& !b.active
                    &&& b.changed
                    &&& b.clickable
                    &&& b.action@ == Seq::<u16>::empty()
                } by {
                    if k < m0.len() {
                        assert(m1[k] == m0[k]);
                        assert(0 <= m0[k].0 < offs0.len());
                        assert(buttons@[m0[k].0].1 == buttons@[m1[k].0].1);
                    } else {
                        let j = k - m0.len();
                        assert(m1[k] == (offs0.len() + j, j));
                        let b = buttons@[offs0.len() + j].1;
                        assert(b.image matches ButtonImage::NiriWorkspace { idx, focused }
                            && idx == wsg[j].idx && focused == wsg[j].is_focused);
                    }
                }
            }
        } else {
            let stretch = match entry.stretch {
                Some(s) => if s < 1 { 1 } else { s },
                None => 1,
            };
            if virt > usize::MAX - stretch {
                proof {
                    lemma_info_shape_virt_monotone(cfg@, wsg, e + 1, cfg@.len() as int);
                }
                return None;
            }
            if matches!(entry.niri_window_title, Some(true)) {
                let title = match &niri.focused_window_title {
                    Some(t) => t.clone(),
                    None => String::new(),
                };
                let b = Button::new_niri_window_title(title);
                let ghost btns_pre = buttons@;
                buttons.push((virt, b));
                proof {
                    // a title label is no clock: the refresh flag cannot
                    // move
                    lemma_needs_flag_push(btns_pre, (virt, b), faster_refresh);
                }
            } else {
                let b = match Button::with_config(entry, battery_device) {
                    Some(b) => b,
                    None => {
                        assert(spec_entry_may_fail(cfg@[e as int], battery_device));
                        return None;
                    },
                };
                if entry.time.is_some() {
                    displays_time = true;
                }
                if matches!(entry.volume, Some(true)) || matches!(entry.brightness, Some(true))
                    || matches!(entry.wifi, Some(true)) {
                    displays_live = true;
                }
                let ghost flag_pre = faster_refresh;
                if b.needs_faster_refresh() {
                    faster_refresh = true;
                }
                let ghost btns_pre = buttons@;
                buttons.push((virt, b));
                proof {
                    lemma_needs_flag_push(btns_pre, (virt, b), flag_pre);
                }
            }
            proof {
                let em0 = spec_info_entmap(cfg@, wsg, e as int);
                let em1 = spec_info_entmap(cfg@, wsg, e + 1);
                assert(em1 == em0.push((e as int, offs0.len() as int)));
                assert forall|k: int| 0 <= k < em1.len() implies {
                    let p = #[trigger] em1[k];
                    &&& 0 <= p.0 < e + 1
                    &&& 0 <= p.1 < buttons@.len()
                    &&& spec_info_entry_ok(cfg@[p.0], titleg, battery_device, buttons@[p.1].1)
                } by {
                    if k < em0.len() {
                        assert(em1[k] == em0[k]);
                    } else {
                        assert(em1[k] == (e as int, offs0.len() as int));
                    }
                }
            }
            virt = virt + stretch;
        }
        e += 1;
    }
    Some((buttons, ids, virt, displays_time, faster_refresh, displays_live))
}

/// Rebuilds the information layer, the second of the three, from its
/// stored template and the compositor mirror. True iff it was rebuilt;
/// a missing information layer, a template that expands to no buttons,
/// or a fatal entry leaves everything untouched instead.
pub fn rebuild_info_layer(layers: &mut Vec<FunctionLayer>, niri: &NiriState,
    battery_device: Option<&str>) -> (r: bool)
    ensures
        final(layers)@.len() == old(layers)@.len(),
        !r ==> final(layers)@ =~= old(layers)@,
        // A rebuild is refused only for a reason: no information layer,
        // a fatal template entry, an unaddressable width, or a template
        // that expands to no buttons at all.
        !r ==> old(layers)@.len() <= 1 || {
            let cfg = old(layers)@[1].source_config@;
            let shape = spec_info_shape(cfg, niri.workspaces@, cfg.len() as int);
            ||| exists|i: int| 0 <= i < cfg.len()
                && spec_entry_may_fail(#[trigger] cfg[i], battery_device)
            ||| shape.0 > usize::MAX
            ||| shape.1.len() == 0
        },
        forall|j: int| 0 <= j < old(layers)@.len() && j != 1
            ==> final(layers)@[j] == old(layers)@[j],
        r ==> {
            let nl = final(layers)@[1];
            let cfg = old(layers)@[1].source_config;
            &&& old(layers)@.len() > 1
            &&& nl.wf()
            &&& spec_info_parts_ok(cfg@, niri.workspaces@,
                spec_opt_view(niri.focused_window_title), battery_device,
                nl.buttons@, nl.niri_workspace_ids@, nl.virtual_button_count as int)
            &&& nl.source_config == cfg
            &&& nl.displays_battery == old(layers)@[1].displays_battery
            &&& nl.displays_time == (exists|i: int| 0 <= i < cfg@.len()
                && spec_plain_entry(#[trigger] cfg@[i]) && cfg@[i].time is Some)
            &&& nl.faster_refresh == (exists|k: int| 0 <= k < nl.buttons@.len()
                && spec_needs_faster_refresh(&(#[trigger] nl.buttons@[k]).1))
            &&& nl.displays_live == (exists|i: int| 0 <= i < cfg@.len()
                && spec_plain_entry(#[trigger] cfg@[i]) && spec_live_choice(&cfg@[i]) is Some)
        },
{
    if layers.len() <= 1 {
        return false;
    }
    let parts = build_info_buttons(&layers[1].source_config, niri, battery_device);
    let (buttons, ids, virt, displays_time, faster_refresh, displays_live) = match parts {
        Some(p) => p,
        None => {
            return false;
        },
    };
    if buttons.len() == 0 {
        return false;
    }
    proof {
        lemma_info_shape_wf(old(layers)@[1].source_config@, niri.workspaces@,
            old(layers)@[1].source_config@.len() as int);
    }
    let layer = &mut layers[1];
    layer.buttons = buttons;
    layer.virtual_button_count = virt;
    layer.niri_workspace_ids = ids;
    layer.displays_time = displays_time;
    layer.faster_refresh = faster_refresh;
    layer.displays_live = displays_live;
    true
}

/// The built-in information-layer template: the workspace strip, a
/// six-unit window title, and a four-unit clock with seconds.
pub open spec fn spec_is_default_info(cfg: Seq<ButtonConfig>) -> bool {
    &&& cfg.len() == 3
    &&& cfg[0].niri_workspaces == Some(true)
    &&& cfg[0].stretch is None
    &&& cfg[1].niri_window_title == Some(true)
    &&& cfg[1].stretch == Some(6usize)
    &&& (cfg[2].time matches Some(t) && t@ == "%a %b %d %I:%M:%S %p"@)
    &&& cfg[2].stretch == Some(4usize)
    &&& cfg[2].niri_workspaces is None
    &&& cfg[2].niri_window_title is None
    &&& forall|i: int| 0 <= i < 3 ==> (#[trigger] cfg[i]).text is None
        && cfg[i].icon is None && cfg[i].battery is None
    &&& cfg[0].time is None
    &&& cfg[1].time is None
}

/// `adj` is `orig` with the escape button put before it on a wide panel,
/// and exactly `orig` on a narrow one.
pub open spec fn spec_esc_adjusted(orig: Seq<ButtonConfig>, width: u16, adj: Seq<ButtonConfig>) -> bool {
    if width >= ESC_PANEL_WIDTH_PX {
        adj.len() == orig.len() + 1 && spec_is_esc_config(adj[0]) && adj.skip(1) =~= orig
    } else {
        adj =~= orig
    }
}

/// An entry of the escape-adjusted list that can fail came from the
/// original list: the escape entry itself never fails.
proof fn lemma_esc_adjusted_may_fail(orig: Seq<ButtonConfig>, width: u16, adj: Seq<ButtonConfig>, dev: Option<&str>)
    requires
        spec_esc_adjusted(orig, width, adj),
        exists|i: int| 0 <= i < adj.len() && spec_entry_may_fail(adj[i], dev),
    ensures
        exists|i: int| 0 <= i < orig.len() && spec_entry_may_fail(orig[i], dev),
{
    let i = choose|i: int| 0 <= i < adj.len() && spec_entry_may_fail(adj[i], dev);
    if width >= ESC_PANEL_WIDTH_PX {
        assert(!spec_entry_may_fail(adj[0], dev));
        assert(orig[i - 1] == adj.skip(1)[i - 1]);
        assert(spec_entry_may_fail(orig[i - 1], dev));
    } else {
        assert(spec_entry_may_fail(orig[i], dev));
    }
}

/// The escape-adjusted list's virtual width is the original's plus one
/// for the escape button.
proof fn lemma_esc_adjusted_offset(orig: Seq<ButtonConfig>, width: u16, adj: Seq<ButtonConfig>, i: int)
    requires
        spec_esc_adjusted(orig, width, adj),
        width >= ESC_PANEL_WIDTH_PX,
        0 <= i <= orig.len(),
    ensures
        spec_offset(adj, i + 1) == spec_offset(orig, i) + 1,
    decreases i,
{
    if i == 0 {
        assert(spec_stretch(adj[0]) == 1);
        assert(spec_offset(adj, 1) == spec_offset(adj, 0) + spec_stretch(adj[0]));
        assert(spec_offset(adj, 0) == 0);
        assert(spec_offset(orig, 0) == 0);
    } else {
        lemma_esc_adjusted_offset(orig, width, adj, i - 1);
        assert(adj[i] == adj.skip(1)[i - 1]);
        assert(adj[i] == orig[i - 1]);
        assert(spec_offset(adj, i + 1) == spec_offset(adj, i) + spec_stretch(adj[i]));
        assert(spec_offset(orig, i) == spec_offset(orig, i - 1) + spec_stretch(orig[i - 1]));
    }
}

/// Builds the fixed three-layer stack from the configured key lists: the
/// function-key layer, the information layer (falling back to the
/// built-in template), and the media layer, in that order. A wide panel
/// gets an escape button put before every layer. The information layer
/// keeps its entry list so compositor changes can rebuild it.
///
/// `None` is a fatal configuration error, as at layer construction.
pub fn assemble_layers(primary: Vec<ButtonConfig>, info: Option<Vec<ButtonConfig>>,
    media: Vec<ButtonConfig>, width: u16, battery_device: Option<&str>)
    -> (r: Option<Vec<FunctionLayer>>)
    ensures
        r matches Some(ls) ==> {
            &&& ls@.len() == 3
            &&& (exists|pc: Seq<ButtonConfig>| spec_esc_adjusted(primary@, width, pc)
                && spec_layer_from(pc, battery_device, ls@[0]))
            &&& (match info {
                Some(iv) => spec_esc_adjusted(iv@, width, ls@[1].source_config@),
                None => exists|d: Seq<ButtonConfig>| spec_is_default_info(d)
                    && spec_esc_adjusted(d, width, ls@[1].source_config@),
            })
            &&& spec_layer_from(ls@[1].source_config@, battery_device, ls@[1])
            &&& (exists|mc: Seq<ButtonConfig>| spec_esc_adjusted(media@, width, mc)
                && spec_layer_from(mc, battery_device, ls@[2]))
        },
        r is None ==> {
            ||| (width < ESC_PANEL_WIDTH_PX && (primary@.len() == 0 || media@.len() == 0
                || (info matches Some(iv) && iv@.len() == 0)))
            ||| (exists|i: int| 0 <= i < primary@.len()
                && spec_entry_may_fail(primary@[i], battery_device))
            ||| (match info {
                Some(iv) => exists|i: int| 0 <= i < iv@.len()
                    && spec_entry_may_fail(iv@[i], battery_device),
                None => strftime_items_of(
                    spec_resolve_time_format("%a %b %d %I:%M:%S %p"@)) is None,
            })
            ||| (exists|i: int| 0 <= i < media@.len()
                && spec_entry_may_fail(media@[i], battery_device))
            ||| spec_offset(primary@, primary@.len() as int) + 1 > usize::MAX
            ||| (info matches Some(iv) && spec_offset(iv@, iv@.len() as int) + 1 > usize::MAX)
            ||| spec_offset(media@, media@.len() as int) + 1 > usize::MAX
        },
{
    let ghost primary0 = primary@;
    let ghost media0 = media@;
    let info_given = info.is_some();
    let info_keys = match info {
        Some(iv) => iv,
        None => crate::config::default_info_layer_keys(),
    };
    let ghost info_used = info_keys@;
    let primary2 = crate::config::maybe_prepend_esc(primary, width);
    let info2 = crate::config::maybe_prepend_esc(info_keys, width);
    let media2 = crate::config::maybe_prepend_esc(media, width);
    proof {
        assert(spec_esc_adjusted(primary0, width, primary2@));
        assert(spec_esc_adjusted(info_used, width, info2@));
        assert(spec_esc_adjusted(media0, width, media2@));
    }
    let fkey = match FunctionLayer::with_config(&primary2, battery_device) {
        Some(l) => l,
        None => {
            proof {
                none_cause(primary0, width, primary2@, battery_device);
            }
            return None;
        },
    };
    let mut info_layer = match FunctionLayer::with_config(&info2, battery_device) {
        Some(l) => l,
        None => {
            proof {
                none_cause(info_used, width, info2@, battery_device);
                if !info_given {
                    lemma_default_info_failure(info_used, battery_device);
                }
            }
            return None;
        },
    };
    info_layer.source_config = info2;
    let media_layer = match FunctionLayer::with_config(&media2, battery_device) {
        Some(l) => l,
        None => {
            proof {
                none_cause(media0, width, media2@, battery_device);
            }
            return None;
        },
    };
    let mut ls: Vec<FunctionLayer> = Vec::new();
    ls.push(fkey);
    ls.push(info_layer);
    ls.push(media_layer);
    proof {
        assert(spec_layer_from(primary2@, battery_device, ls@[0]));
        assert(exists|pc: Seq<ButtonConfig>| spec_esc_adjusted(primary0, width, pc)
            && spec_layer_from(pc, battery_device, ls@[0]));
        assert(ls@[1].source_config == info2);
        assert(spec_layer_from(info2@, battery_device, ls@[1]));
        if !info_given {
            assert(spec_is_default_info(info_used));
            assert(exists|d: Seq<ButtonConfig>| spec_is_default_info(d)
                && spec_esc_adjusted(d, width, ls@[1].source_config@));
        }
        assert(spec_layer_from(media2@, battery_device, ls@[2]));
        assert(exists|mc: Seq<ButtonConfig>| spec_esc_adjusted(media0, width, mc)
            && spec_layer_from(mc, battery_device, ls@[2]));
    }
    Some(ls)
}

/// Traces a construction failure on an adjusted list back to its
/// original: an empty list on a narrow panel, a fallible entry, or a
/// virtual width beyond what the machine addresses.
proof fn none_cause(orig: Seq<ButtonConfig>, width: u16, adj: Seq<ButtonConfig>, dev: Option<&str>)
    requires
        spec_esc_adjusted(orig, width, adj),
        adj.len() == 0
            || (exists|i: int| 0 <= i < adj.len() && spec_entry_may_fail(adj[i], dev))
            || spec_offset(adj, adj.len() as int) > usize::MAX,
    ensures
        (width < ESC_PANEL_WIDTH_PX && orig.len() == 0)
            || (exists|i: int| 0 <= i < orig.len() && spec_entry_may_fail(orig[i], dev))
            || spec_offset(orig, orig.len() as int) + 1 > usize::MAX,
{
    if adj.len() == 0 {
        assert(width < ESC_PANEL_WIDTH_PX && orig.len() == 0);
    } else if exists|i: int| 0 <= i < adj.len() && spec_entry_may_fail(adj[i], dev) {
        lemma_esc_adjusted_may_fail(orig, width, adj, dev);
    } else {
        if width >= ESC_PANEL_WIDTH_PX {
            lemma_esc_adjusted_offset(orig, width, adj, orig.len() as int);
        } else {
            lemma_offset_seq_eq(orig, adj, orig.len() as int);
        }
    }
}

/// If building the built-in information template failed, the only entry
/// that can fail is its clock, so its fixed format must have been
/// rejected by the outside parser.
proof fn lemma_default_info_failure(d: Seq<ButtonConfig>, dev: Option<&str>)
    requires
        spec_is_default_info(d),
        (d.len() == 0)
            || (exists|i: int| 0 <= i < d.len() && spec_entry_may_fail(d[i], dev))
            || spec_offset(d, d.len() as int) + 1 > usize::MAX,
    ensures
        strftime_items_of(spec_resolve_time_format("%a %b %d %I:%M:%S %p"@)) is None,
{
    assert(spec_offset(d, 3) == 11) by {
        assert(spec_stretch(d[0]) == 1);
        assert(spec_stretch(d[1]) == 6);
        assert(spec_stretch(d[2]) == 4);
        assert(spec_offset(d, 3) == spec_offset(d, 2) + spec_stretch(d[2]));
        assert(spec_offset(d, 2) == spec_offset(d, 1) + spec_stretch(d[1]));
        assert(spec_offset(d, 1) == spec_offset(d, 0) + spec_stretch(d[0]));
    }
    let i = choose|i: int| 0 <= i < d.len() && spec_entry_may_fail(d[i], dev);
    assert(!spec_entry_may_fail(d[0], dev));
    assert(!spec_entry_may_fail(d[1], dev));
    assert(i == 2);
}

/// Equal entry lists have equal running offsets.
proof fn lemma_offset_seq_eq(a: Seq<ButtonConfig>, b: Seq<ButtonConfig>, i: int)
    requires
        a =~= b,
        0 <= i <= a.len(),
    ensures
        spec_offset(a, i) == spec_offset(b, i),
    decreases i,
{
    if i > 0 {
        lemma_offset_seq_eq(a, b, i - 1);
    }
}

/// The sum of all stretch values equals the layer's virtual width, and
/// virtual start offsets grow strictly along the row: what layer
/// construction promises of every layer it builds.
pub proof fn lemma_layer_stretch_sum(cfg: Seq<ButtonConfig>, layer: FunctionLayer)
    requires
        layer.buttons@.len() == cfg.len(),
        forall|i: int| 0 <= i < cfg.len() ==> #[trigger] layer.buttons@[i].0 == spec_offset(cfg, i),
        layer.virtual_button_count == spec_offset(cfg, cfg.len() as int),
    ensures
        layer.virtual_button_count == spec_stretch_sum(cfg),
        forall|i: int, j: int| 0 <= i < j < layer.buttons@.len()
            ==> layer.buttons@[i].0 < layer.buttons@[j].0,
{
    lemma_offset_is_stretch_sum(cfg, cfg.len() as int);
    assert(cfg.take(cfg.len() as int) =~= cfg);
    assert forall|i: int, j: int| 0 <= i < j < layer.buttons@.len()
        implies layer.buttons@[i].0 < layer.buttons@[j].0 by {
        lemma_offset_monotone(cfg, i, j);
    }
}

/// The sum of the stretches of all entries.
pub open spec fn spec_stretch_sum(cfg: Seq<ButtonConfig>) -> int
    decreases cfg.len(),
{
    if cfg.len() == 0 {
        0
    } else {
        spec_stretch_sum(cfg.drop_last()) + spec_stretch(cfg.last())
    }
}

proof fn lemma_offset_is_stretch_sum(cfg: Seq<ButtonConfig>, i: int)
    requires
        0 <= i <= cfg.len(),
    ensures
        spec_offset(cfg, i) == spec_stretch_sum(cfg.take(i)),
    decreases i,
{
    if i > 0 {
        lemma_offset_is_stretch_sum(cfg, i - 1);
        assert(cfg.take(i).drop_last() =~= cfg.take(i - 1));
        assert(cfg.take(i).last() == cfg[i - 1]);
    }
}

} // verus!
