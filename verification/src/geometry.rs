//! Pixel layout of a layer's buttons.
//!
//! Content is authored in a landscape frame `width` pixels across. A row
//! of `count` virtual width units shares the pixels left after a reserved
//! margin and the fixed gaps between buttons; all positions are floored to
//! whole pixels, so the arithmetic here is exact integer arithmetic.
use vstd::prelude::*;

verus! {

use vstd::arithmetic::div_mod::{
    lemma_fundamental_div_mod, lemma_fundamental_div_mod_converse,
    lemma_div_is_ordered, lemma_div_multiples_vanish,
};
use vstd::arithmetic::mul::lemma_mul_is_distributive_add;

/// Sane geometry: at least one virtual unit, the panel no wider than the
/// hardware can address, and margin plus gaps leaving room for the
/// buttons themselves.
pub open spec fn spec_geom_ok(width: int, margin: int, spacing: int, count: int) -> bool {
    &&& 1 <= count <= 0x10000
    &&& 0 <= width <= 0xFFFF
    &&& 0 <= spacing <= 0xFFFF
    &&& 0 <= margin
    &&& margin + spacing * (count - 1) <= width
}

/// `count` times the virtual button width: the pixels left once the
/// reserved margin and the `count - 1` gaps are taken out.
pub open spec fn spec_width_num(width: int, margin: int, spacing: int, count: int) -> int {
    width - margin - spacing * (count - 1)
}

/// `count` times the pitch of one virtual unit: unit width plus gap.
/// Equal to `spec_width_num + spacing * count`.
pub open spec fn spec_slot_step(width: int, margin: int, spacing: int) -> int {
    width - margin + spacing
}

/// Left edge of a button starting at virtual offset `start`, floored to
/// pixels, before any burn-in shift is applied.
pub open spec fn spec_left_edge(start: int, width: int, margin: int, spacing: int, count: int) -> int {
    start * spec_slot_step(width, margin, spacing) / count
}

/// Pixel width of a button spanning virtual units `[start, end)`: one
/// unit width plus a whole pitch per extra unit, floored to pixels.
pub open spec fn spec_button_width(start: int, end: int, width: int, margin: int, spacing: int, count: int) -> int {
    (spec_width_num(width, margin, spacing, count)
        + (end - start - 1) * spec_slot_step(width, margin, spacing)) / count
}

/// Floors distribute sub-additively over sums: dividing two parts
/// separately never exceeds dividing their sum.
pub proof fn lemma_div_sum_le(a: int, b: int, c: int)
    requires
        0 <= a,
        0 <= b,
        0 < c,
    ensures
        a / c + b / c <= (a + b) / c,
{
    lemma_fundamental_div_mod(a, c);
    lemma_fundamental_div_mod(b, c);
    let q = a / c + b / c;
    let r = a % c + b % c;
    assert(c * q == c * (a / c) + c * (b / c)) by {
        lemma_mul_is_distributive_add(c, a / c, b / c);
    }
    assert(a + b == q * c + r) by {
        assert(c * q == q * c) by (nonlinear_arith);
    }
    if r < c {
        lemma_fundamental_div_mod_converse(a + b, c, q, r);
    } else {
        assert(a + b == (q + 1) * c + (r - c)) by (nonlinear_arith)
            requires a + b == q * c + r;
        lemma_fundamental_div_mod_converse(a + b, c, q + 1, r - c);
    }
}

/// A button's rectangle stays inside the usable width: its left edge plus
/// its width never passes `width - margin`.
pub proof fn lemma_geometry_bound(start: int, end: int, width: int, margin: int, spacing: int, count: int)
    requires
        spec_geom_ok(width, margin, spacing, count),
        0 <= start < end <= count,
    ensures
        0 <= spec_left_edge(start, width, margin, spacing, count),
        0 <= spec_button_width(start, end, width, margin, spacing, count),
        spec_left_edge(start, width, margin, spacing, count)
            + spec_button_width(start, end, width, margin, spacing, count)
            <= width - margin,
{
    let u = spec_slot_step(width, margin, spacing);
    let n = spec_width_num(width, margin, spacing, count);
    assert(u >= 0);
    assert(n >= 0);
    assert(start * u >= 0) by (nonlinear_arith)
        requires start >= 0, u >= 0;
    assert((end - start - 1) * u >= 0) by (nonlinear_arith)
        requires end - start - 1 >= 0, u >= 0;
    lemma_div_is_ordered(0, start * u, count);
    lemma_div_is_ordered(0, n + (end - start - 1) * u, count);
    lemma_div_sum_le(start * u, n + (end - start - 1) * u, count);
    assert(start * u + (n + (end - start - 1) * u) == (end - 1) * u + n) by (nonlinear_arith);
    assert((end - 1) * u + n <= count * (width - margin)) by (nonlinear_arith)
        requires
            end <= count,
            spacing >= 0,
            u == width - margin + spacing,
            n == width - margin - spacing * (count - 1),
            width - margin >= 0;
    lemma_div_is_ordered((end - 1) * u + n, count * (width - margin), count);
    lemma_div_multiples_vanish(width - margin, count);
}

/// Computes a button's left edge and pixel width from its virtual span.
pub fn button_geometry(start: usize, end: usize, count: usize, width: u64, margin: u64, spacing: u64) -> (r: (u64, u64))
    requires
        spec_geom_ok(width as int, margin as int, spacing as int, count as int),
        start < end <= count,
    ensures
        r.0 == spec_left_edge(start as int, width as int, margin as int, spacing as int, count as int),
        r.1 == spec_button_width(start as int, end as int, width as int, margin as int, spacing as int, count as int),
        r.0 + r.1 <= width - margin,
{
    proof {
        lemma_geometry_bound(start as int, end as int, width as int, margin as int,
            spacing as int, count as int);
        assert(spacing * ((count - 1) as u64) == spacing * (count as int - 1)) by (nonlinear_arith)
            requires count >= 1;
    }
    let step: u64 = width - margin + spacing;
    let num: u64 = (width - margin) - spacing * ((count - 1) as u64);
    let extra: u64 = (end - start - 1) as u64;
    proof {
        assert((start as u64) * step <= 0x10000 * 0x20000) by (nonlinear_arith)
            requires start <= 0x10000, step <= 0x20000;
        assert(extra * step <= 0x10000 * 0x20000) by (nonlinear_arith)
            requires extra <= 0x10000, step <= 0x20000;
    }
    let left: u64 = (start as u64) * step / (count as u64);
    let bw: u64 = (num + extra * step) / (count as u64);
    (left, bw)
}

/// How the focused window's title fits its button: shown whole, or cut to
/// a prefix of this many characters followed by an ellipsis.
#[derive(Clone, Copy, PartialEq, Eq, Structural, Debug)]
pub enum TitleFit {
    Verbatim,
    Truncated(usize),
}

/// Prefix widths are usable for fitting: one entry per prefix length from
/// the empty prefix to the whole string, starting at zero and never
/// decreasing as the prefix grows.
pub open spec fn spec_widths_ok(w: Seq<u64>) -> bool {
    &&& w.len() >= 1
    &&& w[0] == 0
    &&& forall|i: int, j: int| 0 <= i <= j < w.len() ==> w[i] <= w[j]
}

/// Picks how to render a title within `max_width` pixels.
///
/// `prefix_widths[k]` is the pixel width of the title's first `k`
/// characters, for `k` up to the title's length. A title that fits whole
/// is shown verbatim, with no ellipsis. Otherwise the prefix kept is the
/// longest whose width plus the ellipsis' width still fits; when not even
/// the ellipsis alone fits, the empty prefix is kept.
pub fn fit_title(prefix_widths: &Vec<u64>, ellipsis_width: u64, max_width: u64) -> (r: TitleFit)
    requires
        spec_widths_ok(prefix_widths@),
    ensures
        prefix_widths@.last() <= max_width <==> r is Verbatim,
        r matches TitleFit::Truncated(k) ==> {
            let n = prefix_widths@.len() - 1;
            &&& k < n
            &&& ellipsis_width <= max_width
                ==> prefix_widths@[k as int] + ellipsis_width <= max_width
            &&& ellipsis_width > max_width ==> k == 0
            &&& forall|j: int| k < j < n
                ==> prefix_widths@[j] + ellipsis_width > max_width
        },
{
    let n = prefix_widths.len() - 1;
    if prefix_widths[n] <= max_width {
        return TitleFit::Verbatim;
    }
    let mut lo: usize = 0;
    let mut hi: usize = n;
    if hi == 0 {
        // An empty title always fits whole, so n >= 1 here; guard anyway
        // for the prover's sake.
        return TitleFit::Truncated(0);
    }
    while lo + 1 < hi
        invariant
            0 <= lo < hi <= n,
            n == prefix_widths@.len() - 1,
            spec_widths_ok(prefix_widths@),
            lo == 0 || prefix_widths@[lo as int] + ellipsis_width <= max_width,
            ellipsis_width <= max_width && lo == 0
                ==> prefix_widths@[0] + ellipsis_width <= max_width,
            hi < n ==> prefix_widths@[hi as int] + ellipsis_width > max_width,
        decreases hi - lo,
    {
        let mid = lo + (hi - lo) / 2;
        if prefix_widths[mid] <= u64::MAX - ellipsis_width
            && prefix_widths[mid] + ellipsis_width <= max_width {
            lo = mid;
        } else {
            hi = mid;
        }
    }
    assert forall|j: int| lo < j < n
        implies prefix_widths@[j] + ellipsis_width > max_width by {
        assert(prefix_widths@[hi as int] <= prefix_widths@[j]);
    }
    TitleFit::Truncated(lo)
}

} // verus!
