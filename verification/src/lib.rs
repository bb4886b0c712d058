//! Core engine for a touch-sensitive dynamic function row: the button and
//! layer data model, integer-pixel layout geometry and hit testing, the
//! Fn-key tap/hold layer-switching state machine, touch-slot tracking,
//! incremental dirty-region planning, and the compositor state mirror.
use vstd::prelude::*;

pub mod button;
pub mod config;
pub mod dispatch;
pub mod geometry;
pub mod layer;
pub mod niri;
pub mod renderer;

verus! {

use vstd::string::*;

/// Character-wise string equality, usable where the contracts need to know
/// exactly when two strings are the same.
pub fn str_eq(a: &str, b: &str) -> (r: bool)
    ensures
        r == (a@ == b@),
{
    let alen = a.unicode_len();
    let blen = b.unicode_len();
    if alen != blen {
        proof {
            assert(a@ != b@) by {
                assert(a@.len() != b@.len());
            }
        }
        return false;
    }
    let mut i: usize = 0;
    while i < alen
        invariant
            i <= alen,
            alen == a@.len(),
            alen == b@.len(),
            forall|j: int| 0 <= j < i ==> a@[j] == b@[j],
        decreases alen - i,
    {
        if a.get_char(i) != b.get_char(i) {
            return false;
        }
        i += 1;
    }
    proof {
        assert(a@ =~= b@);
    }
    true
}

/// Copies a list of key codes, so one configuration entry can be read
/// into a button without giving the entry up.
pub fn copy_key_codes(v: &Vec<u16>) -> (r: Vec<u16>)
    ensures
        r@ =~= v@,
{
    let mut r: Vec<u16> = Vec::new();
    let mut i: usize = 0;
    while i < v.len()
        invariant
            i <= v@.len(),
            r@ =~= v@.subrange(0, i as int),
        decreases v@.len() - i,
    {
        r.push(v[i]);
        i += 1;
    }
    r
}

/// Width of one battery icon or generic icon, in pixels.
pub const ICON_SIZE: u64 = 48;

/// Horizontal gap between adjacent buttons, in pixels.
pub const BUTTON_SPACING_PX: u64 = 16;

/// An Fn press shorter than this many milliseconds counts as a tap.
pub const FN_TAP_THRESHOLD_MS: u64 = 300;

} // verus!
