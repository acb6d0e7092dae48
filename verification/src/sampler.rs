//! Computation of the random-sampling window around a target character and
//! the panic-free draw of a candidate character from that window.

use vstd::prelude::*;
use crate::random::draw_in_range;

verus! {

/// Relies on `char::from_u32` of std: it returns `Some` exactly for the code
/// points that are valid Unicode scalar values, and the returned character
/// has the given code point.
pub assume_specification[ char::from_u32 ](v: u32) -> (r: Option<char>)
    ensures
        r is Some <==> valid_scalar(v as int),
        r is Some ==> r->0 as int == v as int,
;

/// Greatest Unicode scalar value, `char::MAX as u32`.
pub const MAX_SCALAR: u32 = 0x10FFFF;

/// First code point of the surrogate range, which no `char` may hold.
pub const SURROGATE_LO: u32 = 0xD800;

/// Last code point of the surrogate range.
pub const SURROGATE_HI: u32 = 0xDFFF;

/// A code point is a valid Unicode scalar value: at most `MAX_SCALAR` and not
/// a surrogate.
pub open spec fn valid_scalar(v: int) -> bool {
    0 <= v <= MAX_SCALAR && !(SURROGATE_LO <= v <= SURROGATE_HI)
}

/// Lower end of the sampling window: the target's code point minus the
/// vicinity, saturating at 0.
pub open spec fn spec_lower(target: char, vicinity: int) -> int {
    if target as int >= vicinity {
        target as int - vicinity
    } else {
        0
    }
}

/// Upper end of the sampling window: the target's code point plus the
/// vicinity, clamped to `MAX_SCALAR`.
pub open spec fn spec_upper(target: char, vicinity: int) -> int {
    if target as int + vicinity <= MAX_SCALAR {
        target as int + vicinity
    } else {
        MAX_SCALAR as int
    }
}

/// Computes a valid, panic-free random character draw for one cell.
pub struct RangeSampler;

impl RangeSampler {
    /// The sampling window `[lower, upper]` around `target`: saturating on the
    /// left of code point 0 and clamped on the right to the greatest scalar
    /// value, so that the window always contains `target` and nothing outside
    /// the code-point space.
    pub fn bounds(target: char, vicinity: u32) -> (r: (u32, u32))
        ensures
            r.0 == spec_lower(target, vicinity as int),
            r.1 == spec_upper(target, vicinity as int),
            r.0 <= target as u32 <= r.1,
            r.1 <= MAX_SCALAR,
    {
        let code = target as u32;
        let lower = if code >= vicinity {
            code - vicinity
        } else {
            0
        };
        let upper = if vicinity <= MAX_SCALAR - code {
            code + vicinity
        } else {
            MAX_SCALAR
        };
        (lower, upper)
    }

    /// Draws a character uniformly from the valid Unicode scalar values of
    /// the window `[lower, upper]` around `target`.  The surrogate range is
    /// cut out of the window before drawing, so every draw yields a valid
    /// scalar at once and the function can never fail; this is the same
    /// distribution as drawing from the whole window and redrawing any
    /// invalid code point.  With vicinity 0 the window is just the target, so
    /// the draw is the target itself.
    pub fn sample(target: char, vicinity: u32, rng: &mut rand::rngs::StdRng) -> (c: char)
        ensures
            spec_lower(target, vicinity as int) <= c as int <= spec_upper(target, vicinity as int),
            valid_scalar(c as int),
            vicinity == 0 ==> c == target,
    {
        let (lower, upper) = Self::bounds(target, vicinity);
        let v: u32 = if upper < SURROGATE_LO || lower > SURROGATE_HI {
            // The window misses the surrogate range entirely.
            draw_in_range(rng, lower, upper)
        } else if lower >= SURROGATE_LO {
            // The window begins inside the surrogate range; since the target
            // is a valid scalar inside the window, the window reaches past it.
            draw_in_range(rng, SURROGATE_HI + 1, upper)
        } else if upper <= SURROGATE_HI {
            // The window ends inside the surrogate range.
            draw_in_range(rng, lower, SURROGATE_LO - 1)
        } else {
            // The whole surrogate range lies inside the window: draw from the
            // window with the range cut out, then shift past it.
            let k = draw_in_range(rng, lower, upper - (SURROGATE_HI + 1 - SURROGATE_LO));
            if k >= SURROGATE_LO {
                k + (SURROGATE_HI + 1 - SURROGATE_LO)
            } else {
                k
            }
        };
        match char::from_u32(v) {
            Some(c) => c,
            None => vstd::pervasive::unreached(),
        }
    }
}

} // verus!
