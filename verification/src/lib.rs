pub mod dice;
pub mod game;
pub mod player;

use vstd::prelude::*;

verus! {

/// Saturating addition of `d` to `x`, clamped above at `cap`.
pub open spec fn add_clamped(x: int, d: int, cap: int) -> int {
    if x + d > cap {
        cap
    } else {
        x + d
    }
}

/// Saturating subtraction of `d` from `x`, floored at zero.
pub open spec fn sub_floored(x: int, d: int) -> int {
    if x - d < 0 {
        0
    } else {
        x - d
    }
}

} // verus!
