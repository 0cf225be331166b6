//! The arithmetic behind the control surface's display: percentages and
//! bar widths derived from fixed-point gains. The drawing itself belongs to
//! the surrounding program.
use vstd::prelude::*;

verus! {

use vstd::arithmetic::div_mod::{
    lemma_div_is_ordered,
    lemma_div_multiples_vanish,
    lemma_div_pos_is_pos,
};
use crate::GAIN_UNIT;

/// The gain as a whole percentage, rounded down; full scale is exactly 100.
pub fn gain_percent(g: u32) -> (p: u32)
    requires
        g <= GAIN_UNIT,
    ensures
        p == g * 100 / (GAIN_UNIT as int),
        p <= 100,
{
    proof {
        lemma_div_pos_is_pos((g * 100) as int, GAIN_UNIT as int);
        lemma_div_is_ordered((g * 100) as int, (GAIN_UNIT * 100) as int, GAIN_UNIT as int);
        lemma_div_multiples_vanish(100, GAIN_UNIT as int);
    }
    g * 100 / GAIN_UNIT
}

/// How many cells of a bar of the given width are filled, rounded down;
/// never more than the width, and the full width exactly at full scale.
pub fn bar_filled(g: u32, width: u32) -> (f: u32)
    requires
        g <= GAIN_UNIT,
        width <= 1000,
    ensures
        f == g * width / (GAIN_UNIT as int),
        f <= width,
        g == GAIN_UNIT ==> f == width,
{
    proof {
        assert(g * width <= GAIN_UNIT * width) by (nonlinear_arith)
            requires
                g <= GAIN_UNIT,
                0 <= width,
        ;
        assert(GAIN_UNIT * width <= 9000 * 1000) by (nonlinear_arith)
            requires
                width <= 1000,
        ;
        lemma_div_pos_is_pos((g * width) as int, GAIN_UNIT as int);
        lemma_div_is_ordered((g * width) as int, (GAIN_UNIT * width) as int, GAIN_UNIT as int);
        lemma_div_multiples_vanish(width as int, GAIN_UNIT as int);
    }
    g * width / GAIN_UNIT
}

} // verus!
