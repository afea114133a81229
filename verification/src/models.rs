pub mod ili9341;
pub mod ili9342c;
pub mod ili934x;

use vstd::prelude::*;
use crate::interface::{DelayProvider, ResetOutput};

verus! {

/// How long the reset line is held low before it is released, in
/// microseconds: the controller-mandated minimum hold time.
pub const RESET_HOLD_US: u32 = 10;

/// The levels one hardware reset drives: a single low-then-high pulse.
pub open spec fn reset_pulse() -> Seq<bool> {
    seq![false, true]
}

/// Performs one hardware reset: drives the reset line low, holds it for the
/// mandated minimum time, then releases it high. Aborts on the first drive
/// fault; a fault on the release leaves the line low and the hold wait
/// already performed.
pub fn hard_reset<R, D>(rst: &mut R, delay: &mut D) -> (r: Result<(), R::PinError>)
    where
        R: ResetOutput,
        D: DelayProvider,
    ensures
        r is Ok ==> {
            &&& final(rst).levels() == old(rst).levels() + reset_pulse()
            &&& final(delay).waits() == old(delay).waits().push(RESET_HOLD_US)
        },
        r is Err ==> {
            ||| (final(rst).levels() == old(rst).levels() && final(delay).waits() == old(delay).waits())
            ||| (final(rst).levels() == old(rst).levels().push(false) && final(delay).waits()
                == old(delay).waits().push(RESET_HOLD_US))
        },
{
    match rst.set_low() {
        Ok(()) => {},
        Err(e) => {
            return Err(e);
        },
    }
    delay.delay_us(RESET_HOLD_US);
    match rst.set_high() {
        Ok(()) => {},
        Err(e) => {
            return Err(e);
        },
    }
    assert(rst.levels() =~= old(rst).levels() + reset_pulse());
    Ok(())
}

} // verus!
