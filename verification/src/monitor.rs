//! A snapshot of the monitor that the panel is laid out on: its size in
//! physical pixels and the scale factor that turns them into logical units.

use vstd::prelude::*;
use crate::fraction::Fraction;
use crate::fraction::Ratio;
use crate::scale::ScaleFactor;

verus! {

/// A monitor as the window system describes it.
#[derive(Clone, Copy, Debug, PartialEq, Eq)]
pub struct Monitor {
    /// Width in physical pixels.
    pub width: u32,
    /// Height in physical pixels.
    pub height: u32,
    /// Physical pixels per logical unit.
    pub scale: ScaleFactor,
}

impl Monitor {
    /// The width in logical units: the physical width divided by the scale
    /// factor.
    pub open spec fn logical_width_spec(self) -> Fraction {
        Fraction::whole_over(self.width as int, self.scale@)
    }

    /// The width in logical units.
    pub fn logical_width(&self) -> (w: Ratio)
        ensures
            w@ == self.logical_width_spec(),
            w@.den > 0,
    {
        let n: u64 = self.scale.numer();
        let d: u64 = self.scale.denom();
        proof {
            assert(self.width * d <= 0xffff_ffff * 0xffff_ffff_ffff_ffff) by (nonlinear_arith)
                requires
                    self.width <= 0xffff_ffff,
                    d <= 0xffff_ffff_ffff_ffff,
            ;
        }
        let numer: i128 = (self.width as i128) * (d as i128);
        Ratio::new(numer, n as u128).unwrap()
    }
}

/// The monitor to lay the panel out on: the one it currently resides on,
/// else the primary one, else none.
pub fn resolve_monitor(current: Option<Monitor>, primary: Option<Monitor>) -> (m: Option<Monitor>)
    ensures
        m == (if current is Some { current } else { primary }),
{
    match current {
        Some(c) => Some(c),
        None => primary,
    }
}

/// The scaled width gives back the physical width: the logical width times
/// the scale factor is the width in physical pixels, whatever the positive
/// scale factor.
pub proof fn lemma_logical_width_scales_back(monitor: Monitor)
    requires
        monitor.scale@.positive(),
    ensures
        monitor.logical_width_spec().den > 0,
        monitor.logical_width_spec().times(monitor.scale@).is_whole(monitor.width as int),
{
    let w = monitor.width as int;
    let n = monitor.scale@.num;
    let d = monitor.scale@.den;
    assert((w * d) * n == w * (n * d)) by (nonlinear_arith);
}

} // verus!
