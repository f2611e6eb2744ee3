//! Where the panel goes: a fixed size, centred horizontally on the monitor,
//! at a fixed distance below its top edge. All in logical units.

use vstd::prelude::*;
use crate::fraction::Fraction;
use crate::fraction::Ratio;
use crate::monitor::Monitor;

verus! {

/// The panel's fixed measures, in logical units.
#[derive(Clone, Copy, Debug, PartialEq, Eq)]
pub struct PanelConfig {
    /// Width of the panel.
    pub width: u32,
    /// Height of the panel.
    pub height: u32,
    /// Distance between the monitor's top edge and the panel's.
    pub top_offset: u32,
}

/// A size and a top-left position for the panel, in logical units.
#[derive(Clone, Copy, Debug, PartialEq, Eq)]
pub struct Layout {
    /// Width of the panel.
    pub width: u32,
    /// Height of the panel.
    pub height: u32,
    /// Distance from the monitor's left edge.
    pub x: Ratio,
    /// Distance from the monitor's top edge.
    pub y: u32,
}

/// A layout as mathematics sees it.
pub struct LayoutView {
    pub width: int,
    pub height: int,
    pub x: Fraction,
    pub y: int,
}

impl View for Layout {
    type V = LayoutView;

    open spec fn view(&self) -> LayoutView {
        LayoutView {
            width: self.width as int,
            height: self.height as int,
            x: self.x@,
            y: self.y as int,
        }
    }
}

/// The horizontal position that centres something `extent` wide in a span
/// `span` wide: `(span - extent) / 2`.
pub open spec fn centered(span: Fraction, extent: int) -> Fraction {
    span.minus(extent).half()
}

/// The layout of a panel with measures `config` on `monitor`.
pub open spec fn layout_spec(config: PanelConfig, monitor: Monitor) -> LayoutView {
    LayoutView {
        width: config.width as int,
        height: config.height as int,
        x: centered(monitor.logical_width_spec(), config.width as int),
        y: config.top_offset as int,
    }
}

/// Computes the panel's layout on `monitor`: the configured size, centred
/// horizontally on the monitor's logical width, at the configured distance
/// from the top. A monitor narrower than the panel gives a negative `x`.
pub fn compute_layout(config: &PanelConfig, monitor: &Monitor) -> (layout: Layout)
    ensures
        layout@ == layout_spec(*config, *monitor),
        layout@.x.den > 0,
        layout@.x.at_least(0) <==> monitor.logical_width_spec().at_least(config.width as int),
{
    let n: u64 = monitor.scale.numer();
    let d: u64 = monitor.scale.denom();
    proof {
        assert(0 <= monitor.width * d <= 0xffff_ffff * 0xffff_ffff_ffff_ffff) by (nonlinear_arith)
            requires
                0 <= monitor.width <= 0xffff_ffff,
                0 <= d <= 0xffff_ffff_ffff_ffff,
        ;
        assert(0 <= config.width * n <= 0xffff_ffff * 0xffff_ffff_ffff_ffff) by (nonlinear_arith)
            requires
                0 <= config.width <= 0xffff_ffff,
                0 <= n <= 0xffff_ffff_ffff_ffff,
        ;
    }
    let span: i128 = (monitor.width as i128) * (d as i128);
    let extent: i128 = (config.width as i128) * (n as i128);
    let x = Ratio::new(span - extent, 2 * (n as u128)).unwrap();
    Layout { width: config.width, height: config.height, x, y: config.top_offset }
}

/// The panel is centred: twice its horizontal position plus its own width
/// is the monitor's logical width. The position is not negative exactly
/// when the monitor is at least as wide as the panel.
pub proof fn lemma_layout_centered(config: PanelConfig, monitor: Monitor)
    requires
        monitor.scale@.positive(),
    ensures
        layout_spec(config, monitor).x.den > 0,
        layout_spec(config, monitor).x.twice().plus(config.width as int).same(
            monitor.logical_width_spec(),
        ),
        layout_spec(config, monitor).x.at_least(0) <==> monitor.logical_width_spec().at_least(
            config.width as int,
        ),
{
    let w = monitor.width as int;
    let p = config.width as int;
    let n = monitor.scale@.num;
    let d = monitor.scale@.den;
    assert((2 * (w * d - p * n) + p * (2 * n)) * n == (w * d) * (2 * n)) by (nonlinear_arith);
}

/// Size and vertical position do not depend on the monitor: on any two
/// monitors the panel has its configured size and sits at the configured
/// distance from the top.
pub proof fn lemma_layout_fixed_parts(config: PanelConfig, a: Monitor, b: Monitor)
    ensures
        layout_spec(config, a).y == config.top_offset,
        layout_spec(config, a).y == layout_spec(config, b).y,
        layout_spec(config, a).width == layout_spec(config, b).width == config.width,
        layout_spec(config, a).height == layout_spec(config, b).height == config.height,
{
}

} // verus!
