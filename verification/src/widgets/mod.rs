//! Widgets: the building blocks of tabs and components, each a small state
//! machine driven by key presses and widget actions.
pub mod aws_service_navigator;
pub mod input_box;
pub mod paragraph;
pub mod popup;
pub mod service_navigator;

use vstd::prelude::*;

verus! {

/// A rectangle of terminal cells, as the renderer receives it.
#[derive(Clone, Copy, PartialEq, Eq, Structural, Debug)]
pub struct Area {
    pub x: u16,
    pub y: u16,
    pub width: u16,
    pub height: u16,
}

/// `a + b`, or `u16::MAX` where the sum does not fit.
pub open spec fn sat_add(a: u16, b: u16) -> u16 {
    if a + b > u16::MAX { u16::MAX } else { (a + b) as u16 }
}

/// `a - b`, or 0 where `b > a`.
pub open spec fn sat_sub(a: u16, b: u16) -> u16 {
    if a >= b { (a - b) as u16 } else { 0 }
}

} // verus!
