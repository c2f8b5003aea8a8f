//! The driver's input for one tick.
use vstd::prelude::*;

verus! {

/// Which controls are held.
#[derive(Clone, Copy, Debug, PartialEq, Eq, Default)]
pub struct Controls {
    /// Accelerate forward.
    pub throttle: bool,
    /// Brake, then reverse.
    pub brake: bool,
    pub steer_left: bool,
    pub steer_right: bool,
}

} // verus!
