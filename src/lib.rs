// Discrete logic of a point-mass flight-dynamics model: the control-input
// integrator, the keyboard request mapping, the heading-formula table and
// the big-endian telemetry record sent to the flight visualiser.
use vstd::prelude::*;

pub mod controls;
pub mod heading;
pub mod keyboard;
pub mod telemetry;

verus! {

} // verus!
