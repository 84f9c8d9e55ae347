//! Provides additional functionalities: the scaling of axis samples, the
//! reading of the devices that the registry lists, and the matching of SDL2
//! joysticks with vJoy devices.

use vstd::prelude::*;

pub mod registry;
pub mod scaling;
pub mod sdl2_vjoys;

pub use scaling::{scale, spec_scale, AxisRange};

verus! {

/// Provides utilities to handle and recognize vJoy devices inside SDL2.
pub struct SDL2Helper(());

} // verus!
