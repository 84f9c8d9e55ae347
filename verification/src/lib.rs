//! A verified core for feeding vJoy virtual joysticks.
//!
//! The crate builds the packed position report that the vJoy driver consumes,
//! rescales axis samples between the SDL2 and the vJoy domains, decodes what
//! the driver answers, and decides which driver calls an operation needs. It
//! performs no driver call itself: callers hand in what they observed and
//! carry out what the library asks for.

pub mod ffi;
pub mod vjoy_extra;
pub mod vjoy_base;
pub mod vjoy_extended;
