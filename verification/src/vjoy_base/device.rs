//! Contains logics to operate on vJoy devices.

pub use crate::ffi::{
    PositionV2, VJDAxis, VJDButton, VJDButtonState, VJDError, VJDPosition, VJDPovDisc,
    VJDPovNumber, VJDStatus, VJDevice,
};

pub mod feeding;
pub mod info;
