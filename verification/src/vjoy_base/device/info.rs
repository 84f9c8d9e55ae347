//! Contains information regarding vJoy devices: what the driver's answers to
//! the queries about a device mean.

use vstd::prelude::*;

verus! {

/// Describes a negative state of [`VJDInfo::get_owner_pid`].
#[derive(Debug, Copy, Clone, PartialEq, Eq, Hash)]
pub enum PIDFailed {
    /// Usually indicates a free device (no owner).
    NoFileExist,
    /// Usually indicates a missing device.
    NoDevExist,
    /// Indicates some internal problem.
    BadDevStat,
    /// Unknown failure.
    Unknown,
}

/// Describes a negative state of [`VJDInfo::get_total_btns`].
#[derive(Debug, Copy, Clone, PartialEq, Eq, Hash)]
pub enum TotalBtnsFailed {
    /// Failed to get a handle to a specified HID device index.
    NoHandleByIndex,
    /// Failed to get device's pre-parsed data.
    BadPreparsedData,
    /// Failed to get device's capabilities.
    NoCaps,
    /// Failed to get the "Number of Buttons" field in the device's
    /// capabilities structure.
    BadNBtnCaps,
    /// Failed to extract the "Button Capabilities" from the device's
    /// capabilities structure.
    BadBtnCaps,
    /// Failed to extract the "Button Range" from device's capabilities
    /// structure.
    BadBtnRange,
    /// Unknown failure.
    Unknown,
}

/// Describes an error state of [`VJDInfo::get_total_disc_povs`] or
/// [`VJDInfo::get_total_cont_povs`].
#[derive(Debug, Copy, Clone, PartialEq, Eq, Hash)]
pub enum TotalPOVFailed {
    /// Unknown failure.
    Unknown,
}

/// The count that the driver's answer `code` carries: its lowest eight bits.
pub open spec fn spec_count(code: int) -> u8 {
    (code % 256) as u8
}

/// Holder of utility methods to read what the driver answers about a device.
pub struct VJDInfo(());

impl VJDInfo {
    /// Reads the driver's answer to the question which process owns a device.
    ///
    /// A positive `code` is the process id (PID) of the owner. Every other
    /// code is a negative state: -11, -12 and -13 are the three states the
    /// driver names, all others are `Unknown`.
    pub fn get_owner_pid(code: i32) -> (r: Result<i32, PIDFailed>)
        ensures
            code > 0 ==> r == Ok::<i32, PIDFailed>(code),
            code == -11 ==> r == Err::<i32, PIDFailed>(PIDFailed::BadDevStat),
            code == -12 ==> r == Err::<i32, PIDFailed>(PIDFailed::NoDevExist),
            code == -13 ==> r == Err::<i32, PIDFailed>(PIDFailed::NoFileExist),
            code <= 0 && code != -11 && code != -12 && code != -13 ==> r == Err::<i32, PIDFailed>(
                PIDFailed::Unknown,
            ),
    {
        if code > 0 {
            Ok(code)
        } else {
            match code {
                -11 => Err(PIDFailed::BadDevStat),
                -12 => Err(PIDFailed::NoDevExist),
                -13 => Err(PIDFailed::NoFileExist),
                _ => Err(PIDFailed::Unknown),
            }
        }
    }

    /// Reads the driver's answer to the question how many buttons a device
    /// has. Valid numbers are 0 to 128.
    ///
    /// A `code` that is not negative is the number; of a number beyond 255
    /// the lowest eight bits are kept. The negative codes -1 to -4, -6 and -7
    /// are the failures the driver names, all others are `Unknown`.
    pub fn get_total_btns(code: i32) -> (r: Result<u8, TotalBtnsFailed>)
        ensures
            code >= 0 ==> r == Ok::<u8, TotalBtnsFailed>(spec_count(code as int)),
            code == -1 ==> r == Err::<u8, TotalBtnsFailed>(TotalBtnsFailed::NoHandleByIndex),
            code == -2 ==> r == Err::<u8, TotalBtnsFailed>(TotalBtnsFailed::BadPreparsedData),
            code == -3 ==> r == Err::<u8, TotalBtnsFailed>(TotalBtnsFailed::NoCaps),
            code == -4 ==> r == Err::<u8, TotalBtnsFailed>(TotalBtnsFailed::BadNBtnCaps),
            code == -6 ==> r == Err::<u8, TotalBtnsFailed>(TotalBtnsFailed::BadBtnCaps),
            code == -7 ==> r == Err::<u8, TotalBtnsFailed>(TotalBtnsFailed::BadBtnRange),
            code == -5 || code < -7 ==> r == Err::<u8, TotalBtnsFailed>(TotalBtnsFailed::Unknown),
    {
        if code >= 0 {
            Ok(Self::count(code))
        } else {
            match code {
                -1 => Err(TotalBtnsFailed::NoHandleByIndex),
                -2 => Err(TotalBtnsFailed::BadPreparsedData),
                -3 => Err(TotalBtnsFailed::NoCaps),
                -4 => Err(TotalBtnsFailed::BadNBtnCaps),
                -6 => Err(TotalBtnsFailed::BadBtnCaps),
                -7 => Err(TotalBtnsFailed::BadBtnRange),
                _ => Err(TotalBtnsFailed::Unknown),
            }
        }
    }

    /// Reads the driver's answer to the question how many discrete POV hats
    /// a device has. Valid numbers are 0 to 4.
    ///
    /// A `code` that is not negative is the number, of which the lowest eight
    /// bits are kept; a negative one is a failure.
    pub fn get_total_disc_povs(code: i32) -> (r: Result<u8, TotalPOVFailed>)
        ensures
            code >= 0 ==> r == Ok::<u8, TotalPOVFailed>(spec_count(code as int)),
            code < 0 ==> r == Err::<u8, TotalPOVFailed>(TotalPOVFailed::Unknown),
    {
        if code >= 0 {
            Ok(Self::count(code))
        } else {
            Err(TotalPOVFailed::Unknown)
        }
    }

    /// Reads the driver's answer to the question how many continuous POV hats
    /// a device has. Valid numbers are 0 to 4.
    ///
    /// A `code` that is not negative is the number, of which the lowest eight
    /// bits are kept; a negative one is a failure.
    pub fn get_total_cont_povs(code: i32) -> (r: Result<u8, TotalPOVFailed>)
        ensures
            code >= 0 ==> r == Ok::<u8, TotalPOVFailed>(spec_count(code as int)),
            code < 0 ==> r == Err::<u8, TotalPOVFailed>(TotalPOVFailed::Unknown),
    {
        if code >= 0 {
            Ok(Self::count(code))
        } else {
            Err(TotalPOVFailed::Unknown)
        }
    }

    fn count(code: i32) -> (r: u8)
        requires
            code >= 0,
        ensures
            r == spec_count(code as int),
    {
        (code % 256) as u8
    }
}

} // verus!
