//! The operations of the vJoy driver interface, as far as they decide or
//! compute anything. Remark: the vJoy driver itself is not thread-safe.

use vstd::prelude::*;
use vstd::string::*;

use crate::ffi::rusty_structure::{VJDPosition, VJDStatus, VJDevice};
use crate::vjoy_base::device::feeding::{VJDCall, VJDPosFeed};
use crate::vjoy_base::driver::{spec_unsigned, spec_version, VJGeneral};

pub mod device;
pub mod driver;

verus! {

/// Get the version number of the installed vJoy driver, or `None` if no vJoy
/// 2.x is installed and enabled.
///
/// `raw` is the version word that the driver reported, `None` where the
/// driver is not enabled and was therefore not asked.
pub fn vjoy_get_version(raw: Option<i16>) -> (r: Option<u16>)
    ensures
        raw is None ==> r is None,
        raw matches Some(word) ==> r == spec_version(spec_unsigned(word)),
{
    VJGeneral::get_version(raw)
}

/// Returns the vJoy driver version and the interface library version, or
/// `None` for either of one if the version cannot be determined.
///
/// The return format is a tuple: (driver_version, dll_version).
pub fn vjoy_get_driver_dll_version(driver_raw: u16, dll_raw: u16) -> (r: (Option<u16>, Option<u16>))
    ensures
        r.0 == spec_version(driver_raw as int),
        r.1 == spec_version(dll_raw as int),
{
    VJGeneral::get_driver_dll_version(driver_raw, dll_raw)
}

/// The call that acquires `device`. Only a device in state `Free` can be acquired.
pub fn vjoy_acquire(device: VJDevice) -> (r: VJDCall)
    ensures
        r == VJDCall::Acquire(device),
{
    VJDCall::Acquire(device)
}

/// Relinquishes `device`, which was last seen in `status`: the call that
/// relinquishes it where the device is owned, `None` where it is not. Whether
/// the call succeeded tells [`vjoy_relinquished`].
pub fn vjoy_relinquish(device: VJDevice, status: VJDStatus) -> (r: Option<VJDCall>)
    ensures
        r == (if status == VJDStatus::Own {
            Some(VJDCall::Relinquish(device))
        } else {
            None
        }),
{
    match status {
        VJDStatus::Own => Some(VJDCall::Relinquish(device)),
        _ => None,
    }
}

/// Whether a device that was relinquished is given back: it is, if it is
/// seen as free afterwards.
pub fn vjoy_relinquished(after: VJDStatus) -> (r: bool)
    ensures
        r == (after == VJDStatus::Free),
{
    match after {
        VJDStatus::Free => true,
        _ => false,
    }
}

/// The call that updates the position data of the device that `position` is
/// meant for. It is to be made only after the device was acquired; this
/// function does not look at that.
pub fn vjoy_update_position_unchecked(position: &VJDPosition) -> (r: VJDCall)
    ensures
        r == VJDCall::SendPosition(position.spec_device(), position@),
{
    VJDPosFeed::send_position(position)
}

/// Updates the position data of the device that `position` is meant for,
/// which was last seen in `status`: the call that sends the position where
/// the device is owned, `None` where it is not.
pub fn vjoy_update_position(position: &VJDPosition, status: VJDStatus) -> (r: Option<VJDCall>)
    ensures
        r == (if status == VJDStatus::Own {
            Some(VJDCall::SendPosition(position.spec_device(), position@))
        } else {
            None
        }),
{
    match status {
        VJDStatus::Own => Some(VJDPosFeed::send_position(position)),
        _ => None,
    }
}

/// Describe a negative state of [`vjoy_get_owner_pid`].
#[derive(Debug)]
pub enum PIDFailed {
    /// Usually indicates a FREE device (no owner).
    NoFileExist,
    /// Usually indicates a MISSING device.
    NoDevExist,
    /// Indicates some internal problem.
    BadDevStat,
    /// Unknown, with a sentence that names the device.
    Unknown(String),
}

/// The character of the decimal digit `digit`.
pub open spec fn digit_char(digit: int) -> char {
    (48 + digit) as char
}

/// `number` written in decimal digits, without leading zeros.
pub open spec fn spec_decimal(number: nat) -> Seq<char>
    decreases number,
{
    if number < 10 {
        seq![digit_char(number as int)]
    } else {
        spec_decimal(number / 10).push(digit_char((number % 10) as int))
    }
}

/// What is said of a device whose owner the driver does not tell.
pub open spec fn spec_unknown_owner(device_id: u32) -> Seq<char> {
    "Device "@ + spec_decimal(device_id as nat)
        + " not owned by a process and its state is unknown."@
}

fn digit_text(digit: u32) -> (r: &'static str)
    requires
        digit < 10,
    ensures
        r@ == seq![digit_char(digit as int)],
{
    proof {
        reveal_strlit("0");
        reveal_strlit("1");
        reveal_strlit("2");
        reveal_strlit("3");
        reveal_strlit("4");
        reveal_strlit("5");
        reveal_strlit("6");
        reveal_strlit("7");
        reveal_strlit("8");
        reveal_strlit("9");
    }
    let text = match digit {
        0 => "0",
        1 => "1",
        2 => "2",
        3 => "3",
        4 => "4",
        5 => "5",
        6 => "6",
        7 => "7",
        8 => "8",
        _ => "9",
    };
    proof {
        assert(text@ =~= seq![digit_char(digit as int)]);
    }
    text
}

/// Writes `number` in decimal digits behind `text`.
fn append_decimal(text: &mut String, number: u32)
    ensures
        final(text)@ == old(text)@ + spec_decimal(number as nat),
    decreases number,
{
    if number >= 10 {
        append_decimal(text, number / 10);
    }
    let ghost before = text@;
    text.append(digit_text(number % 10));
    proof {
        if number >= 10 {
            assert(before + seq![digit_char((number % 10) as int)] =~= old(text)@ + spec_decimal(
                (number / 10) as nat,
            ).push(digit_char((number % 10) as int)));
        }
    }
}

/// Reads the driver's answer to the question which process owns the device
/// with number `device_id`.
///
/// A `code` that is not negative is the process id (PID) of the owner. The
/// codes -11, -12 and -13 are the three negative states the driver names.
/// Every other code is `Unknown`, with the sentence
/// "Device N not owned by a process and its state is unknown." for device N.
pub fn vjoy_get_owner_pid(device_id: u32, code: i32) -> (r: Result<i32, PIDFailed>)
    ensures
        code >= 0 ==> r == Ok::<i32, PIDFailed>(code),
        code == -11 ==> r == Err::<i32, PIDFailed>(PIDFailed::BadDevStat),
        code == -12 ==> r == Err::<i32, PIDFailed>(PIDFailed::NoDevExist),
        code == -13 ==> r == Err::<i32, PIDFailed>(PIDFailed::NoFileExist),
        code < 0 && code != -11 && code != -12 && code != -13 ==> (r matches Err(
            PIDFailed::Unknown(sentence),
        ) && sentence@ == spec_unknown_owner(device_id)),
{
    if code >= 0 {
        Ok(code)
    } else {
        match code {
            -11 => Err(PIDFailed::BadDevStat),
            -12 => Err(PIDFailed::NoDevExist),
            -13 => Err(PIDFailed::NoFileExist),
            _ => {
                let mut sentence = "Device ".to_owned();
                append_decimal(&mut sentence, device_id);
                sentence.append(" not owned by a process and its state is unknown.");
                Err(PIDFailed::Unknown(sentence))
            },
        }
    }
}

} // verus!
