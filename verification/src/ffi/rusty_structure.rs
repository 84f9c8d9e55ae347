//! Device identifiers, driver enumerations and the packed position report.

use vstd::prelude::*;

use crate::ffi::{VJDButtonState, MAX_BUTTON, MIN_BUTTON};

verus! {

/// Describes the maximum number of vJoy devices that can potentially exist.
pub const MAX_DEVICES: u8 = 16;

/// The number of POV hats a device can carry.
pub const MAX_POVS: u8 = 4;

/// What the position and scaling operations reject.
#[derive(Debug, Copy, Clone, PartialEq, Eq, Structural, Hash)]
pub enum VJDError {
    /// A button number outside 1..=128.
    InvalidButtonNumber,
    /// A POV number outside 1..=4.
    InvalidPovNumber,
    /// A device number outside 1..=16.
    InvalidDeviceId,
    /// An axis range whose maximum does not lie above its minimum.
    DegenerateRange,
}

/// Describes the status of a vJoy device.
#[derive(Debug, Copy, Clone, PartialEq, Eq, Structural, Hash)]
pub enum VJDStatus {
    /// The vJoy device is owned by this application.
    Own,
    /// The vJoy device is not owned by any application (including this one).
    Free,
    /// The vJoy device is owned by another application. It cannot be acquired by this
    /// application.
    Busy,
    /// The vJoy device is missing. It either does not exist or the driver is disabled.
    Miss,
    /// Unknown.
    Unknown,
}

impl VJDStatus {
    /// The status that a driver status code stands for. The driver counts its
    /// statuses from 0 in the order of the variants; every other code is `Unknown`.
    pub open spec fn spec_get_from(code: int) -> VJDStatus {
        if code == 0 {
            VJDStatus::Own
        } else if code == 1 {
            VJDStatus::Free
        } else if code == 2 {
            VJDStatus::Busy
        } else if code == 3 {
            VJDStatus::Miss
        } else {
            VJDStatus::Unknown
        }
    }

    /// Decodes a driver status code.
    pub fn get_from(code: i32) -> (r: VJDStatus)
        ensures
            r == Self::spec_get_from(code as int),
    {
        match code {
            0 => VJDStatus::Own,
            1 => VJDStatus::Free,
            2 => VJDStatus::Busy,
            3 => VJDStatus::Miss,
            _ => VJDStatus::Unknown,
        }
    }
}

/// Describes an axis of a vJoy device.
#[derive(Debug, Copy, Clone, PartialEq, Eq, Structural, Hash)]
pub enum VJDAxis {
    X,
    Y,
    Z,
    Rx,
    Ry,
    Rz,
    Slider1,
    Slider2,
}

impl VJDAxis {
    /// The HID usage by which the driver names the axis: 0x30 for X up to
    /// 0x37 for the second slider.
    pub open spec fn spec_usage(self) -> int {
        match self {
            VJDAxis::X => 0x30,
            VJDAxis::Y => 0x31,
            VJDAxis::Z => 0x32,
            VJDAxis::Rx => 0x33,
            VJDAxis::Ry => 0x34,
            VJDAxis::Rz => 0x35,
            VJDAxis::Slider1 => 0x36,
            VJDAxis::Slider2 => 0x37,
        }
    }

    /// The HID usage by which the driver names the axis.
    pub fn usage(self) -> (r: u32)
        ensures
            r == self.spec_usage(),
    {
        match self {
            VJDAxis::X => 0x30,
            VJDAxis::Y => 0x31,
            VJDAxis::Z => 0x32,
            VJDAxis::Rx => 0x33,
            VJDAxis::Ry => 0x34,
            VJDAxis::Rz => 0x35,
            VJDAxis::Slider1 => 0x36,
            VJDAxis::Slider2 => 0x37,
        }
    }
}

/// Describes a vJoy device number ("id"). Devices are numbered from 1.
#[derive(Debug, Copy, Clone, PartialEq, Eq, Structural, Hash)]
pub enum VJDevice {
    /// Device #1.
    D1,
    /// Device #2.
    D2,
    /// Device #3.
    D3,
    /// Device #4.
    D4,
    /// Device #5.
    D5,
    /// Device #6.
    D6,
    /// Device #7.
    D7,
    /// Device #8.
    D8,
    /// Device #9.
    D9,
    /// Device #10.
    D10,
    /// Device #11.
    D11,
    /// Device #12.
    D12,
    /// Device #13.
    D13,
    /// Device #14.
    D14,
    /// Device #15.
    D15,
    /// Device #16.
    D16,
}

impl VJDevice {
    /// The number of the device, from 1 to 16.
    pub open spec fn spec_id(self) -> int {
        match self {
            VJDevice::D1 => 1,
            VJDevice::D2 => 2,
            VJDevice::D3 => 3,
            VJDevice::D4 => 4,
            VJDevice::D5 => 5,
            VJDevice::D6 => 6,
            VJDevice::D7 => 7,
            VJDevice::D8 => 8,
            VJDevice::D9 => 9,
            VJDevice::D10 => 10,
            VJDevice::D11 => 11,
            VJDevice::D12 => 12,
            VJDevice::D13 => 13,
            VJDevice::D14 => 14,
            VJDevice::D15 => 15,
            VJDevice::D16 => 16,
        }
    }

    /// The device with number `id`, for a number from 1 to 16.
    pub open spec fn spec_with_id(id: int) -> VJDevice {
        if id == 1 {
            VJDevice::D1
        } else if id == 2 {
            VJDevice::D2
        } else if id == 3 {
            VJDevice::D3
        } else if id == 4 {
            VJDevice::D4
        } else if id == 5 {
            VJDevice::D5
        } else if id == 6 {
            VJDevice::D6
        } else if id == 7 {
            VJDevice::D7
        } else if id == 8 {
            VJDevice::D8
        } else if id == 9 {
            VJDevice::D9
        } else if id == 10 {
            VJDevice::D10
        } else if id == 11 {
            VJDevice::D11
        } else if id == 12 {
            VJDevice::D12
        } else if id == 13 {
            VJDevice::D13
        } else if id == 14 {
            VJDevice::D14
        } else if id == 15 {
            VJDevice::D15
        } else {
            VJDevice::D16
        }
    }

    /// The number of the device, from 1 to 16.
    pub fn id(self) -> (r: u8)
        ensures
            r == self.spec_id(),
            1 <= r <= MAX_DEVICES,
    {
        match self {
            VJDevice::D1 => 1,
            VJDevice::D2 => 2,
            VJDevice::D3 => 3,
            VJDevice::D4 => 4,
            VJDevice::D5 => 5,
            VJDevice::D6 => 6,
            VJDevice::D7 => 7,
            VJDevice::D8 => 8,
            VJDevice::D9 => 9,
            VJDevice::D10 => 10,
            VJDevice::D11 => 11,
            VJDevice::D12 => 12,
            VJDevice::D13 => 13,
            VJDevice::D14 => 14,
            VJDevice::D15 => 15,
            VJDevice::D16 => 16,
        }
    }

    /// The device with the given number, if the number lies in 1..=16.
    pub fn get_from(value: u8) -> (r: Option<VJDevice>)
        ensures
            r is Some <==> 1 <= value <= MAX_DEVICES,
            r matches Some(device) ==> device.spec_id() == value && device == Self::spec_with_id(
                value as int,
            ),
    {
        if value < 1 || value > MAX_DEVICES {
            return None;
        }
        match value {
            1 => Some(VJDevice::D1),
            2 => Some(VJDevice::D2),
            3 => Some(VJDevice::D3),
            4 => Some(VJDevice::D4),
            5 => Some(VJDevice::D5),
            6 => Some(VJDevice::D6),
            7 => Some(VJDevice::D7),
            8 => Some(VJDevice::D8),
            9 => Some(VJDevice::D9),
            10 => Some(VJDevice::D10),
            11 => Some(VJDevice::D11),
            12 => Some(VJDevice::D12),
            13 => Some(VJDevice::D13),
            14 => Some(VJDevice::D14),
            15 => Some(VJDevice::D15),
            16 => Some(VJDevice::D16),
            _ => None,
        }
    }
}

/// Describes a discrete POV direction of a vJoy device.
#[derive(Debug, Copy, Clone, PartialEq, Eq, Structural, Hash)]
pub enum VJDPovDisc {
    Neutral,
    North,
    East,
    South,
    West,
}

impl VJDPovDisc {
    /// The value the driver expects for the direction: -1 for neutral, then
    /// 0 to 3 clockwise from north.
    pub open spec fn spec_value(self) -> int {
        match self {
            VJDPovDisc::Neutral => -1,
            VJDPovDisc::North => 0,
            VJDPovDisc::East => 1,
            VJDPovDisc::South => 2,
            VJDPovDisc::West => 3,
        }
    }

    /// The four bits that stand for the direction in a packed report: the
    /// driver's value, with neutral as the all-ones nibble.
    pub open spec fn spec_nibble(self) -> u32 {
        match self {
            VJDPovDisc::Neutral => 0xF,
            VJDPovDisc::North => 0,
            VJDPovDisc::East => 1,
            VJDPovDisc::South => 2,
            VJDPovDisc::West => 3,
        }
    }

    /// The value the driver expects for the direction.
    pub fn value(self) -> (r: i32)
        ensures
            r == self.spec_value(),
    {
        match self {
            VJDPovDisc::Neutral => -1,
            VJDPovDisc::North => 0,
            VJDPovDisc::East => 1,
            VJDPovDisc::South => 2,
            VJDPovDisc::West => 3,
        }
    }

    /// The four bits that stand for the direction in a packed report.
    pub fn nibble(self) -> (r: u32)
        ensures
            r == self.spec_nibble(),
            r <= 0xF,
    {
        match self {
            VJDPovDisc::Neutral => 0xF,
            VJDPovDisc::North => 0,
            VJDPovDisc::East => 1,
            VJDPovDisc::South => 2,
            VJDPovDisc::West => 3,
        }
    }
}

/// Describes a POV number ("id") of a vJoy device. POVs are numbered from 1.
#[derive(Debug, Copy, Clone, PartialEq, Eq, Structural, Hash)]
pub enum VJDPovNumber {
    /// POV #1.
    Pov1,
    /// POV #2.
    Pov2,
    /// POV #3.
    Pov3,
    /// POV #4.
    Pov4,
}

impl VJDPovNumber {
    /// The number of the POV, from 1 to 4.
    pub open spec fn spec_number(self) -> int {
        match self {
            VJDPovNumber::Pov1 => 1,
            VJDPovNumber::Pov2 => 2,
            VJDPovNumber::Pov3 => 3,
            VJDPovNumber::Pov4 => 4,
        }
    }

    /// The number of the POV, from 1 to 4.
    pub fn number(self) -> (r: u8)
        ensures
            r == self.spec_number(),
            1 <= r <= MAX_POVS,
    {
        match self {
            VJDPovNumber::Pov1 => 1,
            VJDPovNumber::Pov2 => 2,
            VJDPovNumber::Pov3 => 3,
            VJDPovNumber::Pov4 => 4,
        }
    }

    /// The POV with the given number; `InvalidPovNumber` for a number outside 1..=4.
    pub fn get_from(value: u8) -> (r: Result<VJDPovNumber, VJDError>)
        ensures
            r is Ok <==> 1 <= value <= MAX_POVS,
            r matches Ok(pov) ==> pov.spec_number() == value,
            r matches Err(e) ==> e == VJDError::InvalidPovNumber,
    {
        match value {
            1 => Ok(VJDPovNumber::Pov1),
            2 => Ok(VJDPovNumber::Pov2),
            3 => Ok(VJDPovNumber::Pov3),
            4 => Ok(VJDPovNumber::Pov4),
            _ => Err(VJDError::InvalidPovNumber),
        }
    }
}


/// The value a hat field holds while its POV points nowhere: -1 as the driver
/// writes it into an unsigned field.
pub const NEUTRAL_HAT: u32 = 0xFFFF_FFFF;

/// The value at which the X, Y and Z axes rest: the middle of the driver's range.
pub const AXIS_MIDPOINT: i32 = 16384;

/// Holds data that describes a position of a vJoy device.
///
/// The fields stand in the order in which the driver reads them.
#[allow(non_snake_case)]
#[derive(Debug, Copy, Clone, PartialEq, Eq, Structural, Hash)]
pub struct PositionV2 {
    /// Device id (1-based). The driver overwrites it with the id it is called with.
    pub bDevice: u8,
    pub wThrottle: i32,
    pub wRudder: i32,
    pub wAileron: i32,
    /// Axis X
    pub wAxisX: i32,
    /// Axis Y
    pub wAxisY: i32,
    /// Axis Z
    pub wAxisZ: i32,
    /// Axis X Rotation
    pub wAxisXRot: i32,
    /// Axis Y Rotation
    pub wAxisYRot: i32,
    /// Axis Z Rotation
    pub wAxisZRot: i32,
    /// Slider 1
    pub wSlider: i32,
    /// Slider 2
    pub wDial: i32,
    pub wWheel: i32,
    pub wAxisVX: i32,
    pub wAxisVY: i32,
    pub wAxisVZ: i32,
    pub wAxisVBRX: i32,
    pub wAxisVBRY: i32,
    pub wAxisVBRZ: i32,
    /// Buttons 1-32, button 1 in the lowest bit.
    pub lButtons: u32,
    /// Continuous POV #1, or the four discrete POVs in its lowest four nibbles,
    /// POV #1 in the lowest.
    pub bHats: u32,
    /// Continuous POV #2.
    pub bHatsEx1: u32,
    /// Continuous POV #3.
    pub bHatsEx2: u32,
    /// Continuous POV #4.
    pub bHatsEx3: u32,
    /// Buttons 33-64.
    pub lButtonsEx1: u32,
    /// Buttons 65-96.
    pub lButtonsEx2: u32,
    /// Buttons 97-128.
    pub lButtonsEx3: u32,
}

/// Whether `button` is a button number of a device: 1 to 128.
pub open spec fn valid_button(button: int) -> bool {
    MIN_BUTTON <= button <= MAX_BUTTON
}

/// The button mask that holds `button`: 0 for buttons 1-32, up to 3 for 97-128.
pub open spec fn button_segment(button: int) -> int {
    (button - 1) / 32
}

/// The bit of its mask that stands for `button`.
pub open spec fn button_bit(button: int) -> u32 {
    ((button - 1) % 32) as u32
}

/// `mask` with bit `bit` set or cleared.
pub open spec fn mask_with_bit(mask: u32, bit: u32, pressed: bool) -> u32 {
    if pressed {
        mask | (1u32 << bit)
    } else {
        mask & !(1u32 << bit)
    }
}

/// Whether bit `bit` of `mask` is set.
pub open spec fn mask_has_bit(mask: u32, bit: u32) -> bool {
    (mask >> bit) & 1u32 == 1u32
}

/// The distance of the nibble of discrete POV `pov` from the lowest bit.
pub open spec fn pov_shift(pov: int) -> u32 {
    (4 * (pov - 1)) as u32
}

/// The nibble that `hats` holds at `shift`.
pub open spec fn hats_nibble(hats: u32, shift: u32) -> u32 {
    (hats >> shift) & 0xFu32
}

/// `hats` with the nibble at `shift` replaced by `nibble`.
pub open spec fn hats_with_nibble(hats: u32, shift: u32, nibble: u32) -> u32 {
    (hats & !(0xFu32 << shift)) | (nibble << shift)
}

impl PositionV2 {
    /// The position of a device at rest: X, Y and Z at the midpoint, every
    /// other axis at 0, no button pressed, every hat neutral.
    pub open spec fn neutral(device: VJDevice) -> PositionV2 {
        PositionV2 {
            bDevice: device.spec_id() as u8,
            wThrottle: 0,
            wRudder: 0,
            wAileron: 0,
            wAxisX: AXIS_MIDPOINT,
            wAxisY: AXIS_MIDPOINT,
            wAxisZ: AXIS_MIDPOINT,
            wAxisXRot: 0,
            wAxisYRot: 0,
            wAxisZRot: 0,
            wSlider: 0,
            wDial: 0,
            wWheel: 0,
            wAxisVX: 0,
            wAxisVY: 0,
            wAxisVZ: 0,
            wAxisVBRX: 0,
            wAxisVBRY: 0,
            wAxisVBRZ: 0,
            lButtons: 0,
            bHats: NEUTRAL_HAT,
            bHatsEx1: NEUTRAL_HAT,
            bHatsEx2: NEUTRAL_HAT,
            bHatsEx3: NEUTRAL_HAT,
            lButtonsEx1: 0,
            lButtonsEx2: 0,
            lButtonsEx3: 0,
        }
    }

    /// The button mask with index `segment`.
    pub open spec fn buttons(self, segment: int) -> u32 {
        if segment == 0 {
            self.lButtons
        } else if segment == 1 {
            self.lButtonsEx1
        } else if segment == 2 {
            self.lButtonsEx2
        } else {
            self.lButtonsEx3
        }
    }

    /// This position with the button mask of index `segment` replaced.
    pub open spec fn with_buttons(self, segment: int, mask: u32) -> PositionV2 {
        if segment == 0 {
            PositionV2 { lButtons: mask, ..self }
        } else if segment == 1 {
            PositionV2 { lButtonsEx1: mask, ..self }
        } else if segment == 2 {
            PositionV2 { lButtonsEx2: mask, ..self }
        } else {
            PositionV2 { lButtonsEx3: mask, ..self }
        }
    }

    /// The hat field of POV `pov`, as a continuous POV reads it.
    pub open spec fn hat(self, pov: int) -> u32 {
        if pov == 1 {
            self.bHats
        } else if pov == 2 {
            self.bHatsEx1
        } else if pov == 3 {
            self.bHatsEx2
        } else {
            self.bHatsEx3
        }
    }

    /// This position with the hat field of POV `pov` replaced.
    pub open spec fn with_hat(self, pov: int, value: u32) -> PositionV2 {
        if pov == 1 {
            PositionV2 { bHats: value, ..self }
        } else if pov == 2 {
            PositionV2 { bHatsEx1: value, ..self }
        } else if pov == 3 {
            PositionV2 { bHatsEx2: value, ..self }
        } else {
            PositionV2 { bHatsEx3: value, ..self }
        }
    }

    /// Whether `button` is pressed in this position.
    pub open spec fn is_pressed(self, button: int) -> bool {
        valid_button(button) && mask_has_bit(
            self.buttons(button_segment(button)),
            button_bit(button),
        )
    }

    /// This position with `button` pressed or released; `button` is a valid number.
    pub open spec fn with_button(self, button: int, pressed: bool) -> PositionV2 {
        self.with_buttons(
            button_segment(button),
            mask_with_bit(self.buttons(button_segment(button)), button_bit(button), pressed),
        )
    }

    /// What setting `button` leaves behind: the position with the button's bit
    /// written, or the position as it was where the number is not valid.
    pub open spec fn after_set_button(self, button: int, pressed: bool) -> PositionV2 {
        if valid_button(button) {
            self.with_button(button, pressed)
        } else {
            self
        }
    }

    /// The nibble that stands for discrete POV `pov`.
    pub open spec fn disc_pov(self, pov: int) -> u32 {
        hats_nibble(self.bHats, pov_shift(pov))
    }

    /// This position with discrete POV `pov` pointing to `direction`.
    pub open spec fn with_disc_pov(self, pov: VJDPovNumber, direction: VJDPovDisc) -> PositionV2 {
        PositionV2 {
            bHats: hats_with_nibble(
                self.bHats,
                pov_shift(pov.spec_number()),
                direction.spec_nibble(),
            ),
            ..self
        }
    }

    /// The value of `axis`.
    pub open spec fn axis(self, axis: VJDAxis) -> i32 {
        match axis {
            VJDAxis::X => self.wAxisX,
            VJDAxis::Y => self.wAxisY,
            VJDAxis::Z => self.wAxisZ,
            VJDAxis::Rx => self.wAxisXRot,
            VJDAxis::Ry => self.wAxisYRot,
            VJDAxis::Rz => self.wAxisZRot,
            VJDAxis::Slider1 => self.wSlider,
            VJDAxis::Slider2 => self.wDial,
        }
    }

    /// This position with `axis` at `value`.
    pub open spec fn with_axis(self, axis: VJDAxis, value: i32) -> PositionV2 {
        match axis {
            VJDAxis::X => PositionV2 { wAxisX: value, ..self },
            VJDAxis::Y => PositionV2 { wAxisY: value, ..self },
            VJDAxis::Z => PositionV2 { wAxisZ: value, ..self },
            VJDAxis::Rx => PositionV2 { wAxisXRot: value, ..self },
            VJDAxis::Ry => PositionV2 { wAxisYRot: value, ..self },
            VJDAxis::Rz => PositionV2 { wAxisZRot: value, ..self },
            VJDAxis::Slider1 => PositionV2 { wSlider: value, ..self },
            VJDAxis::Slider2 => PositionV2 { wDial: value, ..self },
        }
    }
}

/// Holds data that describes a position of a vJoy device. This is a container of
/// information that does nothing until it is sent to vJoy.
pub struct VJDPosition {
    device: VJDevice,
    position: PositionV2,
}

impl View for VJDPosition {
    type V = PositionV2;

    /// The packed report as the driver will read it.
    closed spec fn view(&self) -> PositionV2 {
        self.position
    }
}

impl VJDPosition {
    /// The device that the position is meant for.
    pub closed spec fn spec_device(self) -> VJDevice {
        self.device
    }

    /// The report names the device that the position is meant for.
    #[verifier::type_invariant]
    pub closed spec fn names_its_device(self) -> bool {
        self.position.bDevice == self.device.spec_id()
    }

    /// A position for `device` with every control at rest.
    pub fn new(device: VJDevice) -> (r: VJDPosition)
        ensures
            r@ == PositionV2::neutral(device),
            r.spec_device() == device,
    {
        VJDPosition {
            device,
            position: PositionV2 {
                bDevice: device.id(),
                wThrottle: 0,
                wRudder: 0,
                wAileron: 0,
                wAxisX: AXIS_MIDPOINT,
                wAxisY: AXIS_MIDPOINT,
                wAxisZ: AXIS_MIDPOINT,
                wAxisXRot: 0,
                wAxisYRot: 0,
                wAxisZRot: 0,
                wSlider: 0,
                wDial: 0,
                wWheel: 0,
                wAxisVX: 0,
                wAxisVY: 0,
                wAxisVZ: 0,
                wAxisVBRX: 0,
                wAxisVBRY: 0,
                wAxisVBRZ: 0,
                lButtons: 0,
                bHats: NEUTRAL_HAT,
                bHatsEx1: NEUTRAL_HAT,
                bHatsEx2: NEUTRAL_HAT,
                bHatsEx3: NEUTRAL_HAT,
                lButtonsEx1: 0,
                lButtonsEx2: 0,
                lButtonsEx3: 0,
            },
        }
    }

    /// The device that the position is meant for.
    pub fn get_device(&self) -> (r: VJDevice)
        ensures
            r == self.spec_device(),
    {
        self.device
    }

    /// The packed report. Its device field names `get_device()`.
    pub fn get_position(&self) -> (r: PositionV2)
        ensures
            r == self@,
            r.bDevice == self.spec_device().spec_id(),
    {
        proof {
            use_type_invariant(self);
        }
        self.position
    }

    /// Presses or releases `button`. A number outside 1..=128 is refused and
    /// leaves the position as it was.
    pub fn set_button(&mut self, button: u32, state: VJDButtonState) -> (r: Result<(), VJDError>)
        ensures
            r is Ok <==> valid_button(button as int),
            r matches Err(e) ==> e == VJDError::InvalidButtonNumber,
            final(self)@ == old(self)@.after_set_button(
                button as int,
                state == VJDButtonState::Pressed,
            ),
            final(self).spec_device() == old(self).spec_device(),
    {
        match state {
            VJDButtonState::Pressed => self.set_button_pressed(button),
            VJDButtonState::Released => self.set_button_released(button),
        }
    }

    /// Presses `button`. A number outside 1..=128 is refused and leaves the
    /// position as it was.
    pub fn set_button_pressed(&mut self, button: u32) -> (r: Result<(), VJDError>)
        ensures
            r is Ok <==> valid_button(button as int),
            r matches Err(e) ==> e == VJDError::InvalidButtonNumber,
            final(self)@ == old(self)@.after_set_button(button as int, true),
            final(self).spec_device() == old(self).spec_device(),
    {
        proof {
            use_type_invariant(&*self);
        }
        if button < MIN_BUTTON || button > MAX_BUTTON {
            return Err(VJDError::InvalidButtonNumber);
        }
        let index: u32 = button - 1;
        let mask: u32 = 1u32 << (index % 32);
        let segment: u32 = index / 32;
        if segment == 0 {
            self.position.lButtons = self.position.lButtons | mask;
        } else if segment == 1 {
            self.position.lButtonsEx1 = self.position.lButtonsEx1 | mask;
        } else if segment == 2 {
            self.position.lButtonsEx2 = self.position.lButtonsEx2 | mask;
        } else {
            self.position.lButtonsEx3 = self.position.lButtonsEx3 | mask;
        }
        Ok(())
    }

    /// Releases `button`. A number outside 1..=128 is refused and leaves the
    /// position as it was.
    pub fn set_button_released(&mut self, button: u32) -> (r: Result<(), VJDError>)
        ensures
            r is Ok <==> valid_button(button as int),
            r matches Err(e) ==> e == VJDError::InvalidButtonNumber,
            final(self)@ == old(self)@.after_set_button(button as int, false),
            final(self).spec_device() == old(self).spec_device(),
    {
        proof {
            use_type_invariant(&*self);
        }
        if button < MIN_BUTTON || button > MAX_BUTTON {
            return Err(VJDError::InvalidButtonNumber);
        }
        let index: u32 = button - 1;
        let mask: u32 = !(1u32 << (index % 32));
        let segment: u32 = index / 32;
        if segment == 0 {
            self.position.lButtons = self.position.lButtons & mask;
        } else if segment == 1 {
            self.position.lButtonsEx1 = self.position.lButtonsEx1 & mask;
        } else if segment == 2 {
            self.position.lButtonsEx2 = self.position.lButtonsEx2 & mask;
        } else {
            self.position.lButtonsEx3 = self.position.lButtonsEx3 & mask;
        }
        Ok(())
    }

    /// Points discrete POV `pov` to `direction`: writes the direction's nibble
    /// into the POV's four bits of `bHats` and nothing else. Meant for a device
    /// that is configured with discrete POVs.
    pub fn set_disc_pov(&mut self, pov: VJDPovNumber, direction: VJDPovDisc)
        ensures
            final(self)@ == old(self)@.with_disc_pov(pov, direction),
            final(self).spec_device() == old(self).spec_device(),
    {
        proof {
            use_type_invariant(&*self);
        }
        let shift: u32 = 4 * (pov.number() as u32 - 1);
        let kept: u32 = self.position.bHats & !(0xFu32 << shift);
        self.position.bHats = kept | (direction.nibble() << shift);
    }

    /// Stores `value` as the whole hat field of continuous POV `pov`: an angle
    /// in hundredths of a degree, 0 to 35999, or `NEUTRAL_HAT`. The value is
    /// stored as it is.
    pub fn set_cont_pov(&mut self, pov: VJDPovNumber, value: u32)
        ensures
            final(self)@ == old(self)@.with_hat(pov.spec_number(), value),
            final(self).spec_device() == old(self).spec_device(),
    {
        proof {
            use_type_invariant(&*self);
        }
        match pov {
            VJDPovNumber::Pov1 => {
                self.position.bHats = value;
            },
            VJDPovNumber::Pov2 => {
                self.position.bHatsEx1 = value;
            },
            VJDPovNumber::Pov3 => {
                self.position.bHatsEx2 = value;
            },
            VJDPovNumber::Pov4 => {
                self.position.bHatsEx3 = value;
            },
        }
    }

    /// Stores `value` for `axis`, as it is: nothing is clamped.
    pub fn set_axis(&mut self, axis: VJDAxis, value: i32)
        ensures
            final(self)@ == old(self)@.with_axis(axis, value),
            final(self).spec_device() == old(self).spec_device(),
    {
        match axis {
            VJDAxis::X => self.set_axis_x(value),
            VJDAxis::Y => self.set_axis_y(value),
            VJDAxis::Z => self.set_axis_z(value),
            VJDAxis::Rx => self.set_axis_xr(value),
            VJDAxis::Ry => self.set_axis_yr(value),
            VJDAxis::Rz => self.set_axis_zr(value),
            VJDAxis::Slider1 => self.set_slider1(value),
            VJDAxis::Slider2 => self.set_slider2(value),
        }
    }

    /// Stores `value` for the X axis, as it is.
    pub fn set_axis_x(&mut self, value: i32)
        ensures
            final(self)@ == old(self)@.with_axis(VJDAxis::X, value),
            final(self).spec_device() == old(self).spec_device(),
    {
        proof {
            use_type_invariant(&*self);
        }
        self.position.wAxisX = value;
    }

    /// Stores `value` for the Y axis, as it is.
    pub fn set_axis_y(&mut self, value: i32)
        ensures
            final(self)@ == old(self)@.with_axis(VJDAxis::Y, value),
            final(self).spec_device() == old(self).spec_device(),
    {
        proof {
            use_type_invariant(&*self);
        }
        self.position.wAxisY = value;
    }

    /// Stores `value` for the Z axis, as it is.
    pub fn set_axis_z(&mut self, value: i32)
        ensures
            final(self)@ == old(self)@.with_axis(VJDAxis::Z, value),
            final(self).spec_device() == old(self).spec_device(),
    {
        proof {
            use_type_invariant(&*self);
        }
        self.position.wAxisZ = value;
    }

    /// Stores `value` for the X rotation axis, as it is.
    pub fn set_axis_xr(&mut self, value: i32)
        ensures
            final(self)@ == old(self)@.with_axis(VJDAxis::Rx, value),
            final(self).spec_device() == old(self).spec_device(),
    {
        proof {
            use_type_invariant(&*self);
        }
        self.position.wAxisXRot = value;
    }

    /// Stores `value` for the Y rotation axis, as it is.
    pub fn set_axis_yr(&mut self, value: i32)
        ensures
            final(self)@ == old(self)@.with_axis(VJDAxis::Ry, value),
            final(self).spec_device() == old(self).spec_device(),
    {
        proof {
            use_type_invariant(&*self);
        }
        self.position.wAxisYRot = value;
    }

    /// Stores `value` for the Z rotation axis, as it is.
    pub fn set_axis_zr(&mut self, value: i32)
        ensures
            final(self)@ == old(self)@.with_axis(VJDAxis::Rz, value),
            final(self).spec_device() == old(self).spec_device(),
    {
        proof {
            use_type_invariant(&*self);
        }
        self.position.wAxisZRot = value;
    }

    /// Stores `value` for the first slider, as it is.
    pub fn set_slider1(&mut self, value: i32)
        ensures
            final(self)@ == old(self)@.with_axis(VJDAxis::Slider1, value),
            final(self).spec_device() == old(self).spec_device(),
    {
        proof {
            use_type_invariant(&*self);
        }
        self.position.wSlider = value;
    }

    /// Stores `value` for the second slider, as it is.
    pub fn set_slider2(&mut self, value: i32)
        ensures
            final(self)@ == old(self)@.with_axis(VJDAxis::Slider2, value),
            final(self).spec_device() == old(self).spec_device(),
    {
        proof {
            use_type_invariant(&*self);
        }
        self.position.wDial = value;
    }
}

} // verus!
