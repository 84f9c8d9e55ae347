use vjoy_wrapper::vjoy_base::device::{
    VJDAxis, VJDButton, VJDButtonState, VJDError, VJDPovDisc, VJDPovNumber, VJDStatus, VJDevice,
};
use vjoy_wrapper::vjoy_base::driver::VJGeneral;

#[test]
fn device_numbers_run_from_1_to_16() {
    let devices = [
        VJDevice::D1,
        VJDevice::D2,
        VJDevice::D3,
        VJDevice::D4,
        VJDevice::D5,
        VJDevice::D6,
        VJDevice::D7,
        VJDevice::D8,
        VJDevice::D9,
        VJDevice::D10,
        VJDevice::D11,
        VJDevice::D12,
        VJDevice::D13,
        VJDevice::D14,
        VJDevice::D15,
        VJDevice::D16,
    ];
    for (n, device) in devices.iter().enumerate() {
        assert_eq!(device.id(), n as u8 + 1);
        assert_eq!(VJDevice::get_from(n as u8 + 1), Some(*device));
    }
    assert_eq!(VJGeneral::MAX_DEVICES, 16);
}

#[test]
fn device_numbers_outside_the_range_give_none() {
    assert_eq!(VJDevice::get_from(0), None);
    let mut value: u8 = 17;
    loop {
        assert_eq!(VJDevice::get_from(value), None);
        if value == u8::MAX {
            break;
        }
        value += 1;
    }
}

#[test]
fn button_numbers_run_from_1_to_128() {
    let mut value: u8 = 1;
    while value <= 128 {
        let button = VJDButton::get_from(value).unwrap();
        assert_eq!(button.number(), value);
        value += 1;
    }
    assert_eq!(VJDButton::B1.number(), 1);
    assert_eq!(VJDButton::B32.number(), 32);
    assert_eq!(VJDButton::B33.number(), 33);
    assert_eq!(VJDButton::B100.number(), 100);
    assert_eq!(VJDButton::B128.number(), 128);
    assert_eq!(VJDButton::get_from(77), Some(VJDButton::B77));
}

#[test]
fn button_numbers_outside_the_range_give_none() {
    assert_eq!(VJDButton::get_from(0), None);
    let mut value: u8 = 129;
    loop {
        assert_eq!(VJDButton::get_from(value), None);
        if value == u8::MAX {
            break;
        }
        value += 1;
    }
}

#[test]
fn button_states_are_1_and_0() {
    assert_eq!(VJDButtonState::Pressed.code(), 1);
    assert_eq!(VJDButtonState::Released.code(), 0);
    assert!(VJDButtonState::Pressed.is_pressed());
    assert!(!VJDButtonState::Released.is_pressed());
    assert_eq!(VJDButtonState::get_from(true), VJDButtonState::Pressed);
    assert_eq!(VJDButtonState::get_from(false), VJDButtonState::Released);
}

#[test]
fn axes_have_their_hid_usages() {
    assert_eq!(VJDAxis::X.usage(), 0x30);
    assert_eq!(VJDAxis::Y.usage(), 0x31);
    assert_eq!(VJDAxis::Z.usage(), 0x32);
    assert_eq!(VJDAxis::Rx.usage(), 0x33);
    assert_eq!(VJDAxis::Ry.usage(), 0x34);
    assert_eq!(VJDAxis::Rz.usage(), 0x35);
    assert_eq!(VJDAxis::Slider1.usage(), 0x36);
    assert_eq!(VJDAxis::Slider2.usage(), 0x37);
}

#[test]
fn discrete_directions_have_their_values() {
    assert_eq!(VJDPovDisc::Neutral.value(), -1);
    assert_eq!(VJDPovDisc::North.value(), 0);
    assert_eq!(VJDPovDisc::East.value(), 1);
    assert_eq!(VJDPovDisc::South.value(), 2);
    assert_eq!(VJDPovDisc::West.value(), 3);
    assert_eq!(VJDPovDisc::Neutral.nibble(), 0xF);
    assert_eq!(VJDPovDisc::North.nibble(), 0);
    assert_eq!(VJDPovDisc::East.nibble(), 1);
    assert_eq!(VJDPovDisc::South.nibble(), 2);
    assert_eq!(VJDPovDisc::West.nibble(), 3);
}

#[test]
fn pov_numbers_run_from_1_to_4() {
    assert_eq!(VJDPovNumber::get_from(1), Ok(VJDPovNumber::Pov1));
    assert_eq!(VJDPovNumber::get_from(2), Ok(VJDPovNumber::Pov2));
    assert_eq!(VJDPovNumber::get_from(3), Ok(VJDPovNumber::Pov3));
    assert_eq!(VJDPovNumber::get_from(4), Ok(VJDPovNumber::Pov4));
    assert_eq!(VJDPovNumber::Pov1.number(), 1);
    assert_eq!(VJDPovNumber::Pov2.number(), 2);
    assert_eq!(VJDPovNumber::Pov3.number(), 3);
    assert_eq!(VJDPovNumber::Pov4.number(), 4);
}

#[test]
fn pov_numbers_outside_the_range_are_refused() {
    assert_eq!(VJDPovNumber::get_from(0), Err(VJDError::InvalidPovNumber));
    assert_eq!(VJDPovNumber::get_from(5), Err(VJDError::InvalidPovNumber));
    assert_eq!(VJDPovNumber::get_from(255), Err(VJDError::InvalidPovNumber));
}

#[test]
fn status_codes_are_decoded() {
    assert_eq!(VJDStatus::get_from(0), VJDStatus::Own);
    assert_eq!(VJDStatus::get_from(1), VJDStatus::Free);
    assert_eq!(VJDStatus::get_from(2), VJDStatus::Busy);
    assert_eq!(VJDStatus::get_from(3), VJDStatus::Miss);
    assert_eq!(VJDStatus::get_from(4), VJDStatus::Unknown);
    assert_eq!(VJDStatus::get_from(5), VJDStatus::Unknown);
    assert_eq!(VJDStatus::get_from(-1), VJDStatus::Unknown);
    assert_eq!(VJDStatus::get_from(i32::MAX), VJDStatus::Unknown);
}
