use vjoy_wrapper::vjoy_base::device::feeding::VJDCall;
use vjoy_wrapper::vjoy_base::device::{PositionV2, VJDError, VJDPosition, VJDStatus, VJDevice};
use vjoy_wrapper::vjoy_extended::{
    AxesState, Axis, JoystickPositionRusty, VJoyDeviceManager, AXIS_VARIANT_COUNT,
};

#[test]
fn joystick_position_for_device_5_is_neutral() {
    let joystick = JoystickPositionRusty::new(5).ok().unwrap();
    let position: PositionV2 = joystick.position().get_position();
    assert_eq!(position, VJDPosition::new(VJDevice::D5).get_position());
    assert_eq!(position.bDevice, 5);
    assert_eq!(
        [position.bHats, position.bHatsEx1, position.bHatsEx2, position.bHatsEx3],
        [0xFFFF_FFFF; 4]
    );
    assert_eq!(
        [position.lButtons, position.lButtonsEx1, position.lButtonsEx2, position.lButtonsEx3],
        [0; 4]
    );
    assert_eq!(joystick.position().get_device(), VJDevice::D5);
}

#[test]
fn joystick_position_refuses_invalid_device_numbers() {
    for id in [0u8, 17, 18, 100, 255] {
        assert!(matches!(JoystickPositionRusty::new(id), Err(VJDError::InvalidDeviceId)));
    }
    let mut id: u8 = 1;
    while id <= 16 {
        assert_eq!(JoystickPositionRusty::new(id).ok().unwrap().position().get_position().bDevice, id);
        id += 1;
    }
}

#[test]
fn joystick_position_sets_its_x_axis() {
    let mut joystick = JoystickPositionRusty::new(2).ok().unwrap();
    joystick.set_axis_x(-123);
    let expected = PositionV2 { wAxisX: -123, ..VJDPosition::new(VJDevice::D2).get_position() };
    assert_eq!(joystick.position().get_position(), expected);
}

#[test]
fn joystick_position_is_published_to_an_owned_device() {
    let mut joystick = JoystickPositionRusty::new(2).ok().unwrap();
    joystick.set_axis_x(9);
    let block = joystick.position().get_position();
    assert_eq!(joystick.publish(VJDStatus::Own), Some(VJDCall::SendPosition(VJDevice::D2, block)));
    for status in [VJDStatus::Free, VJDStatus::Busy, VJDStatus::Miss, VJDStatus::Unknown] {
        assert_eq!(joystick.publish(status), None);
    }
}

#[test]
fn axes_state_marks_what_was_set() {
    let mut state = AxesState::new();
    assert_eq!(state.axes_val, [0; 8]);
    assert_eq!(state.state_changed, [false; 8]);
    state.set(Axis::Rx, 500);
    state.set(Axis::Sl1, 65535);
    state.set(Axis::X, 0);
    assert_eq!(state.axes_val, [0, 0, 0, 500, 0, 0, 0, 65535]);
    assert_eq!(state.state_changed, [true, false, false, true, false, false, false, true]);
    state.set(Axis::Rx, 1);
    assert_eq!(state.axes_val, [0, 0, 0, 1, 0, 0, 0, 65535]);
}

#[test]
fn axes_have_their_places() {
    let axes = [Axis::X, Axis::Y, Axis::Z, Axis::Rx, Axis::Ry, Axis::Rz, Axis::Sl0, Axis::Sl1];
    for (n, axis) in axes.iter().enumerate() {
        assert_eq!(axis.index(), n);
    }
    assert_eq!(AXIS_VARIANT_COUNT, 8);
}

#[test]
fn manager_needs_an_enabled_driver_with_known_versions() {
    let manager = VJoyDeviceManager::new(true, Some(219), Some(219), Some(218)).ok().unwrap();
    assert_eq!(manager.driver_version(), 219);
    assert_eq!(manager.dll_version(), 218);
    let mut id: u8 = 0;
    loop {
        assert!(!manager.is_open(id));
        if id == u8::MAX {
            break;
        }
        id += 1;
    }
    assert_eq!(
        VJoyDeviceManager::new(false, Some(219), Some(219), Some(218)).err(),
        Some("vJoy driver is not enabled.")
    );
    assert_eq!(
        VJoyDeviceManager::new(false, None, None, None).err(),
        Some("vJoy driver is not enabled.")
    );
    assert_eq!(
        VJoyDeviceManager::new(true, None, Some(219), Some(218)).err(),
        Some("Getting the version number of the installed vJoy driver failed.")
    );
    assert_eq!(
        VJoyDeviceManager::new(true, None, None, None).err(),
        Some("Getting the version number of the installed vJoy driver failed.")
    );
    assert_eq!(
        VJoyDeviceManager::new(true, Some(219), None, Some(218)).err(),
        Some("Could not determine the vJoy driver version. Is vJoy installed?")
    );
    assert_eq!(
        VJoyDeviceManager::new(true, Some(219), None, None).err(),
        Some("Could not determine the vJoy driver version. Is vJoy installed?")
    );
    assert_eq!(
        VJoyDeviceManager::new(true, Some(219), Some(219), None).err(),
        Some("Could not determine the vJoy DLL version. Is the vJoy interface DLL provided?")
    );
}

#[test]
fn manager_records_opened_devices() {
    let mut manager = VJoyDeviceManager::new(true, Some(219), Some(219), Some(219)).ok().unwrap();
    assert_eq!(manager.open_device(9, None), Ok(()));
    assert!(manager.is_open(9));
    assert!(!manager.is_open(10));
    assert_eq!(manager.open_device(10, Some(VJDStatus::Busy)), Err(VJDStatus::Busy));
    assert!(!manager.is_open(10));
    assert_eq!(manager.open_device(10, Some(VJDStatus::Miss)), Err(VJDStatus::Miss));
    assert_eq!(manager.open_device(10, None), Ok(()));
    assert_eq!(manager.open_device(9, None), Ok(()));
    assert!(manager.is_open(9));
    assert!(manager.is_open(10));
    assert_eq!(manager.open_device(1, None), Ok(()));
    assert_eq!(manager.open_device(200, None), Ok(()));
    assert!(manager.is_open(1));
    assert!(manager.is_open(200));
    assert_eq!(manager.driver_version(), 219);
}

#[test]
fn manager_closes_owned_devices() {
    let mut manager = VJoyDeviceManager::new(true, Some(219), Some(219), Some(219)).ok().unwrap();
    manager.open_device(9, None).unwrap();
    manager.open_device(10, None).unwrap();
    manager.open_device(9, None).unwrap();
    for status in [VJDStatus::Free, VJDStatus::Busy, VJDStatus::Miss, VJDStatus::Unknown] {
        assert_eq!(manager.close_device(9, status), Err(""));
        assert!(manager.is_open(9));
    }
    assert_eq!(manager.close_device(9, VJDStatus::Own), Ok(()));
    assert!(!manager.is_open(9));
    assert!(manager.is_open(10));
    assert_eq!(manager.close_device(9, VJDStatus::Own), Ok(()));
    assert_eq!(manager.close_device(3, VJDStatus::Own), Ok(()));
    assert!(manager.is_open(10));
    assert_eq!(manager.close_device(10, VJDStatus::Own), Ok(()));
    assert!(!manager.is_open(10));
    assert_eq!(manager.dll_version(), 219);
}
