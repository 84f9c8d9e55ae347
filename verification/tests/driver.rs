use vjoy_wrapper::vjoy_base::device::info::{PIDFailed, TotalBtnsFailed, TotalPOVFailed, VJDInfo};
use vjoy_wrapper::vjoy_base::driver::{cut_at_nul, widestring_ptr_to_string, VJGeneral};
use vjoy_wrapper::vjoy_base::{vjoy_get_driver_dll_version, vjoy_get_owner_pid, vjoy_get_version};

// What the driver of the test environment reports: version 2.1.9, a first
// device with 5 buttons, no discrete and 2 continuous POVs, a second device
// with 1 button, 1 discrete and no continuous POV, and a device that is not
// activated.
const RAW_VERSION: i16 = 0x0219;
const TEST_VERSION: u16 = 219;
const TEST_PRODUCT: &str = "vJoy - Virtual Joystick";
const TEST_MANUFACTURER: &str = "Shaul Eizikovich";
const TEST_SERIAL_NUMBER: &str = "2.1.9";

fn wide(text: &str) -> Vec<u16> {
    let mut units: Vec<u16> = text.encode_utf16().collect();
    units.push(0);
    units
}

#[test]
fn widestring_ptr_to_string_works() {
    // buf represents the string "Test"
    let buf = vec![84_u16, 101, 115, 116, 0];

    let result = widestring_ptr_to_string(Some(buf));

    assert_eq!("Test", result.unwrap());
}

#[test]
fn widestring_of_nothing_is_none() {
    assert_eq!(widestring_ptr_to_string(None), None);
}

#[test]
fn widestring_stops_at_the_first_nul() {
    assert_eq!(widestring_ptr_to_string(Some(vec![84, 101, 0, 115, 116, 0])).unwrap(), "Te");
    assert_eq!(widestring_ptr_to_string(Some(vec![0, 84])).unwrap(), "");
    assert_eq!(widestring_ptr_to_string(Some(vec![])).unwrap(), "");
    assert_eq!(widestring_ptr_to_string(Some(vec![84, 101])).unwrap(), "Te");
    assert_eq!(cut_at_nul(&vec![1, 2, 0, 3]), vec![1, 2]);
    assert_eq!(cut_at_nul(&vec![1, 2, 3]), vec![1, 2, 3]);
    assert_eq!(cut_at_nul(&vec![0]), Vec::<u16>::new());
}

#[test]
fn widestring_decodes_utf16() {
    // U+00E9, then U+1F600 as a surrogate pair
    assert_eq!(
        widestring_ptr_to_string(Some(vec![0x00E9, 0xD83D, 0xDE00, 0])).unwrap(),
        "\u{e9}\u{1F600}"
    );
    // A surrogate without its partner is replaced.
    assert_eq!(widestring_ptr_to_string(Some(vec![0x41, 0xD83D, 0x42, 0])).unwrap(), "A\u{FFFD}B");
}

#[test]
fn product_detected() {
    assert!(widestring_ptr_to_string(Some(wide(TEST_PRODUCT))).is_some());
}

#[test]
fn manufacturer_detected() {
    assert!(widestring_ptr_to_string(Some(wide(TEST_MANUFACTURER))).is_some());
}

#[test]
fn serial_number_detected() {
    assert!(widestring_ptr_to_string(Some(wide(TEST_SERIAL_NUMBER))).is_some());
}

#[test]
fn product_is_correct() {
    assert_eq!(TEST_PRODUCT, widestring_ptr_to_string(Some(wide(TEST_PRODUCT))).unwrap());
}

#[test]
fn manufacturer_is_correct() {
    assert_eq!(TEST_MANUFACTURER, widestring_ptr_to_string(Some(wide(TEST_MANUFACTURER))).unwrap());
}

#[test]
fn serial_number_is_correct() {
    assert_eq!(
        TEST_SERIAL_NUMBER,
        widestring_ptr_to_string(Some(wide(TEST_SERIAL_NUMBER))).unwrap()
    );
}

#[test]
fn pid_value_is_valid() {
    // The driver tells the process id of the owner of an owned device, and
    // -12 of a device that is not activated.
    let owner: i32 = 4242;
    let vjoy_pid1 = VJDInfo::get_owner_pid(owner);
    let vjoy_pid2 = VJDInfo::get_owner_pid(owner);
    let vjoy_pid3 = VJDInfo::get_owner_pid(-12);

    assert!(vjoy_pid1.is_ok());
    assert!(vjoy_pid2.is_ok());
    assert!(vjoy_pid3.is_err());
    assert_eq!(owner, vjoy_pid1.unwrap());
    assert_eq!(owner, vjoy_pid2.unwrap());
    assert_eq!(Some(PIDFailed::NoDevExist), vjoy_pid3.err());
}

#[test]
fn version_detected() {
    assert!(VJGeneral::get_version(Some(RAW_VERSION)).is_some());
}

#[test]
fn version_is_correct() {
    assert_eq!(TEST_VERSION, VJGeneral::get_version(Some(RAW_VERSION)).unwrap());
}

#[test]
fn driver_dll_detected() {
    let (driver, dll) = VJGeneral::get_driver_dll_version(RAW_VERSION as u16, RAW_VERSION as u16);
    assert!(driver.is_some());
    assert!(dll.is_some());
}

#[test]
fn driver_version_consistency() {
    let (driver, _) = VJGeneral::get_driver_dll_version(RAW_VERSION as u16, RAW_VERSION as u16);
    assert!(driver.is_some());

    let driver_alternative = VJGeneral::get_version(Some(RAW_VERSION));
    assert!(driver_alternative.is_some());

    assert_eq!(driver.unwrap(), driver_alternative.unwrap());
}

#[test]
fn version_of_a_disabled_driver_is_none() {
    assert_eq!(VJGeneral::get_version(None), None);
    assert_eq!(vjoy_get_version(None), None);
}

#[test]
fn version_words_read_as_decimal() {
    assert_eq!(VJGeneral::decode_version(0x0219), Some(219));
    assert_eq!(VJGeneral::decode_version(0x0218), Some(218));
    assert_eq!(VJGeneral::decode_version(0x0001), Some(1));
    assert_eq!(VJGeneral::decode_version(0x9999), Some(9999));
    assert_eq!(VJGeneral::decode_version(0x1000), Some(1000));
    assert_eq!(VJGeneral::decode_version(0x0090), Some(90));
    assert_eq!(VJGeneral::decode_version(0), None);
}

#[test]
fn version_words_with_a_letter_digit_are_none() {
    for raw in [0x000Au16, 0x00A0, 0x0A00, 0xA000, 0x021F, 0xFFFF, 0x0B19] {
        assert_eq!(VJGeneral::decode_version(raw), None);
    }
}

#[test]
fn negative_version_words_are_read_without_sign() {
    // 0x9999 as a signed word
    assert_eq!(VJGeneral::get_version(Some(-26215)), Some(9999));
    // 0x8000
    assert_eq!(VJGeneral::get_version(Some(i16::MIN)), Some(8000));
    // 0xFFFF
    assert_eq!(VJGeneral::get_version(Some(-1)), None);
    assert_eq!(VJGeneral::get_version(Some(0)), None);
    assert_eq!(vjoy_get_version(Some(0x0219)), Some(219));
    assert_eq!(vjoy_get_version(Some(-26215)), Some(9999));
}

#[test]
fn driver_and_dll_versions_keep_their_places() {
    assert_eq!(VJGeneral::get_driver_dll_version(0x0219, 0x0218), (Some(219), Some(218)));
    assert_eq!(VJGeneral::get_driver_dll_version(0, 0x0218), (None, Some(218)));
    assert_eq!(VJGeneral::get_driver_dll_version(0x0219, 0), (Some(219), None));
    assert_eq!(VJGeneral::get_driver_dll_version(0x00AB, 0), (None, None));
    assert_eq!(vjoy_get_driver_dll_version(0x0219, 0x0218), (Some(219), Some(218)));
}

#[test]
fn btns_detected() {
    assert!(VJDInfo::get_total_btns(5).is_ok());
    assert!(VJDInfo::get_total_btns(1).is_ok());
    assert!(VJDInfo::get_total_btns(0).is_ok());
}

#[test]
fn disc_povs_detected() {
    assert!(VJDInfo::get_total_disc_povs(0).is_ok());
    assert!(VJDInfo::get_total_disc_povs(1).is_ok());
    assert!(VJDInfo::get_total_disc_povs(0).is_ok());
}

#[test]
fn cont_povs_detected() {
    assert!(VJDInfo::get_total_cont_povs(2).is_ok());
    assert!(VJDInfo::get_total_cont_povs(0).is_ok());
    assert!(VJDInfo::get_total_cont_povs(0).is_ok());
}

#[test]
fn total_buttons_valid() {
    assert_eq!(5, VJDInfo::get_total_btns(5).unwrap());
    assert_eq!(1, VJDInfo::get_total_btns(1).unwrap());
}

#[test]
fn total_disc_povs_valid() {
    assert_eq!(0, VJDInfo::get_total_disc_povs(0).unwrap());
    assert_eq!(1, VJDInfo::get_total_disc_povs(1).unwrap());
}

#[test]
fn total_cont_povs_valid() {
    assert_eq!(2, VJDInfo::get_total_cont_povs(2).unwrap());
    assert_eq!(0, VJDInfo::get_total_cont_povs(0).unwrap());
}

#[test]
fn button_totals_and_their_failures() {
    assert_eq!(VJDInfo::get_total_btns(128), Ok(128));
    assert_eq!(VJDInfo::get_total_btns(255), Ok(255));
    assert_eq!(VJDInfo::get_total_btns(256), Ok(0));
    assert_eq!(VJDInfo::get_total_btns(261), Ok(5));
    assert_eq!(VJDInfo::get_total_btns(i32::MAX), Ok(255));
    assert_eq!(VJDInfo::get_total_btns(-1), Err(TotalBtnsFailed::NoHandleByIndex));
    assert_eq!(VJDInfo::get_total_btns(-2), Err(TotalBtnsFailed::BadPreparsedData));
    assert_eq!(VJDInfo::get_total_btns(-3), Err(TotalBtnsFailed::NoCaps));
    assert_eq!(VJDInfo::get_total_btns(-4), Err(TotalBtnsFailed::BadNBtnCaps));
    assert_eq!(VJDInfo::get_total_btns(-5), Err(TotalBtnsFailed::Unknown));
    assert_eq!(VJDInfo::get_total_btns(-6), Err(TotalBtnsFailed::BadBtnCaps));
    assert_eq!(VJDInfo::get_total_btns(-7), Err(TotalBtnsFailed::BadBtnRange));
    assert_eq!(VJDInfo::get_total_btns(-8), Err(TotalBtnsFailed::Unknown));
    assert_eq!(VJDInfo::get_total_btns(i32::MIN), Err(TotalBtnsFailed::Unknown));
}

#[test]
fn pov_totals_and_their_failure() {
    assert_eq!(VJDInfo::get_total_disc_povs(4), Ok(4));
    assert_eq!(VJDInfo::get_total_cont_povs(4), Ok(4));
    assert_eq!(VJDInfo::get_total_disc_povs(260), Ok(4));
    assert_eq!(VJDInfo::get_total_cont_povs(260), Ok(4));
    assert_eq!(VJDInfo::get_total_disc_povs(-1), Err(TotalPOVFailed::Unknown));
    assert_eq!(VJDInfo::get_total_cont_povs(-1), Err(TotalPOVFailed::Unknown));
    assert_eq!(VJDInfo::get_total_disc_povs(i32::MIN), Err(TotalPOVFailed::Unknown));
    assert_eq!(VJDInfo::get_total_cont_povs(i32::MIN), Err(TotalPOVFailed::Unknown));
}

#[test]
fn owner_pid_and_its_negative_states() {
    assert_eq!(VJDInfo::get_owner_pid(1), Ok(1));
    assert_eq!(VJDInfo::get_owner_pid(4242), Ok(4242));
    assert_eq!(VJDInfo::get_owner_pid(i32::MAX), Ok(i32::MAX));
    assert_eq!(VJDInfo::get_owner_pid(0), Err(PIDFailed::Unknown));
    assert_eq!(VJDInfo::get_owner_pid(-11), Err(PIDFailed::BadDevStat));
    assert_eq!(VJDInfo::get_owner_pid(-12), Err(PIDFailed::NoDevExist));
    assert_eq!(VJDInfo::get_owner_pid(-13), Err(PIDFailed::NoFileExist));
    assert_eq!(VJDInfo::get_owner_pid(-1), Err(PIDFailed::Unknown));
    assert_eq!(VJDInfo::get_owner_pid(-10), Err(PIDFailed::Unknown));
    assert_eq!(VJDInfo::get_owner_pid(-14), Err(PIDFailed::Unknown));
    assert_eq!(VJDInfo::get_owner_pid(i32::MIN), Err(PIDFailed::Unknown));
}

#[test]
fn owner_pid_by_device_number() {
    assert!(matches!(vjoy_get_owner_pid(9, 4242), Ok(4242)));
    assert!(matches!(vjoy_get_owner_pid(9, 0), Ok(0)));
    assert!(matches!(
        vjoy_get_owner_pid(9, -11),
        Err(vjoy_wrapper::vjoy_base::PIDFailed::BadDevStat)
    ));
    assert!(matches!(
        vjoy_get_owner_pid(9, -12),
        Err(vjoy_wrapper::vjoy_base::PIDFailed::NoDevExist)
    ));
    assert!(matches!(
        vjoy_get_owner_pid(9, -13),
        Err(vjoy_wrapper::vjoy_base::PIDFailed::NoFileExist)
    ));
}

#[test]
fn unknown_owner_names_the_device() {
    for device_id in [0u32, 7, 9, 10, 16, 109, 1000, 4294967295] {
        match vjoy_get_owner_pid(device_id, -1) {
            Err(vjoy_wrapper::vjoy_base::PIDFailed::Unknown(sentence)) => assert_eq!(
                sentence,
                format!("Device {} not owned by a process and its state is unknown.", device_id)
            ),
            _ => panic!("an unknown state was expected"),
        }
    }
    assert!(matches!(
        vjoy_get_owner_pid(3, i32::MIN),
        Err(vjoy_wrapper::vjoy_base::PIDFailed::Unknown(_))
    ));
}
