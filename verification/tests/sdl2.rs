use vjoy_wrapper::vjoy_base::device::VJDevice;
use vjoy_wrapper::vjoy_extra::registry::VJDRegistryError;
use vjoy_wrapper::vjoy_extra::sdl2_vjoys::{joystick_order, SDL2VjoyError};
use vjoy_wrapper::vjoy_extra::SDL2Helper;

#[test]
fn sdl2_vjoys_correct() {
    // Three vJoy joysticks, found by SDL2 with the instance ids 7, 2 and 5,
    // and the registered devices 1, 3 and 4.
    let pairs = SDL2Helper::get_vjoys(
        &vec![7, 2, 5],
        Ok(vec![VJDevice::D1, VJDevice::D3, VJDevice::D4]),
    )
    .ok()
    .unwrap();
    assert_eq!(pairs, vec![(VJDevice::D1, 1), (VJDevice::D3, 2), (VJDevice::D4, 0)]);
}

#[test]
fn vjoy_is_recognised_by_its_name() {
    assert!(SDL2Helper::is_vjoy("vJoy Device"));
    for name in ["vJoy Device ", "vjoy device", "vJoy", "", "XInput Controller", " vJoy Device"] {
        assert!(!SDL2Helper::is_vjoy(name));
    }
}

#[test]
fn joysticks_are_ordered_by_instance_id() {
    assert_eq!(joystick_order(&vec![]), Vec::<usize>::new());
    assert_eq!(joystick_order(&vec![9]), vec![0]);
    assert_eq!(joystick_order(&vec![1, 2, 3]), vec![0, 1, 2]);
    assert_eq!(joystick_order(&vec![3, 2, 1]), vec![2, 1, 0]);
    assert_eq!(joystick_order(&vec![7, 2, 5]), vec![1, 2, 0]);
    assert_eq!(joystick_order(&vec![u32::MAX, 0, u32::MAX - 1]), vec![1, 2, 0]);
}

#[test]
fn joysticks_with_one_instance_id_keep_their_order() {
    assert_eq!(joystick_order(&vec![4, 4, 4]), vec![0, 1, 2]);
    assert_eq!(joystick_order(&vec![5, 1, 5, 1, 5]), vec![1, 3, 0, 2, 4]);
}

#[test]
fn joystick_order_agrees_with_a_stable_sort() {
    let mut seed: u32 = 12345;
    let mut round: u32 = 0;
    while round < 200 {
        let len = (round % 17) as usize;
        let mut ids: Vec<u32> = Vec::new();
        while ids.len() < len {
            seed = seed.wrapping_mul(1664525).wrapping_add(1013904223);
            ids.push((seed >> 16) % 6);
        }
        let mut expected: Vec<usize> = (0..len).collect();
        expected.sort_by_key(|place| ids[*place]);
        assert_eq!(joystick_order(&ids), expected);
        round += 1;
    }
}

#[test]
fn devices_keep_the_order_of_the_registry() {
    let pairs =
        SDL2Helper::get_vjoys(&vec![10, 20], Ok(vec![VJDevice::D9, VJDevice::D10])).ok().unwrap();
    assert_eq!(pairs, vec![(VJDevice::D9, 0), (VJDevice::D10, 1)]);
    let pairs =
        SDL2Helper::get_vjoys(&vec![20, 10], Ok(vec![VJDevice::D9, VJDevice::D10])).ok().unwrap();
    assert_eq!(pairs, vec![(VJDevice::D9, 1), (VJDevice::D10, 0)]);
    let pairs = SDL2Helper::get_vjoys(&vec![], Ok(vec![])).ok().unwrap();
    assert!(pairs.is_empty());
}

#[test]
fn a_count_that_differs_is_refused() {
    assert!(matches!(
        SDL2Helper::get_vjoys(&vec![1, 2], Ok(vec![VJDevice::D1])),
        Err(SDL2VjoyError::DeviceCountError)
    ));
    assert!(matches!(
        SDL2Helper::get_vjoys(&vec![1], Ok(vec![VJDevice::D1, VJDevice::D2])),
        Err(SDL2VjoyError::DeviceCountError)
    ));
    assert!(matches!(
        SDL2Helper::get_vjoys(&vec![], Ok(vec![VJDevice::D1])),
        Err(SDL2VjoyError::DeviceCountError)
    ));
}

#[test]
fn a_registry_error_is_handed_on() {
    assert!(matches!(
        SDL2Helper::get_vjoys(&vec![1, 2], Err(VJDRegistryError::InvalidOrder)),
        Err(SDL2VjoyError::RegError(VJDRegistryError::InvalidOrder))
    ));
    assert!(matches!(
        SDL2Helper::get_vjoys(&vec![], Err(VJDRegistryError::DuplicateEntry)),
        Err(SDL2VjoyError::RegError(VJDRegistryError::DuplicateEntry))
    ));
    assert!(matches!(
        SDL2Helper::get_vjoys(&vec![1], Err(VJDRegistryError::InvalidDevice)),
        Err(SDL2VjoyError::RegError(VJDRegistryError::InvalidDevice))
    ));
    let error = std::io::Error::new(std::io::ErrorKind::PermissionDenied, "denied");
    match SDL2Helper::get_vjoys(&vec![1], Err(VJDRegistryError::PathError(error))) {
        Err(SDL2VjoyError::RegError(VJDRegistryError::PathError(error))) => {
            assert_eq!(error.kind(), std::io::ErrorKind::PermissionDenied)
        }
        _ => panic!("a registry error was expected"),
    }
}
