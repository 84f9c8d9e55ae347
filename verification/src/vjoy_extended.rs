//! Provides additional more complex functionalities: a position that is built
//! from a raw device number, and a record of the devices that were opened.

use vstd::prelude::*;

use crate::ffi::rusty_structure::{
    PositionV2, VJDAxis, VJDError, VJDPosition, VJDStatus, VJDevice,
};
use crate::vjoy_base::device::feeding::VJDCall;
use crate::vjoy_base::vjoy_update_position;

verus! {

/// The position of a device that is named by its raw number.
pub struct JoystickPositionRusty {
    position: VJDPosition,
}

impl View for JoystickPositionRusty {
    type V = PositionV2;

    /// The packed report as the driver will read it.
    closed spec fn view(&self) -> PositionV2 {
        self.position@
    }
}

impl JoystickPositionRusty {
    /// The device that the position is meant for.
    pub closed spec fn spec_device(self) -> VJDevice {
        self.position.spec_device()
    }

    /// A position for the device with number `device_index`, with every
    /// control at rest; `InvalidDeviceId` for a number outside 1..=16.
    pub fn new(device_index: u8) -> (r: Result<JoystickPositionRusty, VJDError>)
        ensures
            r is Ok <==> 1 <= device_index <= 16,
            r matches Ok(joystick) ==> joystick.spec_device().spec_id() == device_index
                && joystick@ == PositionV2::neutral(joystick.spec_device()),
            r matches Err(e) ==> e == VJDError::InvalidDeviceId,
    {
        match VJDevice::get_from(device_index) {
            Some(device) => Ok(JoystickPositionRusty { position: VJDPosition::new(device) }),
            None => Err(VJDError::InvalidDeviceId),
        }
    }

    /// The position, to read it.
    pub fn position(&self) -> (r: &VJDPosition)
        ensures
            r@ == self@,
            r.spec_device() == self.spec_device(),
    {
        &self.position
    }

    /// The position, to change it: what is written through the reference is
    /// the position from then on.
    pub fn position_as_mut(&mut self) -> (r: &mut VJDPosition)
        ensures
            r@ == old(self)@,
            r.spec_device() == old(self).spec_device(),
            final(self)@ == final(r)@,
            final(self).spec_device() == final(r).spec_device(),
    {
        &mut self.position
    }

    /// Stores `value` for the X axis, as it is.
    pub fn set_axis_x(&mut self, value: i32)
        ensures
            final(self)@ == old(self)@.with_axis(VJDAxis::X, value),
            final(self).spec_device() == old(self).spec_device(),
    {
        self.position.set_axis_x(value);
    }

    /// Publishes the position to its device, which was last seen in `status`:
    /// the call that sends it where the device is owned, `None` where it is not.
    pub fn publish(&self, status: VJDStatus) -> (r: Option<VJDCall>)
        ensures
            r == (if status == VJDStatus::Own {
                Some(VJDCall::SendPosition(self.spec_device(), self@))
            } else {
                None
            }),
    {
        vjoy_update_position(&self.position, status)
    }
}

/// The axes whose values an `AxesState` holds.
#[derive(Debug, Copy, Clone, PartialEq, Eq, Structural, Hash)]
pub enum Axis {
    X,
    Y,
    Z,
    Rx,
    Ry,
    Rz,
    Sl0,
    Sl1,
}

/// The number of axes that an `AxesState` holds.
pub const AXIS_VARIANT_COUNT: usize = 8;

impl Axis {
    /// The place of the axis among the axes, from 0.
    pub open spec fn spec_index(self) -> int {
        match self {
            Axis::X => 0,
            Axis::Y => 1,
            Axis::Z => 2,
            Axis::Rx => 3,
            Axis::Ry => 4,
            Axis::Rz => 5,
            Axis::Sl0 => 6,
            Axis::Sl1 => 7,
        }
    }

    /// The place of the axis among the axes, from 0.
    pub fn index(self) -> (r: usize)
        ensures
            r == self.spec_index(),
            r < AXIS_VARIANT_COUNT,
    {
        match self {
            Axis::X => 0,
            Axis::Y => 1,
            Axis::Z => 2,
            Axis::Rx => 3,
            Axis::Ry => 4,
            Axis::Rz => 5,
            Axis::Sl0 => 6,
            Axis::Sl1 => 7,
        }
    }
}

/// The values of the eight axes, with a mark on each axis that was set.
pub struct AxesState {
    pub axes_val: [u16; 8],
    pub state_changed: [bool; 8],
}

impl AxesState {
    /// Every axis at 0 and none marked.
    pub fn new() -> (r: AxesState)
        ensures
            r.axes_val@ == Seq::new(8, |i: int| 0u16),
            r.state_changed@ == Seq::new(8, |i: int| false),
    {
        AxesState { axes_val: [0u16; 8], state_changed: [false; 8] }
    }

    /// Stores `value` for `axis` and marks the axis as changed.
    pub fn set(&mut self, axis: Axis, value: u16)
        ensures
            final(self).axes_val@ == old(self).axes_val@.update(axis.spec_index(), value),
            final(self).state_changed@ == old(self).state_changed@.update(
                axis.spec_index(),
                true,
            ),
    {
        let index = axis.index();
        self.axes_val[index] = value;
        self.state_changed[index] = true;
    }
}

/// Keeps the versions of the driver and of its interface library, and the
/// devices that were opened through it.
pub struct VJoyDeviceManager {
    driver_ver: u16,
    dll_ver: u16,
    opened_devices: Vec<u8>,
}

impl VJoyDeviceManager {
    /// The devices that are open.
    pub closed spec fn opened(self) -> Set<u8> {
        self.opened_devices@.to_set()
    }

    /// The version of the driver.
    pub closed spec fn spec_driver_version(self) -> u16 {
        self.driver_ver
    }

    /// The version of the interface library.
    pub closed spec fn spec_dll_version(self) -> u16 {
        self.dll_ver
    }

    /// A manager for an enabled driver whose versions are known, with no
    /// device open.
    ///
    /// `enabled` says whether the driver is enabled, `version` is its version
    /// number, `driver_ver` and `dll_ver` are the versions of the driver and
    /// of the interface library as a pair of both reports them. The first of
    /// these that is missing, in this order, decides the error.
    pub fn new(
        enabled: bool,
        version: Option<u16>,
        driver_ver: Option<u16>,
        dll_ver: Option<u16>,
    ) -> (r: Result<VJoyDeviceManager, &'static str>)
        ensures
            r is Ok <==> enabled && version is Some && driver_ver is Some && dll_ver is Some,
            r matches Ok(manager) ==> manager.opened() == Set::<u8>::empty()
                && manager.spec_driver_version() == driver_ver->0 && manager.spec_dll_version()
                == dll_ver->0,
            r matches Err(message) ==> message@ == (if !enabled {
                "vJoy driver is not enabled."@
            } else if version is None {
                "Getting the version number of the installed vJoy driver failed."@
            } else if driver_ver is None {
                "Could not determine the vJoy driver version. Is vJoy installed?"@
            } else {
                "Could not determine the vJoy DLL version. Is the vJoy interface DLL provided?"@
            }),
    {
        if !enabled {
            return Err("vJoy driver is not enabled.");
        }
        if version.is_none() {
            return Err("Getting the version number of the installed vJoy driver failed.");
        }
        let driver_ver = match driver_ver {
            Some(v) => v,
            None => {
                return Err("Could not determine the vJoy driver version. Is vJoy installed?");
            },
        };
        let dll_ver = match dll_ver {
            Some(v) => v,
            None => {
                return Err(
                    "Could not determine the vJoy DLL version. Is the vJoy interface DLL provided?",
                );
            },
        };
        let opened_devices: Vec<u8> = Vec::with_capacity(16);
        proof {
            assert(opened_devices@.to_set() =~= Set::<u8>::empty());
        }
        Ok(VJoyDeviceManager { driver_ver, dll_ver, opened_devices })
    }

    /// The version of the driver.
    pub fn driver_version(&self) -> (r: u16)
        ensures
            r == self.spec_driver_version(),
    {
        self.driver_ver
    }

    /// The version of the interface library.
    pub fn dll_version(&self) -> (r: u16)
        ensures
            r == self.spec_dll_version(),
    {
        self.dll_ver
    }

    /// Whether device `id` is open.
    pub fn is_open(&self, id: u8) -> (r: bool)
        ensures
            r == self.opened().contains(id),
    {
        self.position_of(id).is_some()
    }

    fn position_of(&self, id: u8) -> (r: Option<usize>)
        ensures
            r is Some <==> self.opened().contains(id),
            r matches Some(i) ==> i < self.opened_devices@.len() && self.opened_devices@[i as int]
                == id,
    {
        let mut i: usize = 0;
        while i < self.opened_devices.len()
            invariant
                i <= self.opened_devices@.len(),
                forall|j: int| 0 <= j < i ==> self.opened_devices@[j] != id,
            decreases self.opened_devices@.len() - i,
        {
            if self.opened_devices[i] == id {
                return Some(i);
            }
            i = i + 1;
        }
        None
    }

    /// Records what came of acquiring device `id`: `denied` is `None` where
    /// the driver granted the device, else the status in which the device was
    /// then found.
    ///
    /// A granted device is open from now on. A denied one changes nothing,
    /// and its status is the error.
    pub fn open_device(&mut self, id: u8, denied: Option<VJDStatus>) -> (r: Result<(), VJDStatus>)
        ensures
            r == (match denied {
                None => Ok::<(), VJDStatus>(()),
                Some(status) => Err::<(), VJDStatus>(status),
            }),
            final(self).opened() == (if denied is None {
                old(self).opened().insert(id)
            } else {
                old(self).opened()
            }),
            final(self).spec_driver_version() == old(self).spec_driver_version(),
            final(self).spec_dll_version() == old(self).spec_dll_version(),
    {
        match denied {
            Some(status) => Err(status),
            None => {
                if self.position_of(id).is_none() {
                    let ghost before = self.opened_devices@;
                    self.opened_devices.push(id);
                    proof {
                        assert(before.push(id).to_set() =~= before.to_set().insert(id)) by {
                            assert forall|d: u8|
                                before.to_set().insert(id).contains(d) implies before.push(
                                id,
                            ).contains(d) by {
                                if d == id {
                                    assert(before.push(id)[before.len() as int] == id);
                                } else {
                                    let j = choose|j: int| 0 <= j < before.len() && before[j] == d;
                                    assert(before.push(id)[j] == d);
                                }
                            }
                        }
                    }
                } else {
                    assert(self.opened().insert(id) =~= self.opened());
                }
                Ok(())
            },
        }
    }

    /// Closes device `id`, which was last seen in `status`.
    ///
    /// Only an owned device can be closed: it is open no longer, and the
    /// caller relinquishes it. For any other status nothing changes and the
    /// result is an error with an empty message.
    pub fn close_device(&mut self, id: u8, status: VJDStatus) -> (r: Result<(), &'static str>)
        ensures
            r is Ok <==> status == VJDStatus::Own,
            r matches Err(message) ==> message@ == ""@,
            final(self).opened() == (if status == VJDStatus::Own {
                old(self).opened().remove(id)
            } else {
                old(self).opened()
            }),
            final(self).spec_driver_version() == old(self).spec_driver_version(),
            final(self).spec_dll_version() == old(self).spec_dll_version(),
    {
        match status {
            VJDStatus::Own => {
                self.opened_devices = Self::without(&self.opened_devices, id);
                Ok(())
            },
            _ => Err(""),
        }
    }

    fn without(list: &Vec<u8>, id: u8) -> (r: Vec<u8>)
        ensures
            r@.to_set() == list@.to_set().remove(id),
    {
        let mut kept: Vec<u8> = Vec::new();
        let mut i: usize = 0;
        while i < list.len()
            invariant
                i <= list@.len(),
                forall|k: int| 0 <= k < kept@.len() ==> kept@[k] != id && list@.contains(kept@[k]),
                forall|j: int| 0 <= j < i && list@[j] != id ==> kept@.contains(list@[j]),
            decreases list@.len() - i,
        {
            if list[i] != id {
                let ghost before = kept@;
                kept.push(list[i]);
                proof {
                    assert(kept@[before.len() as int] == list@[i as int]);
                    assert forall|j: int| 0 <= j <= i && list@[j] != id implies kept@.contains(
                        list@[j],
                    ) by {
                        if j < i {
                            let k = choose|k: int| 0 <= k < before.len() && before[k] == list@[j];
                            assert(kept@[k] == list@[j]);
                        }
                    }
                }
            }
            i = i + 1;
        }
        proof {
            assert(kept@.to_set() =~= list@.to_set().remove(id));
        }
        kept
    }
}

} // verus!
