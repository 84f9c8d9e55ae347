//! Contains logics to feed/update vJoy devices.
//!
//! Nothing here talks to the driver. An operation is given what the driver
//! last reported of a device and answers with the driver calls to make.

use vstd::prelude::*;

use crate::ffi::rusty_structure::{PositionV2, VJDPosition, VJDStatus, VJDevice};

verus! {

/// A call into the driver that an operation asks its caller to make.
#[derive(Debug, Copy, Clone, PartialEq, Eq, Structural, Hash)]
pub enum VJDCall {
    /// Acquire the device. Only a device in state `Free` can be acquired.
    Acquire(VJDevice),
    /// Relinquish the device. Only a device in state `Own` can be relinquished.
    Relinquish(VJDevice),
    /// Hand the packed report to the driver as the position of the device.
    SendPosition(VJDevice, PositionV2),
}

/// Holder of utility methods to manage devices acquisition and relinquishment.
pub struct VJDOwnership(());

impl VJDOwnership {
    /// The call that acquires `device` and changes its state to `Own`.
    pub fn acquire(device: VJDevice) -> (r: VJDCall)
        ensures
            r == VJDCall::Acquire(device),
    {
        VJDCall::Acquire(device)
    }

    /// What relinquishing `device` asks for, given its status: the call that
    /// relinquishes it where the device is owned, nothing where it is not.
    pub open spec fn spec_relinquish(device: VJDevice, status: VJDStatus) -> Option<VJDCall> {
        if status == VJDStatus::Own {
            Some(VJDCall::Relinquish(device))
        } else {
            None
        }
    }

    /// Relinquishes `device`, which was last seen in `status`.
    ///
    /// Only a device in state `Own` can be relinquished: for it the result is
    /// the call to make. For any other state the result is `None`, which
    /// says that relinquishment is not authorized.
    pub fn relinquish(device: VJDevice, status: VJDStatus) -> (r: Option<VJDCall>)
        ensures
            r == Self::spec_relinquish(device, status),
    {
        match status {
            VJDStatus::Own => Some(VJDCall::Relinquish(device)),
            _ => None,
        }
    }
}

/// Holder of utility methods to feed/update vJoy devices in the most efficient
/// way, by whole positions.
pub struct VJDPosFeed(());

impl VJDPosFeed {
    /// The call that sends `position` to the device it is meant for. Only a
    /// device in state `Own` can have its position updated.
    pub fn send_position(position: &VJDPosition) -> (r: VJDCall)
        ensures
            r == VJDCall::SendPosition(position.spec_device(), position@),
    {
        VJDCall::SendPosition(position.get_device(), position.get_position())
    }
}

/// How far the reset of a device has come.
#[derive(Debug, Copy, Clone, PartialEq, Eq, Structural, Hash)]
pub enum ResetStage {
    /// Nothing was done yet.
    Begin,
    /// The device was free; it was acquired for the reset and the neutral
    /// position was sent. It is still to be given back.
    Borrowed,
    /// The reset is over, with this result.
    Finished(bool),
}

impl ResetStage {
    /// The stage that follows this one once the device was seen in `status`.
    pub open spec fn spec_after(self, status: VJDStatus) -> ResetStage {
        match self {
            ResetStage::Begin => if status == VJDStatus::Own {
                ResetStage::Finished(true)
            } else if status == VJDStatus::Free {
                ResetStage::Borrowed
            } else {
                ResetStage::Finished(false)
            },
            ResetStage::Borrowed => ResetStage::Finished(true),
            ResetStage::Finished(result) => ResetStage::Finished(result),
        }
    }

    /// The calls to make at this stage once `device` was seen in `status`, in
    /// their order.
    pub open spec fn spec_calls(self, device: VJDevice, status: VJDStatus) -> Seq<VJDCall> {
        match self {
            ResetStage::Begin => if status == VJDStatus::Own {
                seq![VJDCall::SendPosition(device, PositionV2::neutral(device))]
            } else if status == VJDStatus::Free {
                seq![
                    VJDCall::Acquire(device),
                    VJDCall::SendPosition(device, PositionV2::neutral(device)),
                ]
            } else {
                Seq::empty()
            },
            ResetStage::Borrowed => match VJDOwnership::spec_relinquish(device, status) {
                Some(call) => seq![call],
                None => Seq::empty(),
            },
            ResetStage::Finished(_) => Seq::empty(),
        }
    }

    /// The result of the reset, once it is over.
    pub fn result(self) -> (r: Option<bool>)
        ensures
            r == (match self {
                ResetStage::Finished(result) => Some(result),
                _ => None::<bool>,
            }),
    {
        match self {
            ResetStage::Finished(result) => Some(result),
            _ => None,
        }
    }
}

/// One step of a reset: the calls to make now, and the stage reached with them.
pub struct ResetStep {
    pub stage: ResetStage,
    pub calls: Vec<VJDCall>,
}

/// Holder of utility methods to feed/update vJoy devices by sequential updates.
pub struct VJDSeqFeed(());

impl VJDSeqFeed {
    /// Resets all the controls of `device`: axes X, Y and Z to the middle
    /// point, all other axes to 0, POV switches to neutral, buttons to not
    /// pressed.
    ///
    /// A reset is a short exchange. It starts at `ResetStage::Begin`. While
    /// the stage is not `Finished`, the caller reads the status of the device,
    /// hands it in with the stage, makes the calls of the step in their order
    /// and goes on with the step's stage. The result of the reset stands in
    /// the `Finished` stage: `true` if the device was owned or free, `false`
    /// otherwise.
    ///
    /// An owned device is sent the neutral position. A free device is
    /// acquired and sent the neutral position, and is relinquished at the
    /// next step if it is then seen as owned.
    pub fn reset(device: VJDevice, stage: ResetStage, status: VJDStatus) -> (r: ResetStep)
        ensures
            r.stage == stage.spec_after(status),
            r.calls@ == stage.spec_calls(device, status),
    {
        let mut calls: Vec<VJDCall> = Vec::new();
        let next = match stage {
            ResetStage::Begin => match status {
                VJDStatus::Own => {
                    calls.push(VJDPosFeed::send_position(&VJDPosition::new(device)));
                    ResetStage::Finished(true)
                },
                VJDStatus::Free => {
                    calls.push(VJDOwnership::acquire(device));
                    calls.push(VJDPosFeed::send_position(&VJDPosition::new(device)));
                    ResetStage::Borrowed
                },
                _ => ResetStage::Finished(false),
            },
            ResetStage::Borrowed => {
                match VJDOwnership::relinquish(device, status) {
                    Some(call) => {
                        calls.push(call);
                    },
                    None => {},
                }
                ResetStage::Finished(true)
            },
            ResetStage::Finished(result) => ResetStage::Finished(result),
        };
        ResetStep { stage: next, calls }
    }

    /// The devices that a reset of all devices resets, in the order in which
    /// it does: every device from #1 to #16.
    pub fn reset_all() -> (r: Vec<VJDevice>)
        ensures
            r@.len() == 16,
            forall|i: int| 0 <= i < 16 ==> (#[trigger] r@[i]).spec_id() == i + 1,
    {
        let mut devices: Vec<VJDevice> = Vec::new();
        let mut n: u8 = 1;
        while n <= 16
            invariant
                1 <= n <= 17,
                devices@.len() == n - 1,
                forall|i: int| 0 <= i < n - 1 ==> (#[trigger] devices@[i]).spec_id() == i + 1,
            decreases 17 - n,
        {
            let device = VJDevice::get_from(n).unwrap();
            devices.push(device);
            n = n + 1;
        }
        devices
    }
}

/// A reset is over after two steps at most, whatever the driver reported, and
/// succeeds exactly when the device was first seen as owned or as free.
pub proof fn lemma_reset_finishes(first: VJDStatus, second: VJDStatus)
    ensures
        ResetStage::Begin.spec_after(first).spec_after(second) == ResetStage::Finished(
            first == VJDStatus::Own || first == VJDStatus::Free,
        ),
        first != VJDStatus::Free ==> ResetStage::Begin.spec_after(first) is Finished,
{
}

/// A reset that is over stays over and asks for nothing more.
pub proof fn lemma_reset_rests(result: bool, device: VJDevice, status: VJDStatus)
    ensures
        ResetStage::Finished(result).spec_after(status) == ResetStage::Finished(result),
        ResetStage::Finished(result).spec_calls(device, status) == Seq::<VJDCall>::empty(),
{
}

/// A reset leaves the ownership of a device as it found it: it asks to
/// relinquish only at the stage that follows its own acquisition, never a
/// device that was owned before, and it acquires only a free device.
pub proof fn lemma_reset_keeps_ownership(
    stage: ResetStage,
    device: VJDevice,
    status: VJDStatus,
    i: int,
)
    requires
        0 <= i < stage.spec_calls(device, status).len(),
    ensures
        stage.spec_calls(device, status)[i] is Relinquish ==> stage == ResetStage::Borrowed
            && status == VJDStatus::Own,
        stage.spec_calls(device, status)[i] is Acquire ==> stage == ResetStage::Begin && status
            == VJDStatus::Free,
        stage.spec_calls(device, status)[i] matches VJDCall::SendPosition(to, position) ==> to
            == device && position == PositionV2::neutral(device) && stage == ResetStage::Begin,
{
}

} // verus!
