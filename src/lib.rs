//! Verified core of a thread-confined, exclusively-owned virtual joystick interface.
//!
//! Every call into the driver is made by the caller; the library takes the driver's answers as
//! plain values and decides what they mean: which slot a handle names, whether an acquisition
//! produced an owned slot, what range an axis has, and what state record is pushed.

mod device;
mod interface;
mod lock;
mod version;

pub use crate::device::{
    axis_order, bit_of, button_at, lemma_axis_round_trip, lemma_button_round_trip, wired_axes,
    with_bit, with_button, ApplyError, Axis, AxisRange, AxisRangeError, DeviceId,
    DeviceIdFromIndexError, DeviceIdFromRawError, DeviceSlot, GetAxisError, JoystickState,
    NumButtonsError, NumContPovError, NumDiscPovError, OwnedDeviceSlot, SetAxisError,
    SetButtonError, Status, TryIntoDeviceIdError, NUM_AXES, NUM_BUTTONS, NUM_BUTTON_WORDS,
};
pub use crate::interface::{
    DeviceSlotError, DeviceSlotsError, Interface, NewInterfaceError, NumDevicesError,
    NumSlotsError, MAX_SLOTS,
};
pub use crate::lock::{
    after_closes, after_open, after_shares, lemma_single_lineage, LockGate, VJoyLock,
};
pub use crate::version::{
    DriverVersionError, InterfaceVersionError, Version, VersionError, Versions,
};

use vstd::prelude::*;

verus! {

/// Every error this library reports, in one type.
#[derive(Clone, Copy, Debug, PartialEq, Eq, Structural, Hash, PartialOrd, Ord)]
pub enum Error {
    DeviceSlot(DeviceSlotError),
    DeviceSlots(DeviceSlotsError),
    NewInterface(NewInterfaceError),
    NumDevices(NumDevicesError),
    NumSlots(NumSlotsError),
    Apply(ApplyError),
    AxisRange(AxisRangeError),
    DeviceIdFromIndex(DeviceIdFromIndexError),
    DeviceIdFromRaw(DeviceIdFromRawError),
    GetAxis(GetAxisError),
    NumButtons(NumButtonsError),
    NumContPov(NumContPovError),
    NumDiscPov(NumDiscPovError),
    SetAxis(SetAxisError),
    SetButton(SetButtonError),
    TryIntoDeviceId(TryIntoDeviceIdError),
    DriverVersion(DriverVersionError),
    InterfaceVersion(InterfaceVersionError),
}

impl From<DeviceSlotError> for Error {
    fn from(e: DeviceSlotError) -> Error {
        Error::DeviceSlot(e)
    }
}

impl vstd::std_specs::convert::FromSpecImpl<DeviceSlotError> for Error {
    open spec fn obeys_from_spec() -> bool {
        true
    }

    open spec fn from_spec(v: DeviceSlotError) -> Error {
        Error::DeviceSlot(v)
    }
}

impl From<DeviceSlotsError> for Error {
    fn from(e: DeviceSlotsError) -> Error {
        Error::DeviceSlots(e)
    }
}

impl vstd::std_specs::convert::FromSpecImpl<DeviceSlotsError> for Error {
    open spec fn obeys_from_spec() -> bool {
        true
    }

    open spec fn from_spec(v: DeviceSlotsError) -> Error {
        Error::DeviceSlots(v)
    }
}

impl From<NewInterfaceError> for Error {
    fn from(e: NewInterfaceError) -> Error {
        Error::NewInterface(e)
    }
}

impl vstd::std_specs::convert::FromSpecImpl<NewInterfaceError> for Error {
    open spec fn obeys_from_spec() -> bool {
        true
    }

    open spec fn from_spec(v: NewInterfaceError) -> Error {
        Error::NewInterface(v)
    }
}

impl From<NumDevicesError> for Error {
    fn from(e: NumDevicesError) -> Error {
        Error::NumDevices(e)
    }
}

impl vstd::std_specs::convert::FromSpecImpl<NumDevicesError> for Error {
    open spec fn obeys_from_spec() -> bool {
        true
    }

    open spec fn from_spec(v: NumDevicesError) -> Error {
        Error::NumDevices(v)
    }
}

impl From<NumSlotsError> for Error {
    fn from(e: NumSlotsError) -> Error {
        Error::NumSlots(e)
    }
}

impl vstd::std_specs::convert::FromSpecImpl<NumSlotsError> for Error {
    open spec fn obeys_from_spec() -> bool {
        true
    }

    open spec fn from_spec(v: NumSlotsError) -> Error {
        Error::NumSlots(v)
    }
}

impl From<ApplyError> for Error {
    fn from(e: ApplyError) -> Error {
        Error::Apply(e)
    }
}

impl vstd::std_specs::convert::FromSpecImpl<ApplyError> for Error {
    open spec fn obeys_from_spec() -> bool {
        true
    }

    open spec fn from_spec(v: ApplyError) -> Error {
        Error::Apply(v)
    }
}

impl From<AxisRangeError> for Error {
    fn from(e: AxisRangeError) -> Error {
        Error::AxisRange(e)
    }
}

impl vstd::std_specs::convert::FromSpecImpl<AxisRangeError> for Error {
    open spec fn obeys_from_spec() -> bool {
        true
    }

    open spec fn from_spec(v: AxisRangeError) -> Error {
        Error::AxisRange(v)
    }
}

impl From<DeviceIdFromIndexError> for Error {
    fn from(e: DeviceIdFromIndexError) -> Error {
        Error::DeviceIdFromIndex(e)
    }
}

impl vstd::std_specs::convert::FromSpecImpl<DeviceIdFromIndexError> for Error {
    open spec fn obeys_from_spec() -> bool {
        true
    }

    open spec fn from_spec(v: DeviceIdFromIndexError) -> Error {
        Error::DeviceIdFromIndex(v)
    }
}

impl From<DeviceIdFromRawError> for Error {
    fn from(e: DeviceIdFromRawError) -> Error {
        Error::DeviceIdFromRaw(e)
    }
}

impl vstd::std_specs::convert::FromSpecImpl<DeviceIdFromRawError> for Error {
    open spec fn obeys_from_spec() -> bool {
        true
    }

    open spec fn from_spec(v: DeviceIdFromRawError) -> Error {
        Error::DeviceIdFromRaw(v)
    }
}

impl From<GetAxisError> for Error {
    fn from(e: GetAxisError) -> Error {
        Error::GetAxis(e)
    }
}

impl vstd::std_specs::convert::FromSpecImpl<GetAxisError> for Error {
    open spec fn obeys_from_spec() -> bool {
        true
    }

    open spec fn from_spec(v: GetAxisError) -> Error {
        Error::GetAxis(v)
    }
}

impl From<NumButtonsError> for Error {
    fn from(e: NumButtonsError) -> Error {
        Error::NumButtons(e)
    }
}

impl vstd::std_specs::convert::FromSpecImpl<NumButtonsError> for Error {
    open spec fn obeys_from_spec() -> bool {
        true
    }

    open spec fn from_spec(v: NumButtonsError) -> Error {
        Error::NumButtons(v)
    }
}

impl From<NumContPovError> for Error {
    fn from(e: NumContPovError) -> Error {
        Error::NumContPov(e)
    }
}

impl vstd::std_specs::convert::FromSpecImpl<NumContPovError> for Error {
    open spec fn obeys_from_spec() -> bool {
        true
    }

    open spec fn from_spec(v: NumContPovError) -> Error {
        Error::NumContPov(v)
    }
}

impl From<NumDiscPovError> for Error {
    fn from(e: NumDiscPovError) -> Error {
        Error::NumDiscPov(e)
    }
}

impl vstd::std_specs::convert::FromSpecImpl<NumDiscPovError> for Error {
    open spec fn obeys_from_spec() -> bool {
        true
    }

    open spec fn from_spec(v: NumDiscPovError) -> Error {
        Error::NumDiscPov(v)
    }
}

impl From<SetAxisError> for Error {
    fn from(e: SetAxisError) -> Error {
        Error::SetAxis(e)
    }
}

impl vstd::std_specs::convert::FromSpecImpl<SetAxisError> for Error {
    open spec fn obeys_from_spec() -> bool {
        true
    }

    open spec fn from_spec(v: SetAxisError) -> Error {
        Error::SetAxis(v)
    }
}

impl From<SetButtonError> for Error {
    fn from(e: SetButtonError) -> Error {
        Error::SetButton(e)
    }
}

impl vstd::std_specs::convert::FromSpecImpl<SetButtonError> for Error {
    open spec fn obeys_from_spec() -> bool {
        true
    }

    open spec fn from_spec(v: SetButtonError) -> Error {
        Error::SetButton(v)
    }
}

impl From<TryIntoDeviceIdError> for Error {
    fn from(e: TryIntoDeviceIdError) -> Error {
        Error::TryIntoDeviceId(e)
    }
}

impl vstd::std_specs::convert::FromSpecImpl<TryIntoDeviceIdError> for Error {
    open spec fn obeys_from_spec() -> bool {
        true
    }

    open spec fn from_spec(v: TryIntoDeviceIdError) -> Error {
        Error::TryIntoDeviceId(v)
    }
}

impl From<DriverVersionError> for Error {
    fn from(e: DriverVersionError) -> Error {
        Error::DriverVersion(e)
    }
}

impl vstd::std_specs::convert::FromSpecImpl<DriverVersionError> for Error {
    open spec fn obeys_from_spec() -> bool {
        true
    }

    open spec fn from_spec(v: DriverVersionError) -> Error {
        Error::DriverVersion(v)
    }
}

impl From<InterfaceVersionError> for Error {
    fn from(e: InterfaceVersionError) -> Error {
        Error::InterfaceVersion(e)
    }
}

impl vstd::std_specs::convert::FromSpecImpl<InterfaceVersionError> for Error {
    open spec fn obeys_from_spec() -> bool {
        true
    }

    open spec fn from_spec(v: InterfaceVersionError) -> Error {
        Error::InterfaceVersion(v)
    }
}

} // verus!
