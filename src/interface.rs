//! The entry point: admission to the interface and enumeration of its device slots.
use crate::device::{DeviceId, DeviceSlot, TryIntoDeviceIdError};
use crate::lock::{LockGate, VJoyLock};
use vstd::prelude::*;

verus! {

/// Largest slot count the driver can report.
pub const MAX_SLOTS: usize = 255;

/// A handle on the interface, holding a token of the current lineage.
#[derive(Debug)]
pub struct Interface {
    lock: VJoyLock,
}

impl Interface {
    /// Opens the interface: refused with `Locked` while a lineage is live, and with
    /// `NotAvailable`, the minted token given back, where the driver reports itself disabled.
    pub fn new(gate: &mut LockGate, enabled: bool) -> (r: Result<Interface, NewInterfaceError>)
        ensures
            old(gate).is_open() ==> r == Err::<Interface, _>(NewInterfaceError::Locked)
                && final(gate).live() == old(gate).live(),
            !old(gate).is_open() && !enabled ==> r == Err::<Interface, _>(
                NewInterfaceError::NotAvailable,
            ) && final(gate).live() == 0,
            !old(gate).is_open() && enabled ==> r is Ok && final(gate).live() == 1,
    {
        match gate.open() {
            None => Err(NewInterfaceError::Locked),
            Some(lock) => {
                if enabled {
                    Ok(Interface { lock })
                } else {
                    gate.close(lock);
                    Err(NewInterfaceError::NotAvailable)
                }
            },
        }
    }

    /// A handle around a token of the current lineage.
    pub fn from_lock(lock: VJoyLock) -> (r: Interface) {
        Interface { lock }
    }

    /// The token the handle holds.
    pub fn lock(&self) -> (r: &VJoyLock) {
        &self.lock
    }

    /// Consumes the handle, yielding its token for `LockGate::close`.
    pub fn into_lock(self) -> (r: VJoyLock) {
        self.lock
    }

    /// The slot count from the driver's query: `success` is whether it reported success, `raw`
    /// the count it gave, which must fit in a byte.
    pub fn num_slots_from(success: bool, raw: i32) -> (r: Result<usize, NumSlotsError>)
        ensures
            !success ==> r == Err::<usize, _>(NumSlotsError::Failed),
            success ==> (r is Ok <==> 0 <= raw <= MAX_SLOTS),
            success && !(0 <= raw <= MAX_SLOTS) ==> r == Err::<usize, _>(NumSlotsError::Invalid),
            r matches Ok(n) ==> n == raw && n <= MAX_SLOTS,
    {
        if !success {
            Err(NumSlotsError::Failed)
        } else if 0 <= raw && raw <= 255 {
            Ok(raw as usize)
        } else {
            Err(NumSlotsError::Invalid)
        }
    }

    /// The count of existing devices from the driver's query: `success` is whether it reported
    /// success, `raw` the count it gave.
    pub fn num_devices_from(success: bool, raw: i32) -> (r: Result<usize, NumDevicesError>)
        ensures
            !success ==> r == Err::<usize, _>(NumDevicesError::Failed),
            success ==> (r is Ok <==> 0 <= raw),
            success && raw < 0 ==> r == Err::<usize, _>(NumDevicesError::Invalid),
            r matches Ok(n) ==> n == raw,
    {
        if !success {
            Err(NumDevicesError::Failed)
        } else if 0 <= raw {
            Ok(raw as usize)
        } else {
            Err(NumDevicesError::Invalid)
        }
    }

    /// A handle on slot `id`, where `num_slots` is the slot count the driver reports now; `None`
    /// where `id` lies past it. A returned handle takes one more token of the lineage.
    pub fn device_slot(&self, gate: &mut LockGate, id: DeviceId, num_slots: Result<usize, NumSlotsError>) -> (r: Result<Option<DeviceSlot>, DeviceSlotError>)
        requires
            old(gate).is_open(),
            old(gate).live() < usize::MAX,
        ensures
            num_slots matches Err(e) ==> r == Err::<Option<DeviceSlot>, _>(DeviceSlotError::MaxDevices(e)),
            num_slots is Ok ==> r is Ok && (r->Ok_0 is Some <==> id.spec_raw() <= num_slots->Ok_0),
            r is Ok && r->Ok_0 is Some ==> r->Ok_0->Some_0.spec_id() == id && final(gate).live()
                == old(gate).live() + 1,
            !(r is Ok && r->Ok_0 is Some) ==> final(gate).live() == old(gate).live(),
    {
        match num_slots {
            Err(e) => Err(DeviceSlotError::MaxDevices(e)),
            Ok(n) => {
                if (id.to_raw() as usize) <= n {
                    let lock = gate.share(&self.lock);
                    Ok(Some(DeviceSlot::new(id, lock)))
                } else {
                    Ok(None)
                }
            },
        }
    }

    /// A handle on every slot `1..=n`, in order, where `num_slots` is the slot count the driver
    /// reports now, `n`. Each handle takes one more token of the lineage.
    pub fn device_slots(&self, gate: &mut LockGate, num_slots: Result<usize, NumSlotsError>) -> (r: Result<Vec<DeviceSlot>, DeviceSlotsError>)
        requires
            old(gate).is_open(),
            num_slots matches Ok(n) ==> n <= MAX_SLOTS && old(gate).live() + n <= usize::MAX,
        ensures
            num_slots matches Err(e) ==> r == Err::<Vec<DeviceSlot>, _>(DeviceSlotsError::MaxDevices(e))
                && final(gate).live() == old(gate).live(),
            num_slots is Ok ==> {
                let n = num_slots->Ok_0;
                &&& r is Ok
                &&& r->Ok_0@.len() == n
                &&& final(gate).live() == old(gate).live() + n
                &&& forall|i: int|
                    0 <= i < n ==> (#[trigger] r->Ok_0@[i]).spec_id().spec_raw() == i + 1
            },
    {
        match num_slots {
            Err(e) => Err(DeviceSlotsError::MaxDevices(e)),
            Ok(n) => {
                let mut v: Vec<DeviceSlot> = Vec::new();
                let mut i: usize = 0;
                while i < n
                    invariant
                        i <= n,
                        n <= MAX_SLOTS,
                        gate.is_open(),
                        gate.live() == old(gate).live() + i,
                        old(gate).live() + n <= usize::MAX,
                        v@.len() == i,
                        forall|k: int| 0 <= k < i ==> (#[trigger] v@[k]).spec_id().spec_raw() == k + 1,
                    decreases n - i,
                {
                    if let Ok(id) = DeviceId::from_index(i) {
                        let lock = gate.share(&self.lock);
                        v.push(DeviceSlot::new(id, lock));
                    }
                    i = i + 1;
                }
                Ok(v)
            },
        }
    }
}

/// A slot handle could not be made.
#[derive(Clone, Copy, Debug, PartialEq, Eq, Structural, Hash, PartialOrd, Ord)]
pub enum DeviceSlotError {
    /// The value names no slot.
    Id(TryIntoDeviceIdError),
    /// The slot count was not available.
    MaxDevices(NumSlotsError),
}

/// The slot handles could not be listed.
#[derive(Clone, Copy, Debug, PartialEq, Eq, Structural, Hash, PartialOrd, Ord)]
pub enum DeviceSlotsError {
    /// The slot count was not available.
    MaxDevices(NumSlotsError),
}

/// The interface could not be opened.
#[derive(Clone, Copy, Debug, PartialEq, Eq, Structural, Hash, PartialOrd, Ord)]
pub enum NewInterfaceError {
    /// A lineage of tokens is live.
    Locked,
    /// No driver is available.
    NotAvailable,
}

/// The count of existing devices is not available.
#[derive(Clone, Copy, Debug, PartialEq, Eq, Structural, Hash, PartialOrd, Ord)]
pub enum NumDevicesError {
    /// The driver reported failure.
    Failed,
    /// The driver gave a count that is no count.
    Invalid,
}

/// The slot count is not available.
#[derive(Clone, Copy, Debug, PartialEq, Eq, Structural, Hash, PartialOrd, Ord)]
pub enum NumSlotsError {
    /// The driver reported failure.
    Failed,
    /// The driver gave a count that does not fit in a byte.
    Invalid,
}

impl From<TryIntoDeviceIdError> for DeviceSlotError {
    fn from(e: TryIntoDeviceIdError) -> DeviceSlotError {
        DeviceSlotError::Id(e)
    }
}

impl vstd::std_specs::convert::FromSpecImpl<TryIntoDeviceIdError> for DeviceSlotError {
    open spec fn obeys_from_spec() -> bool {
        true
    }

    open spec fn from_spec(v: TryIntoDeviceIdError) -> DeviceSlotError {
        DeviceSlotError::Id(v)
    }
}

impl From<NumSlotsError> for DeviceSlotError {
    fn from(e: NumSlotsError) -> DeviceSlotError {
        DeviceSlotError::MaxDevices(e)
    }
}

impl vstd::std_specs::convert::FromSpecImpl<NumSlotsError> for DeviceSlotError {
    open spec fn obeys_from_spec() -> bool {
        true
    }

    open spec fn from_spec(v: NumSlotsError) -> DeviceSlotError {
        DeviceSlotError::MaxDevices(v)
    }
}

impl From<NumSlotsError> for DeviceSlotsError {
    fn from(e: NumSlotsError) -> DeviceSlotsError {
        DeviceSlotsError::MaxDevices(e)
    }
}

impl vstd::std_specs::convert::FromSpecImpl<NumSlotsError> for DeviceSlotsError {
    open spec fn obeys_from_spec() -> bool {
        true
    }

    open spec fn from_spec(v: NumSlotsError) -> DeviceSlotsError {
        DeviceSlotsError::MaxDevices(v)
    }
}

} // verus!
