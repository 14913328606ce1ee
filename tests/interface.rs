use vjoy::{
    DeviceId, DeviceSlot, DeviceSlotError, DeviceSlotsError, DriverVersionError, Interface,
    InterfaceVersionError, LockGate, NewInterfaceError, NumDevicesError, NumSlotsError,
    OwnedDeviceSlot, Version, VersionError, Versions,
};

/// Stands in for the driver's arbitration of slot ownership.
struct SimulatedDriver {
    owned: Vec<bool>,
}

impl SimulatedDriver {
    fn acquire(&mut self, slot: DeviceSlot) -> Result<OwnedDeviceSlot, DeviceSlot> {
        let i = slot.index();
        let granted = !self.owned[i];
        if granted {
            self.owned[i] = true;
        }
        slot.acquire(granted)
    }

    fn relinquish(&mut self, owned: OwnedDeviceSlot) -> DeviceSlot {
        let slot = owned.relinquish();
        self.owned[slot.index()] = false;
        slot
    }
}

#[test]
fn lineage_refuses_second_open() {
    let mut gate = LockGate::new();
    assert_eq!(gate.live_count(), 0);
    let first = gate.open().unwrap();
    assert!(gate.open().is_none());
    let second = gate.share(&first);
    assert_eq!(gate.live_count(), 2);
    assert!(!gate.close(first));
    assert!(gate.open().is_none());
    assert!(gate.close(second));
    assert_eq!(gate.live_count(), 0);
    let again = gate.open();
    assert!(again.is_some());
    assert_eq!(gate.live_count(), 1);
}

#[test]
fn interface_new_outcomes() {
    let mut gate = LockGate::new();
    assert_eq!(Interface::new(&mut gate, false).unwrap_err(), NewInterfaceError::NotAvailable);
    assert_eq!(gate.live_count(), 0);
    let interface = Interface::new(&mut gate, true).unwrap();
    assert_eq!(gate.live_count(), 1);
    assert_eq!(Interface::new(&mut gate, true).unwrap_err(), NewInterfaceError::Locked);
    assert_eq!(gate.live_count(), 1);
    assert!(gate.close(interface.into_lock()));
    assert!(Interface::new(&mut gate, true).is_ok());
}

#[test]
fn slot_count_queries() {
    assert_eq!(Interface::num_slots_from(false, 16), Err(NumSlotsError::Failed));
    assert_eq!(Interface::num_slots_from(true, 16), Ok(16));
    assert_eq!(Interface::num_slots_from(true, 255), Ok(255));
    assert_eq!(Interface::num_slots_from(true, 256), Err(NumSlotsError::Invalid));
    assert_eq!(Interface::num_slots_from(true, -1), Err(NumSlotsError::Invalid));
    assert_eq!(Interface::num_devices_from(false, 2), Err(NumDevicesError::Failed));
    assert_eq!(Interface::num_devices_from(true, 2), Ok(2));
    assert_eq!(Interface::num_devices_from(true, -3), Err(NumDevicesError::Invalid));
}

#[test]
fn device_slot_checks_count() {
    let mut gate = LockGate::new();
    let interface = Interface::new(&mut gate, true).unwrap();
    let id = DeviceId::from_raw(5).unwrap();
    assert!(interface.device_slot(&mut gate, id, Ok(4)).unwrap().is_none());
    assert_eq!(gate.live_count(), 1);
    let slot = interface.device_slot(&mut gate, id, Ok(5)).unwrap().unwrap();
    assert_eq!(slot.id(), id);
    assert_eq!(gate.live_count(), 2);
    match interface.device_slot(&mut gate, id, Err(NumSlotsError::Failed)) {
        Err(e) => assert_eq!(e, DeviceSlotError::MaxDevices(NumSlotsError::Failed)),
        Ok(_) => panic!("a failed slot count must be reported"),
    }
    assert!(!gate.close(slot.into_lock()));
}

#[test]
fn device_slots_enumerates_one_to_count() {
    let mut gate = LockGate::new();
    let interface = Interface::new(&mut gate, true).unwrap();
    let slots = interface.device_slots(&mut gate, Ok(4)).unwrap();
    let ids: Vec<u8> = slots.iter().map(|s| s.id().to_raw()).collect();
    assert_eq!(ids, vec![1, 2, 3, 4]);
    assert_eq!(gate.live_count(), 5);
    assert_eq!(interface.device_slots(&mut gate, Ok(0)).unwrap().len(), 0);
    match interface.device_slots(&mut gate, Err(NumSlotsError::Invalid)) {
        Err(e) => assert_eq!(e, DeviceSlotsError::MaxDevices(NumSlotsError::Invalid)),
        Ok(_) => panic!("an invalid slot count must be reported"),
    }
    assert_eq!(gate.live_count(), 5);
}

#[test]
fn acquire_release_retry_scenario() {
    let mut gate = LockGate::new();
    let mut driver = SimulatedDriver { owned: vec![false; 4] };
    let interface = Interface::new(&mut gate, true).unwrap();
    let count = Interface::num_slots_from(true, 4);
    let slots = interface.device_slots(&mut gate, count).unwrap();
    assert_eq!(slots.len(), 4);
    let id = DeviceId::from_raw(2).unwrap();
    let first = interface.device_slot(&mut gate, id, count).unwrap().unwrap();
    let second = interface.device_slot(&mut gate, id, count).unwrap().unwrap();
    let owned = driver.acquire(first).ok().unwrap();
    assert_eq!(owned.id(), id);
    let refused = driver.acquire(second).err().unwrap();
    assert_eq!(refused.id(), id);
    let released = driver.relinquish(owned);
    assert_eq!(released.id(), id);
    let retried = driver.acquire(refused).ok().unwrap();
    assert_eq!(retried.id(), id);
    assert_eq!(retried.state().device(), id);
}

#[test]
fn slot_yields_interface() {
    let mut gate = LockGate::new();
    let interface = Interface::new(&mut gate, true).unwrap();
    let slot = interface
        .device_slot(&mut gate, DeviceId::from_raw(1).unwrap(), Ok(1))
        .unwrap()
        .unwrap();
    let again = slot.interface(&mut gate);
    assert_eq!(gate.live_count(), 3);
    assert!(!gate.close(again.into_lock()));
    assert!(!gate.close(slot.into_lock()));
    assert!(gate.close(interface.into_lock()));
}

#[test]
fn version_parts() {
    assert!(Version::from_raw(0).is_none());
    let v = Version::from_raw(0x222).unwrap();
    assert_eq!(v.parts(), (2, 2, 2));
    assert_eq!(v.into_raw(), 0x222);
    let v = Version::from_raw(0xF1AB).unwrap();
    assert_eq!((v.major(), v.minor(), v.patch()), (1, 10, 11));
    let v = Version::from_raw(0x0001).unwrap();
    assert_eq!(v.parts(), (0, 0, 1));
}

#[test]
fn versions_report_missing_numbers() {
    let versions = Versions::from_raw(0x216, 0);
    assert_eq!(versions.interface_version().unwrap().parts(), (2, 1, 6));
    assert_eq!(versions.driver_version(), Err(DriverVersionError(VersionError::Failed)));
    let versions = Versions::from_raw(0, 0x300);
    assert_eq!(versions.interface_version(), Err(InterfaceVersionError(VersionError::Failed)));
    assert_eq!(versions.driver_version().unwrap().parts(), (3, 0, 0));
}

#[test]
fn error_conversions() {
    let e: vjoy::GetAxisError = vjoy::AxisRangeError::Invalid.into();
    assert_eq!(e, vjoy::GetAxisError::GetRange(vjoy::AxisRangeError::Invalid));
    let e: vjoy::SetAxisError = vjoy::AxisRangeError::MaxFailure.into();
    assert_eq!(e, vjoy::SetAxisError::GetRange(vjoy::AxisRangeError::MaxFailure));
    let e: vjoy::TryIntoDeviceIdError = vjoy::DeviceIdFromRawError::Zero.into();
    assert_eq!(e, vjoy::TryIntoDeviceIdError::FromRaw(vjoy::DeviceIdFromRawError::Zero));
    let e: DeviceSlotError = NumSlotsError::Failed.into();
    assert_eq!(e, DeviceSlotError::MaxDevices(NumSlotsError::Failed));
    let e: DeviceSlotsError = NumSlotsError::Invalid.into();
    assert_eq!(e, DeviceSlotsError::MaxDevices(NumSlotsError::Invalid));
    let e: DriverVersionError = VersionError::Failed.into();
    assert_eq!(e, DriverVersionError(VersionError::Failed));
    let e: vjoy::Error = NewInterfaceError::Locked.into();
    assert_eq!(e, vjoy::Error::NewInterface(NewInterfaceError::Locked));
    let e: vjoy::Error = InterfaceVersionError(VersionError::Failed).into();
    assert_eq!(e, vjoy::Error::InterfaceVersion(InterfaceVersionError(VersionError::Failed)));
}

#[test]
fn status_order_free_first() {
    assert!(vjoy::Status::Free < vjoy::Status::Acquired);
    assert!(vjoy::Status::Acquired < vjoy::Status::Busy);
    assert!(vjoy::Status::Missing < vjoy::Status::Unknown);
}
