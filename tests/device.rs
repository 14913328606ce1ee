use vjoy::{
    Axis, AxisRange, AxisRangeError, DeviceId, DeviceIdFromIndexError, DeviceIdFromRawError,
    DeviceSlot, GetAxisError, Interface, LockGate, NumButtonsError, NumContPovError,
    NumDiscPovError, OwnedDeviceSlot, SetAxisError,
    SetButtonError, Status,
};

fn owned_slot(gate: &mut LockGate, raw: u8) -> OwnedDeviceSlot {
    let interface = Interface::new(gate, true).unwrap();
    let id = DeviceId::from_raw(raw).unwrap();
    let slot = interface.device_slot(gate, id, Ok(16)).unwrap().unwrap();
    slot.acquire(true).unwrap()
}

#[test]
fn device_id_from_index_bounds() {
    assert_eq!(DeviceId::from_index(0).unwrap().to_raw(), 1);
    assert_eq!(DeviceId::from_index(254).unwrap().to_raw(), 255);
    assert_eq!(DeviceId::from_index(255), Err(DeviceIdFromIndexError::TooLarge));
    assert_eq!(DeviceId::from_index(usize::MAX), Err(DeviceIdFromIndexError::TooLarge));
}

#[test]
fn device_id_from_raw_and_index() {
    assert_eq!(DeviceId::from_raw(0), Err(DeviceIdFromRawError::Zero));
    let id = DeviceId::from_raw(3).unwrap();
    assert_eq!(id.to_raw(), 3);
    assert_eq!(id.to_index(), 2);
    assert_eq!(DeviceId::from_index(id.to_index()), Ok(id));
    assert_eq!(DeviceId::from_raw(255).unwrap().to_index(), 254);
}

#[test]
fn axis_table_is_fixed() {
    let all = Axis::all();
    assert_eq!(all.len(), 16);
    for (i, a) in all.iter().enumerate() {
        assert_eq!(a.offset(), i);
    }
    assert_eq!(all[0], Axis::X);
    assert_eq!(all[15], Axis::Wheel);
    assert_eq!(Axis::X.name(), "X");
    assert_eq!(Axis::Accelerator.name(), "Accelerator");
    assert_eq!(Axis::Wheel.name(), "Wheel");
    assert_eq!(Axis::X.usage(), 0x30);
    assert_eq!(Axis::Dial.usage(), 0x37);
    assert_eq!(Axis::Wheel.usage(), 0x38);
    assert_eq!(Axis::Aileron.usage(), 0xB0);
    assert_eq!(Axis::Steering.usage(), 0xC8);
}

#[test]
fn status_codes() {
    assert_eq!(Status::from_raw(0), Some(Status::Acquired));
    assert_eq!(Status::from_raw(1), Some(Status::Free));
    assert_eq!(Status::from_raw(2), Some(Status::Busy));
    assert_eq!(Status::from_raw(3), Some(Status::Missing));
    assert_eq!(Status::from_raw(4), Some(Status::Unknown));
    assert_eq!(Status::from_raw(5), None);
    for s in [Status::Acquired, Status::Free, Status::Busy, Status::Missing, Status::Unknown] {
        assert_eq!(Status::from_raw(s.to_raw()), Some(s));
    }
}

#[test]
fn axis_range_reports_inconsistency() {
    assert_eq!(AxisRange::from_bounds(Some(100), Some(50)), Err(AxisRangeError::Invalid));
    assert_eq!(AxisRange::from_bounds(None, Some(50)), Err(AxisRangeError::MinFailure));
    assert_eq!(AxisRange::from_bounds(Some(0), None), Err(AxisRangeError::MaxFailure));
    let g = AxisRange::from_bounds(Some(50), Some(50)).unwrap();
    assert_eq!((g.min(), g.max(), g.span()), (50, 50, 0));
    let g = AxisRange::new(i32::MIN, i32::MAX).unwrap();
    assert_eq!(g.span(), u32::MAX);
    assert_eq!(g.offset_of(0), 1u32 << 31);
}

#[test]
fn acquire_refused_returns_handle() {
    let mut gate = LockGate::new();
    let interface = Interface::new(&mut gate, true).unwrap();
    let id = DeviceId::from_raw(2).unwrap();
    let slot = interface.device_slot(&mut gate, id, Ok(4)).unwrap().unwrap();
    let back = slot.acquire(false).unwrap_err();
    assert_eq!(back.id(), id);
    assert_eq!(back.index(), 1);
    let owned = back.acquire(true).unwrap();
    assert_eq!(owned.id(), id);
    assert_eq!(owned.state().device(), id);
    for a in Axis::all() {
        assert_eq!(owned.get_axis_raw(a), 0);
    }
    for w in 0..4 {
        assert_eq!(owned.state().button_word(w), 0);
    }
}

#[test]
fn button_round_trip_without_cross_talk() {
    let mut gate = LockGate::new();
    let mut owned = owned_slot(&mut gate, 1);
    assert_eq!(owned.set_button(33, true), Ok(()));
    assert_eq!(owned.set_button(127, true), Ok(()));
    assert_eq!(owned.set_button(0, true), Ok(()));
    assert_eq!(owned.get_button(33), Some(true));
    assert_eq!(owned.get_button(127), Some(true));
    assert_eq!(owned.get_button(0), Some(true));
    for i in 0..128 {
        if i != 33 && i != 127 && i != 0 {
            assert_eq!(owned.get_button(i), Some(false));
        }
    }
    assert_eq!(owned.state().button_word(0), 1);
    assert_eq!(owned.state().button_word(1), 2);
    assert_eq!(owned.state().button_word(2), 0);
    assert_eq!(owned.state().button_word(3), 0x8000_0000);
    assert_eq!(owned.set_button(33, false), Ok(()));
    assert_eq!(owned.get_button(33), Some(false));
    assert_eq!(owned.state().button_word(1), 0);
    assert_eq!(owned.get_button(127), Some(true));
}

#[test]
fn button_index_out_of_range() {
    let mut gate = LockGate::new();
    let mut owned = owned_slot(&mut gate, 1);
    assert_eq!(owned.set_button(128, true), Err(SetButtonError::NoSuchButton));
    assert_eq!(owned.get_button(128), None);
    assert_eq!(owned.get_button(usize::MAX), None);
    for w in 0..4 {
        assert_eq!(owned.state().button_word(w), 0);
    }
}

#[test]
fn set_axis_raw_checks_range() {
    let mut gate = LockGate::new();
    let mut owned = owned_slot(&mut gate, 1);
    let g = AxisRange::new(10, 20);
    assert_eq!(owned.set_axis_raw(Axis::Y, g, 21), Err(SetAxisError::Value));
    assert_eq!(owned.get_axis_raw(Axis::Y), 0);
    assert_eq!(owned.set_axis_raw(Axis::Y, g, 20), Ok(()));
    assert_eq!(owned.get_axis_raw(Axis::Y), 20);
    assert_eq!(owned.get_axis_raw(Axis::X), 0);
    assert_eq!(owned.state().axis(Axis::Y), 20);
    let bad = AxisRange::from_bounds(None, Some(5));
    assert_eq!(
        owned.set_axis_raw(Axis::Y, bad, 3),
        Err(SetAxisError::GetRange(AxisRangeError::MinFailure))
    );
    assert_eq!(owned.get_axis_raw(Axis::Y), 20);
}

#[test]
fn get_axis_offset_detects_stale_value() {
    let mut gate = LockGate::new();
    let mut owned = owned_slot(&mut gate, 1);
    let g = AxisRange::new(10, 20);
    assert_eq!(owned.get_axis_offset(Axis::Z, g), Err(GetAxisError::Value));
    owned.set_axis_raw(Axis::Z, g, 15).unwrap();
    assert_eq!(owned.get_axis_offset(Axis::Z, g), Ok((5, 10)));
    assert_eq!(
        owned.get_axis_offset(Axis::Z, Err(AxisRangeError::MaxFailure)),
        Err(GetAxisError::GetRange(AxisRangeError::MaxFailure))
    );
}

#[test]
fn normalized_half_maps_to_middle() {
    let mut gate = LockGate::new();
    let mut owned = owned_slot(&mut gate, 1);
    let g = AxisRange::new(0, 32767).unwrap();
    let value: f32 = 0.5;
    let raw = g.min() + (g.span() as f32 * value).round() as i32;
    assert_eq!(raw, 16384);
    owned.set_axis_raw(Axis::X, Ok(g), raw).unwrap();
    assert_eq!(owned.get_axis_raw(Axis::X), 16384);
    let (offset, span) = owned.get_axis_offset(Axis::X, Ok(g)).unwrap();
    assert_eq!((offset, span), (16384, 32767));
    assert!((offset as f32 / span as f32 - 0.5).abs() < 1e-4);
}

#[test]
fn normalize_then_denormalize_restores_raw() {
    let mut gate = LockGate::new();
    let mut owned = owned_slot(&mut gate, 1);
    let g = AxisRange::new(-5, 12).unwrap();
    for v in -5..=12 {
        owned.set_axis_raw(Axis::Rudder, Ok(g), v).unwrap();
        let (offset, span) = owned.get_axis_offset(Axis::Rudder, Ok(g)).unwrap();
        let normalized = offset as f32 / span as f32;
        let back = g.min() + (span as f32 * normalized).round() as i32;
        assert_eq!(back, v);
    }
}

#[test]
fn wired_axes_follow_order() {
    let mut gate = LockGate::new();
    let interface = Interface::new(&mut gate, true).unwrap();
    let slot = interface
        .device_slot(&mut gate, DeviceId::from_raw(1).unwrap(), Ok(1))
        .unwrap()
        .unwrap();
    let mut wired = vec![false; 16];
    wired[0] = true;
    wired[2] = true;
    wired[15] = true;
    assert_eq!(slot.axes(&wired), vec![Axis::X, Axis::Z, Axis::Wheel]);
    assert_eq!(slot.axes(&vec![false; 16]), Vec::<Axis>::new());
    assert_eq!(slot.axes(&vec![true; 16]), Axis::all());
}

#[test]
fn relinquish_returns_unacquired_slot() {
    let mut gate = LockGate::new();
    let owned = owned_slot(&mut gate, 7);
    let slot: DeviceSlot = owned.relinquish();
    assert_eq!(slot.id().to_raw(), 7);
}

#[test]
fn capability_counts() {
    let mut gate = LockGate::new();
    let interface = Interface::new(&mut gate, true).unwrap();
    let slot = interface
        .device_slot(&mut gate, DeviceId::from_raw(1).unwrap(), Ok(1))
        .unwrap()
        .unwrap();
    assert_eq!(slot.num_buttons(32), Ok(32));
    assert_eq!(slot.num_buttons(-1), Err(NumButtonsError::Failed));
    assert_eq!(slot.num_cont_pov(0), Ok(0));
    assert_eq!(slot.num_cont_pov(-2), Err(NumContPovError::Failed));
    assert_eq!(slot.num_disc_pov(4), Ok(4));
    assert_eq!(slot.num_disc_pov(i32::MIN), Err(NumDiscPovError::Failed));
}
