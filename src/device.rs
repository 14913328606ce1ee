//! Device slots, their identities, axes and the packed state pushed to the driver.
use crate::interface::Interface;
use crate::lock::{LockGate, VJoyLock};
use vstd::prelude::*;

verus! {

/// Number of axis channels in a state snapshot.
pub const NUM_AXES: usize = 16;

/// Number of buttons in a state snapshot.
pub const NUM_BUTTONS: usize = 128;

/// Number of 32-bit words that pack the buttons.
pub const NUM_BUTTON_WORDS: usize = 4;

/// The 1-based identity of a device slot, in `[1, 255]`.
#[derive(Clone, Copy, Debug, PartialEq, Eq, Structural, Hash, PartialOrd, Ord)]
pub struct DeviceId {
    raw: u8,
}

impl DeviceId {
    #[verifier::type_invariant]
    spec fn inv(&self) -> bool {
        self.raw != 0
    }

    /// The 1-based slot number.
    pub closed spec fn spec_raw(&self) -> u8 {
        self.raw
    }

    /// The slot with 0-based index `index`: slot number `index + 1`, which must fit in a byte.
    pub fn from_index(index: usize) -> (r: Result<DeviceId, DeviceIdFromIndexError>)
        ensures
            r is Ok <==> index < 255,
            r matches Ok(id) ==> id.spec_raw() == index + 1,
            r matches Err(e) ==> e == DeviceIdFromIndexError::TooLarge,
    {
        if index < 255 {
            Ok(DeviceId { raw: (index + 1) as u8 })
        } else {
            Err(DeviceIdFromIndexError::TooLarge)
        }
    }

    /// The slot with 1-based number `raw`; zero names no slot.
    pub fn from_raw(raw: u8) -> (r: Result<DeviceId, DeviceIdFromRawError>)
        ensures
            r is Ok <==> raw != 0,
            r matches Ok(id) ==> id.spec_raw() == raw,
            r matches Err(e) ==> e == DeviceIdFromRawError::Zero,
    {
        if raw != 0 {
            Ok(DeviceId { raw })
        } else {
            Err(DeviceIdFromRawError::Zero)
        }
    }

    /// The 0-based index of the slot.
    pub fn to_index(self) -> (r: usize)
        ensures
            r + 1 == self.spec_raw(),
            r < 255,
    {
        proof {
            use_type_invariant(&self);
        }
        (self.raw - 1) as usize
    }

    /// The 1-based slot number, never zero.
    pub fn to_raw(self) -> (r: u8)
        ensures
            r == self.spec_raw(),
            r != 0,
    {
        proof {
            use_type_invariant(&self);
        }
        self.raw
    }
}

/// One of the sixteen axis channels of a device.
#[derive(Clone, Copy, Debug, PartialEq, Eq, Structural, Hash, PartialOrd)]
pub enum Axis {
    X,
    Y,
    Z,
    RX,
    RY,
    RZ,
    Slider,
    Dial,
    Accelerator,
    Aileron,
    Brake,
    Clutch,
    Rudder,
    Steering,
    Throttle,
    Wheel,
}

/// The channels in their fixed order: the position of each is its field in a state snapshot.
pub open spec fn axis_order() -> Seq<Axis> {
    seq![
        Axis::X,
        Axis::Y,
        Axis::Z,
        Axis::RX,
        Axis::RY,
        Axis::RZ,
        Axis::Slider,
        Axis::Dial,
        Axis::Accelerator,
        Axis::Aileron,
        Axis::Brake,
        Axis::Clutch,
        Axis::Rudder,
        Axis::Steering,
        Axis::Throttle,
        Axis::Wheel,
    ]
}

impl Axis {
    /// The field of a state snapshot that holds this channel.
    pub open spec fn spec_offset(self) -> nat {
        match self {
            Axis::X => 0,
            Axis::Y => 1,
            Axis::Z => 2,
            Axis::RX => 3,
            Axis::RY => 4,
            Axis::RZ => 5,
            Axis::Slider => 6,
            Axis::Dial => 7,
            Axis::Accelerator => 8,
            Axis::Aileron => 9,
            Axis::Brake => 10,
            Axis::Clutch => 11,
            Axis::Rudder => 12,
            Axis::Steering => 13,
            Axis::Throttle => 14,
            Axis::Wheel => 15,
        }
    }

    /// The HID usage code by which the driver knows this channel.
    pub open spec fn spec_usage(self) -> u32 {
        match self {
            Axis::X => 0x30,
            Axis::Y => 0x31,
            Axis::Z => 0x32,
            Axis::RX => 0x33,
            Axis::RY => 0x34,
            Axis::RZ => 0x35,
            Axis::Slider => 0x36,
            Axis::Dial => 0x37,
            Axis::Accelerator => 0xC4,
            Axis::Aileron => 0xB0,
            Axis::Brake => 0xC5,
            Axis::Clutch => 0xC6,
            Axis::Rudder => 0xBA,
            Axis::Steering => 0xC8,
            Axis::Throttle => 0xBB,
            Axis::Wheel => 0x38,
        }
    }

    /// The display name of this channel.
    pub open spec fn spec_name(self) -> Seq<char> {
        match self {
            Axis::X => "X"@,
            Axis::Y => "Y"@,
            Axis::Z => "Z"@,
            Axis::RX => "RX"@,
            Axis::RY => "RY"@,
            Axis::RZ => "RZ"@,
            Axis::Slider => "Slider"@,
            Axis::Dial => "Dial"@,
            Axis::Accelerator => "Accelerator"@,
            Axis::Aileron => "Aileron"@,
            Axis::Brake => "Brake"@,
            Axis::Clutch => "Clutch"@,
            Axis::Rudder => "Rudder"@,
            Axis::Steering => "Steering"@,
            Axis::Throttle => "Throttle"@,
            Axis::Wheel => "Wheel"@,
        }
    }

    /// Every channel, in the order of the fields of a state snapshot.
    pub fn all() -> (r: Vec<Axis>)
        ensures
            r@ == axis_order(),
            r@.len() == NUM_AXES,
            forall|i: int| 0 <= i < NUM_AXES ==> (#[trigger] r@[i]).spec_offset() == i,
    {
        let r = vec![
            Axis::X,
            Axis::Y,
            Axis::Z,
            Axis::RX,
            Axis::RY,
            Axis::RZ,
            Axis::Slider,
            Axis::Dial,
            Axis::Accelerator,
            Axis::Aileron,
            Axis::Brake,
            Axis::Clutch,
            Axis::Rudder,
            Axis::Steering,
            Axis::Throttle,
            Axis::Wheel,
        ];
        assert(r@ =~= axis_order());
        r
    }

    /// The display name of this channel.
    pub fn name(&self) -> (r: &'static str)
        ensures
            r@ == self.spec_name(),
    {
        match self {
            Axis::X => "X",
            Axis::Y => "Y",
            Axis::Z => "Z",
            Axis::RX => "RX",
            Axis::RY => "RY",
            Axis::RZ => "RZ",
            Axis::Slider => "Slider",
            Axis::Dial => "Dial",
            Axis::Accelerator => "Accelerator",
            Axis::Aileron => "Aileron",
            Axis::Brake => "Brake",
            Axis::Clutch => "Clutch",
            Axis::Rudder => "Rudder",
            Axis::Steering => "Steering",
            Axis::Throttle => "Throttle",
            Axis::Wheel => "Wheel",
        }
    }

    /// The HID usage code by which the driver knows this channel.
    pub fn usage(&self) -> (r: u32)
        ensures
            r == self.spec_usage(),
    {
        match self {
            Axis::X => 0x30,
            Axis::Y => 0x31,
            Axis::Z => 0x32,
            Axis::RX => 0x33,
            Axis::RY => 0x34,
            Axis::RZ => 0x35,
            Axis::Slider => 0x36,
            Axis::Dial => 0x37,
            Axis::Accelerator => 0xC4,
            Axis::Aileron => 0xB0,
            Axis::Brake => 0xC5,
            Axis::Clutch => 0xC6,
            Axis::Rudder => 0xBA,
            Axis::Steering => 0xC8,
            Axis::Throttle => 0xBB,
            Axis::Wheel => 0x38,
        }
    }

    /// The field of a state snapshot that holds this channel.
    pub fn offset(&self) -> (r: usize)
        ensures
            r == self.spec_offset(),
            r < NUM_AXES,
    {
        match self {
            Axis::X => 0,
            Axis::Y => 1,
            Axis::Z => 2,
            Axis::RX => 3,
            Axis::RY => 4,
            Axis::RZ => 5,
            Axis::Slider => 6,
            Axis::Dial => 7,
            Axis::Accelerator => 8,
            Axis::Aileron => 9,
            Axis::Brake => 10,
            Axis::Clutch => 11,
            Axis::Rudder => 12,
            Axis::Steering => 13,
            Axis::Throttle => 14,
            Axis::Wheel => 15,
        }
    }
}

/// The occupancy of a slot as the driver reports it.
#[derive(Clone, Copy, Debug, PartialEq, Eq, Structural, Hash, PartialOrd, Ord)]
pub enum Status {
    /// Owned by nobody.
    Free,
    /// Owned by this process.
    Acquired,
    /// Owned by another process.
    Busy,
    /// The slot does not exist or the driver is down.
    Missing,
    /// The driver does not know.
    Unknown,
}

impl Status {
    /// The driver's code for this status.
    pub open spec fn spec_raw(self) -> u32 {
        match self {
            Status::Acquired => 0,
            Status::Free => 1,
            Status::Busy => 2,
            Status::Missing => 3,
            Status::Unknown => 4,
        }
    }

    /// The status that the driver's code `raw` stands for; `None` for a code it never gives.
    pub fn from_raw(raw: u32) -> (r: Option<Status>)
        ensures
            r is Some <==> raw < 5,
            r matches Some(s) ==> s.spec_raw() == raw,
    {
        match raw {
            0 => Some(Status::Acquired),
            1 => Some(Status::Free),
            2 => Some(Status::Busy),
            3 => Some(Status::Missing),
            4 => Some(Status::Unknown),
            _ => None,
        }
    }

    /// The driver's code for this status.
    pub fn to_raw(self) -> (r: u32)
        ensures
            r == self.spec_raw(),
    {
        match self {
            Status::Acquired => 0,
            Status::Free => 1,
            Status::Busy => 2,
            Status::Missing => 3,
            Status::Unknown => 4,
        }
    }
}

/// Whether bit `b` of `w` is set.
pub open spec fn bit_of(w: u32, b: u32) -> bool {
    (w >> b) & 1u32 == 1u32
}

/// `w` with bit `b` set to `v`.
pub open spec fn with_bit(w: u32, b: u32, v: bool) -> u32 {
    if v {
        w | (1u32 << b)
    } else {
        w & !(1u32 << b)
    }
}

/// Whether button `i` is pressed in the packed words: bit `i % 32` of word `i / 32`.
pub open spec fn button_at(words: Seq<u32>, i: int) -> bool {
    bit_of(words[i / 32], (i % 32) as u32)
}

/// The packed words with button `i` set to `v`.
pub open spec fn with_button(words: Seq<u32>, i: int, v: bool) -> Seq<u32> {
    words.update(i / 32, with_bit(words[i / 32], (i % 32) as u32, v))
}

/// The channels among `axis_order()[..n]` that `wired` marks present, in order.
pub open spec fn wired_axes(wired: Seq<bool>, n: nat) -> Seq<Axis>
    decreases n,
{
    if n == 0 {
        seq![]
    } else if wired[n - 1] {
        wired_axes(wired, (n - 1) as nat).push(axis_order()[n - 1])
    } else {
        wired_axes(wired, (n - 1) as nat)
    }
}

proof fn lemma_with_bit(w: u32, b: u32, v: bool)
    requires
        b < 32,
    ensures
        bit_of(with_bit(w, b, v), b) == v,
        forall|c: u32| c < 32 && c != b ==> bit_of(with_bit(w, b, v), c) == bit_of(w, c),
{
    if v {
        assert(((w | (1u32 << b)) >> b) & 1u32 == 1u32) by (bit_vector)
            requires
                b < 32,
        ;
        assert forall|c: u32| c < 32 && c != b implies ((w | (1u32 << b)) >> c) & 1u32 == (w
            >> c) & 1u32 by {
            assert(c < 32 && c != b && b < 32 ==> ((w | (1u32 << b)) >> c) & 1u32 == (w >> c)
                & 1u32) by (bit_vector);
        }
    } else {
        assert(((w & !(1u32 << b)) >> b) & 1u32 == 0u32) by (bit_vector)
            requires
                b < 32,
        ;
        assert forall|c: u32| c < 32 && c != b implies ((w & !(1u32 << b)) >> c) & 1u32 == (w
            >> c) & 1u32 by {
            assert(c < 32 && c != b && b < 32 ==> ((w & !(1u32 << b)) >> c) & 1u32 == (w >> c)
                & 1u32) by (bit_vector);
        }
    }
}

/// Setting one button leaves it at the value set and every other button as it was, in its own
/// word and in the others.
pub proof fn lemma_button_round_trip(words: Seq<u32>, i: int, v: bool)
    requires
        words.len() == NUM_BUTTON_WORDS,
        0 <= i < NUM_BUTTONS,
    ensures
        with_button(words, i, v).len() == NUM_BUTTON_WORDS,
        button_at(with_button(words, i, v), i) == v,
        forall|j: int|
            0 <= j < NUM_BUTTONS && j != i ==> button_at(with_button(words, i, v), j)
                == button_at(words, j),
{
    lemma_with_bit(words[i / 32], (i % 32) as u32, v);
    assert forall|j: int| 0 <= j < NUM_BUTTONS && j != i implies button_at(
        with_button(words, i, v),
        j,
    ) == button_at(words, j) by {
        if j / 32 == i / 32 {
            assert((j % 32) as u32 != (i % 32) as u32);
        }
    }
}

/// Storing a value `v` of an axis's range in that axis: the axis then reads back `v`, every
/// other axis keeps its value, and the stored value lies in the range, so its offset from the
/// minimum is at most the range's width and, added to the minimum, gives `v` again.
pub proof fn lemma_axis_round_trip(axes: Seq<i32>, axis: Axis, g: AxisRange, v: i32)
    requires
        axes.len() == NUM_AXES,
        g.spec_contains(v),
    ensures
        ({
            let stored = axes.update(axis.spec_offset() as int, v);
            &&& stored.len() == NUM_AXES
            &&& stored[axis.spec_offset() as int] == v
            &&& forall|b: Axis|
                b != axis ==> #[trigger] stored[b.spec_offset() as int] == axes[b.spec_offset() as int]
            &&& g.spec_contains(stored[axis.spec_offset() as int])
            &&& 0 <= stored[axis.spec_offset() as int] - g.spec_min() <= g.spec_max() - g.spec_min()
            &&& g.spec_min() + (stored[axis.spec_offset() as int] - g.spec_min()) == v
        }),
{
    assert forall|b: Axis| b != axis implies b.spec_offset() != axis.spec_offset() by {}
}

/// An inclusive range `[min, max]` of raw axis values, with `min <= max`.
#[derive(Clone, Copy, Debug, PartialEq, Eq, Structural, Hash)]
pub struct AxisRange {
    min: i32,
    max: i32,
}

impl AxisRange {
    #[verifier::type_invariant]
    spec fn inv(&self) -> bool {
        self.min <= self.max
    }

    /// The least value of the range.
    pub closed spec fn spec_min(&self) -> i32 {
        self.min
    }

    /// The greatest value of the range.
    pub closed spec fn spec_max(&self) -> i32 {
        self.max
    }

    /// `v` lies in the range.
    pub open spec fn spec_contains(&self, v: i32) -> bool {
        self.spec_min() <= v <= self.spec_max()
    }

    /// The range `[min, max]`; a minimum above the maximum is an inconsistency, not an empty range.
    pub fn new(min: i32, max: i32) -> (r: Result<AxisRange, AxisRangeError>)
        ensures
            r is Ok <==> min <= max,
            r matches Ok(g) ==> g.spec_min() == min && g.spec_max() == max,
            r matches Err(e) ==> e == AxisRangeError::Invalid,
    {
        if min <= max {
            Ok(AxisRange { min, max })
        } else {
            Err(AxisRangeError::Invalid)
        }
    }

    /// The range from what the driver reported for the minimum and the maximum, `None` where it
    /// reported failure. The minimum is looked at first.
    pub fn from_bounds(min: Option<i32>, max: Option<i32>) -> (r: Result<AxisRange, AxisRangeError>)
        ensures
            min is None ==> r == Err::<AxisRange, _>(AxisRangeError::MinFailure),
            min is Some && max is None ==> r == Err::<AxisRange, _>(AxisRangeError::MaxFailure),
            min is Some && max is Some ==> {
                let lo = min.unwrap();
                let hi = max.unwrap();
                &&& (r is Ok <==> lo <= hi)
                &&& (r matches Ok(g) ==> g.spec_min() == lo && g.spec_max() == hi)
                &&& (r matches Err(e) ==> e == AxisRangeError::Invalid)
            },
    {
        match min {
            None => Err(AxisRangeError::MinFailure),
            Some(lo) => match max {
                None => Err(AxisRangeError::MaxFailure),
                Some(hi) => AxisRange::new(lo, hi),
            },
        }
    }

    /// The least value of the range.
    pub fn min(&self) -> (r: i32)
        ensures
            r == self.spec_min(),
            r <= self.spec_max(),
    {
        proof {
            use_type_invariant(self);
        }
        self.min
    }

    /// The greatest value of the range.
    pub fn max(&self) -> (r: i32)
        ensures
            r == self.spec_max(),
            self.spec_min() <= r,
    {
        proof {
            use_type_invariant(self);
        }
        self.max
    }

    /// Whether `v` lies in the range.
    pub fn contains(&self, v: i32) -> (r: bool)
        ensures
            r == self.spec_contains(v),
    {
        self.min <= v && v <= self.max
    }

    /// The width `max - min` of the range.
    pub fn span(&self) -> (r: u32)
        ensures
            r == self.spec_max() - self.spec_min(),
    {
        proof {
            use_type_invariant(self);
        }
        (self.max as i64 - self.min as i64) as u32
    }

    /// The distance `v - min` of a value of the range from its minimum.
    pub fn offset_of(&self, v: i32) -> (r: u32)
        requires
            self.spec_contains(v),
        ensures
            r == v - self.spec_min(),
            r <= self.spec_max() - self.spec_min(),
    {
        (v as i64 - self.min as i64) as u32
    }
}

/// The packed state of a device that `apply` hands to the driver: one signed value per axis
/// channel, 128 button flags in four 32-bit words, tagged with the slot it belongs to.
#[derive(Debug)]
pub struct JoystickState {
    device: DeviceId,
    axes: Vec<i32>,
    buttons: Vec<u32>,
}

impl JoystickState {
    /// The fixed shape of the record.
    pub open spec fn wf(&self) -> bool {
        self.spec_axes().len() == NUM_AXES && self.spec_buttons().len() == NUM_BUTTON_WORDS
    }

    /// The slot the record belongs to.
    pub closed spec fn spec_device(&self) -> DeviceId {
        self.device
    }

    /// The axis values, indexed by `Axis::spec_offset`.
    pub closed spec fn spec_axes(&self) -> Seq<i32> {
        self.axes@
    }

    /// The packed button words.
    pub closed spec fn spec_buttons(&self) -> Seq<u32> {
        self.buttons@
    }

    /// A record for `device` with every axis at zero and no button pressed.
    pub fn new(device: DeviceId) -> (r: JoystickState)
        ensures
            r.wf(),
            r.spec_device() == device,
            r.spec_axes() == Seq::new(NUM_AXES as nat, |i: int| 0i32),
            r.spec_buttons() == Seq::new(NUM_BUTTON_WORDS as nat, |i: int| 0u32),
    {
        let axes: Vec<i32> = vec![0i32; NUM_AXES];
        let buttons: Vec<u32> = vec![0u32; NUM_BUTTON_WORDS];
        let r = JoystickState { device, axes, buttons };
        assert(r.axes@ =~= Seq::new(NUM_AXES as nat, |i: int| 0i32));
        assert(r.buttons@ =~= Seq::new(NUM_BUTTON_WORDS as nat, |i: int| 0u32));
        r
    }

    /// The slot the record belongs to.
    pub fn device(&self) -> (r: DeviceId)
        ensures
            r == self.spec_device(),
    {
        self.device
    }

    /// The value of one axis.
    pub fn axis(&self, axis: Axis) -> (r: i32)
        requires
            self.wf(),
        ensures
            r == self.spec_axes()[axis.spec_offset() as int],
    {
        self.axes[axis.offset()]
    }

    /// Packed button word `w`: buttons `32 * w` to `32 * w + 31`, lowest bit first.
    pub fn button_word(&self, w: usize) -> (r: u32)
        requires
            self.wf(),
            w < NUM_BUTTON_WORDS,
        ensures
            r == self.spec_buttons()[w as int],
    {
        self.buttons[w]
    }
}

/// A device slot that may be queried and acquired; many may name the same slot.
#[derive(Debug)]
pub struct DeviceSlot {
    id: DeviceId,
    lock: VJoyLock,
}

impl DeviceSlot {
    /// The slot's identity.
    pub closed spec fn spec_id(&self) -> DeviceId {
        self.id
    }

    /// A handle on slot `id`, holding a token of the current lineage.
    pub fn new(id: DeviceId, lock: VJoyLock) -> (r: DeviceSlot)
        ensures
            r.spec_id() == id,
    {
        DeviceSlot { id, lock }
    }

    /// The result of an attempt to acquire the slot, where `acquired` is the driver's answer.
    /// On success the handle owns a zeroed state record tagged with the slot; on refusal the
    /// handle comes back as it was and no record is made.
    pub fn acquire(self, acquired: bool) -> (r: Result<OwnedDeviceSlot, DeviceSlot>)
        ensures
            r is Ok <==> acquired,
            r matches Ok(o) ==> o.wf() && o.spec_id() == self.spec_id()
                && o.spec_state().spec_device() == self.spec_id() && o.spec_state().spec_axes()
                == Seq::new(NUM_AXES as nat, |i: int| 0i32) && o.spec_state().spec_buttons()
                == Seq::new(NUM_BUTTON_WORDS as nat, |i: int| 0u32),
            r matches Err(s) ==> s == self,
    {
        if acquired {
            Ok(OwnedDeviceSlot::new(self))
        } else {
            Err(self)
        }
    }

    /// The channels that the slot has wired up, in order, where `wired[i]` is the driver's answer
    /// for `Axis::all()[i]`. The answer comes from the range query for the minimum, since the
    /// driver's own existence query reports absent axes as present.
    pub fn axes(&self, wired: &Vec<bool>) -> (r: Vec<Axis>)
        requires
            wired@.len() == NUM_AXES,
        ensures
            r@ == wired_axes(wired@, NUM_AXES as nat),
    {
        let all = Axis::all();
        let mut r: Vec<Axis> = Vec::new();
        let mut i: usize = 0;
        while i < NUM_AXES
            invariant
                i <= NUM_AXES,
                all@ == axis_order(),
                wired@.len() == NUM_AXES,
                r@ == wired_axes(wired@, i as nat),
            decreases NUM_AXES - i,
        {
            if wired[i] {
                r.push(all[i]);
            }
            i = i + 1;
        }
        r
    }

    /// The slot's identity.
    pub fn id(&self) -> (r: DeviceId)
        ensures
            r == self.spec_id(),
    {
        self.id
    }

    /// The slot's 0-based index.
    pub fn index(&self) -> (r: usize)
        ensures
            r + 1 == self.spec_id().spec_raw(),
    {
        self.id.to_index()
    }

    /// A handle on the interface, holding one more token of the lineage.
    pub fn interface(&self, gate: &mut LockGate) -> (r: Interface)
        requires
            old(gate).is_open(),
            old(gate).live() < usize::MAX,
        ensures
            final(gate).live() == old(gate).live() + 1,
    {
        Interface::from_lock(gate.share(&self.lock))
    }

    /// The button count from the driver's answer `raw`, where a negative answer reports failure.
    pub fn num_buttons(&self, raw: i32) -> (r: Result<usize, NumButtonsError>)
        ensures
            r is Ok <==> raw >= 0,
            r matches Ok(n) ==> n == raw,
            r matches Err(e) ==> e == NumButtonsError::Failed,
    {
        if raw >= 0 {
            Ok(raw as usize)
        } else {
            Err(NumButtonsError::Failed)
        }
    }

    /// The continuous POV count from the driver's answer `raw`, where a negative answer reports
    /// failure.
    pub fn num_cont_pov(&self, raw: i32) -> (r: Result<usize, NumContPovError>)
        ensures
            r is Ok <==> raw >= 0,
            r matches Ok(n) ==> n == raw,
            r matches Err(e) ==> e == NumContPovError::Failed,
    {
        if raw >= 0 {
            Ok(raw as usize)
        } else {
            Err(NumContPovError::Failed)
        }
    }

    /// The discrete POV count from the driver's answer `raw`, where a negative answer reports
    /// failure.
    pub fn num_disc_pov(&self, raw: i32) -> (r: Result<usize, NumDiscPovError>)
        ensures
            r is Ok <==> raw >= 0,
            r matches Ok(n) ==> n == raw,
            r matches Err(e) ==> e == NumDiscPovError::Failed,
    {
        if raw >= 0 {
            Ok(raw as usize)
        } else {
            Err(NumDiscPovError::Failed)
        }
    }

    /// The token the handle holds.
    pub fn lock(&self) -> (r: &VJoyLock) {
        &self.lock
    }

    /// Consumes the handle, yielding its token for `LockGate::close`.
    pub fn into_lock(self) -> (r: VJoyLock) {
        self.lock
    }
}

/// A slot this process owns exclusively, with the state record that `apply` pushes.
#[derive(Debug)]
pub struct OwnedDeviceSlot {
    slot: DeviceSlot,
    state: JoystickState,
}

impl OwnedDeviceSlot {
    /// The record has its shape and is tagged with the owned slot.
    pub open spec fn wf(&self) -> bool {
        self.spec_state().wf() && self.spec_state().spec_device() == self.spec_id()
    }

    /// The owned slot's identity.
    pub closed spec fn spec_id(&self) -> DeviceId {
        self.slot.spec_id()
    }

    /// The state record.
    pub closed spec fn spec_state(&self) -> JoystickState {
        self.state
    }

    fn new(slot: DeviceSlot) -> (r: OwnedDeviceSlot)
        ensures
            r.wf(),
            r.spec_id() == slot.spec_id(),
            r.spec_state().spec_axes() == Seq::new(NUM_AXES as nat, |i: int| 0i32),
            r.spec_state().spec_buttons() == Seq::new(NUM_BUTTON_WORDS as nat, |i: int| 0u32),
    {
        let state = JoystickState::new(slot.id);
        OwnedDeviceSlot { slot, state }
    }

    /// The owned slot, for queries.
    pub fn slot(&self) -> (r: &DeviceSlot)
        ensures
            r.spec_id() == self.spec_id(),
    {
        &self.slot
    }

    /// The owned slot's identity.
    pub fn id(&self) -> (r: DeviceId)
        ensures
            r == self.spec_id(),
    {
        self.slot.id
    }

    /// The state record, as `apply` hands it to the driver in one call.
    pub fn state(&self) -> (r: &JoystickState)
        ensures
            *r == self.spec_state(),
    {
        &self.state
    }

    /// The stored raw value of one axis.
    pub fn get_axis_raw(&self, axis: Axis) -> (r: i32)
        requires
            self.wf(),
        ensures
            r == self.spec_state().spec_axes()[axis.spec_offset() as int],
    {
        self.state.axis(axis)
    }

    /// The stored value of one axis as its offset from the range's minimum and the range's
    /// width; their quotient is the normalized value. `range` is what the driver reported.
    pub fn get_axis_offset(&self, axis: Axis, range: Result<AxisRange, AxisRangeError>) -> (r: Result<(u32, u32), GetAxisError>)
        requires
            self.wf(),
        ensures
            range matches Err(e) ==> r == Err::<(u32, u32), _>(GetAxisError::GetRange(e)),
            range matches Ok(g) ==> {
                let v = self.spec_state().spec_axes()[axis.spec_offset() as int];
                &&& (r is Ok <==> g.spec_contains(v))
                &&& (r matches Ok(p) ==> p.0 == v - g.spec_min() && p.1 == g.spec_max() - g.spec_min())
                &&& (r matches Err(e) ==> e == GetAxisError::Value)
            },
    {
        match range {
            Err(e) => Err(GetAxisError::GetRange(e)),
            Ok(g) => {
                let v = self.get_axis_raw(axis);
                if g.contains(v) {
                    Ok((g.offset_of(v), g.span()))
                } else {
                    Err(GetAxisError::Value)
                }
            },
        }
    }

    fn set_axis(&mut self, axis: Axis, value: i32)
        requires
            old(self).wf(),
        ensures
            final(self).wf(),
            final(self).spec_id() == old(self).spec_id(),
            final(self).spec_state().spec_axes() == old(self).spec_state().spec_axes().update(
                axis.spec_offset() as int,
                value,
            ),
            final(self).spec_state().spec_buttons() == old(self).spec_state().spec_buttons(),
    {
        let k = axis.offset();
        self.state.axes.set(k, value);
    }

    /// Stores a raw axis value, which must lie in `range`, what the driver reported for the axis.
    /// Nothing is stored on failure.
    pub fn set_axis_raw(&mut self, axis: Axis, range: Result<AxisRange, AxisRangeError>, value: i32) -> (r: Result<(), SetAxisError>)
        requires
            old(self).wf(),
        ensures
            final(self).wf(),
            final(self).spec_id() == old(self).spec_id(),
            final(self).spec_state().spec_buttons() == old(self).spec_state().spec_buttons(),
            range matches Err(e) ==> r == Err::<(), _>(SetAxisError::GetRange(e)),
            range matches Ok(g) ==> (r is Ok <==> g.spec_contains(value)) && (r matches Err(e) ==> e
                == SetAxisError::Value),
            r is Ok ==> final(self).spec_state().spec_axes() == old(self).spec_state().spec_axes().update(
                axis.spec_offset() as int,
                value,
            ),
            r is Err ==> final(self).spec_state().spec_axes() == old(self).spec_state().spec_axes(),
    {
        match range {
            Err(e) => Err(SetAxisError::GetRange(e)),
            Ok(g) => {
                if g.contains(value) {
                    self.set_axis(axis, value);
                    Ok(())
                } else {
                    Err(SetAxisError::Value)
                }
            },
        }
    }

    /// Whether button `index` is pressed; `None` for an index past the last button.
    pub fn get_button(&self, index: usize) -> (r: Option<bool>)
        requires
            self.wf(),
        ensures
            r is Some <==> index < NUM_BUTTONS,
            r matches Some(b) ==> b == button_at(self.spec_state().spec_buttons(), index as int),
    {
        if index < NUM_BUTTONS {
            let word = self.state.buttons[index / 32];
            let bit = (index % 32) as u32;
            Some((word >> bit) & 1u32 == 1u32)
        } else {
            None
        }
    }

    /// Presses or releases button `index`; an index past the last button changes nothing.
    pub fn set_button(&mut self, index: usize, value: bool) -> (r: Result<(), SetButtonError>)
        requires
            old(self).wf(),
        ensures
            final(self).wf(),
            final(self).spec_id() == old(self).spec_id(),
            final(self).spec_state().spec_axes() == old(self).spec_state().spec_axes(),
            r is Ok <==> index < NUM_BUTTONS,
            r matches Err(e) ==> e == SetButtonError::NoSuchButton,
            r is Ok ==> final(self).spec_state().spec_buttons() == with_button(
                old(self).spec_state().spec_buttons(),
                index as int,
                value,
            ),
            r is Err ==> final(self).spec_state().spec_buttons() == old(self).spec_state().spec_buttons(),
    {
        if index < NUM_BUTTONS {
            let w = index / 32;
            let bit = (index % 32) as u32;
            let word = self.state.buttons[w];
            let mask = 1u32 << bit;
            let updated = if value {
                word | mask
            } else {
                word & !mask
            };
            self.state.buttons.set(w, updated);
            Ok(())
        } else {
            Err(SetButtonError::NoSuchButton)
        }
    }

    /// Gives up ownership: returns the slot, unacquired, for the driver to be told.
    pub fn relinquish(self) -> (r: DeviceSlot)
        ensures
            r.spec_id() == self.spec_id(),
    {
        self.slot
    }
}

/// The driver refused the state snapshot.
#[derive(Clone, Copy, Debug, PartialEq, Eq, Structural, Hash, PartialOrd, Ord)]
pub enum ApplyError {
    /// The driver rejected the update.
    Failed,
}

/// The driver could not report a usable range for an axis.
#[derive(Clone, Copy, Debug, PartialEq, Eq, Structural, Hash, PartialOrd, Ord)]
pub enum AxisRangeError {
    /// The driver reported a minimum above the maximum.
    Invalid,
    /// The driver failed to report the maximum.
    MaxFailure,
    /// The driver failed to report the minimum.
    MinFailure,
}

/// An index too large for a `DeviceId`.
#[derive(Clone, Copy, Debug, PartialEq, Eq, Structural, Hash, PartialOrd, Ord)]
pub enum DeviceIdFromIndexError {
    /// The slot number `index + 1` does not fit in a byte.
    TooLarge,
}

/// A slot number that names no slot.
#[derive(Clone, Copy, Debug, PartialEq, Eq, Structural, Hash, PartialOrd, Ord)]
pub enum DeviceIdFromRawError {
    /// Slot numbers start at 1.
    Zero,
}

/// An axis value could not be read.
#[derive(Clone, Copy, Debug, PartialEq, Eq, Structural, Hash, PartialOrd, Ord)]
pub enum GetAxisError {
    /// The axis range was not available.
    GetRange(AxisRangeError),
    /// The stored value lies outside the axis range.
    Value,
}

/// The driver failed to report a button count.
#[derive(Clone, Copy, Debug, PartialEq, Eq, Structural, Hash, PartialOrd, Ord)]
pub enum NumButtonsError {
    /// The driver reported failure.
    Failed,
}

/// The driver failed to report a continuous POV count.
#[derive(Clone, Copy, Debug, PartialEq, Eq, Structural, Hash, PartialOrd, Ord)]
pub enum NumContPovError {
    /// The driver reported failure.
    Failed,
}

/// The driver failed to report a discrete POV count.
#[derive(Clone, Copy, Debug, PartialEq, Eq, Structural, Hash, PartialOrd, Ord)]
pub enum NumDiscPovError {
    /// The driver reported failure.
    Failed,
}

/// An axis value could not be written.
#[derive(Clone, Copy, Debug, PartialEq, Eq, Structural, Hash, PartialOrd, Ord)]
pub enum SetAxisError {
    /// The axis range was not available.
    GetRange(AxisRangeError),
    /// The value lies outside the axis range.
    Value,
}

/// A button could not be written.
#[derive(Clone, Copy, Debug, PartialEq, Eq, Structural, Hash, PartialOrd, Ord)]
pub enum SetButtonError {
    /// The index names none of the buttons.
    NoSuchButton,
}

/// A value that names no slot.
#[derive(Clone, Copy, Debug, PartialEq, Eq, Structural, Hash, PartialOrd, Ord)]
pub enum TryIntoDeviceIdError {
    /// As an index.
    FromIndex(DeviceIdFromIndexError),
    /// As a slot number.
    FromRaw(DeviceIdFromRawError),
}

impl From<AxisRangeError> for GetAxisError {
    fn from(e: AxisRangeError) -> GetAxisError {
        GetAxisError::GetRange(e)
    }
}

impl vstd::std_specs::convert::FromSpecImpl<AxisRangeError> for GetAxisError {
    open spec fn obeys_from_spec() -> bool {
        true
    }

    open spec fn from_spec(v: AxisRangeError) -> GetAxisError {
        GetAxisError::GetRange(v)
    }
}

impl From<AxisRangeError> for SetAxisError {
    fn from(e: AxisRangeError) -> SetAxisError {
        SetAxisError::GetRange(e)
    }
}

impl vstd::std_specs::convert::FromSpecImpl<AxisRangeError> for SetAxisError {
    open spec fn obeys_from_spec() -> bool {
        true
    }

    open spec fn from_spec(v: AxisRangeError) -> SetAxisError {
        SetAxisError::GetRange(v)
    }
}

impl From<DeviceIdFromIndexError> for TryIntoDeviceIdError {
    fn from(e: DeviceIdFromIndexError) -> TryIntoDeviceIdError {
        TryIntoDeviceIdError::FromIndex(e)
    }
}

impl vstd::std_specs::convert::FromSpecImpl<DeviceIdFromIndexError> for TryIntoDeviceIdError {
    open spec fn obeys_from_spec() -> bool {
        true
    }

    open spec fn from_spec(v: DeviceIdFromIndexError) -> TryIntoDeviceIdError {
        TryIntoDeviceIdError::FromIndex(v)
    }
}

impl From<DeviceIdFromRawError> for TryIntoDeviceIdError {
    fn from(e: DeviceIdFromRawError) -> TryIntoDeviceIdError {
        TryIntoDeviceIdError::FromRaw(e)
    }
}

impl vstd::std_specs::convert::FromSpecImpl<DeviceIdFromRawError> for TryIntoDeviceIdError {
    open spec fn obeys_from_spec() -> bool {
        true
    }

    open spec fn from_spec(v: DeviceIdFromRawError) -> TryIntoDeviceIdError {
        TryIntoDeviceIdError::FromRaw(v)
    }
}

} // verus!
