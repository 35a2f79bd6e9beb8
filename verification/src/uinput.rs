//! The virtual touchscreen: its capabilities, the slot state that it holds
//! and the input events that bring it from one state to the next.
//!
//! Writing the events to `/dev/uinput` is left to the caller; every
//! operation is split into the events it must write and the state it
//! records once they are written.
use vstd::prelude::*;

use crate::bounds::{clamp_i32, clamp_int};
use crate::codes::{
    ABS_MT_POSITION_X_CODE, ABS_MT_POSITION_Y_CODE, ABS_MT_SLOT_CODE, ABS_MT_TOUCH_MAJOR_CODE,
    ABS_MT_TRACKING_ID_CODE, ABS_MT_WIDTH_MAJOR_CODE, BTN_TOOL_FINGER, BTN_TOUCH, EV_ABS, EV_KEY,
    EV_SYN, SYN_REPORT_CODE,
};
use crate::device::{TouchDevice, TouchDeviceView};
use crate::text::{int_decimal, push_nat_decimal};

verus! {

/// State of a slot that can be sent to the virtual touchscreen.
///
/// This struct does not contain multiplexing logic. It only
/// describes the state that should be written to the virtual device.
#[derive(Clone, Copy, Debug, PartialEq, Eq, Structural)]
pub struct OutputSlot {
    pub active: bool,
    pub tracking_id: Option<i32>,
    pub x: i32,
    pub y: i32,
    pub touch_major: i32,
    pub width_major: i32,
}

impl OutputSlot {
    /// The state of a released slot.
    pub open spec fn released() -> OutputSlot {
        OutputSlot { active: false, tracking_id: None, x: 0, y: 0, touch_major: 0, width_major: 0 }
    }
}

impl Default for OutputSlot {
    fn default() -> (r: Self)
        ensures
            r == OutputSlot::released(),
    {
        OutputSlot { active: false, tracking_id: None, x: 0, y: 0, touch_major: 0, width_major: 0 }
    }
}

/// Error related to the `uinput` device.
#[derive(Debug)]
pub enum UInputError {
    Io(std::io::Error),
    InvalidSlot { slot: usize, slot_count: usize },
    ActiveSlotWithoutTrackingId { slot: usize },
}

impl UInputError {
    /// The message that describes the error to a user.
    pub fn message(&self) -> (s: String)
        ensures
            !(self is Io) ==> s@ == uinput_error_text(*self),
            self matches UInputError::Io(e) ==> vstd::string::to_string_from_display_ensures::<std::io::Error>(&e, s),
    {
        match self {
            UInputError::Io(error) => error.to_string(),
            UInputError::InvalidSlot { slot, slot_count } => {
                let mut s = String::from_str("slot ");
                push_nat_decimal(&mut s, *slot as u64);
                s.append(" is invalid; device has ");
                push_nat_decimal(&mut s, *slot_count as u64);
                s.append(" slots");
                s
            },
            UInputError::ActiveSlotWithoutTrackingId { slot } => {
                let mut s = String::from_str("slot ");
                push_nat_decimal(&mut s, *slot as u64);
                s.append(" is active without tracking_id");
                s
            },
        }
    }
}

/// The message of an error other than an I/O one.
pub open spec fn uinput_error_text(e: UInputError) -> Seq<char> {
    match e {
        UInputError::Io(_) => Seq::empty(),
        UInputError::InvalidSlot { slot, slot_count } => "slot "@ + int_decimal(slot as int)
            + " is invalid; device has "@ + int_decimal(slot_count as int) + " slots"@,
        UInputError::ActiveSlotWithoutTrackingId { slot } => "slot "@ + int_decimal(slot as int)
            + " is active without tracking_id"@,
    }
}

impl From<std::io::Error> for UInputError {
    fn from(error: std::io::Error) -> (r: Self)
        ensures
            r == UInputError::Io(error),
    {
        UInputError::Io(error)
    }
}

impl vstd::std_specs::convert::FromSpecImpl<std::io::Error> for UInputError {
    open spec fn obeys_from_spec() -> bool {
        true
    }

    open spec fn from_spec(v: std::io::Error) -> UInputError {
        UInputError::Io(v)
    }
}

/// One input event, as written to the device: type, code and value.
#[derive(Clone, Copy, Debug, PartialEq, Eq, Structural)]
pub struct EventRecord {
    pub kind: u16,
    pub code: u16,
    pub value: i32,
}

/// `r` carries the events, or the error, that `expected` holds.
pub open spec fn gives(r: Result<Vec<EventRecord>, UInputError>, expected: Result<Seq<EventRecord>, UInputError>) -> bool {
    match (r, expected) {
        (Ok(events), Ok(x)) => events@ == x,
        (Err(e), Err(x)) => e == x,
        _ => false,
    }
}

/// An `EV_ABS` event.
pub open spec fn abs_event(code: u16, value: i32) -> EventRecord {
    EventRecord { kind: EV_ABS, code, value }
}

/// An `EV_KEY` event: value 1 for pressed, 0 for released.
pub open spec fn key_event(code: u16, pressed: bool) -> EventRecord {
    EventRecord { kind: EV_KEY, code, value: if pressed { 1 } else { 0 } }
}

/// The `SYN_REPORT` event that closes a frame.
pub open spec fn syn_report() -> EventRecord {
    EventRecord { kind: EV_SYN, code: SYN_REPORT_CODE, value: 0 }
}

fn absolute(code: u16, value: i32) -> (e: EventRecord)
    ensures
        e == abs_event(code, value),
{
    EventRecord { kind: EV_ABS, code, value }
}

/// `input_linux::KeyState::pressed`: by its source, the state whose value
/// is `pressed as i32`, 1 when pressed and 0 when released.
#[verifier::external_body]
fn key_state_value(pressed: bool) -> (value: i32)
    ensures
        value == (if pressed { 1i32 } else { 0i32 }),
{
    input_linux::KeyState::pressed(pressed).value
}

fn key(code: u16, pressed: bool) -> (e: EventRecord)
    ensures
        e == key_event(code, pressed),
{
    EventRecord { kind: EV_KEY, code, value: key_state_value(pressed) }
}

/// The setup of one absolute axis of the virtual device.
#[derive(Clone, Copy, Debug, PartialEq, Eq, Structural)]
pub struct AxisSetup {
    pub axis: u16,
    pub value: i32,
    pub minimum: i32,
    pub maximum: i32,
    pub fuzz: i32,
    pub flat: i32,
    pub resolution: i32,
}

/// An axis set up with the given initial value and range, without fuzz,
/// flat or resolution.
pub open spec fn axis_setup(axis: u16, value: i32, minimum: i32, maximum: i32) -> AxisSetup {
    AxisSetup { axis, value, minimum, maximum, fuzz: 0, flat: 0, resolution: 0 }
}

fn setup(axis: u16, value: i32, minimum: i32, maximum: i32) -> (s: AxisSetup)
    ensures
        s == axis_setup(axis, value, minimum, maximum),
{
    AxisSetup { axis, value, minimum, maximum, fuzz: 0, flat: 0, resolution: 0 }
}

/// The absolute axes of the virtual touchscreen for a physical one: one
/// more slot than the physical device (the last is the virtual one), the
/// same tracking id and position ranges, and the contact dimensions that
/// the physical device has.
pub open spec fn virtual_axes(d: TouchDeviceView) -> Seq<AxisSetup> {
    let base = seq![
        axis_setup(ABS_MT_SLOT_CODE, d.slot_range.min, d.slot_range.min, d.slot_count() as i32),
        axis_setup(ABS_MT_TRACKING_ID_CODE, -1i32, d.tracking_id_range.min, d.tracking_id_range.max),
        axis_setup(ABS_MT_POSITION_X_CODE, d.x_range.min, d.x_range.min, d.x_range.max),
        axis_setup(ABS_MT_POSITION_Y_CODE, d.y_range.min, d.y_range.min, d.y_range.max),
    ];
    let with_touch = match d.touch_major_range {
        Some(r) => base.push(axis_setup(ABS_MT_TOUCH_MAJOR_CODE, r.min, r.min, r.max)),
        None => base,
    };
    match d.width_major_range {
        Some(r) => with_touch.push(axis_setup(ABS_MT_WIDTH_MAJOR_CODE, r.min, r.min, r.max)),
        None => with_touch,
    }
}

/// Absolute axes to enable and set up on the virtual touchscreen, in order.
pub fn virtual_axis_setups(device: &TouchDevice) -> (axes: Vec<AxisSetup>)
    ensures
        axes@ == virtual_axes(device@),
{
    let slot_range = device.slot_range();
    let tracking_range = device.tracking_id_range();
    let x_range = device.x_range();
    let y_range = device.y_range();
    let physical_slot_count = device.slot_count();
    let mut axes: Vec<AxisSetup> = Vec::new();
    axes.push(setup(ABS_MT_SLOT_CODE, slot_range.min, slot_range.min, physical_slot_count as i32));
    axes.push(setup(ABS_MT_TRACKING_ID_CODE, -1, tracking_range.min, tracking_range.max));
    axes.push(setup(ABS_MT_POSITION_X_CODE, x_range.min, x_range.min, x_range.max));
    axes.push(setup(ABS_MT_POSITION_Y_CODE, y_range.min, y_range.min, y_range.max));
    if let Some(range) = device.touch_major_range() {
        axes.push(setup(ABS_MT_TOUCH_MAJOR_CODE, range.min, range.min, range.max));
    }
    if let Some(range) = device.width_major_range() {
        axes.push(setup(ABS_MT_WIDTH_MAJOR_CODE, range.min, range.min, range.max));
    }
    axes
}

/// Bus type of the virtual device (`BUS_VIRTUAL`).
pub const VIRTUAL_BUSTYPE: u16 = 0x06;

/// Vendor id of the virtual device.
pub const VIRTUAL_VENDOR: u16 = 0;

/// Product id of the virtual device.
pub const VIRTUAL_PRODUCT: u16 = 0;

/// Version of the virtual device.
pub const VIRTUAL_VERSION: u16 = 1;

/// Name under which the virtual device is created.
pub fn virtual_device_name() -> (name: &'static str)
    ensures
        name@ == "Input Injector"@,
{
    "Input Injector"
}

/// The state that the virtual touchscreen holds.
pub struct VirtualTouchscreenState {
    physical_slot_count: usize,
    total_slot_count: usize,
    x_min: i32,
    x_max: i32,
    y_min: i32,
    y_max: i32,
    tracking_id_min: i32,
    tracking_id_max: i32,
    touch_major_range: Option<(i32, i32)>,
    width_major_range: Option<(i32, i32)>,
    output_slots: Vec<OutputSlot>,
    btn_touch: bool,
    btn_tool_finger: bool,
}

/// The mathematical content of a [`VirtualTouchscreenState`].
pub struct VirtualTouchscreenView {
    pub physical_slot_count: nat,
    pub x_range: (i32, i32),
    pub y_range: (i32, i32),
    pub tracking_id_range: (i32, i32),
    pub touch_major_range: Option<(i32, i32)>,
    pub width_major_range: Option<(i32, i32)>,
    pub slots: Seq<OutputSlot>,
    pub btn_touch: bool,
    pub btn_tool_finger: bool,
}

impl VirtualTouchscreenView {
    /// The virtual device has one slot more than the physical one and
    /// non-empty position ranges.
    pub open spec fn wf(self) -> bool {
        &&& 1 <= self.physical_slot_count <= 64
        &&& self.slots.len() == self.physical_slot_count + 1
        &&& self.x_range.0 < self.x_range.1
        &&& self.y_range.0 < self.y_range.1
    }

    /// Number of slots of the virtual device.
    pub open spec fn total_slot_count(self) -> nat {
        self.physical_slot_count + 1
    }

    /// The contact dimension ranges, where present, are not reversed.
    pub open spec fn contact_ranges_ordered(self) -> bool {
        &&& (self.touch_major_range matches Some(r) ==> r.0 <= r.1)
        &&& (self.width_major_range matches Some(r) ==> r.0 <= r.1)
    }

    /// Writing `state` into `slot` writes a contact: the slot is one of
    /// the device's and the state is active with a tracking id.
    pub open spec fn writes_contact(self, slot: usize, state: OutputSlot) -> bool {
        slot < self.total_slot_count() && state.active && state.tracking_id is Some
    }

    /// The events that write `state` into `slot`, or the error that
    /// refuses it.
    pub open spec fn slot_update(self, slot: usize, state: OutputSlot) -> Result<Seq<EventRecord>, UInputError> {
        if slot >= self.total_slot_count() {
            Err(UInputError::InvalidSlot { slot, slot_count: self.total_slot_count() as usize })
        } else if !state.active {
            Ok(seq![abs_event(ABS_MT_SLOT_CODE, slot as i32), abs_event(ABS_MT_TRACKING_ID_CODE, -1i32)])
        } else {
            match state.tracking_id {
                None => Err(UInputError::ActiveSlotWithoutTrackingId { slot }),
                Some(id) => {
                    let base = seq![
                        abs_event(ABS_MT_SLOT_CODE, slot as i32),
                        abs_event(ABS_MT_TRACKING_ID_CODE, id),
                        abs_event(ABS_MT_POSITION_X_CODE, clamp_int(state.x as int, self.x_range.0 as int, self.x_range.1 as int) as i32),
                        abs_event(ABS_MT_POSITION_Y_CODE, clamp_int(state.y as int, self.y_range.0 as int, self.y_range.1 as int) as i32),
                    ];
                    let with_touch = match self.touch_major_range {
                        Some(r) => base.push(
                            abs_event(ABS_MT_TOUCH_MAJOR_CODE, clamp_int(state.touch_major as int, r.0 as int, r.1 as int) as i32),
                        ),
                        None => base,
                    };
                    Ok(
                        match self.width_major_range {
                            Some(r) => with_touch.push(
                                abs_event(ABS_MT_WIDTH_MAJOR_CODE, clamp_int(state.width_major as int, r.0 as int, r.1 as int) as i32),
                            ),
                            None => with_touch,
                        },
                    )
                },
            }
        }
    }

    /// What the slot holds once `state` is written to it.
    pub open spec fn recorded(state: OutputSlot) -> OutputSlot {
        if state.active {
            state
        } else {
            OutputSlot::released()
        }
    }

    /// Step `k` of writing a complete frame: the buttons first (step 0),
    /// then each slot in order (step `i + 1` writes slot `i`), and a single
    /// `SYN_REPORT` last (step `slots.len() + 1`).
    pub open spec fn frame_step(self, touch_pressed: bool, slots: Seq<OutputSlot>, k: int) -> Result<
        Seq<EventRecord>,
        UInputError,
    > {
        if k == 0 {
            Ok(self.touch_state_events(touch_pressed))
        } else if k <= slots.len() {
            self.slot_update((k - 1) as usize, slots[k - 1])
        } else {
            Ok(seq![syn_report()])
        }
    }

    /// The state once step `k` of a frame is written.
    pub open spec fn after_frame_step(self, touch_pressed: bool, slots: Seq<OutputSlot>, k: int) -> VirtualTouchscreenView {
        if k == 0 {
            VirtualTouchscreenView { btn_touch: touch_pressed, btn_tool_finger: touch_pressed, ..self }
        } else if k <= slots.len() {
            VirtualTouchscreenView {
                slots: self.slots.update(k - 1, VirtualTouchscreenView::recorded(slots[k - 1])),
                ..self
            }
        } else {
            self
        }
    }

    /// Writing slot `k - 1` at step `k` writes a contact.
    pub open spec fn frame_step_writes_contact(self, slots: Seq<OutputSlot>, k: int) -> bool {
        1 <= k <= slots.len() && self.writes_contact((k - 1) as usize, slots[k - 1])
    }

    /// The state once steps `k` onward of a frame are written.
    pub open spec fn after_frame_from(self, touch_pressed: bool, slots: Seq<OutputSlot>, k: int) -> VirtualTouchscreenView
        decreases slots.len() + 2 - k,
    {
        if k < 0 || k >= slots.len() + 2 {
            self
        } else {
            self.after_frame_step(touch_pressed, slots, k).after_frame_from(touch_pressed, slots, k + 1)
        }
    }

    /// The state once a whole frame is written.
    pub open spec fn after_frame(self, touch_pressed: bool, slots: Seq<OutputSlot>) -> VirtualTouchscreenView {
        self.after_frame_from(touch_pressed, slots, 0)
    }

    /// The events of a frame from step `k` on, or the error of its first
    /// refused step.
    pub open spec fn frame_events_from(self, touch_pressed: bool, slots: Seq<OutputSlot>, k: int) -> Result<
        Seq<EventRecord>,
        UInputError,
    >
        decreases slots.len() + 2 - k,
    {
        if k < 0 || k >= slots.len() + 2 {
            Ok(Seq::empty())
        } else {
            match self.frame_step(touch_pressed, slots, k) {
                Err(e) => Err(e),
                Ok(events) => match self.frame_events_from(touch_pressed, slots, k + 1) {
                    Err(e) => Err(e),
                    Ok(rest) => Ok(events + rest),
                },
            }
        }
    }

    /// The whole event sequence of a frame, or the error of its first
    /// refused step.
    pub open spec fn frame_events(self, touch_pressed: bool, slots: Seq<OutputSlot>) -> Result<
        Seq<EventRecord>,
        UInputError,
    > {
        self.frame_events_from(touch_pressed, slots, 0)
    }

    /// The events that bring the buttons to `pressed`.
    pub open spec fn touch_state_events(self, pressed: bool) -> Seq<EventRecord> {
        if pressed == self.btn_touch {
            Seq::empty()
        } else {
            seq![key_event(BTN_TOOL_FINGER, pressed), key_event(BTN_TOUCH, pressed)]
        }
    }
}

/// The virtual touchscreen that a physical one gets, before any event.
pub open spec fn initial_virtual_view(d: TouchDeviceView) -> VirtualTouchscreenView {
    VirtualTouchscreenView {
        physical_slot_count: d.slot_count() as nat,
        x_range: (d.x_range.min, d.x_range.max),
        y_range: (d.y_range.min, d.y_range.max),
        tracking_id_range: (d.tracking_id_range.min, d.tracking_id_range.max),
        touch_major_range: match d.touch_major_range {
            Some(r) => Some((r.min, r.max)),
            None => None,
        },
        width_major_range: match d.width_major_range {
            Some(r) => Some((r.min, r.max)),
            None => None,
        },
        slots: Seq::new((d.slot_count() + 1) as nat, |i: int| OutputSlot::released()),
        btn_touch: false,
        btn_tool_finger: false,
    }
}

impl View for VirtualTouchscreenState {
    type V = VirtualTouchscreenView;

    closed spec fn view(&self) -> VirtualTouchscreenView {
        VirtualTouchscreenView {
            physical_slot_count: self.physical_slot_count as nat,
            x_range: (self.x_min, self.x_max),
            y_range: (self.y_min, self.y_max),
            tracking_id_range: (self.tracking_id_min, self.tracking_id_max),
            touch_major_range: self.touch_major_range,
            width_major_range: self.width_major_range,
            slots: self.output_slots@,
            btn_touch: self.btn_touch,
            btn_tool_finger: self.btn_tool_finger,
        }
    }
}

impl VirtualTouchscreenState {
    #[verifier::type_invariant]
    closed spec fn inv(self) -> bool {
        &&& self@.wf()
        &&& self.total_slot_count == self.physical_slot_count + 1
    }

    /// The state of the virtual touchscreen made for `device`: one slot
    /// more than it has, all released, and both buttons up.
    pub fn new(device: &TouchDevice) -> (s: Self)
        ensures
            s@ == initial_virtual_view(device@),
    {
        let physical_slot_count = device.slot_count();
        let total_slot_count = physical_slot_count + 1;
        let x_range = device.x_range();
        let y_range = device.y_range();
        let tracking_range = device.tracking_id_range();
        let touch_major_range = match device.touch_major_range() {
            Some(range) => Some((range.min, range.max)),
            None => None,
        };
        let width_major_range = match device.width_major_range() {
            Some(range) => Some((range.min, range.max)),
            None => None,
        };
        let mut output_slots: Vec<OutputSlot> = Vec::new();
        let mut i: usize = 0;
        while i < total_slot_count
            invariant
                i <= total_slot_count,
                output_slots@ == Seq::new(i as nat, |k: int| OutputSlot::released()),
            decreases total_slot_count - i,
        {
            output_slots.push(OutputSlot::default());
            i = i + 1;
        }
        VirtualTouchscreenState {
            physical_slot_count,
            total_slot_count,
            x_min: x_range.min,
            x_max: x_range.max,
            y_min: y_range.min,
            y_max: y_range.max,
            tracking_id_min: tracking_range.min,
            tracking_id_max: tracking_range.max,
            touch_major_range,
            width_major_range,
            output_slots,
            btn_touch: false,
            btn_tool_finger: false,
        }
    }

    /// Number of physical slots.
    pub fn physical_slot_count(&self) -> (n: usize)
        ensures
            n == self@.physical_slot_count,
            self@.wf(),
    {
        proof {
            use_type_invariant(self);
        }
        self.physical_slot_count
    }

    /// Total number of slots available on the output.
    pub fn total_slot_count(&self) -> (n: usize)
        ensures
            n == self@.total_slot_count(),
            self@.wf(),
    {
        proof {
            use_type_invariant(self);
        }
        self.total_slot_count
    }

    /// Index of the slot reserved for the virtual contact.
    pub fn virtual_slot(&self) -> (n: usize)
        ensures
            n == self@.physical_slot_count,
            self@.wf(),
    {
        proof {
            use_type_invariant(self);
        }
        self.physical_slot_count
    }

    /// X range of the device.
    pub fn x_range(&self) -> (r: (i32, i32))
        ensures
            r == self@.x_range,
            self@.wf(),
    {
        proof {
            use_type_invariant(self);
        }
        (self.x_min, self.x_max)
    }

    /// Y range of the device.
    pub fn y_range(&self) -> (r: (i32, i32))
        ensures
            r == self@.y_range,
            self@.wf(),
    {
        proof {
            use_type_invariant(self);
        }
        (self.y_min, self.y_max)
    }

    /// Tracking ID range.
    pub fn tracking_id_range(&self) -> (r: (i32, i32))
        ensures
            r == self@.tracking_id_range,
            self@.wf(),
    {
        proof {
            use_type_invariant(self);
        }
        (self.tracking_id_min, self.tracking_id_max)
    }

    /// Whether BTN_TOUCH is pressed.
    pub fn touch_pressed(&self) -> (b: bool)
        ensures
            b == self@.btn_touch,
            self@.wf(),
    {
        proof {
            use_type_invariant(self);
        }
        self.btn_touch
    }

    /// Whether the contact dimension ranges, where present, are not
    /// reversed; writing an active slot needs them so.
    pub fn contact_ranges_ordered(&self) -> (b: bool)
        ensures
            b == self@.contact_ranges_ordered(),
    {
        let touch_ok = match self.touch_major_range {
            Some((lo, hi)) => lo <= hi,
            None => true,
        };
        let width_ok = match self.width_major_range {
            Some((lo, hi)) => lo <= hi,
            None => true,
        };
        touch_ok && width_ok
    }

    /// Whether writing `state` into `slot` writes a contact, which needs
    /// the contact dimension ranges to be ordered.
    pub fn writes_contact(&self, slot: usize, state: OutputSlot) -> (b: bool)
        ensures
            b == self@.writes_contact(slot, state),
    {
        slot < self.total_slot_count() && state.active && state.tracking_id.is_some()
    }

    /// Whether step `k` of a frame over `slots` writes a contact.
    pub fn frame_step_writes_contact(&self, slots: &Vec<OutputSlot>, k: usize) -> (b: bool)
        ensures
            b == self@.frame_step_writes_contact(slots@, k as int),
    {
        1 <= k && k <= slots.len() && self.writes_contact(k - 1, slots[k - 1])
    }

    /// Validates the slot index.
    fn validate_slot(&self, slot: usize) -> (r: Result<(), UInputError>)
        ensures
            r is Ok <==> slot < self@.total_slot_count(),
            r is Err ==> r == Err::<(), UInputError>(
                UInputError::InvalidSlot { slot, slot_count: self@.total_slot_count() as usize },
            ),
    {
        proof {
            use_type_invariant(self);
        }
        if slot >= self.total_slot_count {
            return Err(UInputError::InvalidSlot { slot, slot_count: self.total_slot_count });
        }
        Ok(())
    }

    /// The events that write `state` into `slot` (without `SYN_REPORT`).
    ///
    /// An inactive state releases the slot. Positions and contact
    /// dimensions are clamped to the device's ranges.
    pub fn slot_events(&self, slot: usize, state: OutputSlot) -> (r: Result<Vec<EventRecord>, UInputError>)
        requires
            self@.writes_contact(slot, state) ==> self@.contact_ranges_ordered(),
        ensures
            match (r, self@.slot_update(slot, state)) {
                (Ok(events), Ok(expected)) => events@ == expected,
                (Err(e), Err(expected)) => e == expected,
                _ => false,
            },
    {
        proof {
            use_type_invariant(self);
        }
        self.validate_slot(slot)?;
        let mut events: Vec<EventRecord> = Vec::new();
        events.push(absolute(ABS_MT_SLOT_CODE, slot as i32));
        if !state.active {
            events.push(absolute(ABS_MT_TRACKING_ID_CODE, -1));
            return Ok(events);
        }
        let tracking_id = match state.tracking_id {
            Some(id) => id,
            None => {
                return Err(UInputError::ActiveSlotWithoutTrackingId { slot });
            },
        };
        events.push(absolute(ABS_MT_TRACKING_ID_CODE, tracking_id));
        events.push(absolute(ABS_MT_POSITION_X_CODE, clamp_i32(state.x, self.x_min, self.x_max)));
        events.push(absolute(ABS_MT_POSITION_Y_CODE, clamp_i32(state.y, self.y_min, self.y_max)));
        if let Some((minimum, maximum)) = self.touch_major_range {
            events.push(absolute(ABS_MT_TOUCH_MAJOR_CODE, clamp_i32(state.touch_major, minimum, maximum)));
        }
        if let Some((minimum, maximum)) = self.width_major_range {
            events.push(absolute(ABS_MT_WIDTH_MAJOR_CODE, clamp_i32(state.width_major, minimum, maximum)));
        }
        Ok(events)
    }

    /// Records that `state` was written into `slot`.
    pub fn record_slot(&mut self, slot: usize, state: OutputSlot)
        requires
            slot < old(self)@.total_slot_count(),
        ensures
            final(self)@ == (VirtualTouchscreenView {
                slots: old(self)@.slots.update(slot as int, VirtualTouchscreenView::recorded(state)),
                ..old(self)@
            }),
            final(self)@.wf(),
    {
        proof {
            use_type_invariant(&*self);
        }
        let recorded = if state.active {
            state
        } else {
            OutputSlot::default()
        };
        let mut slots = self.output_slots.clone();
        assert(slots@ =~= self.output_slots@);
        slots.set(slot, recorded);
        self.output_slots = slots;
    }

    /// The events that release `slot` (without `SYN_REPORT`).
    pub fn release_events(&self, slot: usize) -> (r: Result<Vec<EventRecord>, UInputError>)
        ensures
            match (r, self@.slot_update(slot, OutputSlot::released())) {
                (Ok(events), Ok(expected)) => events@ == expected,
                (Err(e), Err(expected)) => e == expected,
                _ => false,
            },
    {
        self.slot_events(slot, OutputSlot::default())
    }

    /// Returns the state currently held in the output.
    pub fn output_slot(&self, slot: usize) -> (r: Result<OutputSlot, UInputError>)
        ensures
            slot < self@.total_slot_count() ==> r == Ok::<OutputSlot, UInputError>(self@.slots[slot as int]),
            slot >= self@.total_slot_count() ==> r == Err::<OutputSlot, UInputError>(
                UInputError::InvalidSlot { slot, slot_count: self@.total_slot_count() as usize },
            ),
    {
        proof {
            use_type_invariant(self);
        }
        self.validate_slot(slot)?;
        Ok(self.output_slots[slot])
    }

    /// The events that bring `BTN_TOUCH` and `BTN_TOOL_FINGER` to
    /// `pressed`: none when they are there already.
    pub fn touch_state_events(&self, pressed: bool) -> (events: Vec<EventRecord>)
        ensures
            events@ == self@.touch_state_events(pressed),
    {
        let mut events: Vec<EventRecord> = Vec::new();
        if pressed == self.btn_touch {
            return events;
        }
        events.push(key(BTN_TOOL_FINGER, pressed));
        events.push(key(BTN_TOUCH, pressed));
        events
    }

    /// Records that the buttons were brought to `pressed`.
    pub fn record_touch_state(&mut self, pressed: bool)
        ensures
            final(self)@ == (VirtualTouchscreenView { btn_touch: pressed, btn_tool_finger: pressed, ..old(self)@ }),
    {
        proof {
            use_type_invariant(&*self);
        }
        self.btn_touch = pressed;
        self.btn_tool_finger = pressed;
    }

    /// Number of steps of a frame over `slots`: the buttons, each slot,
    /// and the `SYN_REPORT`.
    pub fn frame_step_count(&self, slots: &Vec<OutputSlot>) -> (n: usize)
        requires
            slots@.len() + 2 <= usize::MAX,
        ensures
            n == slots@.len() + 2,
    {
        slots.len() + 2
    }

    /// The events of step `k` of writing a complete frame, or the error
    /// that refuses it (see [`VirtualTouchscreenView::frame_step`]).
    pub fn frame_step(&self, touch_pressed: bool, slots: &Vec<OutputSlot>, k: usize) -> (r: Result<
        Vec<EventRecord>,
        UInputError,
    >)
        requires
            self@.frame_step_writes_contact(slots@, k as int) ==> self@.contact_ranges_ordered(),
        ensures
            gives(r, self@.frame_step(touch_pressed, slots@, k as int)),
    {
        if k == 0 {
            Ok(self.touch_state_events(touch_pressed))
        } else if k <= slots.len() {
            self.slot_events(k - 1, slots[k - 1])
        } else {
            Ok(self.sync_events())
        }
    }

    /// Records that step `k` of a frame was written.
    pub fn record_frame_step(&mut self, touch_pressed: bool, slots: &Vec<OutputSlot>, k: usize)
        requires
            old(self)@.frame_step(touch_pressed, slots@, k as int) is Ok,
        ensures
            final(self)@ == old(self)@.after_frame_step(touch_pressed, slots@, k as int),
            final(self)@.wf(),
    {
        proof {
            use_type_invariant(&*self);
        }
        if k == 0 {
            self.record_touch_state(touch_pressed);
        } else if k <= slots.len() {
            self.record_slot(k - 1, slots[k - 1]);
        }
    }

    /// The whole event sequence of a complete frame, in the order it is
    /// written, or the error of its first refused step.
    pub fn frame_events(&self, touch_pressed: bool, slots: &Vec<OutputSlot>) -> (r: Result<
        Vec<EventRecord>,
        UInputError,
    >)
        requires
            slots@.len() + 2 <= usize::MAX,
            forall|k: int| #[trigger]
                self@.frame_step_writes_contact(slots@, k) ==> self@.contact_ranges_ordered(),
        ensures
            gives(r, self@.frame_events(touch_pressed, slots@)),
    {
        let n = self.frame_step_count(slots);
        let mut events: Vec<EventRecord> = Vec::new();
        let mut k: usize = 0;
        while k < n
            invariant
                n == slots@.len() + 2,
                k <= n,
                forall|j: int| #[trigger]
                    self@.frame_step_writes_contact(slots@, j) ==> self@.contact_ranges_ordered(),
                self@.frame_events(touch_pressed, slots@) == match self@.frame_events_from(
                    touch_pressed,
                    slots@,
                    k as int,
                ) {
                    Ok(rest) => Ok(events@ + rest),
                    Err(e) => Err(e),
                },
            decreases n - k,
        {
            let step = self.frame_step(touch_pressed, slots, k);
            match step {
                Err(e) => {
                    return Err(e);
                },
                Ok(mut step_events) => {
                    proof {
                        match self@.frame_events_from(touch_pressed, slots@, k + 1) {
                            Ok(rest) => {
                                assert(events@ + (step_events@ + rest) =~= (events@ + step_events@) + rest);
                            },
                            Err(_) => {},
                        }
                    }
                    events.append(&mut step_events);
                },
            }
            k = k + 1;
        }
        assert(events@ + Seq::<EventRecord>::empty() =~= events@);
        Ok(events)
    }

    /// The `SYN_REPORT` that closes a frame.
    pub fn sync_events(&self) -> (events: Vec<EventRecord>)
        ensures
            events@ == seq![syn_report()],
    {
        let mut events: Vec<EventRecord> = Vec::new();
        events.push(EventRecord { kind: EV_SYN, code: SYN_REPORT_CODE, value: 0 });
        events
    }
}


/// Writing a slot succeeds exactly for a slot of the device whose state
/// is inactive or carries a tracking id; the events then select the slot
/// first and set its tracking id next (`-1` to release it).
pub proof fn lemma_slot_update_accepts(v: VirtualTouchscreenView, slot: usize, state: OutputSlot)
    ensures
        (v.slot_update(slot, state) is Ok) <==> (slot < v.total_slot_count() && (!state.active
            || state.tracking_id is Some)),
        v.slot_update(slot, state) matches Ok(events) ==> events.len() >= 2 && events[0] == abs_event(
            ABS_MT_SLOT_CODE,
            slot as i32,
        ) && events[1] == abs_event(
            ABS_MT_TRACKING_ID_CODE,
            if state.active {
                state.tracking_id.unwrap()
            } else {
                -1i32
            },
        ),
{
}

/// What a slot gives back is what was last written to it: the state when
/// active, a released slot otherwise; the other slots keep theirs.
pub proof fn lemma_slot_read_after_write(v: VirtualTouchscreenView, slot: usize, state: OutputSlot, other: int)
    requires
        v.wf(),
        slot < v.total_slot_count(),
    ensures
        ({
            let w = VirtualTouchscreenView {
                slots: v.slots.update(slot as int, VirtualTouchscreenView::recorded(state)),
                ..v
            };
            &&& w.wf()
            &&& w.slots[slot as int] == (if state.active {
                state
            } else {
                OutputSlot::released()
            })
            &&& (0 <= other < v.slots.len() && other != slot ==> w.slots[other] == v.slots[other])
        }),
{
}

/// The buttons are written only on a change: once brought to a state,
/// bringing them to it again writes nothing.
pub proof fn lemma_touch_state_written_once(v: VirtualTouchscreenView, pressed: bool)
    ensures
        (v.touch_state_events(pressed).len() == 0) <==> (v.btn_touch == pressed),
        (VirtualTouchscreenView { btn_touch: pressed, btn_tool_finger: pressed, ..v }).touch_state_events(
            pressed,
        ).len() == 0,
{
}


proof fn lemma_slot_update_abs_only(v: VirtualTouchscreenView, slot: usize, state: OutputSlot)
    ensures
        v.slot_update(slot, state) matches Ok(events) ==> forall|i: int|
            0 <= i < events.len() ==> (#[trigger] events[i]).kind == EV_ABS,
{
}

proof fn lemma_frame_tail(v: VirtualTouchscreenView, touch_pressed: bool, slots: Seq<OutputSlot>, k: int)
    requires
        1 <= k <= slots.len() + 1,
    ensures
        v.frame_events_from(touch_pressed, slots, k) matches Ok(events) ==> {
            &&& events.len() >= 1
            &&& events.last() == syn_report()
            &&& forall|i: int| 0 <= i < events.len() - 1 ==> (#[trigger] events[i]).kind != EV_SYN
        },
    decreases slots.len() + 2 - k,
{
    if k <= slots.len() {
        lemma_frame_tail(v, touch_pressed, slots, k + 1);
        lemma_slot_update_abs_only(v, (k - 1) as usize, slots[k - 1]);
        if let Ok(events) = v.frame_events_from(touch_pressed, slots, k) {
            let step = v.frame_step(touch_pressed, slots, k)->Ok_0;
            let rest = v.frame_events_from(touch_pressed, slots, k + 1)->Ok_0;
            assert(events == step + rest);
            assert forall|i: int| 0 <= i < events.len() - 1 implies (#[trigger] events[i]).kind != EV_SYN by {
                if i < step.len() {
                    assert(events[i] == step[i]);
                } else {
                    assert(events[i] == rest[i - step.len()]);
                }
            }
        }
    } else {
        if let Ok(events) = v.frame_events_from(touch_pressed, slots, k) {
            assert(events =~= seq![syn_report()]);
        }
    }
}

/// A frame is written as: the button events (if the buttons change), then
/// the events of every slot in order, each beginning by selecting its
/// slot, and a single `SYN_REPORT` that closes it; it is refused exactly
/// when one of its slots is.
pub proof fn lemma_frame_event_order(v: VirtualTouchscreenView, touch_pressed: bool, slots: Seq<OutputSlot>)
    ensures
        v.frame_step(touch_pressed, slots, 0) == Ok::<Seq<EventRecord>, UInputError>(
            v.touch_state_events(touch_pressed),
        ),
        v.frame_step(touch_pressed, slots, slots.len() + 1int) == Ok::<Seq<EventRecord>, UInputError>(
            seq![syn_report()],
        ),
        forall|k: int|
            1 <= k <= slots.len() ==> #[trigger] v.frame_step(touch_pressed, slots, k) == v.slot_update(
                (k - 1) as usize,
                slots[k - 1],
            ),
        v.frame_events(touch_pressed, slots) matches Ok(events) ==> {
            &&& events.subrange(0, v.touch_state_events(touch_pressed).len() as int)
                == v.touch_state_events(touch_pressed)
            &&& events.len() >= 1
            &&& events.last() == syn_report()
            &&& forall|i: int| 0 <= i < events.len() - 1 ==> (#[trigger] events[i]).kind != EV_SYN
        },
{
    lemma_frame_tail(v, touch_pressed, slots, 1);
    if let Ok(events) = v.frame_events(touch_pressed, slots) {
        let step = v.touch_state_events(touch_pressed);
        let rest = v.frame_events_from(touch_pressed, slots, 1)->Ok_0;
        assert(events == step + rest);
        assert(events.subrange(0, step.len() as int) =~= step);
        assert forall|i: int| 0 <= i < events.len() - 1 implies (#[trigger] events[i]).kind != EV_SYN by {
            if i < step.len() {
                assert(events[i] == step[i]);
            } else {
                assert(events[i] == rest[i - step.len()]);
            }
        }
    }
}


/// A frame whose every step is accepted is written whole.
pub proof fn lemma_frame_events_accepted(v: VirtualTouchscreenView, touch_pressed: bool, slots: Seq<OutputSlot>, k: int)
    requires
        0 <= k,
        forall|j: int| k <= j < slots.len() + 2 ==> (#[trigger] v.frame_step(touch_pressed, slots, j)) is Ok,
    ensures
        v.frame_events_from(touch_pressed, slots, k) is Ok,
    decreases slots.len() + 2 - k,
{
    if k < slots.len() + 2 {
        lemma_frame_events_accepted(v, touch_pressed, slots, k + 1);
        assert(v.frame_step(touch_pressed, slots, k) is Ok);
    }
}


proof fn lemma_after_frame_from(v: VirtualTouchscreenView, touch_pressed: bool, slots: Seq<OutputSlot>, k: int)
    requires
        0 <= k <= slots.len() + 2,
        slots.len() <= v.slots.len(),
    ensures
        ({
            let w = v.after_frame_from(touch_pressed, slots, k);
            &&& w.slots.len() == v.slots.len()
            &&& forall|i: int|
                0 <= i < v.slots.len() ==> #[trigger] w.slots[i] == (if k <= i + 1 && i < slots.len() {
                    VirtualTouchscreenView::recorded(slots[i])
                } else {
                    v.slots[i]
                })
            &&& w.btn_touch == (if k == 0 { touch_pressed } else { v.btn_touch })
            &&& w.physical_slot_count == v.physical_slot_count
            &&& w.x_range == v.x_range
            &&& w.y_range == v.y_range
            &&& w.tracking_id_range == v.tracking_id_range
            &&& w.touch_major_range == v.touch_major_range
            &&& w.width_major_range == v.width_major_range
        }),
    decreases slots.len() + 2 - k,
{
    if k < slots.len() + 2 {
        let u = v.after_frame_step(touch_pressed, slots, k);
        lemma_after_frame_from(u, touch_pressed, slots, k + 1);
        let w = v.after_frame_from(touch_pressed, slots, k);
        assert(w == u.after_frame_from(touch_pressed, slots, k + 1));
        assert forall|i: int| 0 <= i < v.slots.len() implies #[trigger] w.slots[i] == (if k <= i + 1 && i
            < slots.len() {
            VirtualTouchscreenView::recorded(slots[i])
        } else {
            v.slots[i]
        }) by {
            assert(w.slots[i] == u.after_frame_from(touch_pressed, slots, k + 1).slots[i]);
        }
    }
}

/// Once a whole frame is written, each slot that the frame covers holds
/// what the frame gives it (its state when active, a released slot
/// otherwise), the other slots are as they were, and the buttons are in
/// the frame's state.
pub proof fn lemma_frame_written(v: VirtualTouchscreenView, touch_pressed: bool, slots: Seq<OutputSlot>)
    requires
        slots.len() <= v.slots.len(),
    ensures
        ({
            let w = v.after_frame(touch_pressed, slots);
            &&& w.slots.len() == v.slots.len()
            &&& forall|i: int|
                0 <= i < slots.len() ==> #[trigger] w.slots[i] == VirtualTouchscreenView::recorded(slots[i])
            &&& forall|i: int| slots.len() <= i < v.slots.len() ==> #[trigger] w.slots[i] == v.slots[i]
            &&& w.btn_touch == touch_pressed
        }),
{
    lemma_after_frame_from(v, touch_pressed, slots, 0);
}

/// `v` pulled into `lo..=hi`.
pub open spec fn pulled_into(v: i32, lo: i32, hi: i32) -> i32 {
    if v < lo {
        lo
    } else if v > hi {
        hi
    } else {
        v
    }
}

/// Writing an active contact with a tracking id into a slot of the device
/// gives, in order: the slot, the tracking id, X and Y clamped to the
/// device's ranges, then the touch major clamped to its range exactly when
/// the device has one, then the width major clamped to its range exactly
/// when the device has one, each independently of the other. Writing an
/// inactive state releases the slot with tracking id -1.
pub proof fn lemma_contact_events(v: VirtualTouchscreenView, slot: usize, state: OutputSlot)
    requires
        slot < v.total_slot_count(),
        v.x_range.0 <= v.x_range.1,
        v.y_range.0 <= v.y_range.1,
        v.contact_ranges_ordered(),
    ensures
        (!state.active ==> v.slot_update(slot, state) == Ok::<Seq<EventRecord>, UInputError>(
            seq![
                EventRecord { kind: EV_ABS, code: ABS_MT_SLOT_CODE, value: slot as i32 },
                EventRecord { kind: EV_ABS, code: ABS_MT_TRACKING_ID_CODE, value: -1i32 },
            ],
        )),
        state.active && state.tracking_id is Some ==> (v.slot_update(slot, state) matches Ok(events) && {
            let tm = if v.touch_major_range is Some { 1int } else { 0int };
            let wm = if v.width_major_range is Some { 1int } else { 0int };
            &&& events.len() == 4 + tm + wm
            &&& events[0] == EventRecord { kind: EV_ABS, code: ABS_MT_SLOT_CODE, value: slot as i32 }
            &&& events[1] == EventRecord {
                kind: EV_ABS,
                code: ABS_MT_TRACKING_ID_CODE,
                value: state.tracking_id.unwrap(),
            }
            &&& events[2] == EventRecord {
                kind: EV_ABS,
                code: ABS_MT_POSITION_X_CODE,
                value: pulled_into(state.x, v.x_range.0, v.x_range.1),
            }
            &&& events[3] == EventRecord {
                kind: EV_ABS,
                code: ABS_MT_POSITION_Y_CODE,
                value: pulled_into(state.y, v.y_range.0, v.y_range.1),
            }
            &&& (v.touch_major_range matches Some(r) ==> events[4] == EventRecord {
                kind: EV_ABS,
                code: ABS_MT_TOUCH_MAJOR_CODE,
                value: pulled_into(state.touch_major, r.0, r.1),
            })
            &&& (v.width_major_range matches Some(r) ==> events[4 + tm] == EventRecord {
                kind: EV_ABS,
                code: ABS_MT_WIDTH_MAJOR_CODE,
                value: pulled_into(state.width_major, r.0, r.1),
            })
            &&& (v.touch_major_range is None ==> forall|i: int|
                0 <= i < events.len() ==> (#[trigger] events[i]).code != ABS_MT_TOUCH_MAJOR_CODE)
            &&& (v.width_major_range is None ==> forall|i: int|
                0 <= i < events.len() ==> (#[trigger] events[i]).code != ABS_MT_WIDTH_MAJOR_CODE)
        }),
{
}

/// The axes of the virtual touchscreen: the slot axis from the physical
/// device's first slot up to one more than its last, the tracking id axis
/// over the physical range starting at -1, the X and Y axes over the
/// physical ranges, then a touch major axis over the physical range exactly
/// when the physical device has one, then a width major axis over the
/// physical range exactly when it has one, each independently of the other.
pub proof fn lemma_virtual_axes_layout(d: TouchDeviceView)
    requires
        d.wf(),
    ensures
        ({
            let a = virtual_axes(d);
            let tm = if d.touch_major_range is Some { 1int } else { 0int };
            let wm = if d.width_major_range is Some { 1int } else { 0int };
            &&& a.len() == 4 + tm + wm
            &&& a[0] == AxisSetup {
                axis: ABS_MT_SLOT_CODE,
                value: d.slot_range.min,
                minimum: d.slot_range.min,
                maximum: (d.slot_range.max + 1) as i32,
                fuzz: 0,
                flat: 0,
                resolution: 0,
            }
            &&& a[1] == AxisSetup {
                axis: ABS_MT_TRACKING_ID_CODE,
                value: -1i32,
                minimum: d.tracking_id_range.min,
                maximum: d.tracking_id_range.max,
                fuzz: 0,
                flat: 0,
                resolution: 0,
            }
            &&& a[2] == AxisSetup {
                axis: ABS_MT_POSITION_X_CODE,
                value: d.x_range.min,
                minimum: d.x_range.min,
                maximum: d.x_range.max,
                fuzz: 0,
                flat: 0,
                resolution: 0,
            }
            &&& a[3] == AxisSetup {
                axis: ABS_MT_POSITION_Y_CODE,
                value: d.y_range.min,
                minimum: d.y_range.min,
                maximum: d.y_range.max,
                fuzz: 0,
                flat: 0,
                resolution: 0,
            }
            &&& (d.touch_major_range matches Some(r) ==> a[4] == AxisSetup {
                axis: ABS_MT_TOUCH_MAJOR_CODE,
                value: r.min,
                minimum: r.min,
                maximum: r.max,
                fuzz: 0,
                flat: 0,
                resolution: 0,
            })
            &&& (d.width_major_range matches Some(r) ==> a[4 + tm] == AxisSetup {
                axis: ABS_MT_WIDTH_MAJOR_CODE,
                value: r.min,
                minimum: r.min,
                maximum: r.max,
                fuzz: 0,
                flat: 0,
                resolution: 0,
            })
            &&& (d.touch_major_range is None ==> forall|i: int|
                0 <= i < a.len() ==> (#[trigger] a[i]).axis != ABS_MT_TOUCH_MAJOR_CODE)
            &&& (d.width_major_range is None ==> forall|i: int|
                0 <= i < a.len() ==> (#[trigger] a[i]).axis != ABS_MT_WIDTH_MAJOR_CODE)
        }),
{
}

/// Bringing the buttons to a new state writes `BTN_TOOL_FINGER`, then
/// `BTN_TOUCH`, both with value 1 when pressing and 0 when releasing.
pub proof fn lemma_touch_state_key_order(v: VirtualTouchscreenView, pressed: bool)
    requires
        pressed != v.btn_touch,
    ensures
        (v.touch_state_events(pressed) == seq![
            EventRecord { kind: EV_KEY, code: BTN_TOOL_FINGER, value: if pressed { 1i32 } else { 0i32 } },
            EventRecord { kind: EV_KEY, code: BTN_TOUCH, value: if pressed { 1i32 } else { 0i32 } },
        ]),
{
}

} // verus!
