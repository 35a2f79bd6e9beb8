//! The multiplexer's state: the physical contacts as the touchscreen
//! reports them, one virtual contact, and the complete MT-B frame that
//! both give on the virtual device.
//!
//! Reading the physical device and writing the virtual one are left to
//! the caller: it hands each physical event to the state and, when told
//! so, writes the frame that the state gives.
use vstd::prelude::*;

use std::time::Duration;

use crate::bounds::{clamp_i32, clamp_int, saturate_i32, saturating_sub_i32};
use crate::codes::{
    ABS_MT_POSITION_X_CODE, ABS_MT_POSITION_Y_CODE, ABS_MT_SLOT_CODE, ABS_MT_TOUCH_MAJOR_CODE,
    ABS_MT_TRACKING_ID_CODE, ABS_MT_WIDTH_MAJOR_CODE, EV_ABS, EV_SYN, SYN_REPORT_CODE,
};
use crate::device::{TouchDevice, TouchDeviceView};
use crate::time::{
    duration_from_millis, duration_from_secs, duration_is_zero, spec_duration_from_millis,
    spec_duration_from_secs, zero_duration,
};
use crate::uinput::{lemma_frame_events_accepted, lemma_frame_written, OutputSlot, VirtualTouchscreenView};

verus! {

/// Logical dimension of the Android display.
///
/// The physical touchscreen has its own raw range.
/// The multiplexer converts logical coordinates to that range.
#[derive(Clone, Copy, Debug, PartialEq, Eq, Structural)]
pub struct DisplaySize {
    pub width: i32,
    pub height: i32,
}

impl DisplaySize {
    pub fn new(width: i32, height: i32) -> (r: Self)
        ensures
            r == (DisplaySize { width, height }),
    {
        Self { width, height }
    }
}

impl Default for DisplaySize {
    fn default() -> (r: Self)
        ensures
            r == (DisplaySize { width: 720, height: 1600 }),
    {
        Self { width: 720, height: 1600 }
    }
}

/// Logical coordinate on the display.
#[derive(Clone, Copy, Debug, PartialEq, Eq, Structural)]
pub struct Point {
    pub x: i32,
    pub y: i32,
}

impl Point {
    pub fn new(x: i32, y: i32) -> (r: Self)
        ensures
            r == (Point { x, y }),
    {
        Self { x, y }
    }
}

/// State of a physical contact.
#[derive(Clone, Copy, Debug, PartialEq, Eq, Structural)]
pub struct SlotState {
    pub active: bool,
    pub tracking_id: Option<i32>,
    pub x: i32,
    pub y: i32,
    pub touch_major: i32,
    pub width_major: i32,
}

impl SlotState {
    /// A slot without contact.
    pub open spec fn released() -> SlotState {
        SlotState { active: false, tracking_id: None, x: 0, y: 0, touch_major: 0, width_major: 0 }
    }

    /// The output state that reproduces this slot.
    pub open spec fn output(self) -> OutputSlot {
        OutputSlot {
            active: self.active,
            tracking_id: self.tracking_id,
            x: self.x,
            y: self.y,
            touch_major: self.touch_major,
            width_major: self.width_major,
        }
    }
}

impl Default for SlotState {
    fn default() -> (r: Self)
        ensures
            r == SlotState::released(),
    {
        SlotState { active: false, tracking_id: None, x: 0, y: 0, touch_major: 0, width_major: 0 }
    }
}

/// How a builder waits for the virtual device before the first event.
pub enum StartupPlan {
    /// Poll the virtual device's evdev node up to `retries` times, with
    /// `delay` before each attempt.
    Check { retries: u32, delay: Duration },
    /// Sleep for the given delay.
    Sleep(Duration),
    /// Start at once.
    Immediate,
}

/// Builder for the multiplexer.
///
/// Allows configuring the display dimension and the startup delay
/// before the multiplexer is ready. It defaults to a 1 second delay,
/// which covers the gap on Android between the kernel creating the
/// `uinput` device and the `InputReader` registering it.
pub struct TouchMultiplexerBuilder {
    display_size: DisplaySize,
    startup_delay: Duration,
    startup_check_retries: Option<u32>,
    startup_check_delay: Duration,
}

/// The settings that a builder holds.
pub struct BuilderSettings {
    pub display_size: DisplaySize,
    pub startup_delay: Duration,
    pub startup_check_retries: Option<u32>,
    pub startup_check_delay: Duration,
}

impl View for TouchMultiplexerBuilder {
    type V = BuilderSettings;

    closed spec fn view(&self) -> BuilderSettings {
        BuilderSettings {
            display_size: self.display_size,
            startup_delay: self.startup_delay,
            startup_check_retries: self.startup_check_retries,
            startup_check_delay: self.startup_check_delay,
        }
    }
}

impl TouchMultiplexerBuilder {
    /// A builder with the default settings: a `720x1600` display, a 1
    /// second startup delay, and no startup check (whose delay, once
    /// enabled without one, would be 50 ms).
    pub fn new() -> (b: Self)
        ensures
            b@ == (BuilderSettings {
                display_size: DisplaySize { width: 720, height: 1600 },
                startup_delay: spec_duration_from_secs(1),
                startup_check_retries: None,
                startup_check_delay: spec_duration_from_millis(50),
            }),
    {
        TouchMultiplexerBuilder {
            display_size: DisplaySize::default(),
            startup_delay: duration_from_secs(1),
            startup_check_retries: None,
            startup_check_delay: duration_from_millis(50),
        }
    }

    /// Sets the logical display dimension.
    pub fn display_size(self, display_size: DisplaySize) -> (b: Self)
        ensures
            b@ == (BuilderSettings { display_size, ..self@ }),
    {
        let mut b = self;
        b.display_size = display_size;
        b
    }

    /// Sets the delay applied after the virtual device is created.
    /// Ignored when a startup check is set.
    pub fn startup_delay(self, delay: Duration) -> (b: Self)
        ensures
            b@ == (BuilderSettings { startup_delay: delay, ..self@ }),
    {
        let mut b = self;
        b.startup_delay = delay;
        b
    }

    /// Enables polling for the virtual device's evdev node: up to
    /// `retries` attempts with `delay` before each. The blind startup
    /// delay is then skipped.
    pub fn startup_check(self, retries: u32, delay: Duration) -> (b: Self)
        ensures
            b@ == (BuilderSettings {
                startup_check_retries: Some(retries),
                startup_check_delay: delay,
                ..self@
            }),
    {
        let mut b = self;
        b.startup_check_retries = Some(retries);
        b.startup_check_delay = delay;
        b
    }

    /// The configured display dimension.
    pub fn configured_display_size(&self) -> (d: DisplaySize)
        ensures
            d == self@.display_size,
    {
        self.display_size
    }

    /// How to wait for the virtual device: the startup check when one is
    /// set, else the startup delay unless it is zero.
    pub fn startup_plan(&self) -> (p: StartupPlan)
        ensures
            p == startup_plan_of(self@),
    {
        match self.startup_check_retries {
            Some(retries) => StartupPlan::Check { retries, delay: self.startup_check_delay },
            None => {
                if duration_is_zero(self.startup_delay) {
                    StartupPlan::Immediate
                } else {
                    StartupPlan::Sleep(self.startup_delay)
                }
            },
        }
    }
}

/// How a builder with settings `s` waits for the virtual device.
pub open spec fn startup_plan_of(s: BuilderSettings) -> StartupPlan {
    match s.startup_check_retries {
        Some(retries) => StartupPlan::Check { retries, delay: s.startup_check_delay },
        None => if s.startup_delay == zero_duration() {
            StartupPlan::Immediate
        } else {
            StartupPlan::Sleep(s.startup_delay)
        },
    }
}

/// A startup check, once set, decides how the builder waits, whatever
/// startup delay is set before or after it; without one, a zero delay
/// starts at once and any other delay is slept.
pub proof fn lemma_startup_check_overrides_delay(
    s: BuilderSettings,
    retries: u32,
    check_delay: Duration,
    delay: Duration,
)
    ensures
        startup_plan_of(
            BuilderSettings {
                startup_delay: delay,
                ..BuilderSettings {
                    startup_check_retries: Some(retries),
                    startup_check_delay: check_delay,
                    ..s
                }
            },
        ) == (StartupPlan::Check { retries, delay: check_delay }),
        startup_plan_of(
            BuilderSettings {
                startup_check_retries: Some(retries),
                startup_check_delay: check_delay,
                ..BuilderSettings { startup_delay: delay, ..s }
            },
        ) == (StartupPlan::Check { retries, delay: check_delay }),
        s.startup_check_retries is None ==> startup_plan_of(BuilderSettings { startup_delay: delay, ..s }) == (
        if delay == zero_duration() {
            StartupPlan::Immediate
        } else {
            StartupPlan::Sleep(delay)
        }),
{
}

/// What waiting for the virtual device does next.
#[derive(Clone, Copy, Debug, PartialEq, Eq, Structural)]
pub enum ReadinessStep {
    /// Sleep the check's delay, then try to open the device's evdev node.
    Attempt,
    /// The node opened: the device is ready.
    Ready,
    /// The attempts are used up: the device is not ready.
    NotReady,
}

/// The first step of a startup check with `retries` attempts.
pub open spec fn readiness_start_spec(retries: u32) -> ReadinessStep {
    if retries > 0 {
        ReadinessStep::Attempt
    } else {
        ReadinessStep::NotReady
    }
}

/// The step after attempt number `attempt` (counted from 1) of a startup
/// check with `retries` attempts, which opened the node or not.
pub open spec fn readiness_step_spec(attempt: u32, retries: u32, opened: bool) -> ReadinessStep {
    if opened {
        ReadinessStep::Ready
    } else if attempt < retries {
        ReadinessStep::Attempt
    } else {
        ReadinessStep::NotReady
    }
}

/// The first step of a startup check: an attempt, unless there are none.
pub fn readiness_start(retries: u32) -> (step: ReadinessStep)
    ensures
        step == readiness_start_spec(retries),
{
    if retries > 0 {
        ReadinessStep::Attempt
    } else {
        ReadinessStep::NotReady
    }
}

/// The step after attempt number `attempt` (counted from 1): ready when
/// the node opened, another attempt while attempts remain, else not ready.
pub fn readiness_step(attempt: u32, retries: u32, opened: bool) -> (step: ReadinessStep)
    ensures
        step == readiness_step_spec(attempt, retries, opened),
{
    if opened {
        ReadinessStep::Ready
    } else if attempt < retries {
        ReadinessStep::Attempt
    } else {
        ReadinessStep::NotReady
    }
}

/// Running a startup check from attempt number `attempt` on, where
/// `opened[k]` says whether attempt `k + 1` opens the node: the number of
/// attempts made in all, and whether the device was found ready.
pub open spec fn readiness_run_from(retries: u32, opened: Seq<bool>, attempt: int) -> (int, bool)
    decreases retries - attempt,
{
    if attempt < 1 || attempt > retries || attempt > opened.len() {
        (attempt - 1, false)
    } else {
        match readiness_step_spec(attempt as u32, retries, opened[attempt - 1]) {
            ReadinessStep::Attempt => readiness_run_from(retries, opened, attempt + 1),
            ReadinessStep::Ready => (attempt, true),
            ReadinessStep::NotReady => (attempt, false),
        }
    }
}

/// Running a whole startup check with `retries` attempts.
pub open spec fn readiness_run(retries: u32, opened: Seq<bool>) -> (int, bool) {
    match readiness_start_spec(retries) {
        ReadinessStep::Attempt => readiness_run_from(retries, opened, 1),
        _ => (0, false),
    }
}

proof fn lemma_readiness_run_from(retries: u32, opened: Seq<bool>, attempt: int)
    requires
        1 <= attempt <= retries,
        opened.len() >= retries,
        forall|k: int| 0 <= k < attempt - 1 ==> !opened[k],
    ensures
        ({
            let (n, ready) = readiness_run_from(retries, opened, attempt);
            &&& attempt <= n <= retries
            &&& ready <==> opened[n - 1]
            &&& forall|k: int| 0 <= k < n - 1 ==> !opened[k]
            &&& !ready ==> n == retries
        }),
    decreases retries - attempt,
{
    if !opened[attempt - 1] && attempt < retries {
        lemma_readiness_run_from(retries, opened, attempt + 1);
    }
}

/// A startup check with `retries` attempts makes at most `retries` of
/// them, none when `retries` is 0; it stops at the first that opens the
/// node, and finds the device ready exactly when one of them does.
pub proof fn lemma_readiness_check(retries: u32, opened: Seq<bool>)
    requires
        opened.len() >= retries,
    ensures
        ({
            let (n, ready) = readiness_run(retries, opened);
            &&& 0 <= n <= retries
            &&& retries == 0 ==> n == 0 && !ready
            &&& ready ==> opened[n - 1]
            &&& forall|k: int| 0 <= k < n - 1 ==> !opened[k]
            &&& ready <==> exists|k: int| 0 <= k < retries && opened[k]
            &&& !ready ==> n == retries
        }),
{
    if retries > 0 {
        lemma_readiness_run_from(retries, opened, 1);
        let (n, ready) = readiness_run(retries, opened);
        if ready {
            assert(0 <= n - 1 < retries && opened[n - 1]);
        } else {
            assert forall|k: int| 0 <= k < retries implies !opened[k] by {
                if k < n - 1 {
                } else {
                    assert(k == n - 1);
                }
            }
        }
    }
}

/// Rust's `/` on integers: the quotient rounded toward zero.
pub open spec fn trunc_div(a: int, b: int) -> int {
    if a >= 0 {
        a / b
    } else {
        -((-a) / b)
    }
}

/// The raw coordinate of the display coordinate `value`: clamped to the
/// display range, then scaled linearly onto the raw range (rounding
/// toward `raw_min`), with `raw_min` when the display range is one value.
pub open spec fn raw_of_display(
    value: int,
    display_min: int,
    display_max: int,
    raw_min: int,
    raw_max: int,
) -> int {
    let v = clamp_int(value, display_min, display_max);
    if display_max == display_min {
        raw_min
    } else {
        raw_min + trunc_div((v - display_min) * (raw_max - raw_min), display_max - display_min)
    }
}

/// A proportion `a / d` (`0 <= a <= d`) of `r`, rounded toward zero, lies
/// between 0 and `r`.
proof fn lemma_scaled_within(a: int, d: int, r: int)
    requires
        0 <= a <= d,
        d > 0,
    ensures
        r >= 0 ==> 0 <= trunc_div(a * r, d) <= r,
        r < 0 ==> r <= trunc_div(a * r, d) <= 0,
{
    if r >= 0 {
        assert(0 <= a * r <= d * r) by (nonlinear_arith)
            requires
                0 <= a <= d,
                r >= 0,
        ;
        assert((d * r) / d == r) by (nonlinear_arith)
            requires
                d > 0,
        ;
        assert(0 <= (a * r) / d <= (d * r) / d) by (nonlinear_arith)
            requires
                0 <= a * r <= d * r,
                d > 0,
        ;
    } else {
        assert(a * r == -(a * (-r))) by (nonlinear_arith);
        assert(0 <= a * (-r) <= d * (-r)) by (nonlinear_arith)
            requires
                0 <= a <= d,
                r < 0,
        ;
        assert((d * (-r)) / d == -r) by (nonlinear_arith)
            requires
                d > 0,
        ;
        assert(0 <= (a * (-r)) / d <= (d * (-r)) / d) by (nonlinear_arith)
            requires
                0 <= a * (-r) <= d * (-r),
                d > 0,
        ;
        if a * r >= 0 {
            assert(a * r == 0);
            assert(trunc_div(a * r, d) == 0);
        }
    }
}

/// Converts a display coordinate to the raw range of the touchscreen.
pub fn display_to_raw(value: i32, display_min: i32, display_max: i32, raw_min: i32, raw_max: i32) -> (r: i32)
    requires
        display_min <= display_max,
        display_max - display_min <= i32::MAX,
        display_min != display_max ==> i32::MIN <= raw_max - raw_min <= i32::MAX,
    ensures
        r == raw_of_display(value as int, display_min as int, display_max as int, raw_min as int, raw_max as int),
{
    let value = clamp_i32(value, display_min, display_max);
    if display_max == display_min {
        return raw_min;
    }
    let offset: i32 = value - display_min;
    let span: i32 = raw_max - raw_min;
    let extent: i32 = display_max - display_min;
    proof {
        lemma_scaled_within(offset as int, extent as int, span as int);
        assert(-0x8000_0000 * 0x8000_0000 <= offset * span <= 0x8000_0000 * 0x8000_0000) by (nonlinear_arith)
            requires
                0 <= offset <= 0x7fff_ffff,
                -0x8000_0000 <= span <= 0x7fff_ffff,
        ;
    }
    let product: i64 = offset as i64 * span as i64;
    let quotient: i64 = product / extent as i64;
    raw_min + quotient as i32
}

/// Whether the slot is active with tracking id `id`.
pub open spec fn carries(slot: SlotState, id: int) -> bool {
    slot.active && match slot.tracking_id {
        Some(t) => t == id,
        None => false,
    }
}

/// Whether an active physical slot carries tracking id `id`.
pub open spec fn id_in_use(slots: Seq<SlotState>, id: int) -> bool {
    exists|i: int| 0 <= i < slots.len() && carries(#[trigger] slots[i], id)
}

/// The first id in `candidate..end` that no active slot carries, or
/// `fallback` when there is none.
pub open spec fn first_free_id(slots: Seq<SlotState>, candidate: int, end: int, fallback: i32) -> i32
    decreases end - candidate,
{
    if candidate >= end {
        fallback
    } else if !id_in_use(slots, candidate) {
        candidate as i32
    } else {
        first_free_id(slots, candidate + 1, end, fallback)
    }
}

/// Number of active slots.
pub open spec fn count_active(slots: Seq<SlotState>) -> nat
    decreases slots.len(),
{
    if slots.len() == 0 {
        0
    } else {
        count_active(slots.drop_last()) + (if slots.last().active { 1nat } else { 0nat })
    }
}

/// The state of the multiplexer: physical slots, the virtual contact and
/// what they map onto.
pub struct MultiplexerState {
    touchscreen: TouchDevice,
    display_size: DisplaySize,
    current_physical_slot: usize,
    physical_slots: Vec<SlotState>,
    virtual_down: bool,
    virtual_tracking_id: Option<i32>,
    virtual_position: Point,
    virtual_touch_major: i32,
    virtual_width_major: i32,
}

/// The mathematical content of a [`MultiplexerState`].
pub struct MultiplexerView {
    pub touchscreen: TouchDeviceView,
    pub display_size: DisplaySize,
    pub current_physical_slot: nat,
    pub physical_slots: Seq<SlotState>,
    pub virtual_down: bool,
    pub virtual_tracking_id: Option<i32>,
    pub virtual_position: Point,
    pub virtual_touch_major: i32,
    pub virtual_width_major: i32,
}

/// A complete MT-B frame: the buttons' state and every slot of the
/// virtual device, the virtual contact's last.
pub struct Frame {
    pub touch_pressed: bool,
    pub slots: Vec<OutputSlot>,
}

/// The state of a multiplexer that has just opened `touchscreen`.
pub open spec fn initial_view(touchscreen: TouchDeviceView, display_size: DisplaySize) -> MultiplexerView {
    MultiplexerView {
        touchscreen,
        display_size,
        current_physical_slot: 0,
        physical_slots: Seq::new(touchscreen.slot_count() as nat, |i: int| SlotState::released()),
        virtual_down: false,
        virtual_tracking_id: None,
        virtual_position: Point { x: (display_size.width / 2) as i32, y: (display_size.height / 2) as i32 },
        virtual_touch_major: 1,
        virtual_width_major: 1,
    }
}

impl MultiplexerView {
    /// What every state of the multiplexer satisfies.
    pub open spec fn wf(self) -> bool {
        &&& self.touchscreen.wf()
        &&& self.display_size.width > 0
        &&& self.display_size.height > 0
        &&& self.physical_slots.len() == self.touchscreen.slot_count()
        &&& self.current_physical_slot < self.physical_slots.len()
        &&& forall|i: int|
            0 <= i < self.physical_slots.len() ==> ((#[trigger] self.physical_slots[i]).active
                <==> self.physical_slots[i].tracking_id is Some)
        &&& (self.virtual_down <==> self.virtual_tracking_id is Some)
        &&& 0 <= self.virtual_position.x < self.display_size.width
        &&& 0 <= self.virtual_position.y < self.display_size.height
        &&& self.virtual_touch_major == 1
        &&& self.virtual_width_major == 1
    }

    /// Number of physical slots.
    pub open spec fn physical_slot_count(self) -> nat {
        self.physical_slots.len()
    }

    /// Number of active contacts, physical and virtual.
    pub open spec fn contact_count(self) -> nat {
        count_active(self.physical_slots) + (if self.virtual_down { 1nat } else { 0nat })
    }

    /// `p` clamped to the display.
    pub open spec fn clamp_point(self, p: Point) -> Point {
        Point {
            x: clamp_int(p.x as int, 0, self.display_size.width - 1) as i32,
            y: clamp_int(p.y as int, 0, self.display_size.height - 1) as i32,
        }
    }

    /// The state with the current physical slot replaced by `s`.
    pub open spec fn with_current(self, s: SlotState) -> MultiplexerView {
        MultiplexerView {
            physical_slots: self.physical_slots.update(self.current_physical_slot as int, s),
            ..self
        }
    }

    /// The state after the physical `EV_ABS` event `code`, `value`.
    pub open spec fn with_abs(self, code: u16, value: i32) -> MultiplexerView {
        let s = self.physical_slots[self.current_physical_slot as int];
        if code == ABS_MT_SLOT_CODE {
            if 0 <= value < self.physical_slot_count() {
                MultiplexerView { current_physical_slot: value as nat, ..self }
            } else {
                self
            }
        } else if code == ABS_MT_TRACKING_ID_CODE {
            if value < 0 {
                self.with_current(SlotState { active: false, tracking_id: None, ..s })
            } else {
                self.with_current(SlotState { active: true, tracking_id: Some(value), ..s })
            }
        } else if code == ABS_MT_POSITION_X_CODE {
            self.with_current(SlotState { x: value, ..s })
        } else if code == ABS_MT_POSITION_Y_CODE {
            self.with_current(SlotState { y: value, ..s })
        } else if code == ABS_MT_TOUCH_MAJOR_CODE {
            self.with_current(SlotState { touch_major: value, ..s })
        } else if code == ABS_MT_WIDTH_MAJOR_CODE {
            self.with_current(SlotState { width_major: value, ..s })
        } else {
            self
        }
    }

    /// The state after the physical event `kind`, `code`, `value`: only
    /// `EV_ABS` events change it.
    pub open spec fn with_event(self, kind: u16, code: u16, value: i32) -> MultiplexerView {
        if kind == EV_ABS {
            self.with_abs(code, value)
        } else {
            self
        }
    }

    /// The first id that the virtual contact may take: up to 1024 below
    /// the top of the tracking id range, and not below its bottom.
    pub open spec fn virtual_id_window_start(self) -> int {
        let range = self.touchscreen.tracking_id_range;
        let lowered = saturate_i32(range.max - 1024);
        if lowered >= range.min {
            lowered
        } else {
            range.min as int
        }
    }

    /// The tracking id that a new virtual contact takes: the first id of
    /// its window that no active physical contact carries, else the
    /// bottom of the tracking id range.
    pub open spec fn virtual_tracking_choice(self) -> i32 {
        first_free_id(
            self.physical_slots,
            self.virtual_id_window_start(),
            self.touchscreen.tracking_id_range.max as int,
            self.touchscreen.tracking_id_range.min,
        )
    }

    /// The state after pressing the virtual contact at `p`; nothing
    /// changes when it is pressed already.
    pub open spec fn after_touch_down(self, p: Point) -> MultiplexerView {
        if self.virtual_down {
            self
        } else {
            MultiplexerView {
                virtual_position: self.clamp_point(p),
                virtual_down: true,
                virtual_tracking_id: Some(self.virtual_tracking_choice()),
                ..self
            }
        }
    }

    /// The state after moving the virtual contact to `p`.
    pub open spec fn after_touch_move(self, p: Point) -> MultiplexerView {
        MultiplexerView { virtual_position: self.clamp_point(p), ..self }
    }

    /// The state after releasing the virtual contact; nothing changes
    /// when it is released already.
    pub open spec fn after_touch_up(self) -> MultiplexerView {
        if !self.virtual_down {
            self
        } else {
            MultiplexerView { virtual_down: false, virtual_tracking_id: None, ..self }
        }
    }

    /// The raw ranges of the touchscreen are narrow enough for the
    /// conversion of display coordinates: the width of each fits in `i32`
    /// where the display is more than one pixel along it (along one pixel
    /// the conversion gives the range's minimum without scaling).
    pub open spec fn raw_ranges_fit(self) -> bool {
        &&& self.display_size.width > 1 ==> self.touchscreen.x_range.max - self.touchscreen.x_range.min
            <= i32::MAX
        &&& self.display_size.height > 1 ==> self.touchscreen.y_range.max - self.touchscreen.y_range.min
            <= i32::MAX
    }

    /// The output state of the virtual contact, in raw coordinates.
    pub open spec fn virtual_output(self) -> OutputSlot {
        OutputSlot {
            active: self.virtual_down,
            tracking_id: self.virtual_tracking_id,
            x: raw_of_display(
                self.virtual_position.x as int,
                0,
                self.display_size.width - 1,
                self.touchscreen.x_range.min as int,
                self.touchscreen.x_range.max as int,
            ) as i32,
            y: raw_of_display(
                self.virtual_position.y as int,
                0,
                self.display_size.height - 1,
                self.touchscreen.y_range.min as int,
                self.touchscreen.y_range.max as int,
            ) as i32,
            touch_major: self.virtual_touch_major,
            width_major: self.virtual_width_major,
        }
    }

    /// Every slot of the frame: the physical slots as they are, then the
    /// virtual contact.
    pub open spec fn frame_slots(self) -> Seq<OutputSlot> {
        Seq::new(
            self.physical_slot_count() + 1,
            |i: int|
                if i < self.physical_slot_count() {
                    self.physical_slots[i].output()
                } else {
                    self.virtual_output()
                },
        )
    }
}

impl View for MultiplexerState {
    type V = MultiplexerView;

    closed spec fn view(&self) -> MultiplexerView {
        MultiplexerView {
            touchscreen: self.touchscreen@,
            display_size: self.display_size,
            current_physical_slot: self.current_physical_slot as nat,
            physical_slots: self.physical_slots@,
            virtual_down: self.virtual_down,
            virtual_tracking_id: self.virtual_tracking_id,
            virtual_position: self.virtual_position,
            virtual_touch_major: self.virtual_touch_major,
            virtual_width_major: self.virtual_width_major,
        }
    }
}


impl MultiplexerState {
    /// What every state of the multiplexer satisfies.
    pub open spec fn wf(&self) -> bool {
        self@.wf()
    }

    /// The state of a multiplexer over `touchscreen`, with no contact and
    /// the virtual contact at the centre of the display; `None` when the
    /// display dimension is not positive.
    pub fn new(touchscreen: TouchDevice, display_size: DisplaySize) -> (r: Option<Self>)
        ensures
            r is None <==> (display_size.width <= 0 || display_size.height <= 0),
            r matches Some(s) ==> s.wf() && s@ == initial_view(touchscreen@, display_size),
    {
        if display_size.width <= 0 || display_size.height <= 0 {
            return None;
        }
        let physical_slot_count = touchscreen.slot_count();
        let mut physical_slots: Vec<SlotState> = Vec::new();
        let mut i: usize = 0;
        while i < physical_slot_count
            invariant
                i <= physical_slot_count,
                physical_slots@ == Seq::new(i as nat, |k: int| SlotState::released()),
            decreases physical_slot_count - i,
        {
            physical_slots.push(SlotState::default());
            i = i + 1;
        }
        Some(
            MultiplexerState {
                touchscreen,
                display_size,
                current_physical_slot: 0,
                physical_slots,
                virtual_down: false,
                virtual_tracking_id: None,
                virtual_position: Point::new(display_size.width / 2, display_size.height / 2),
                virtual_touch_major: 1,
                virtual_width_major: 1,
            },
        )
    }

    /// Physical touchscreen description.
    pub fn touchscreen(&self) -> (t: &TouchDevice)
        ensures
            t@ == self@.touchscreen,
    {
        &self.touchscreen
    }

    /// Logical display dimension.
    pub fn display_size(&self) -> (d: DisplaySize)
        ensures
            d == self@.display_size,
    {
        self.display_size
    }

    /// Number of physical slots.
    pub fn physical_slot_count(&self) -> (n: usize)
        ensures
            n == self@.physical_slot_count(),
    {
        self.physical_slots.len()
    }

    /// Slot reserved for the virtual touch: the one after the physical ones.
    pub fn virtual_slot(&self) -> (n: usize)
        ensures
            n == self@.physical_slot_count(),
    {
        self.physical_slots.len()
    }

    /// Total number of slots on the virtual device.
    pub fn total_slot_count(&self) -> (n: usize)
        requires
            self.wf(),
        ensures
            n == self@.physical_slot_count() + 1,
    {
        self.physical_slots.len() + 1
    }

    /// Number of active physical contacts.
    pub fn physical_contact_count(&self) -> (n: usize)
        ensures
            n == count_active(self@.physical_slots),
    {
        let n = self.physical_slots.len();
        let mut count: usize = 0;
        let mut i: usize = 0;
        while i < n
            invariant
                n == self.physical_slots@.len(),
                i <= n,
                count == count_active(self.physical_slots@.take(i as int)),
                count <= i,
            decreases n - i,
        {
            assert(self.physical_slots@.take(i + 1).drop_last() =~= self.physical_slots@.take(i as int));
            if self.physical_slots[i].active {
                count = count + 1;
            }
            i = i + 1;
        }
        assert(self.physical_slots@.take(n as int) =~= self.physical_slots@);
        count
    }

    /// The total number of contacts, physical and virtual.
    pub fn contact_count(&self) -> (n: usize)
        requires
            self.wf(),
        ensures
            n == self@.contact_count(),
    {
        proof {
            lemma_count_active_bound(self@.physical_slots);
        }
        self.physical_contact_count() + if self.virtual_down { 1 } else { 0 }
    }

    /// Whether a virtual touch is active.
    pub fn virtual_touch_active(&self) -> (b: bool)
        ensures
            b == self@.virtual_down,
    {
        self.virtual_down
    }

    /// Current logical position of the virtual touch.
    pub fn virtual_position(&self) -> (p: Point)
        ensures
            p == self@.virtual_position,
    {
        self.virtual_position
    }

    /// Takes in one event of the physical device and says whether it ends
    /// a frame (`SYN_REPORT`), upon which the complete frame is to be
    /// written.
    ///
    /// Only `EV_ABS` events change the state. `BTN_TOUCH` and
    /// `BTN_TOOL_FINGER` of the physical device are not copied: the frame
    /// rebuilds them from the combined slots.
    pub fn handle_event(&mut self, kind: u16, code: u16, value: i32) -> (ends_frame: bool)
        requires
            old(self).wf(),
        ensures
            final(self).wf(),
            final(self)@ == old(self)@.with_event(kind, code, value),
            ends_frame == (kind == EV_SYN && code == SYN_REPORT_CODE),
    {
        if kind == EV_ABS {
            self.handle_abs(code, value);
            return false;
        }
        if kind == EV_SYN {
            return code == SYN_REPORT_CODE;
        }
        false
    }

    fn set_current(&mut self, slot: SlotState)
        requires
            old(self).wf(),
            slot.active <==> slot.tracking_id is Some,
        ensures
            final(self)@ == old(self)@.with_current(slot),
            final(self).wf(),
    {
        let index = self.current_physical_slot;
        self.physical_slots.set(index, slot);
    }

    fn handle_abs(&mut self, code: u16, value: i32)
        requires
            old(self).wf(),
        ensures
            final(self).wf(),
            final(self)@ == old(self)@.with_abs(code, value),
    {
        let slot = self.physical_slots[self.current_physical_slot];
        if code == ABS_MT_SLOT_CODE {
            let slot_count = self.physical_slots.len();
            if 0 <= value && value < slot_count as i32 {
                self.current_physical_slot = value as usize;
            }
        } else if code == ABS_MT_TRACKING_ID_CODE {
            if value < 0 {
                self.set_current(SlotState { active: false, tracking_id: None, ..slot });
            } else {
                self.set_current(SlotState { active: true, tracking_id: Some(value), ..slot });
            }
        } else if code == ABS_MT_POSITION_X_CODE {
            self.set_current(SlotState { x: value, ..slot });
        } else if code == ABS_MT_POSITION_Y_CODE {
            self.set_current(SlotState { y: value, ..slot });
        } else if code == ABS_MT_TOUCH_MAJOR_CODE {
            self.set_current(SlotState { touch_major: value, ..slot });
        } else if code == ABS_MT_WIDTH_MAJOR_CODE {
            self.set_current(SlotState { width_major: value, ..slot });
        }
    }

    /// Presses the virtual touch at `point` (clamped to the display) and
    /// says whether it changed anything; a touch already down stays as it is.
    pub fn touch_down(&mut self, point: Point) -> (changed: bool)
        requires
            old(self).wf(),
        ensures
            final(self).wf(),
            final(self)@ == old(self)@.after_touch_down(point),
            changed == !old(self)@.virtual_down,
    {
        if self.virtual_down {
            return false;
        }
        let tracking_id = self.choose_virtual_tracking_id();
        self.virtual_position = self.clamp_point(point);
        self.virtual_down = true;
        self.virtual_tracking_id = Some(tracking_id);
        true
    }

    /// Moves the virtual touch to `point` (clamped to the display) and
    /// says whether a frame is to be written: only when the touch is down.
    pub fn touch_move(&mut self, point: Point) -> (emit: bool)
        requires
            old(self).wf(),
        ensures
            final(self).wf(),
            final(self)@ == old(self)@.after_touch_move(point),
            emit == old(self)@.virtual_down,
    {
        self.virtual_position = self.clamp_point(point);
        self.virtual_down
    }

    /// Releases the virtual touch and says whether it changed anything.
    pub fn touch_up(&mut self) -> (changed: bool)
        requires
            old(self).wf(),
        ensures
            final(self).wf(),
            final(self)@ == old(self)@.after_touch_up(),
            changed == old(self)@.virtual_down,
    {
        if !self.virtual_down {
            return false;
        }
        self.virtual_down = false;
        self.virtual_tracking_id = None;
        true
    }

    /// Whether the raw ranges allow the conversion of display coordinates,
    /// which building a frame needs.
    pub fn raw_ranges_fit(&self) -> (b: bool)
        requires
            self.wf(),
        ensures
            b == self@.raw_ranges_fit(),
    {
        let x_range = self.touchscreen.x_range();
        let y_range = self.touchscreen.y_range();
        (self.display_size.width <= 1 || (x_range.max as i64 - x_range.min as i64) <= i32::MAX as i64)
            && (self.display_size.height <= 1 || (y_range.max as i64 - y_range.min as i64) <= i32::MAX as i64)
    }

    /// The complete frame of the current state: `BTN_TOUCH` pressed while
    /// any contact is active, every physical slot as it is, and the
    /// virtual contact in the last slot, in raw coordinates.
    pub fn frame(&self) -> (f: Frame)
        requires
            self.wf(),
            self@.raw_ranges_fit(),
        ensures
            f.touch_pressed == (self@.contact_count() > 0),
            f.slots@ == self@.frame_slots(),
    {
        let n = self.physical_slots.len();
        let mut slots: Vec<OutputSlot> = Vec::new();
        let mut i: usize = 0;
        while i < n
            invariant
                n == self@.physical_slot_count(),
                i <= n,
                slots@ == self@.frame_slots().take(i as int),
            decreases n - i,
        {
            let slot = self.physical_slots[i];
            slots.push(
                OutputSlot {
                    active: slot.active,
                    tracking_id: slot.tracking_id,
                    x: slot.x,
                    y: slot.y,
                    touch_major: slot.touch_major,
                    width_major: slot.width_major,
                },
            );
            assert(slots@ =~= self@.frame_slots().take(i + 1));
            i = i + 1;
        }
        slots.push(self.virtual_slot_state());
        assert(slots@ =~= self@.frame_slots());
        let count = self.contact_count();
        Frame { touch_pressed: count > 0, slots }
    }

    fn virtual_slot_state(&self) -> (s: OutputSlot)
        requires
            self.wf(),
            self@.raw_ranges_fit(),
        ensures
            s == self@.virtual_output(),
    {
        let x_range = self.touchscreen.x_range();
        let y_range = self.touchscreen.y_range();
        OutputSlot {
            active: self.virtual_down,
            tracking_id: self.virtual_tracking_id,
            x: display_to_raw(
                self.virtual_position.x,
                0,
                self.display_size.width - 1,
                x_range.min,
                x_range.max,
            ),
            y: display_to_raw(
                self.virtual_position.y,
                0,
                self.display_size.height - 1,
                y_range.min,
                y_range.max,
            ),
            touch_major: self.virtual_touch_major,
            width_major: self.virtual_width_major,
        }
    }

    fn clamp_point(&self, point: Point) -> (p: Point)
        requires
            self.wf(),
        ensures
            p == self@.clamp_point(point),
    {
        Point {
            x: clamp_i32(point.x, 0, self.display_size.width - 1),
            y: clamp_i32(point.y, 0, self.display_size.height - 1),
        }
    }

    fn tracking_id_in_use(&self, candidate: i32) -> (b: bool)
        ensures
            b == id_in_use(self@.physical_slots, candidate as int),
    {
        let n = self.physical_slots.len();
        let mut i: usize = 0;
        while i < n
            invariant
                n == self@.physical_slots.len(),
                i <= n,
                forall|k: int|
                    0 <= k < i ==> !carries(#[trigger] self@.physical_slots[k], candidate as int),
            decreases n - i,
        {
            let slot = self.physical_slots[i];
            if slot.active && slot.tracking_id == Some(candidate) {
                assert(self@.physical_slots[i as int] == slot);
                return true;
            }
            i = i + 1;
        }
        false
    }

    fn choose_virtual_tracking_id(&self) -> (id: i32)
        requires
            self.wf(),
        ensures
            id == self@.virtual_tracking_choice(),
    {
        let range = self.touchscreen.tracking_id_range();
        let start = saturating_sub_i32(range.max, 1024).max(range.min);
        let mut candidate = start;
        while candidate < range.max
            invariant
                start <= candidate <= range.max,
                range == self@.touchscreen.tracking_id_range,
                self@.virtual_tracking_choice() == first_free_id(
                    self@.physical_slots,
                    candidate as int,
                    range.max as int,
                    range.min,
                ),
            decreases range.max - candidate,
        {
            if !self.tracking_id_in_use(candidate) {
                return candidate;
            }
            candidate = candidate + 1;
        }
        range.min
    }
}

/// There are no more active slots than slots.
pub proof fn lemma_count_active_bound(slots: Seq<SlotState>)
    ensures
        count_active(slots) <= slots.len(),
    decreases slots.len(),
{
    if slots.len() > 0 {
        lemma_count_active_bound(slots.drop_last());
    }
}


/// Every state that the multiplexer reaches from a well-formed one, by a
/// physical event or a virtual action, is well-formed: the current slot
/// stays a valid slot, a slot is active exactly when it has a tracking
/// id, the virtual contact is down exactly when it has one, and its
/// position stays on the display.
pub proof fn lemma_transitions_keep_wf(s: MultiplexerView, kind: u16, code: u16, value: i32, p: Point)
    requires
        s.wf(),
    ensures
        s.with_event(kind, code, value).wf(),
        s.after_touch_down(p).wf(),
        s.after_touch_move(p).wf(),
        s.after_touch_up().wf(),
{
    let e = s.with_event(kind, code, value);
    assert forall|i: int| 0 <= i < e.physical_slots.len() implies ((#[trigger] e.physical_slots[i]).active
        <==> e.physical_slots[i].tracking_id is Some) by {
        if i != s.current_physical_slot {
            assert(e.physical_slots[i] == s.physical_slots[i]);
        }
    }
}

/// Physical events never change the virtual contact.
pub proof fn lemma_physical_events_keep_virtual_contact(s: MultiplexerView, kind: u16, code: u16, value: i32)
    ensures
        s.with_event(kind, code, value).virtual_down == s.virtual_down,
        s.with_event(kind, code, value).virtual_tracking_id == s.virtual_tracking_id,
        s.with_event(kind, code, value).virtual_position == s.virtual_position,
        s.with_event(kind, code, value).touchscreen == s.touchscreen,
        s.with_event(kind, code, value).display_size == s.display_size,
{
}

/// Virtual actions never change the physical contacts.
pub proof fn lemma_virtual_actions_keep_physical_contacts(s: MultiplexerView, p: Point)
    ensures
        s.after_touch_down(p).physical_slots == s.physical_slots,
        s.after_touch_down(p).current_physical_slot == s.current_physical_slot,
        s.after_touch_move(p).physical_slots == s.physical_slots,
        s.after_touch_move(p).current_physical_slot == s.current_physical_slot,
        s.after_touch_up().physical_slots == s.physical_slots,
        s.after_touch_up().current_physical_slot == s.current_physical_slot,
{
}

/// Only `EV_SYN` / `SYN_REPORT` ends a frame, and events of other types
/// than `EV_ABS` leave the state as it is.
pub proof fn lemma_non_abs_events_ignored(s: MultiplexerView, kind: u16, code: u16, value: i32)
    requires
        kind != EV_ABS,
    ensures
        s.with_event(kind, code, value) == s,
{
}

/// An `ABS_MT_SLOT` event selects the slot it names when there is one,
/// and is ignored otherwise.
pub proof fn lemma_slot_selection(s: MultiplexerView, value: i32)
    ensures
        0 <= value < s.physical_slot_count() ==> s.with_abs(ABS_MT_SLOT_CODE, value).current_physical_slot
            == value,
        !(0 <= value < s.physical_slot_count()) ==> s.with_abs(ABS_MT_SLOT_CODE, value) == s,
        s.with_abs(ABS_MT_SLOT_CODE, value).physical_slots == s.physical_slots,
{
}

/// A tap (down, then up) leaves the virtual contact released, whatever
/// its state before, and the physical contacts as they were.
pub proof fn lemma_tap_releases(s: MultiplexerView, p: Point)
    ensures
        !s.after_touch_down(p).after_touch_up().virtual_down,
        s.after_touch_down(p).after_touch_up().virtual_tracking_id is None,
        s.after_touch_down(p).after_touch_up().physical_slots == s.physical_slots,
        !s.virtual_down ==> s.after_touch_down(p).after_touch_up().virtual_position == s.clamp_point(p),
{
}

/// Pressing a contact that is down, or releasing one that is up, changes
/// nothing; pressing one that is up presses it at the clamped point.
pub proof fn lemma_touch_down_up_idempotent(s: MultiplexerView, p: Point)
    ensures
        s.virtual_down ==> s.after_touch_down(p) == s,
        !s.virtual_down ==> s.after_touch_up() == s,
        s.after_touch_down(p).virtual_down,
        !s.virtual_down ==> s.after_touch_down(p).virtual_position == s.clamp_point(p),
        s.after_touch_down(p).after_touch_down(p) == s.after_touch_down(p),
        s.after_touch_up().after_touch_up() == s.after_touch_up(),
{
}

/// A clamped point lies on the display.
pub proof fn lemma_clamp_point_on_display(s: MultiplexerView, p: Point)
    requires
        s.display_size.width > 0,
        s.display_size.height > 0,
    ensures
        0 <= s.clamp_point(p).x < s.display_size.width,
        0 <= s.clamp_point(p).y < s.display_size.height,
        0 <= p.x < s.display_size.width && 0 <= p.y < s.display_size.height ==> s.clamp_point(p) == p,
{
}

proof fn lemma_first_free_id(slots: Seq<SlotState>, candidate: int, end: int, fallback: i32)
    requires
        i32::MIN <= candidate,
        end <= i32::MAX,
    ensures
        ({
            let r = first_free_id(slots, candidate, end, fallback);
            (r == fallback && forall|c: int| candidate <= c < end ==> #[trigger] id_in_use(slots, c))
                || (candidate <= r < end && !id_in_use(slots, r as int))
        }),
    decreases end - candidate,
{
    if candidate < end && id_in_use(slots, candidate) {
        lemma_first_free_id(slots, candidate + 1, end, fallback);
        let r = first_free_id(slots, candidate, end, fallback);
        if r == fallback && forall|c: int| candidate + 1 <= c < end ==> #[trigger] id_in_use(slots, c) {
            assert forall|c: int| candidate <= c < end implies #[trigger] id_in_use(slots, c) by {
                if c == candidate {
                } else {
                    assert(candidate + 1 <= c < end);
                }
            }
        }
    }
}

/// The ids carried by active slots, as a set.
pub open spec fn ids_in_use(slots: Seq<SlotState>) -> Set<int> {
    Set::new(|id: int| id_in_use(slots, id))
}

proof fn lemma_ids_in_use_bound(slots: Seq<SlotState>)
    ensures
        ids_in_use(slots).finite(),
        ids_in_use(slots).len() <= slots.len(),
    decreases slots.len(),
{
    if slots.len() == 0 {
        assert(ids_in_use(slots) =~= Set::<int>::empty());
    } else {
        let rest = slots.drop_last();
        lemma_ids_in_use_bound(rest);
        let last = slots.last();
        if last.active && last.tracking_id is Some {
            let id = last.tracking_id.unwrap() as int;
            assert(ids_in_use(slots) =~= ids_in_use(rest).insert(id)) by {
                assert forall|c: int| ids_in_use(slots).contains(c) implies ids_in_use(rest).insert(id).contains(c) by {
                    let i = choose|i: int|
                        0 <= i < slots.len() && carries(#[trigger] slots[i], c);
                    if i < slots.len() - 1 {
                        assert(rest[i] == slots[i]);
                    }
                }
                assert forall|c: int| ids_in_use(rest).insert(id).contains(c) implies ids_in_use(slots).contains(c) by {
                    if c != id {
                        let i = choose|i: int|
                            0 <= i < rest.len() && carries(#[trigger] rest[i], c);
                        assert(slots[i] == rest[i]);
                    } else {
                        assert(slots[slots.len() - 1] == last);
                    }
                }
            }
        } else {
            assert(ids_in_use(slots) =~= ids_in_use(rest)) by {
                assert forall|c: int| ids_in_use(slots).contains(c) implies ids_in_use(rest).contains(c) by {
                    let i = choose|i: int|
                        0 <= i < slots.len() && carries(#[trigger] slots[i], c);
                    if i < slots.len() - 1 {
                        assert(rest[i] == slots[i]);
                    } else {
                        assert(slots[i] == last);
                    }
                }
                assert forall|c: int| ids_in_use(rest).contains(c) implies ids_in_use(slots).contains(c) by {
                    let i = choose|i: int|
                        0 <= i < rest.len() && carries(#[trigger] rest[i], c);
                    assert(slots[i] == rest[i]);
                }
            }
        }
    }
}

/// The tracking id that a new virtual contact takes lies in the
/// touchscreen's tracking id range; when its window holds more ids than
/// there are physical slots, no active physical contact carries it.
pub proof fn lemma_virtual_tracking_id_free(s: MultiplexerView)
    requires
        s.wf(),
    ensures
        s.touchscreen.tracking_id_range.min <= s.virtual_tracking_choice() <= s.touchscreen.tracking_id_range.max,
        s.touchscreen.tracking_id_range.max - s.virtual_id_window_start() > s.physical_slot_count()
            ==> !id_in_use(s.physical_slots, s.virtual_tracking_choice() as int),
{
    let range = s.touchscreen.tracking_id_range;
    let start = s.virtual_id_window_start();
    lemma_first_free_id(s.physical_slots, start, range.max as int, range.min);
    if range.max - start > s.physical_slot_count() && id_in_use(
        s.physical_slots,
        s.virtual_tracking_choice() as int,
    ) {
        let window = Set::new(|c: int| start <= c < range.max);
        assert(window =~= vstd::set_lib::set_int_range(start, range.max as int));
        vstd::set_lib::lemma_int_range(start, range.max as int);
        lemma_ids_in_use_bound(s.physical_slots);
        assert(window.subset_of(ids_in_use(s.physical_slots)));
        vstd::set_lib::lemma_len_subset(window, ids_in_use(s.physical_slots));
        assert(false);
    }
}

/// The frame reproduces every physical slot as it is, puts the virtual
/// contact in the slot after them, and presses `BTN_TOUCH` exactly when
/// some contact, physical or virtual, is active.
pub proof fn lemma_frame_shape(s: MultiplexerView)
    ensures
        s.frame_slots().len() == s.physical_slot_count() + 1,
        forall|i: int| 0 <= i < s.physical_slot_count() ==> #[trigger] s.frame_slots()[i] == s.physical_slots[i].output(),
        s.frame_slots()[s.physical_slot_count() as int] == s.virtual_output(),
        (s.contact_count() > 0) <==> (s.virtual_down || exists|i: int|
            0 <= i < s.physical_slot_count() && (#[trigger] s.physical_slots[i]).active),
{
    lemma_count_active_positive(s.physical_slots);
}

proof fn lemma_count_active_positive(slots: Seq<SlotState>)
    ensures
        (count_active(slots) > 0) <==> exists|i: int| 0 <= i < slots.len() && (#[trigger] slots[i]).active,
    decreases slots.len(),
{
    if slots.len() > 0 {
        let rest = slots.drop_last();
        lemma_count_active_positive(rest);
        if count_active(rest) > 0 {
            let i = choose|i: int| 0 <= i < rest.len() && (#[trigger] rest[i]).active;
            assert(slots[i] == rest[i]);
        }
        if exists|i: int| 0 <= i < slots.len() && (#[trigger] slots[i]).active {
            let i = choose|i: int| 0 <= i < slots.len() && (#[trigger] slots[i]).active;
            if i < slots.len() - 1 {
                assert(rest[i] == slots[i]);
            }
        }
    }
}

/// The raw coordinate lies within the raw range, whichever way it runs.
pub proof fn lemma_raw_within_range(value: int, display_min: int, display_max: int, raw_min: int, raw_max: int)
    requires
        display_min <= display_max,
    ensures
        raw_min <= raw_max ==> raw_min <= raw_of_display(value, display_min, display_max, raw_min, raw_max) <= raw_max,
        raw_max < raw_min ==> raw_max <= raw_of_display(value, display_min, display_max, raw_min, raw_max) <= raw_min,
{
    if display_max != display_min {
        let v = clamp_int(value, display_min, display_max);
        lemma_scaled_within(v - display_min, display_max - display_min, raw_max - raw_min);
    }
}

/// The ends of the display range map onto the ends of the raw range.
pub proof fn lemma_raw_endpoints(display_min: int, display_max: int, raw_min: int, raw_max: int)
    requires
        display_min < display_max,
    ensures
        raw_of_display(display_min, display_min, display_max, raw_min, raw_max) == raw_min,
        raw_of_display(display_max, display_min, display_max, raw_min, raw_max) == raw_max,
{
    let d = display_max - display_min;
    let r = raw_max - raw_min;
    assert(0 * r == 0);
    if r >= 0 {
        assert((d * r) / d == r) by (nonlinear_arith)
            requires
                d > 0,
        ;
    } else {
        assert(d * r == -(d * (-r))) by (nonlinear_arith);
        assert(d * r < 0) by (nonlinear_arith)
            requires
                d > 0,
                r < 0,
        ;
        assert((d * (-r)) / d == -r) by (nonlinear_arith)
            requires
                d > 0,
        ;
    }
}

/// Over a raw range that runs upward, a larger display coordinate never
/// gives a smaller raw one.
pub proof fn lemma_raw_monotonic(v1: int, v2: int, display_min: int, display_max: int, raw_min: int, raw_max: int)
    requires
        display_min <= display_max,
        raw_min <= raw_max,
        v1 <= v2,
    ensures
        raw_of_display(v1, display_min, display_max, raw_min, raw_max) <= raw_of_display(
            v2,
            display_min,
            display_max,
            raw_min,
            raw_max,
        ),
{
    if display_max != display_min {
        let c1 = clamp_int(v1, display_min, display_max) - display_min;
        let c2 = clamp_int(v2, display_min, display_max) - display_min;
        let d = display_max - display_min;
        let r = raw_max - raw_min;
        assert(0 <= c1 * r <= c2 * r) by (nonlinear_arith)
            requires
                0 <= c1 <= c2,
                r >= 0,
        ;
        assert((c1 * r) / d <= (c2 * r) / d) by (nonlinear_arith)
            requires
                0 <= c1 * r <= c2 * r,
                d > 0,
        ;
    }
}


/// The virtual touchscreen made for the multiplexer's touchscreen accepts
/// every slot of every frame, and so the whole frame: the slots are its
/// slots, and each active one carries a tracking id.
pub proof fn lemma_frame_accepted(m: MultiplexerView, v: VirtualTouchscreenView, touch_pressed: bool)
    requires
        m.wf(),
        v.physical_slot_count == m.physical_slot_count(),
    ensures
        forall|i: int|
            0 <= i < m.frame_slots().len() ==> (#[trigger] v.slot_update(i as usize, m.frame_slots()[i])) is Ok,
        v.frame_events(touch_pressed, m.frame_slots()) is Ok,
{
    assert forall|i: int| 0 <= i < m.frame_slots().len() implies (#[trigger] v.slot_update(
        i as usize,
        m.frame_slots()[i],
    )) is Ok by {
        if i < m.physical_slot_count() {
            assert(m.frame_slots()[i] == m.physical_slots[i].output());
        }
    }
    assert forall|j: int| 0 <= j < m.frame_slots().len() + 2 implies (#[trigger] v.frame_step(
        touch_pressed,
        m.frame_slots(),
        j,
    )) is Ok by {
        if 1 <= j <= m.frame_slots().len() {
            assert(v.slot_update((j - 1) as usize, m.frame_slots()[j - 1]) is Ok);
        }
    }
    lemma_frame_events_accepted(v, touch_pressed, m.frame_slots(), 0);
}


/// Once the multiplexer's frame is written to the virtual touchscreen
/// made for its touchscreen, the virtual device mirrors the multiplexer:
/// each physical slot holds the physical contact (released when it is
/// lifted), the last slot holds the virtual contact (released when it is
/// up), and `BTN_TOUCH` is pressed exactly while some contact is active.
pub proof fn lemma_frame_mirrors_state(m: MultiplexerView, v: VirtualTouchscreenView)
    requires
        m.wf(),
        v.wf(),
        v.physical_slot_count == m.physical_slot_count(),
    ensures
        ({
            let w = v.after_frame(m.contact_count() > 0, m.frame_slots());
            &&& w.slots.len() == m.physical_slot_count() + 1
            &&& forall|i: int|
                0 <= i < m.physical_slot_count() ==> #[trigger] w.slots[i] == (if m.physical_slots[i].active {
                    m.physical_slots[i].output()
                } else {
                    OutputSlot::released()
                })
            &&& w.slots[m.physical_slot_count() as int] == (if m.virtual_down {
                m.virtual_output()
            } else {
                OutputSlot::released()
            })
            &&& w.btn_touch == (m.contact_count() > 0)
        }),
{
    lemma_frame_shape(m);
    lemma_frame_written(v, m.contact_count() > 0, m.frame_slots());
    let w = v.after_frame(m.contact_count() > 0, m.frame_slots());
    assert forall|i: int| 0 <= i < m.physical_slot_count() implies #[trigger] w.slots[i] == (
    if m.physical_slots[i].active {
        m.physical_slots[i].output()
    } else {
        OutputSlot::released()
    }) by {
        assert(m.frame_slots()[i] == m.physical_slots[i].output());
    }
    assert(w.slots[m.physical_slot_count() as int] == VirtualTouchscreenView::recorded(
        m.frame_slots()[m.physical_slot_count() as int],
    ));
}

/// The virtual contact's slot of the frame is the virtual contact in raw
/// coordinates: its display x is scaled from `0..=width - 1` onto the raw X
/// range and its display y from `0..=height - 1` onto the raw Y range
/// (rounding toward the range's minimum), a display one pixel wide or high
/// giving the range's minimum; it is active with the virtual tracking id
/// exactly while the virtual touch is down, with contact dimensions 1.
pub proof fn lemma_virtual_contact_raw_position(m: MultiplexerView)
    requires
        m.wf(),
    ensures
        ({
            let v = m.frame_slots()[m.physical_slot_count() as int];
            let w = m.display_size.width as int;
            let h = m.display_size.height as int;
            let xr = m.touchscreen.x_range;
            let yr = m.touchscreen.y_range;
            &&& m.frame_slots().len() == m.physical_slot_count() + 1
            &&& v.active == m.virtual_down
            &&& v.tracking_id == m.virtual_tracking_id
            &&& (w > 1 ==> v.x == xr.min + (m.virtual_position.x * (xr.max - xr.min)) / (w - 1))
            &&& (w == 1 ==> v.x == xr.min)
            &&& (h > 1 ==> v.y == yr.min + (m.virtual_position.y * (yr.max - yr.min)) / (h - 1))
            &&& (h == 1 ==> v.y == yr.min)
            &&& v.touch_major == 1
            &&& v.width_major == 1
        }),
{
    lemma_frame_shape(m);
    let w = m.display_size.width as int;
    let h = m.display_size.height as int;
    let xr = m.touchscreen.x_range;
    let yr = m.touchscreen.y_range;
    let px = m.virtual_position.x as int;
    let py = m.virtual_position.y as int;
    lemma_raw_within_range(px, 0, w - 1, xr.min as int, xr.max as int);
    lemma_raw_within_range(py, 0, h - 1, yr.min as int, yr.max as int);
    assert(clamp_int(px, 0, w - 1) == px);
    assert(clamp_int(py, 0, h - 1) == py);
    assert(px * (xr.max - xr.min) >= 0) by (nonlinear_arith)
        requires
            px >= 0,
            xr.max - xr.min > 0,
    ;
    assert(py * (yr.max - yr.min) >= 0) by (nonlinear_arith)
        requires
            py >= 0,
            yr.max - yr.min > 0,
    ;
}

/// The indices of the active slots.
pub open spec fn active_slot_indices(slots: Seq<SlotState>) -> Set<int> {
    Set::new(|i: int| 0 <= i < slots.len() && slots[i].active)
}

/// Counting the active slots counts the indices of the active slots.
pub proof fn lemma_count_active_is_card(slots: Seq<SlotState>)
    ensures
        active_slot_indices(slots).finite(),
        count_active(slots) == active_slot_indices(slots).len(),
    decreases slots.len(),
{
    if slots.len() == 0 {
        assert(active_slot_indices(slots) =~= Set::<int>::empty());
    } else {
        let rest = slots.drop_last();
        let n = slots.len() - 1;
        lemma_count_active_is_card(rest);
        if slots.last().active {
            assert(active_slot_indices(slots) =~= active_slot_indices(rest).insert(n));
            assert(!active_slot_indices(rest).contains(n));
        } else {
            assert(active_slot_indices(slots) =~= active_slot_indices(rest));
        }
    }
}

/// The number of contacts is the number of active physical slots, plus
/// one exactly while the virtual touch is down; pressing the virtual touch
/// adds one contact, releasing it removes one, and moving it changes none.
pub proof fn lemma_contact_count(m: MultiplexerView, p: Point)
    requires
        m.wf(),
    ensures
        active_slot_indices(m.physical_slots).finite(),
        m.contact_count() == active_slot_indices(m.physical_slots).len() + (if m.virtual_down {
            1int
        } else {
            0int
        }),
        !m.virtual_down ==> m.after_touch_down(p).contact_count() == m.contact_count() + 1,
        m.virtual_down ==> m.after_touch_up().contact_count() + 1 == m.contact_count(),
        m.after_touch_move(p).contact_count() == m.contact_count(),
{
    lemma_count_active_is_card(m.physical_slots);
}

/// A physical `EV_ABS` event other than `ABS_MT_SLOT` changes only the
/// current physical slot, and only the field that its code names: the
/// tracking id (a negative one lifts the contact, any other one puts it
/// down with that id), X, Y, the touch major or the width major; the slot
/// selection and the virtual contact stay as they were, and any other code
/// changes nothing.
pub proof fn lemma_physical_event_fields(m: MultiplexerView, code: u16, value: i32)
    requires
        m.wf(),
        code != ABS_MT_SLOT_CODE,
    ensures
        ({
            let c = m.current_physical_slot as int;
            let s = m.physical_slots[c];
            let t = m.with_event(EV_ABS, code, value);
            let n = t.physical_slots[c];
            &&& t.physical_slots.len() == m.physical_slots.len()
            &&& t.current_physical_slot == m.current_physical_slot
            &&& t.virtual_down == m.virtual_down
            &&& t.virtual_tracking_id == m.virtual_tracking_id
            &&& t.virtual_position == m.virtual_position
            &&& forall|i: int| 0 <= i < m.physical_slots.len() && i != c ==> #[trigger] t.physical_slots[i]
                == m.physical_slots[i]
            &&& (code == ABS_MT_TRACKING_ID_CODE && value < 0 ==> n == SlotState {
                active: false,
                tracking_id: None,
                ..s
            })
            &&& (code == ABS_MT_TRACKING_ID_CODE && value >= 0 ==> n == SlotState {
                active: true,
                tracking_id: Some(value),
                ..s
            })
            &&& (code == ABS_MT_POSITION_X_CODE ==> n == SlotState { x: value, ..s })
            &&& (code == ABS_MT_POSITION_Y_CODE ==> n == SlotState { y: value, ..s })
            &&& (code == ABS_MT_TOUCH_MAJOR_CODE ==> n == SlotState { touch_major: value, ..s })
            &&& (code == ABS_MT_WIDTH_MAJOR_CODE ==> n == SlotState { width_major: value, ..s })
            &&& (code != ABS_MT_TRACKING_ID_CODE && code != ABS_MT_POSITION_X_CODE && code
                != ABS_MT_POSITION_Y_CODE && code != ABS_MT_TOUCH_MAJOR_CODE && code
                != ABS_MT_WIDTH_MAJOR_CODE ==> t == m)
        }),
{
}

/// A multiplexer that has just opened a touchscreen has one released slot
/// per physical slot with the first one selected, no contact at all, and
/// the virtual contact up at the centre of the display.
pub proof fn lemma_initial_state(touchscreen: TouchDeviceView, display_size: DisplaySize)
    requires
        touchscreen.wf(),
        display_size.width > 0,
        display_size.height > 0,
    ensures
        ({
            let m = initial_view(touchscreen, display_size);
            &&& m.wf()
            &&& m.physical_slots.len() == touchscreen.slot_range.max + 1
            &&& m.current_physical_slot == 0
            &&& forall|i: int| 0 <= i < m.physical_slots.len() ==> !(#[trigger] m.physical_slots[i]).active
            &&& m.contact_count() == 0
            &&& !m.virtual_down
            &&& m.virtual_position.x == display_size.width / 2
            &&& m.virtual_position.y == display_size.height / 2
        }),
{
    let m = initial_view(touchscreen, display_size);
    lemma_count_active_positive(m.physical_slots);
}

} // verus!
