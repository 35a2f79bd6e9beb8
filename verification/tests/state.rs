use std::time::Duration;

use ainput::device::{AbsAxisInfo, DeviceCapabilities};
use ainput::multiplexer::{readiness_start, readiness_step, MultiplexerState, ReadinessStep, StartupPlan};
use ainput::uinput::{virtual_axis_setups, virtual_device_name, EventRecord, VirtualTouchscreenState};
use ainput::{DisplaySize, OutputSlot, Point, TouchDevice, TouchMultiplexerBuilder, UInputError};

const EV_SYN: u16 = 0;
const EV_KEY: u16 = 1;
const EV_ABS: u16 = 3;
const BTN_TOUCH: u16 = 0x14a;
const BTN_TOOL_FINGER: u16 = 0x145;
const ABS_MT_SLOT: u16 = 0x2f;
const ABS_MT_TOUCH_MAJOR: u16 = 0x30;
const ABS_MT_WIDTH_MAJOR: u16 = 0x32;
const ABS_MT_POSITION_X: u16 = 0x35;
const ABS_MT_POSITION_Y: u16 = 0x36;
const ABS_MT_TRACKING_ID: u16 = 0x39;

fn device(slots_max: i32, tracking: (i32, i32), with_major: bool) -> TouchDevice {
    let mut infos = vec![
        AbsAxisInfo { axis: ABS_MT_SLOT, minimum: 0, maximum: slots_max },
        AbsAxisInfo { axis: ABS_MT_POSITION_X, minimum: 0, maximum: 1079 },
        AbsAxisInfo { axis: ABS_MT_POSITION_Y, minimum: 0, maximum: 2399 },
        AbsAxisInfo { axis: ABS_MT_TRACKING_ID, minimum: tracking.0, maximum: tracking.1 },
    ];
    if with_major {
        infos.push(AbsAxisInfo { axis: ABS_MT_TOUCH_MAJOR, minimum: 0, maximum: 30 });
        infos.push(AbsAxisInfo { axis: ABS_MT_WIDTH_MAJOR, minimum: 0, maximum: 20 });
    }
    let caps = DeviceCapabilities {
        name: Some("ts".to_string()),
        event_types: vec![EV_SYN, EV_KEY, EV_ABS],
        absolute_axes: Some(vec![ABS_MT_SLOT, ABS_MT_POSITION_X, ABS_MT_POSITION_Y, ABS_MT_TRACKING_ID]),
        keys: Some(vec![BTN_TOUCH]),
        properties: vec![1],
        abs_info: Ok(infos),
    };
    TouchDevice::inspect("/dev/input/event2".to_string(), caps).unwrap().unwrap()
}

fn abs(code: u16, value: i32) -> EventRecord {
    EventRecord { kind: EV_ABS, code, value }
}

fn state() -> MultiplexerState {
    MultiplexerState::new(device(9, (0, 65535), false), DisplaySize::new(720, 1600)).unwrap()
}

#[test]
fn state_rejects_invalid_display() {
    assert!(MultiplexerState::new(device(9, (0, 65535), false), DisplaySize::new(0, 1600)).is_none());
    assert!(MultiplexerState::new(device(9, (0, 65535), false), DisplaySize::new(720, -1)).is_none());
}

#[test]
fn state_initial() {
    let s = state();
    assert_eq!(s.physical_slot_count(), 10);
    assert_eq!(s.virtual_slot(), 10);
    assert_eq!(s.total_slot_count(), 11);
    assert_eq!(s.contact_count(), 0);
    assert!(!s.virtual_touch_active());
    assert_eq!(s.virtual_position(), Point::new(360, 800));
    assert_eq!(s.display_size(), DisplaySize::new(720, 1600));
    assert_eq!(s.touchscreen().slot_count(), 10);
}

#[test]
fn physical_events_build_slots() {
    let mut s = state();
    assert!(!s.handle_event(EV_ABS, ABS_MT_SLOT, 2));
    assert!(!s.handle_event(EV_ABS, ABS_MT_TRACKING_ID, 7));
    assert!(!s.handle_event(EV_ABS, ABS_MT_POSITION_X, 100));
    assert!(!s.handle_event(EV_ABS, ABS_MT_POSITION_Y, 200));
    assert!(!s.handle_event(EV_ABS, ABS_MT_TOUCH_MAJOR, 6));
    assert!(!s.handle_event(EV_ABS, ABS_MT_WIDTH_MAJOR, 4));
    assert!(!s.handle_event(EV_KEY, BTN_TOUCH, 1));
    assert!(!s.handle_event(EV_SYN, 3, 0));
    assert!(s.handle_event(EV_SYN, 0, 0));
    assert_eq!(s.physical_contact_count(), 1);
    assert_eq!(s.contact_count(), 1);
    let frame = s.frame();
    assert!(frame.touch_pressed);
    assert_eq!(frame.slots.len(), 11);
    assert_eq!(
        frame.slots[2],
        OutputSlot { active: true, tracking_id: Some(7), x: 100, y: 200, touch_major: 6, width_major: 4 }
    );
    assert_eq!(frame.slots[0], OutputSlot::default());
    assert!(!frame.slots[10].active);

    // Out-of-range slot selection is ignored; the contact lifts.
    s.handle_event(EV_ABS, ABS_MT_SLOT, 10);
    s.handle_event(EV_ABS, ABS_MT_TRACKING_ID, -1);
    let frame = s.frame();
    assert!(!frame.touch_pressed);
    assert_eq!(frame.slots[2].tracking_id, None);
    assert!(!frame.slots[2].active);
    assert_eq!(frame.slots[2].x, 100);
}

#[test]
fn virtual_touch_lifecycle() {
    let mut s = state();
    assert!(!s.touch_move(Point::new(10, 20)));
    assert_eq!(s.virtual_position(), Point::new(10, 20));
    assert!(s.touch_down(Point::new(-5, 5000)));
    assert_eq!(s.virtual_position(), Point::new(0, 1599));
    assert!(s.virtual_touch_active());
    assert!(!s.touch_down(Point::new(100, 100)));
    assert_eq!(s.virtual_position(), Point::new(0, 1599));
    let frame = s.frame();
    assert!(frame.touch_pressed);
    let v = frame.slots[10];
    assert!(v.active);
    assert_eq!(v.tracking_id, Some(65535 - 1024));
    assert_eq!(v.x, 0);
    assert_eq!(v.y, 2399);
    assert_eq!(v.touch_major, 1);
    assert_eq!(v.width_major, 1);
    assert!(s.touch_move(Point::new(719, 0)));
    let v = s.frame().slots[10];
    assert_eq!((v.x, v.y), (1079, 0));
    assert!(s.touch_up());
    assert!(!s.touch_up());
    assert!(!s.virtual_touch_active());
    assert!(!s.frame().touch_pressed);
    assert_eq!(s.frame().slots[10].tracking_id, None);
}

#[test]
fn virtual_tracking_id_avoids_physical_ids() {
    let mut s = MultiplexerState::new(device(2, (0, 100), false), DisplaySize::new(720, 1600)).unwrap();
    // Window is 0..100; occupy 0 and 1.
    s.handle_event(EV_ABS, ABS_MT_SLOT, 0);
    s.handle_event(EV_ABS, ABS_MT_TRACKING_ID, 0);
    s.handle_event(EV_ABS, ABS_MT_SLOT, 1);
    s.handle_event(EV_ABS, ABS_MT_TRACKING_ID, 1);
    s.touch_down(Point::new(1, 1));
    assert_eq!(s.frame().slots[3].tracking_id, Some(2));
}

#[test]
fn virtual_tracking_id_fallback() {
    // The window 0..1 is taken by a physical contact: fall back to the minimum.
    let mut s = MultiplexerState::new(device(0, (0, 1), false), DisplaySize::new(720, 1600)).unwrap();
    s.handle_event(EV_ABS, ABS_MT_TRACKING_ID, 0);
    s.touch_down(Point::new(1, 1));
    assert_eq!(s.frame().slots[1].tracking_id, Some(0));
}

#[test]
fn virtual_tracking_id_saturates_at_bottom() {
    let mut s = MultiplexerState::new(device(0, (i32::MIN, i32::MIN + 10), false), DisplaySize::new(720, 1600))
        .unwrap();
    s.touch_down(Point::new(1, 1));
    assert_eq!(s.frame().slots[1].tracking_id, Some(i32::MIN));
}

#[test]
fn raw_ranges_fit_check() {
    let s = state();
    assert!(s.raw_ranges_fit());
}

#[test]
fn virtual_device_axes() {
    let axes = virtual_axis_setups(&device(9, (0, 65535), true));
    let summary: Vec<(u16, i32, i32, i32)> = axes.iter().map(|a| (a.axis, a.value, a.minimum, a.maximum)).collect();
    assert_eq!(
        summary,
        vec![
            (ABS_MT_SLOT, 0, 0, 10),
            (ABS_MT_TRACKING_ID, -1, 0, 65535),
            (ABS_MT_POSITION_X, 0, 0, 1079),
            (ABS_MT_POSITION_Y, 0, 0, 2399),
            (ABS_MT_TOUCH_MAJOR, 0, 0, 30),
            (ABS_MT_WIDTH_MAJOR, 0, 0, 20),
        ]
    );
    assert!(axes.iter().all(|a| a.fuzz == 0 && a.flat == 0 && a.resolution == 0));
    assert_eq!(virtual_axis_setups(&device(0, (0, 9), false)).len(), 4);
    assert_eq!(virtual_device_name(), "Input Injector");
}

#[test]
fn virtual_device_slots() {
    let mut out = VirtualTouchscreenState::new(&device(9, (0, 65535), true));
    assert_eq!(out.physical_slot_count(), 10);
    assert_eq!(out.total_slot_count(), 11);
    assert_eq!(out.virtual_slot(), 10);
    assert_eq!(out.x_range(), (0, 1079));
    assert_eq!(out.y_range(), (0, 2399));
    assert_eq!(out.tracking_id_range(), (0, 65535));
    assert!(out.contact_ranges_ordered());
    assert_eq!(out.output_slot(3).unwrap(), OutputSlot::default());

    let state = OutputSlot { active: true, tracking_id: Some(4), x: 5000, y: -3, touch_major: 99, width_major: 7 };
    let events = out.slot_events(3, state).unwrap();
    assert_eq!(
        events,
        vec![
            abs(ABS_MT_SLOT, 3),
            abs(ABS_MT_TRACKING_ID, 4),
            abs(ABS_MT_POSITION_X, 1079),
            abs(ABS_MT_POSITION_Y, 0),
            abs(ABS_MT_TOUCH_MAJOR, 30),
            abs(ABS_MT_WIDTH_MAJOR, 7),
        ]
    );
    out.record_slot(3, state);
    assert_eq!(out.output_slot(3).unwrap(), state);

    let released = OutputSlot { active: false, tracking_id: Some(4), x: 1, y: 2, touch_major: 3, width_major: 4 };
    assert_eq!(out.slot_events(3, released).unwrap(), vec![abs(ABS_MT_SLOT, 3), abs(ABS_MT_TRACKING_ID, -1)]);
    out.record_slot(3, released);
    assert_eq!(out.output_slot(3).unwrap(), OutputSlot::default());
    assert_eq!(out.release_events(10).unwrap(), vec![abs(ABS_MT_SLOT, 10), abs(ABS_MT_TRACKING_ID, -1)]);
}

#[test]
fn virtual_device_slot_errors() {
    let out = VirtualTouchscreenState::new(&device(9, (0, 65535), false));
    match out.slot_events(11, OutputSlot::default()) {
        Err(UInputError::InvalidSlot { slot, slot_count }) => assert_eq!((slot, slot_count), (11, 11)),
        other => panic!("unexpected {other:?}"),
    }
    match out.output_slot(20) {
        Err(UInputError::InvalidSlot { slot, slot_count }) => assert_eq!((slot, slot_count), (20, 11)),
        other => panic!("unexpected {other:?}"),
    }
    let no_id = OutputSlot { active: true, tracking_id: None, x: 0, y: 0, touch_major: 0, width_major: 0 };
    match out.slot_events(1, no_id) {
        Err(UInputError::ActiveSlotWithoutTrackingId { slot }) => assert_eq!(slot, 1),
        other => panic!("unexpected {other:?}"),
    }
    // Without contact dimensions, only position events follow the id.
    let st = OutputSlot { active: true, tracking_id: Some(1), x: 2, y: 3, touch_major: 4, width_major: 5 };
    assert_eq!(out.slot_events(0, st).unwrap().len(), 4);
}

#[test]
fn virtual_device_buttons_and_sync() {
    let mut out = VirtualTouchscreenState::new(&device(9, (0, 65535), false));
    assert!(!out.touch_pressed());
    assert!(out.touch_state_events(false).is_empty());
    let events = out.touch_state_events(true);
    assert_eq!(
        events,
        vec![
            EventRecord { kind: EV_KEY, code: BTN_TOOL_FINGER, value: 1 },
            EventRecord { kind: EV_KEY, code: BTN_TOUCH, value: 1 },
        ]
    );
    out.record_touch_state(true);
    assert!(out.touch_pressed());
    assert!(out.touch_state_events(true).is_empty());
    assert_eq!(out.touch_state_events(false)[1], EventRecord { kind: EV_KEY, code: BTN_TOUCH, value: 0 });
    assert_eq!(out.sync_events(), vec![EventRecord { kind: EV_SYN, code: 0, value: 0 }]);
}

#[test]
fn uinput_error_messages() {
    assert_eq!(UInputError::InvalidSlot { slot: 12, slot_count: 11 }.message(), "slot 12 is invalid; device has 11 slots");
    assert_eq!(UInputError::ActiveSlotWithoutTrackingId { slot: 3 }.message(), "slot 3 is active without tracking_id");
    let io = UInputError::from(std::io::Error::new(std::io::ErrorKind::Other, "gone"));
    assert_eq!(io.message(), "gone");
}

#[test]
fn builder_defaults_and_plan() {
    let b = TouchMultiplexerBuilder::new();
    assert_eq!(b.configured_display_size(), DisplaySize::new(720, 1600));
    assert!(matches!(b.startup_plan(), StartupPlan::Sleep(d) if d == Duration::from_secs(1)));
    let b = b.startup_delay(Duration::ZERO).display_size(DisplaySize::new(1080, 2400));
    assert_eq!(b.configured_display_size(), DisplaySize::new(1080, 2400));
    assert!(matches!(b.startup_plan(), StartupPlan::Immediate));
    let b = b.startup_check(20, Duration::from_millis(50));
    assert!(matches!(
        b.startup_plan(),
        StartupPlan::Check { retries: 20, delay } if delay == Duration::from_millis(50)
    ));
}

#[test]
fn readiness_steps() {
    assert_eq!(readiness_start(0), ReadinessStep::NotReady);
    assert_eq!(readiness_start(3), ReadinessStep::Attempt);
    assert_eq!(readiness_step(1, 3, false), ReadinessStep::Attempt);
    assert_eq!(readiness_step(2, 3, true), ReadinessStep::Ready);
    assert_eq!(readiness_step(3, 3, false), ReadinessStep::NotReady);
    assert_eq!(readiness_step(3, 3, true), ReadinessStep::Ready);
    // Running a check whose third attempt succeeds makes three attempts.
    let mut attempts = 0;
    let mut step = readiness_start(5);
    while step == ReadinessStep::Attempt {
        attempts += 1;
        step = readiness_step(attempts, 5, attempts == 3);
    }
    assert_eq!((attempts, step), (3, ReadinessStep::Ready));
}

#[test]
fn decimal_text() {
    let mut s = String::new();
    ainput::text::push_int_decimal(&mut s, -1234567);
    s.push(' ');
    ainput::text::push_int_decimal(&mut s, 0);
    s.push(' ');
    ainput::text::push_int_decimal(&mut s, i64::MIN);
    assert_eq!(s, format!("-1234567 0 {}", i64::MIN));
}

fn device_with_reversed_touch_major() -> TouchDevice {
    let caps = DeviceCapabilities {
        name: Some("ts".to_string()),
        event_types: vec![EV_SYN, EV_KEY, EV_ABS],
        absolute_axes: Some(vec![ABS_MT_SLOT, ABS_MT_POSITION_X, ABS_MT_POSITION_Y, ABS_MT_TRACKING_ID]),
        keys: Some(vec![BTN_TOUCH]),
        properties: vec![1],
        abs_info: Ok(vec![
            AbsAxisInfo { axis: ABS_MT_SLOT, minimum: 0, maximum: 1 },
            AbsAxisInfo { axis: ABS_MT_POSITION_X, minimum: 0, maximum: 100 },
            AbsAxisInfo { axis: ABS_MT_POSITION_Y, minimum: 0, maximum: 100 },
            AbsAxisInfo { axis: ABS_MT_TRACKING_ID, minimum: 0, maximum: 100 },
            AbsAxisInfo { axis: ABS_MT_TOUCH_MAJOR, minimum: 10, maximum: 0 },
        ]),
    };
    TouchDevice::inspect("/dev/input/event2".to_string(), caps).unwrap().unwrap()
}

#[test]
fn invalid_slot_refused_whatever_the_ranges() {
    let out = VirtualTouchscreenState::new(&device_with_reversed_touch_major());
    assert!(!out.contact_ranges_ordered());
    let state = OutputSlot { active: true, tracking_id: Some(1), x: 0, y: 0, touch_major: 5, width_major: 0 };
    assert!(!out.writes_contact(99, state));
    assert!(out.writes_contact(0, state));
    match out.slot_events(99, state) {
        Err(UInputError::InvalidSlot { slot, slot_count }) => assert_eq!((slot, slot_count), (99, 3)),
        other => panic!("unexpected {other:?}"),
    }
}

#[test]
fn frame_steps_and_events() {
    let mut s = state();
    s.handle_event(EV_ABS, ABS_MT_SLOT, 1);
    s.handle_event(EV_ABS, ABS_MT_TRACKING_ID, 3);
    s.handle_event(EV_ABS, ABS_MT_POSITION_X, 10);
    s.handle_event(EV_ABS, ABS_MT_POSITION_Y, 20);
    let frame = s.frame();
    let mut out = VirtualTouchscreenState::new(s.touchscreen());
    let n = out.frame_step_count(&frame.slots);
    assert_eq!(n, 13);
    let events = out.frame_events(frame.touch_pressed, &frame.slots).unwrap();
    assert_eq!(events[0], EventRecord { kind: EV_KEY, code: BTN_TOOL_FINGER, value: 1 });
    assert_eq!(events[1], EventRecord { kind: EV_KEY, code: BTN_TOUCH, value: 1 });
    assert_eq!(events[2], abs(ABS_MT_SLOT, 0));
    assert_eq!(events[3], abs(ABS_MT_TRACKING_ID, -1));
    assert_eq!(&events[4..8], &[abs(ABS_MT_SLOT, 1), abs(ABS_MT_TRACKING_ID, 3), abs(ABS_MT_POSITION_X, 10), abs(ABS_MT_POSITION_Y, 20)]);
    assert_eq!(*events.last().unwrap(), EventRecord { kind: EV_SYN, code: 0, value: 0 });
    assert_eq!(events.iter().filter(|e| e.kind == EV_SYN).count(), 1);
    // 2 button events, 9 released slots of 2 events, 1 contact of 4, the released virtual slot, SYN.
    assert_eq!(events.len(), 2 + 9 * 2 + 4 + 2 + 1);

    let mut written = Vec::new();
    for k in 0..n {
        written.extend(out.frame_step(frame.touch_pressed, &frame.slots, k).unwrap());
        out.record_frame_step(frame.touch_pressed, &frame.slots, k);
    }
    assert_eq!(written, events);
    assert!(out.touch_pressed());
    assert_eq!(out.output_slot(1).unwrap(), frame.slots[1]);
    // Once written, the buttons are not written again.
    let again = out.frame_events(frame.touch_pressed, &frame.slots).unwrap();
    assert_eq!(again.len(), events.len() - 2);
}

#[test]
fn frame_events_first_refused_step() {
    let out = VirtualTouchscreenState::new(&device(0, (0, 10), false));
    let slots = vec![
        OutputSlot { active: true, tracking_id: None, x: 0, y: 0, touch_major: 0, width_major: 0 },
        OutputSlot::default(),
    ];
    match out.frame_events(false, &slots) {
        Err(UInputError::ActiveSlotWithoutTrackingId { slot }) => assert_eq!(slot, 0),
        other => panic!("unexpected {other:?}"),
    }
    let slots = vec![OutputSlot::default(), OutputSlot::default(), OutputSlot::default()];
    match out.frame_events(false, &slots) {
        Err(UInputError::InvalidSlot { slot, slot_count }) => assert_eq!((slot, slot_count), (2, 2)),
        other => panic!("unexpected {other:?}"),
    }
}
