use ainput::device::{select_touchscreen, AbsAxisInfo, DeviceCapabilities};
use ainput::{AxisRange, OptionalAxisRange, TouchDevice, TouchDeviceError};

const EV_SYN: u16 = 0;
const EV_KEY: u16 = 1;
const EV_ABS: u16 = 3;
const BTN_TOUCH: u16 = 0x14a;
const BTN_TOOL_FINGER: u16 = 0x145;
const PROP_DIRECT: u16 = 1;
const ABS_MT_SLOT: u16 = 0x2f;
const ABS_MT_TOUCH_MAJOR: u16 = 0x30;
const ABS_MT_WIDTH_MAJOR: u16 = 0x32;
const ABS_MT_POSITION_X: u16 = 0x35;
const ABS_MT_POSITION_Y: u16 = 0x36;
const ABS_MT_TRACKING_ID: u16 = 0x39;

fn info(axis: u16, minimum: i32, maximum: i32) -> AbsAxisInfo {
    AbsAxisInfo { axis, minimum, maximum }
}

fn touchscreen_caps(name: &str, slots_max: i32) -> DeviceCapabilities {
    DeviceCapabilities {
        name: Some(name.to_string()),
        event_types: vec![EV_SYN, EV_KEY, EV_ABS],
        absolute_axes: Some(vec![
            ABS_MT_SLOT,
            ABS_MT_TOUCH_MAJOR,
            ABS_MT_WIDTH_MAJOR,
            ABS_MT_POSITION_X,
            ABS_MT_POSITION_Y,
            ABS_MT_TRACKING_ID,
        ]),
        keys: Some(vec![BTN_TOOL_FINGER, BTN_TOUCH]),
        properties: vec![PROP_DIRECT],
        abs_info: Ok(vec![
            info(ABS_MT_SLOT, 0, slots_max),
            info(ABS_MT_TOUCH_MAJOR, 0, 255),
            info(ABS_MT_WIDTH_MAJOR, 0, 127),
            info(ABS_MT_POSITION_X, 0, 1079),
            info(ABS_MT_POSITION_Y, 0, 2399),
            info(ABS_MT_TRACKING_ID, 0, 65535),
        ]),
    }
}

fn detect(path: &str, caps: DeviceCapabilities) -> TouchDevice {
    TouchDevice::inspect(path.to_string(), caps).unwrap().unwrap()
}

#[test]
fn inspect_accepts_full_touchscreen() {
    let device = detect("/dev/input/event2", touchscreen_caps("sec_touchscreen", 9));
    assert_eq!(device.path(), "/dev/input/event2");
    assert_eq!(device.name(), "sec_touchscreen");
    assert_eq!(device.slot_range(), AxisRange::new(0, 9));
    assert_eq!(device.slot_count(), 10);
    assert_eq!(device.x_range(), AxisRange::new(0, 1079));
    assert_eq!(device.y_range(), AxisRange::new(0, 2399));
    assert_eq!(device.tracking_id_range(), AxisRange::new(0, 65535));
    assert_eq!(device.touch_major_range(), Some(OptionalAxisRange { min: 0, max: 255 }));
    assert_eq!(device.width_major_range(), Some(OptionalAxisRange { min: 0, max: 127 }));
    assert!(device.has_btn_touch());
    assert!(device.has_btn_tool_finger());
    assert!(device.is_direct());
    // 100 + 10 (tool finger) + 5 + 5 (contact dimensions) + 10 (several slots)
    assert_eq!(device.score(), 130);
}

#[test]
fn inspect_minimal_touchscreen_score() {
    let mut caps = touchscreen_caps("ts", 0);
    caps.keys = Some(vec![BTN_TOUCH]);
    caps.abs_info = Ok(vec![
        info(ABS_MT_SLOT, 0, 0),
        info(ABS_MT_POSITION_X, 0, 100),
        info(ABS_MT_POSITION_Y, 0, 200),
        info(ABS_MT_TRACKING_ID, 0, 10),
    ]);
    let device = detect("/dev/input/event0", caps);
    assert_eq!(device.slot_count(), 1);
    assert_eq!(device.touch_major_range(), None);
    assert_eq!(device.width_major_range(), None);
    assert!(!device.has_btn_tool_finger());
    assert_eq!(device.score(), 100);
}

#[test]
fn inspect_penalizes_virtual_looking_devices() {
    let device = detect("/dev/input/event5", touchscreen_caps("Virtual Touch", 9));
    assert_eq!(device.score(), 130 - 1000);
    let device = detect("/dev/input/uinput-3", touchscreen_caps("panel", 9));
    assert_eq!(device.score(), 130 - 1000);
}

#[test]
fn inspect_unnamed_device() {
    let mut caps = touchscreen_caps("x", 9);
    caps.name = None;
    let device = detect("/dev/input/event1", caps);
    assert_eq!(device.name(), "<unnamed>");
}

#[test]
fn inspect_rejects_missing_signature() {
    let mut caps = touchscreen_caps("ts", 9);
    caps.event_types = vec![EV_SYN, EV_KEY];
    assert!(matches!(TouchDevice::inspect("/p".to_string(), caps), Ok(None)));

    let mut caps = touchscreen_caps("ts", 9);
    caps.absolute_axes = Some(vec![ABS_MT_SLOT, ABS_MT_POSITION_X, ABS_MT_POSITION_Y]);
    assert!(matches!(TouchDevice::inspect("/p".to_string(), caps), Ok(None)));

    let mut caps = touchscreen_caps("ts", 9);
    caps.absolute_axes = None;
    assert!(matches!(TouchDevice::inspect("/p".to_string(), caps), Ok(None)));

    let mut caps = touchscreen_caps("ts", 9);
    caps.keys = Some(vec![BTN_TOOL_FINGER]);
    assert!(matches!(TouchDevice::inspect("/p".to_string(), caps), Ok(None)));

    let mut caps = touchscreen_caps("touchpad", 9);
    caps.properties = vec![];
    assert!(matches!(TouchDevice::inspect("/p".to_string(), caps), Ok(None)));
}

#[test]
fn inspect_rejects_bad_ranges() {
    let mut caps = touchscreen_caps("ts", 9);
    caps.abs_info = Ok(vec![
        info(ABS_MT_SLOT, 1, 9),
        info(ABS_MT_POSITION_X, 0, 100),
        info(ABS_MT_POSITION_Y, 0, 200),
        info(ABS_MT_TRACKING_ID, 0, 10),
    ]);
    assert!(matches!(TouchDevice::inspect("/p".to_string(), caps), Ok(None)));

    let mut caps = touchscreen_caps("ts", 9);
    caps.abs_info = Ok(vec![
        info(ABS_MT_SLOT, 0, 64),
        info(ABS_MT_POSITION_X, 0, 100),
        info(ABS_MT_POSITION_Y, 0, 200),
        info(ABS_MT_TRACKING_ID, 0, 10),
    ]);
    assert!(matches!(TouchDevice::inspect("/p".to_string(), caps), Ok(None)));

    let mut caps = touchscreen_caps("ts", 9);
    caps.abs_info = Ok(vec![
        info(ABS_MT_SLOT, 0, 9),
        info(ABS_MT_POSITION_X, 100, 100),
        info(ABS_MT_POSITION_Y, 0, 200),
        info(ABS_MT_TRACKING_ID, 0, 10),
    ]);
    assert!(matches!(TouchDevice::inspect("/p".to_string(), caps), Ok(None)));

    let mut caps = touchscreen_caps("ts", 9);
    caps.abs_info = Ok(vec![
        info(ABS_MT_SLOT, 0, i32::MAX),
        info(ABS_MT_POSITION_X, 0, 100),
        info(ABS_MT_POSITION_Y, 0, 200),
        info(ABS_MT_TRACKING_ID, 0, 10),
    ]);
    assert!(matches!(TouchDevice::inspect("/p".to_string(), caps), Ok(None)));

    let mut caps = touchscreen_caps("ts", 9);
    caps.abs_info = Ok(vec![
        info(ABS_MT_SLOT, 0, 9),
        info(ABS_MT_POSITION_X, 0, 100),
        info(ABS_MT_POSITION_Y, 0, 200),
        info(ABS_MT_TRACKING_ID, 10, 0),
    ]);
    assert!(matches!(TouchDevice::inspect("/p".to_string(), caps), Ok(None)));
}

#[test]
fn inspect_reports_missing_abs_info() {
    let mut caps = touchscreen_caps("ts", 9);
    caps.abs_info = Ok(vec![
        info(ABS_MT_SLOT, 0, 9),
        info(ABS_MT_POSITION_Y, 0, 200),
        info(ABS_MT_TRACKING_ID, 0, 10),
    ]);
    match TouchDevice::inspect("/dev/input/event4".to_string(), caps) {
        Err(TouchDeviceError::InvalidDevice { path, reason }) => {
            assert_eq!(path, "/dev/input/event4");
            assert_eq!(reason, "ABS_MT_POSITION_X advertised without AbsInfo");
        }
        other => panic!("unexpected {other:?}"),
    }

    let mut caps = touchscreen_caps("ts", 9);
    caps.abs_info = Ok(vec![]);
    match TouchDevice::inspect("/p".to_string(), caps) {
        Err(TouchDeviceError::InvalidDevice { reason, .. }) => {
            assert_eq!(reason, "ABS_MT_SLOT advertised without AbsInfo");
        }
        other => panic!("unexpected {other:?}"),
    }
}

#[test]
fn inspect_first_axis_entry_wins() {
    let mut caps = touchscreen_caps("ts", 9);
    caps.abs_info = Ok(vec![
        info(ABS_MT_SLOT, 0, 4),
        info(ABS_MT_SLOT, 0, 9),
        info(ABS_MT_POSITION_X, 0, 100),
        info(ABS_MT_POSITION_Y, 0, 200),
        info(ABS_MT_TRACKING_ID, 0, 10),
    ]);
    assert_eq!(detect("/p", caps).slot_count(), 5);
}

#[test]
fn inspect_reports_unreadable_abs_info() {
    let mut caps = touchscreen_caps("ts", 9);
    caps.abs_info = Err(std::io::Error::new(std::io::ErrorKind::PermissionDenied, "denied"));
    match TouchDevice::inspect("/p".to_string(), caps) {
        Err(TouchDeviceError::Io(error)) => {
            assert_eq!(error.kind(), std::io::ErrorKind::PermissionDenied);
        }
        other => panic!("unexpected {other:?}"),
    }
}

#[test]
fn from_capabilities_requires_touchscreen() {
    let mut caps = touchscreen_caps("ts", 9);
    caps.properties = vec![];
    match TouchDevice::from_capabilities("/dev/input/event9".to_string(), caps) {
        Err(TouchDeviceError::InvalidDevice { path, reason }) => {
            assert_eq!(path, "/dev/input/event9");
            assert_eq!(reason, "device does not have the required direct MT touchscreen signature");
        }
        other => panic!("unexpected {other:?}"),
    }
    let device = TouchDevice::from_capabilities("/p".to_string(), touchscreen_caps("ts", 9)).unwrap();
    assert_eq!(device.slot_count(), 10);
}

#[test]
fn looks_virtual_tokens() {
    assert!(TouchDevice::looks_virtual("uinput-goodix", "/dev/input/event1"));
    assert!(TouchDevice::looks_virtual("Virtual Touchscreen", "/dev/input/event1"));
    assert!(TouchDevice::looks_virtual("INPUT INJECTOR", "/dev/input/event1"));
    assert!(TouchDevice::looks_virtual("panel", "/dev/virtio-input/event1"));
    assert!(!TouchDevice::looks_virtual("sec_touchscreen", "/dev/input/event1"));
    assert!(!TouchDevice::looks_virtual("virt", "/dev/input/uinpu"));
}

#[test]
fn summary_line() {
    let device = detect("/dev/input/event2", touchscreen_caps("sec_touchscreen", 9));
    assert_eq!(
        device.summary(),
        "/dev/input/event2 [sec_touchscreen] slots=10 X=0..1079 Y=0..2399 tracking=0..65535 direct=true score=130"
    );
    let device = detect("/v", touchscreen_caps("virtual", 0));
    assert!(device.summary().ends_with("slots=1 X=0..1079 Y=0..2399 tracking=0..65535 direct=true score=-880"));
}

#[test]
fn select_without_candidates() {
    assert!(matches!(select_touchscreen(vec![]), Err(TouchDeviceError::NoTouchscreen)));
}

#[test]
fn select_highest_score() {
    let strong = detect("/dev/input/event1", touchscreen_caps("panel", 9));
    let weak = detect("/dev/input/event2", touchscreen_caps("virtual panel", 9));
    let chosen = select_touchscreen(vec![weak, strong]).unwrap();
    assert_eq!(chosen.path(), "/dev/input/event1");
}

#[test]
fn select_reports_ties_in_order() {
    let a = detect("/dev/input/event3", touchscreen_caps("a", 9));
    let b = detect("/dev/input/event1", touchscreen_caps("b", 9));
    let weak = detect("/dev/input/event2", touchscreen_caps("uinput", 9));
    match select_touchscreen(vec![a, weak, b]) {
        Err(TouchDeviceError::Ambiguous { candidates }) => {
            let paths: Vec<&str> = candidates.iter().map(|c| c.path()).collect();
            assert_eq!(paths, vec!["/dev/input/event3", "/dev/input/event1"]);
        }
        other => panic!("unexpected {other:?}"),
    }
}

#[test]
fn error_messages() {
    assert_eq!(TouchDeviceError::NoTouchscreen.message(), "no compatible direct MT touchscreen found");
    let invalid = TouchDeviceError::InvalidDevice { path: "/dev/input/event7".to_string(), reason: "why".to_string() };
    assert_eq!(invalid.message(), "/dev/input/event7 is not a compatible touchscreen: why");
    let a = detect("/a", touchscreen_caps("a", 0));
    let b = detect("/b", touchscreen_caps("b", 0));
    let ambiguous = TouchDeviceError::Ambiguous { candidates: vec![a.clone(), b.clone()] };
    let expected = format!(
        "multiple touchscreen candidates with the same priority:\n  {}\n  {}\nset AINPUT_TOUCH_DEVICE to explicitly choose one",
        a.summary(),
        b.summary()
    );
    assert_eq!(ambiguous.message(), expected);
    let io = TouchDeviceError::from(std::io::Error::new(std::io::ErrorKind::Other, "boom"));
    assert_eq!(io.message(), "boom");
}

#[test]
fn clone_keeps_description() {
    let a = detect("/dev/input/event2", touchscreen_caps("sec_touchscreen", 9));
    let b = a.clone();
    assert_eq!(a, b);
    assert_eq!(a.summary(), b.summary());
}

#[test]
fn axis_range_len() {
    assert_eq!(AxisRange::new(0, 9).len(), 10);
    assert_eq!(AxisRange::new(-5, 5).len(), 11);
}
