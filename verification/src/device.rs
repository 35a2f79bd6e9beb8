//! Description of a physical touchscreen and the rules by which one is
//! recognised among the evdev devices and chosen for multiplexing.
use vstd::prelude::*;

use crate::codes::{
    ABS_MT_POSITION_X_CODE, ABS_MT_POSITION_Y_CODE, ABS_MT_SLOT_CODE, ABS_MT_TOUCH_MAJOR_CODE,
    ABS_MT_TRACKING_ID_CODE, ABS_MT_WIDTH_MAJOR_CODE, BTN_TOOL_FINGER, BTN_TOUCH, EV_ABS,
    INPUT_PROP_DIRECT,
};
use crate::text::{
    ascii_lower_text, ascii_lowercase_chars, bool_text, chars_contain, int_decimal, push_bool,
    push_int_decimal, text_contains,
};

verus! {

/// Describes the range of an absolute axis.
#[derive(Clone, Copy, Debug, PartialEq, Eq, Structural)]
pub struct AxisRange {
    pub min: i32,
    pub max: i32,
}

impl AxisRange {
    pub fn new(min: i32, max: i32) -> (r: Self)
        ensures
            r == (AxisRange { min, max }),
    {
        Self { min, max }
    }

    /// Number of values in `min..=max`.
    pub open spec fn spec_len(self) -> int {
        self.max - self.min + 1
    }

    pub fn len(&self) -> (n: i32)
        requires
            i32::MIN <= self.max - self.min,
            self.spec_len() <= i32::MAX,
        ensures
            n == self.spec_len(),
    {
        self.max - self.min + 1
    }
}

/// Optional range information for a contact dimension.
#[derive(Clone, Copy, Debug, PartialEq, Eq, Structural)]
pub struct OptionalAxisRange {
    pub min: i32,
    pub max: i32,
}

/// The range that the kernel reports for one absolute axis of a device.
#[derive(Clone, Copy, Debug, PartialEq, Eq, Structural)]
pub struct AbsAxisInfo {
    /// Axis code (`ABS_*`).
    pub axis: u16,
    pub minimum: i32,
    pub maximum: i32,
}

/// What an evdev device advertises, as the detector reads it.
#[derive(Debug)]
pub struct DeviceCapabilities {
    /// Name provided by the kernel, when it has one.
    pub name: Option<String>,
    /// Supported event types (`EV_*`).
    pub event_types: Vec<u16>,
    /// Supported absolute axes (`ABS_*`), when the device reports them.
    pub absolute_axes: Option<Vec<u16>>,
    /// Supported keys (`KEY_*`, `BTN_*`), when the device reports them.
    pub keys: Option<Vec<u16>>,
    /// Input properties (`INPUT_PROP_*`).
    pub properties: Vec<u16>,
    /// The absolute axis information, or the error that reading it gave.
    pub abs_info: Result<Vec<AbsAxisInfo>, std::io::Error>,
}

/// Errors specific to autodetection.
#[derive(Debug)]
pub enum TouchDeviceError {
    Io(std::io::Error),
    NoTouchscreen,
    InvalidDevice { path: String, reason: String },
    Ambiguous { candidates: Vec<TouchDevice> },
}

/// Description of a physical touchscreen detected by evdev.
#[derive(Debug, PartialEq, Eq)]
pub struct TouchDevice {
    path: String,
    name: String,
    slot_range: AxisRange,
    x_range: AxisRange,
    y_range: AxisRange,
    tracking_id_range: AxisRange,
    touch_major_range: Option<OptionalAxisRange>,
    width_major_range: Option<OptionalAxisRange>,
    has_btn_touch: bool,
    has_btn_tool_finger: bool,
    direct: bool,
    score: i32,
}

/// The mathematical content of a [`TouchDevice`].
pub struct TouchDeviceView {
    pub path: Seq<char>,
    pub name: Seq<char>,
    pub slot_range: AxisRange,
    pub x_range: AxisRange,
    pub y_range: AxisRange,
    pub tracking_id_range: AxisRange,
    pub touch_major_range: Option<OptionalAxisRange>,
    pub width_major_range: Option<OptionalAxisRange>,
    pub has_btn_touch: bool,
    pub has_btn_tool_finger: bool,
    pub direct: bool,
    pub score: i32,
}

impl TouchDeviceView {
    /// What every detected touchscreen satisfies: a direct MT-B device
    /// with slots `0..n` (`1 <= n <= 64`), non-empty X and Y ranges and a
    /// tracking id range, scored by the detector's formula.
    pub open spec fn wf(self) -> bool {
        &&& self.slot_range.min == 0
        &&& 0 <= self.slot_range.max < 64
        &&& self.x_range.min < self.x_range.max
        &&& self.y_range.min < self.y_range.max
        &&& self.tracking_id_range.min <= self.tracking_id_range.max
        &&& self.has_btn_touch
        &&& self.direct
        &&& self.score == detection_score(
            self.has_btn_tool_finger,
            self.touch_major_range is Some,
            self.width_major_range is Some,
            self.slot_count(),
            looks_virtual_text(self.name, self.path),
        )
    }

    /// Number of physical slots.
    pub open spec fn slot_count(self) -> int {
        self.slot_range.spec_len()
    }
}

impl View for TouchDevice {
    type V = TouchDeviceView;

    closed spec fn view(&self) -> TouchDeviceView {
        TouchDeviceView {
            path: self.path@,
            name: self.name@,
            slot_range: self.slot_range,
            x_range: self.x_range,
            y_range: self.y_range,
            tracking_id_range: self.tracking_id_range,
            touch_major_range: self.touch_major_range,
            width_major_range: self.width_major_range,
            has_btn_touch: self.has_btn_touch,
            has_btn_tool_finger: self.has_btn_tool_finger,
            direct: self.direct,
            score: self.score,
        }
    }
}

/// `code` is in the set, when the device reports the set at all.
pub open spec fn reports_code(set: Option<Vec<u16>>, code: u16) -> bool {
    match set {
        Some(codes) => codes@.contains(code),
        None => false,
    }
}

/// The minimum multitouch type B signature of a direct touchscreen.
pub open spec fn has_mt_signature(caps: DeviceCapabilities) -> bool {
    &&& caps.event_types@.contains(EV_ABS)
    &&& reports_code(caps.absolute_axes, ABS_MT_SLOT_CODE)
    &&& reports_code(caps.absolute_axes, ABS_MT_TRACKING_ID_CODE)
    &&& reports_code(caps.absolute_axes, ABS_MT_POSITION_X_CODE)
    &&& reports_code(caps.absolute_axes, ABS_MT_POSITION_Y_CODE)
    &&& reports_code(caps.keys, BTN_TOUCH)
    &&& caps.properties@.contains(INPUT_PROP_DIRECT)
}

/// The first entry for `axis`.
pub open spec fn find_abs(infos: Seq<AbsAxisInfo>, axis: u16) -> Option<AbsAxisInfo>
    decreases infos.len(),
{
    if infos.len() == 0 {
        None
    } else if infos[0].axis == axis {
        Some(infos[0])
    } else {
        find_abs(infos.drop_first(), axis)
    }
}

/// The substrings that mark a device as virtual.
pub open spec fn virtual_token(k: int) -> Seq<char> {
    if k == 0 {
        "uinput"@
    } else if k == 1 {
        "virtual"@
    } else if k == 2 {
        "injector"@
    } else {
        "virtio"@
    }
}

/// Name or path holds, ignoring ASCII case, one of the virtual tokens.
pub open spec fn looks_virtual_text(name: Seq<char>, path: Seq<char>) -> bool {
    exists|k: int|
        0 <= k < 4 && (text_contains(ascii_lower_text(name), #[trigger] virtual_token(k))
            || text_contains(ascii_lower_text(path), virtual_token(k)))
}

/// The detector's score of a candidate.
pub open spec fn detection_score(
    has_btn_tool_finger: bool,
    has_touch_major: bool,
    has_width_major: bool,
    slot_count: int,
    looks_virtual: bool,
) -> int {
    100 + (if has_btn_tool_finger { 10int } else { 0int }) + (if has_touch_major { 5int } else { 0int })
        + (if has_width_major { 5int } else { 0int }) + (if slot_count >= 2 { 10int } else { 0int })
        - (if looks_virtual { 1000int } else { 0int })
}

/// The name that the detector records.
pub open spec fn recorded_name(name: Option<String>) -> Seq<char> {
    match name {
        Some(n) => n@,
        None => "<unnamed>"@,
    }
}

/// The ranges that a touchscreen must report.
pub open spec fn ranges_acceptable(
    slot: AbsAxisInfo,
    tracking: AbsAxisInfo,
    x: AbsAxisInfo,
    y: AbsAxisInfo,
) -> bool {
    &&& slot.minimum == 0
    &&& slot.maximum >= slot.minimum
    &&& x.maximum > x.minimum
    &&& y.maximum > y.minimum
    &&& tracking.maximum >= tracking.minimum
    &&& 1 <= slot.maximum - slot.minimum + 1 <= 64
}

/// The outcome of inspecting one device.
pub enum Inspection {
    /// The device is not a direct MT-B touchscreen.
    NotTouchscreen,
    /// Reading the absolute axis information failed.
    AbsInfoUnreadable,
    /// A required axis is advertised without axis information.
    MissingAbsInfo(Seq<char>),
    /// The device is a touchscreen with this description.
    Accepted(TouchDeviceView),
}

/// The description that the detector gives of an accepted device.
pub open spec fn accepted_view(
    path: Seq<char>,
    caps: DeviceCapabilities,
    infos: Seq<AbsAxisInfo>,
    slot: AbsAxisInfo,
    tracking: AbsAxisInfo,
    x: AbsAxisInfo,
    y: AbsAxisInfo,
) -> TouchDeviceView {
    let name = recorded_name(caps.name);
    let touch_major = find_abs(infos, ABS_MT_TOUCH_MAJOR_CODE);
    let width_major = find_abs(infos, ABS_MT_WIDTH_MAJOR_CODE);
    let has_btn_tool_finger = reports_code(caps.keys, BTN_TOOL_FINGER);
    TouchDeviceView {
        path,
        name,
        slot_range: AxisRange { min: slot.minimum, max: slot.maximum },
        x_range: AxisRange { min: x.minimum, max: x.maximum },
        y_range: AxisRange { min: y.minimum, max: y.maximum },
        tracking_id_range: AxisRange { min: tracking.minimum, max: tracking.maximum },
        touch_major_range: match touch_major {
            Some(i) => Some(OptionalAxisRange { min: i.minimum, max: i.maximum }),
            None => None,
        },
        width_major_range: match width_major {
            Some(i) => Some(OptionalAxisRange { min: i.minimum, max: i.maximum }),
            None => None,
        },
        has_btn_touch: true,
        has_btn_tool_finger,
        direct: true,
        score: detection_score(
            has_btn_tool_finger,
            touch_major is Some,
            width_major is Some,
            slot.maximum - slot.minimum + 1,
            looks_virtual_text(name, path),
        ) as i32,
    }
}

/// How the detector judges the device at `path` with capabilities `caps`.
pub open spec fn inspection(path: Seq<char>, caps: DeviceCapabilities) -> Inspection {
    if !has_mt_signature(caps) {
        Inspection::NotTouchscreen
    } else {
        match caps.abs_info {
            Err(_) => Inspection::AbsInfoUnreadable,
            Ok(v) => {
                let infos = v@;
                match (
                    find_abs(infos, ABS_MT_SLOT_CODE),
                    find_abs(infos, ABS_MT_TRACKING_ID_CODE),
                    find_abs(infos, ABS_MT_POSITION_X_CODE),
                    find_abs(infos, ABS_MT_POSITION_Y_CODE),
                ) {
                    (None, _, _, _) => Inspection::MissingAbsInfo(
                        "ABS_MT_SLOT advertised without AbsInfo"@,
                    ),
                    (Some(_), None, _, _) => Inspection::MissingAbsInfo(
                        "ABS_MT_TRACKING_ID advertised without AbsInfo"@,
                    ),
                    (Some(_), Some(_), None, _) => Inspection::MissingAbsInfo(
                        "ABS_MT_POSITION_X advertised without AbsInfo"@,
                    ),
                    (Some(_), Some(_), Some(_), None) => Inspection::MissingAbsInfo(
                        "ABS_MT_POSITION_Y advertised without AbsInfo"@,
                    ),
                    (Some(slot), Some(tracking), Some(x), Some(y)) => {
                        if ranges_acceptable(slot, tracking, x, y) {
                            Inspection::Accepted(
                                accepted_view(path, caps, infos, slot, tracking, x, y),
                            )
                        } else {
                            Inspection::NotTouchscreen
                        }
                    },
                }
            },
        }
    }
}

/// `r` is what inspecting the device at `path` with `caps` gives.
pub open spec fn inspected_as(
    r: Result<Option<TouchDevice>, TouchDeviceError>,
    path: Seq<char>,
    caps: DeviceCapabilities,
) -> bool {
    match inspection(path, caps) {
        Inspection::NotTouchscreen => r matches Ok(None),
        Inspection::AbsInfoUnreadable => r matches Err(TouchDeviceError::Io(e))
            && caps.abs_info == Err::<Vec<AbsAxisInfo>, std::io::Error>(e),
        Inspection::MissingAbsInfo(reason) => r matches Err(
            TouchDeviceError::InvalidDevice { path: p, reason: q },
        ) && p@ == path && q@ == reason,
        Inspection::Accepted(v) => r matches Ok(Some(d)) && d@ == v,
    }
}

fn contains_code(codes: &Vec<u16>, code: u16) -> (b: bool)
    ensures
        b == codes@.contains(code),
{
    let n = codes.len();
    let mut i: usize = 0;
    while i < n
        invariant
            n == codes@.len(),
            i <= n,
            forall|k: int| 0 <= k < i ==> codes@[k] != code,
        decreases n - i,
    {
        if codes[i] == code {
            assert(codes@[i as int] == code);
            return true;
        }
        i = i + 1;
    }
    false
}

fn reports(set: &Option<Vec<u16>>, code: u16) -> (b: bool)
    ensures
        b == reports_code(*set, code),
{
    match set {
        Some(codes) => contains_code(codes, code),
        None => false,
    }
}

fn find_abs_info(infos: &Vec<AbsAxisInfo>, axis: u16) -> (r: Option<AbsAxisInfo>)
    ensures
        r == find_abs(infos@, axis),
{
    let n = infos.len();
    let mut i: usize = 0;
    assert(infos@.skip(0) =~= infos@);
    while i < n
        invariant
            n == infos@.len(),
            i <= n,
            find_abs(infos@, axis) == find_abs(infos@.skip(i as int), axis),
        decreases n - i,
    {
        let info = infos[i];
        assert(infos@.skip(i as int)[0] == info);
        assert(infos@.skip(i as int).drop_first() =~= infos@.skip(i + 1));
        if info.axis == axis {
            return Some(info);
        }
        i = i + 1;
    }
    assert(infos@.skip(n as int).len() == 0);
    None
}

impl TouchDevice {
    /// Every touchscreen satisfies the detector's requirements.
    #[verifier::type_invariant]
    pub closed spec fn inv(self) -> bool {
        self@.wf()
    }

    /// Whether the name or the path looks like that of a virtual device
    /// (holds `uinput`, `virtual`, `injector` or `virtio`, in any ASCII case).
    pub fn looks_virtual(name: &str, path: &str) -> (b: bool)
        ensures
            b == looks_virtual_text(name@, path@),
    {
        let name = ascii_lowercase_chars(name);
        let path = ascii_lowercase_chars(path);
        let found = chars_contain(&name, "uinput") || chars_contain(&path, "uinput")
            || chars_contain(&name, "virtual") || chars_contain(&path, "virtual")
            || chars_contain(&name, "injector") || chars_contain(&path, "injector")
            || chars_contain(&name, "virtio") || chars_contain(&path, "virtio");
        proof {
            if found {
                if text_contains(name@, "uinput"@) || text_contains(path@, "uinput"@) {
                    assert(virtual_token(0) == "uinput"@);
                } else if text_contains(name@, "virtual"@) || text_contains(path@, "virtual"@) {
                    assert(virtual_token(1) == "virtual"@);
                } else if text_contains(name@, "injector"@) || text_contains(path@, "injector"@) {
                    assert(virtual_token(2) == "injector"@);
                } else {
                    assert(virtual_token(3) == "virtio"@);
                }
            } else {
                assert forall|k: int| 0 <= k < 4 implies !(text_contains(name@, #[trigger] virtual_token(k))
                    || text_contains(path@, virtual_token(k))) by {}
            }
        }
        found
    }

    /// Judges one evdev device from what it advertises.
    ///
    /// `Ok(None)` when the device is not a direct multitouch type B
    /// touchscreen with usable ranges; an error when its axis information
    /// cannot be read or a required axis comes without it.
    pub fn inspect(path: String, caps: DeviceCapabilities) -> (r: Result<Option<TouchDevice>, TouchDeviceError>)
        ensures
            inspected_as(r, path@, caps),
    {
        let ghost path_view = path@;
        let ghost caps_spec = caps;
        let DeviceCapabilities { name, event_types, absolute_axes, keys, properties, abs_info } = caps;
        let name = match name {
            Some(n) => n,
            None => String::from_str("<unnamed>"),
        };
        if !contains_code(&event_types, EV_ABS) {
            return Ok(None);
        }
        let supports_required_axes = reports(&absolute_axes, ABS_MT_SLOT_CODE)
            && reports(&absolute_axes, ABS_MT_TRACKING_ID_CODE)
            && reports(&absolute_axes, ABS_MT_POSITION_X_CODE)
            && reports(&absolute_axes, ABS_MT_POSITION_Y_CODE);
        if !supports_required_axes {
            return Ok(None);
        }
        let has_btn_touch = reports(&keys, BTN_TOUCH);
        if !has_btn_touch {
            return Ok(None);
        }
        let direct = contains_code(&properties, INPUT_PROP_DIRECT);
        if !direct {
            return Ok(None);
        }
        let infos = match abs_info {
            Ok(infos) => infos,
            Err(error) => {
                return Err(TouchDeviceError::Io(error));
            },
        };
        let slot = match find_abs_info(&infos, ABS_MT_SLOT_CODE) {
            Some(info) => info,
            None => {
                return Err(
                    TouchDeviceError::InvalidDevice {
                        path,
                        reason: String::from_str("ABS_MT_SLOT advertised without AbsInfo"),
                    },
                );
            },
        };
        let tracking = match find_abs_info(&infos, ABS_MT_TRACKING_ID_CODE) {
            Some(info) => info,
            None => {
                return Err(
                    TouchDeviceError::InvalidDevice {
                        path,
                        reason: String::from_str("ABS_MT_TRACKING_ID advertised without AbsInfo"),
                    },
                );
            },
        };
        let x = match find_abs_info(&infos, ABS_MT_POSITION_X_CODE) {
            Some(info) => info,
            None => {
                return Err(
                    TouchDeviceError::InvalidDevice {
                        path,
                        reason: String::from_str("ABS_MT_POSITION_X advertised without AbsInfo"),
                    },
                );
            },
        };
        let y = match find_abs_info(&infos, ABS_MT_POSITION_Y_CODE) {
            Some(info) => info,
            None => {
                return Err(
                    TouchDeviceError::InvalidDevice {
                        path,
                        reason: String::from_str("ABS_MT_POSITION_Y advertised without AbsInfo"),
                    },
                );
            },
        };
        if slot.minimum != 0 || slot.maximum < slot.minimum {
            return Ok(None);
        }
        if x.maximum <= x.minimum || y.maximum <= y.minimum {
            return Ok(None);
        }
        if tracking.maximum < tracking.minimum {
            return Ok(None);
        }
        let slot_count: i64 = slot.maximum as i64 - slot.minimum as i64 + 1;
        if !(1 <= slot_count && slot_count <= 64) {
            return Ok(None);
        }
        let touch_major = find_abs_info(&infos, ABS_MT_TOUCH_MAJOR_CODE);
        let width_major = find_abs_info(&infos, ABS_MT_WIDTH_MAJOR_CODE);
        let has_btn_tool_finger = reports(&keys, BTN_TOOL_FINGER);
        let mut score: i32 = 100;
        if has_btn_tool_finger {
            score += 10;
        }
        if touch_major.is_some() {
            score += 5;
        }
        if width_major.is_some() {
            score += 5;
        }
        if slot_count >= 2 {
            score += 10;
        }
        if Self::looks_virtual(name.as_str(), path.as_str()) {
            score -= 1000;
        }
        let touch_major_range = match touch_major {
            Some(info) => Some(OptionalAxisRange { min: info.minimum, max: info.maximum }),
            None => None,
        };
        let width_major_range = match width_major {
            Some(info) => Some(OptionalAxisRange { min: info.minimum, max: info.maximum }),
            None => None,
        };
        let device = TouchDevice {
            path,
            name,
            slot_range: AxisRange::new(slot.minimum, slot.maximum),
            x_range: AxisRange::new(x.minimum, x.maximum),
            y_range: AxisRange::new(y.minimum, y.maximum),
            tracking_id_range: AxisRange::new(tracking.minimum, tracking.maximum),
            touch_major_range,
            width_major_range,
            has_btn_touch,
            has_btn_tool_finger,
            direct,
            score,
        };
        Ok(Some(device))
    }

    /// Inspects the device at `path` and requires it to be a touchscreen.
    pub fn from_capabilities(path: String, caps: DeviceCapabilities) -> (r: Result<TouchDevice, TouchDeviceError>)
        ensures
            required_as(r, path@, caps),
    {
        let kept_path = path.clone();
        match Self::inspect(path, caps) {
            Ok(Some(device)) => Ok(device),
            Ok(None) => Err(
                TouchDeviceError::InvalidDevice {
                    path: kept_path,
                    reason: String::from_str(
                        "device does not have the required direct MT touchscreen signature",
                    ),
                },
            ),
            Err(error) => Err(error),
        }
    }

    /// evdev device path.
    pub fn path(&self) -> (r: &str)
        ensures
            r@ == self@.path,
    {
        self.path.as_str()
    }

    /// Name provided by the kernel.
    pub fn name(&self) -> (r: &str)
        ensures
            r@ == self@.name,
    {
        self.name.as_str()
    }

    /// Raw slot range.
    pub fn slot_range(&self) -> (r: AxisRange)
        ensures
            r == self@.slot_range,
            self@.wf(),
    {
        proof {
            use_type_invariant(self);
        }
        self.slot_range
    }

    /// Number of slots.
    pub fn slot_count(&self) -> (n: usize)
        ensures
            n == self@.slot_count(),
            1 <= n <= 64,
            self@.wf(),
    {
        proof {
            use_type_invariant(self);
        }
        self.slot_range.len() as usize
    }

    /// Raw X range.
    pub fn x_range(&self) -> (r: AxisRange)
        ensures
            r == self@.x_range,
            self@.wf(),
    {
        proof {
            use_type_invariant(self);
        }
        self.x_range
    }

    /// Raw Y range.
    pub fn y_range(&self) -> (r: AxisRange)
        ensures
            r == self@.y_range,
            self@.wf(),
    {
        proof {
            use_type_invariant(self);
        }
        self.y_range
    }

    /// Tracking ID range.
    pub fn tracking_id_range(&self) -> (r: AxisRange)
        ensures
            r == self@.tracking_id_range,
            self@.wf(),
    {
        proof {
            use_type_invariant(self);
        }
        self.tracking_id_range
    }

    /// TOUCH_MAJOR range, if supported.
    pub fn touch_major_range(&self) -> (r: Option<OptionalAxisRange>)
        ensures
            r == self@.touch_major_range,
    {
        self.touch_major_range
    }

    /// WIDTH_MAJOR range, if supported.
    pub fn width_major_range(&self) -> (r: Option<OptionalAxisRange>)
        ensures
            r == self@.width_major_range,
    {
        self.width_major_range
    }

    /// Whether BTN_TOUCH is present.
    pub fn has_btn_touch(&self) -> (b: bool)
        ensures
            b == self@.has_btn_touch,
    {
        self.has_btn_touch
    }

    /// Whether BTN_TOOL_FINGER is present.
    pub fn has_btn_tool_finger(&self) -> (b: bool)
        ensures
            b == self@.has_btn_tool_finger,
    {
        self.has_btn_tool_finger
    }

    /// Whether INPUT_PROP_DIRECT is present.
    pub fn is_direct(&self) -> (b: bool)
        ensures
            b == self@.direct,
    {
        self.direct
    }

    /// Score used by the detector.
    pub fn score(&self) -> (s: i32)
        ensures
            s == self@.score,
    {
        self.score
    }

    /// One-line summary for logs.
    pub fn summary(&self) -> (s: String)
        ensures
            s@ == summary_text(self@),
    {
        let mut s = String::new();
        s.append(self.path.as_str());
        s.append(" [");
        s.append(self.name.as_str());
        s.append("] slots=");
        let count = self.slot_count();
        push_int_decimal(&mut s, count as i64);
        s.append(" X=");
        push_int_decimal(&mut s, self.x_range.min as i64);
        s.append("..");
        push_int_decimal(&mut s, self.x_range.max as i64);
        s.append(" Y=");
        push_int_decimal(&mut s, self.y_range.min as i64);
        s.append("..");
        push_int_decimal(&mut s, self.y_range.max as i64);
        s.append(" tracking=");
        push_int_decimal(&mut s, self.tracking_id_range.min as i64);
        s.append("..");
        push_int_decimal(&mut s, self.tracking_id_range.max as i64);
        s.append(" direct=");
        push_bool(&mut s, self.direct);
        s.append(" score=");
        push_int_decimal(&mut s, self.score as i64);
        s
    }
}

impl Clone for TouchDevice {
    fn clone(&self) -> (r: Self)
        ensures
            r@ == self@,
    {
        proof {
            use_type_invariant(self);
        }
        TouchDevice {
            path: self.path.clone(),
            name: self.name.clone(),
            slot_range: self.slot_range,
            x_range: self.x_range,
            y_range: self.y_range,
            tracking_id_range: self.tracking_id_range,
            touch_major_range: self.touch_major_range,
            width_major_range: self.width_major_range,
            has_btn_touch: self.has_btn_touch,
            has_btn_tool_finger: self.has_btn_tool_finger,
            direct: self.direct,
            score: self.score,
        }
    }
}

/// The summary line of a touchscreen.
pub open spec fn summary_text(v: TouchDeviceView) -> Seq<char> {
    v.path + " ["@ + v.name + "] slots="@ + int_decimal(v.slot_count()) + " X="@ + int_decimal(
        v.x_range.min as int,
    ) + ".."@ + int_decimal(v.x_range.max as int) + " Y="@ + int_decimal(v.y_range.min as int)
        + ".."@ + int_decimal(v.y_range.max as int) + " tracking="@ + int_decimal(
        v.tracking_id_range.min as int,
    ) + ".."@ + int_decimal(v.tracking_id_range.max as int) + " direct="@ + bool_text(v.direct)
        + " score="@ + int_decimal(v.score as int)
}

/// `r` is what requiring the device at `path` with `caps` to be a
/// touchscreen gives.
pub open spec fn required_as(
    r: Result<TouchDevice, TouchDeviceError>,
    path: Seq<char>,
    caps: DeviceCapabilities,
) -> bool {
    match inspection(path, caps) {
        Inspection::NotTouchscreen => r matches Err(
            TouchDeviceError::InvalidDevice { path: p, reason: q },
        ) && p@ == path && q@
            == "device does not have the required direct MT touchscreen signature"@,
        Inspection::AbsInfoUnreadable => r matches Err(TouchDeviceError::Io(e))
            && caps.abs_info == Err::<Vec<AbsAxisInfo>, std::io::Error>(e),
        Inspection::MissingAbsInfo(reason) => r matches Err(
            TouchDeviceError::InvalidDevice { path: p, reason: q },
        ) && p@ == path && q@ == reason,
        Inspection::Accepted(v) => r matches Ok(d) && d@ == v,
    }
}


/// The highest score among `candidates`.
pub open spec fn best_score(candidates: Seq<TouchDevice>) -> int
    decreases candidates.len(),
{
    if candidates.len() <= 1 {
        candidates[0]@.score as int
    } else {
        let rest = best_score(candidates.drop_last());
        let last = candidates.last()@.score as int;
        if last > rest {
            last
        } else {
            rest
        }
    }
}

/// The candidates with score `score`, in their order.
pub open spec fn with_score(candidates: Seq<TouchDevice>, score: int) -> Seq<TouchDevice>
    decreases candidates.len(),
{
    if candidates.len() == 0 {
        Seq::empty()
    } else {
        let rest = with_score(candidates.drop_last(), score);
        if candidates.last()@.score == score {
            rest.push(candidates.last())
        } else {
            rest
        }
    }
}

/// The candidates that share the highest score, in their order.
pub open spec fn tied_best(candidates: Seq<TouchDevice>) -> Seq<TouchDevice> {
    with_score(candidates, best_score(candidates))
}

/// `r` is what choosing among `candidates` gives: no touchscreen, the
/// one with the highest score, or all of those that share it.
pub open spec fn chosen_as(r: Result<TouchDevice, TouchDeviceError>, candidates: Seq<TouchDevice>) -> bool {
    if candidates.len() == 0 {
        r matches Err(TouchDeviceError::NoTouchscreen)
    } else if tied_best(candidates).len() == 1 {
        r matches Ok(d) && d == tied_best(candidates)[0]
    } else {
        r matches Err(TouchDeviceError::Ambiguous { candidates: c }) && c@ == tied_best(candidates)
    }
}

/// The best score is the score of a candidate, and no candidate scores more.
pub proof fn lemma_best_score_bounds(candidates: Seq<TouchDevice>)
    requires
        candidates.len() > 0,
    ensures
        exists|i: int| 0 <= i < candidates.len() && candidates[i]@.score == best_score(candidates),
        forall|i: int| 0 <= i < candidates.len() ==> candidates[i]@.score <= best_score(candidates),
    decreases candidates.len(),
{
    if candidates.len() > 1 {
        let rest = candidates.drop_last();
        lemma_best_score_bounds(rest);
        let j = choose|j: int| 0 <= j < rest.len() && rest[j]@.score == best_score(rest);
        if candidates.last()@.score > best_score(rest) {
            assert(candidates[candidates.len() - 1]@.score == best_score(candidates));
        } else {
            assert(candidates[j]@.score == best_score(candidates));
        }
        assert forall|i: int| 0 <= i < candidates.len() implies candidates[i]@.score <= best_score(candidates) by {
            if i < candidates.len() - 1 {
                assert(candidates[i] == rest[i]);
            }
        }
    } else {
        assert(candidates[0]@.score == best_score(candidates));
    }
}

/// The candidates with a given score are exactly those of `candidates`
/// that have it, in their order.
pub proof fn lemma_with_score(candidates: Seq<TouchDevice>, score: int)
    ensures
        forall|k: int| 0 <= k < with_score(candidates, score).len() ==> (#[trigger] with_score(candidates, score)[k])@.score == score,
        forall|i: int| 0 <= i < candidates.len() && candidates[i]@.score == score ==>
            with_score(candidates, score).contains(#[trigger] candidates[i]),
        with_score(candidates, score).len() <= candidates.len(),
    decreases candidates.len(),
{
    if candidates.len() > 0 {
        let rest = candidates.drop_last();
        lemma_with_score(rest, score);
        let w = with_score(candidates, score);
        let wr = with_score(rest, score);
        assert forall|i: int| 0 <= i < candidates.len() && candidates[i]@.score == score implies w.contains(
            #[trigger] candidates[i],
        ) by {
            if i < candidates.len() - 1 {
                assert(candidates[i] == rest[i]);
                assert(wr.contains(rest[i]));
                let k = choose|k: int| 0 <= k < wr.len() && wr[k] == rest[i];
                if candidates.last()@.score == score {
                    assert(w[k] == wr[k]);
                } else {
                    assert(w == wr);
                }
            } else {
                assert(w[w.len() - 1] == candidates[i]);
            }
        }
        assert forall|k: int| 0 <= k < w.len() implies (#[trigger] w[k])@.score == score by {
            if k < wr.len() {
                assert(w[k] == wr[k]);
            }
        }
    }
}

/// When exactly one candidate has the best score, it scores strictly
/// more than every other candidate, and it is the first with that score.
pub proof fn lemma_unique_best(candidates: Seq<TouchDevice>)
    requires
        candidates.len() > 0,
    ensures
        tied_best(candidates).len() >= 1,
        tied_best(candidates).len() == 1 ==> forall|i: int|
            0 <= i < candidates.len() && candidates[i] != tied_best(candidates)[0]
                ==> #[trigger] candidates[i]@.score < tied_best(candidates)[0]@.score,
{
    lemma_best_score_bounds(candidates);
    lemma_with_score(candidates, best_score(candidates));
    let t = tied_best(candidates);
    let j = choose|j: int| 0 <= j < candidates.len() && candidates[j]@.score == best_score(candidates);
    assert(t.contains(candidates[j]));
    if t.len() == 1 {
        assert forall|i: int| 0 <= i < candidates.len() && candidates[i] != t[0] implies #[trigger] candidates[i]@.score
            < t[0]@.score by {
            if candidates[i]@.score == best_score(candidates) {
                assert(t.contains(candidates[i]));
            }
        }
    }
}

/// Chooses the touchscreen among the detected candidates.
///
/// Fails with `NoTouchscreen` when there is none and with `Ambiguous`,
/// listing them in their order, when several share the highest score.
pub fn select_touchscreen(candidates: Vec<TouchDevice>) -> (r: Result<TouchDevice, TouchDeviceError>)
    ensures
        chosen_as(r, candidates@),
{
    let n = candidates.len();
    if n == 0 {
        return Err(TouchDeviceError::NoTouchscreen);
    }
    let ghost all = candidates@;
    let mut best: i32 = candidates[0].score();
    let mut i: usize = 1;
    assert(all.take(1).drop_last() =~= all.take(0));
    while i < n
        invariant
            n == all.len(),
            candidates@ == all,
            1 <= i <= n,
            best == best_score(all.take(i as int)),
        decreases n - i,
    {
        let score = candidates[i].score();
        assert(all.take(i + 1).drop_last() =~= all.take(i as int));
        if score > best {
            best = score;
        }
        i = i + 1;
    }
    assert(all.take(n as int) =~= all);
    let mut rest = candidates;
    let mut tied: Vec<TouchDevice> = Vec::new();
    let mut k: usize = 0;
    assert(all.skip(0) =~= all);
    assert(all.take(0) =~= Seq::<TouchDevice>::empty());
    while rest.len() > 0
        invariant
            n == all.len(),
            k <= n,
            rest@ == all.skip(k as int),
            tied@ == with_score(all.take(k as int), best as int),
        decreases rest.len(),
    {
        let device = rest.remove(0);
        assert(all.take(k + 1).drop_last() =~= all.take(k as int));
        assert(device == all[k as int]);
        assert(rest@ =~= all.skip(k + 1));
        if device.score() == best {
            tied.push(device);
        }
        k = k + 1;
    }
    assert(k == n);
    assert(all.take(n as int) =~= all);
    proof {
        lemma_unique_best(all);
    }
    if tied.len() > 1 {
        Err(TouchDeviceError::Ambiguous { candidates: tied })
    } else {
        Ok(tied.remove(0))
    }
}

impl TouchDeviceError {
    /// The message that describes the error to a user.
    pub fn message(&self) -> (s: String)
        ensures
            !(self is Io) ==> s@ == error_text(*self),
            self matches TouchDeviceError::Io(e) ==> vstd::string::to_string_from_display_ensures::<std::io::Error>(&e, s),
    {
        match self {
            TouchDeviceError::Io(error) => error.to_string(),
            TouchDeviceError::NoTouchscreen => String::from_str(
                "no compatible direct MT touchscreen found",
            ),
            TouchDeviceError::InvalidDevice { path, reason } => {
                let mut s = path.clone();
                s.append(" is not a compatible touchscreen: ");
                s.append(reason.as_str());
                s
            },
            TouchDeviceError::Ambiguous { candidates } => {
                let mut s = String::from_str(
                    "multiple touchscreen candidates with the same priority:\n",
                );
                let n = candidates.len();
                let mut i: usize = 0;
                while i < n
                    invariant
                        n == candidates@.len(),
                        i <= n,
                        s@ == "multiple touchscreen candidates with the same priority:\n"@
                            + candidate_lines(candidates@.take(i as int)),
                    decreases n - i,
                {
                    s.append("  ");
                    let line = candidates[i].summary();
                    s.append(line.as_str());
                    s.append("\n");
                    assert(candidates@.take(i + 1).drop_last() =~= candidates@.take(i as int));
                    i = i + 1;
                }
                assert(candidates@.take(n as int) =~= candidates@);
                s.append("set AINPUT_TOUCH_DEVICE to explicitly choose one");
                s
            },
        }
    }
}

/// One line per candidate, each indented by two spaces.
pub open spec fn candidate_lines(candidates: Seq<TouchDevice>) -> Seq<char>
    decreases candidates.len(),
{
    if candidates.len() == 0 {
        Seq::empty()
    } else {
        candidate_lines(candidates.drop_last()) + "  "@ + summary_text(candidates.last()@) + "\n"@
    }
}

/// The message of an error other than an I/O one.
pub open spec fn error_text(e: TouchDeviceError) -> Seq<char> {
    match e {
        TouchDeviceError::Io(_) => Seq::empty(),
        TouchDeviceError::NoTouchscreen => "no compatible direct MT touchscreen found"@,
        TouchDeviceError::InvalidDevice { path, reason } => path@ + " is not a compatible touchscreen: "@
            + reason@,
        TouchDeviceError::Ambiguous { candidates } => "multiple touchscreen candidates with the same priority:\n"@
            + candidate_lines(candidates@) + "set AINPUT_TOUCH_DEVICE to explicitly choose one"@,
    }
}

impl From<std::io::Error> for TouchDeviceError {
    fn from(error: std::io::Error) -> (r: Self)
        ensures
            r == TouchDeviceError::Io(error),
    {
        TouchDeviceError::Io(error)
    }
}

impl vstd::std_specs::convert::FromSpecImpl<std::io::Error> for TouchDeviceError {
    open spec fn obeys_from_spec() -> bool {
        true
    }

    open spec fn from_spec(v: std::io::Error) -> TouchDeviceError {
        TouchDeviceError::Io(v)
    }
}


/// Every accepted device is a direct multitouch type B touchscreen with
/// usable ranges, scored by the detector's formula.
pub proof fn lemma_accepted_is_touchscreen(path: Seq<char>, caps: DeviceCapabilities)
    requires
        inspection(path, caps) is Accepted,
    ensures
        ({
            let v = inspection(path, caps)->Accepted_0;
            &&& v.wf()
            &&& v.path == path
            &&& v.name == recorded_name(caps.name)
            &&& v.score == detection_score(
                v.has_btn_tool_finger,
                v.touch_major_range is Some,
                v.width_major_range is Some,
                v.slot_count(),
                looks_virtual_text(v.name, v.path),
            )
        }),
{
}

/// A device that looks virtual scores below every device that does not.
pub proof fn lemma_virtual_devices_rank_last(
    a_finger: bool,
    a_touch: bool,
    a_width: bool,
    a_slots: int,
    b_finger: bool,
    b_touch: bool,
    b_width: bool,
    b_slots: int,
)
    ensures
        detection_score(a_finger, a_touch, a_width, a_slots, true) < detection_score(
            b_finger,
            b_touch,
            b_width,
            b_slots,
            false,
        ),
{
}

/// A name or path looks virtual exactly when, ASCII-lowercased, one of them
/// holds `uinput`, `virtual`, `injector` or `virtio`.
pub proof fn lemma_virtual_tokens(name: Seq<char>, path: Seq<char>)
    ensures
        looks_virtual_text(name, path) <==> {
            let n = ascii_lower_text(name);
            let p = ascii_lower_text(path);
            ||| text_contains(n, "uinput"@) || text_contains(p, "uinput"@)
            ||| text_contains(n, "virtual"@) || text_contains(p, "virtual"@)
            ||| text_contains(n, "injector"@) || text_contains(p, "injector"@)
            ||| text_contains(n, "virtio"@) || text_contains(p, "virtio"@)
        },
{
    let n = ascii_lower_text(name);
    let p = ascii_lower_text(path);
    assert(virtual_token(0) == "uinput"@);
    assert(virtual_token(1) == "virtual"@);
    assert(virtual_token(2) == "injector"@);
    assert(virtual_token(3) == "virtio"@);
    if looks_virtual_text(name, path) {
        let k = choose|k: int|
            0 <= k < 4 && (text_contains(n, #[trigger] virtual_token(k)) || text_contains(p, virtual_token(k)));
        assert(k == 0 || k == 1 || k == 2 || k == 3);
    }
}

/// Each feature moves the detector's score by a fixed amount, whatever the
/// others: a device with none of them scores 100, `BTN_TOOL_FINGER` adds
/// 10, a touch major axis 5, a width major axis 5, two slots or more 10,
/// and looking virtual takes 1000 off.
pub proof fn lemma_score_contributions(finger: bool, touch: bool, width: bool, slots: int, looks_virtual: bool)
    ensures
        detection_score(false, false, false, 1, false) == 100,
        detection_score(true, touch, width, slots, looks_virtual) == detection_score(
            false,
            touch,
            width,
            slots,
            looks_virtual,
        ) + 10,
        detection_score(finger, true, width, slots, looks_virtual) == detection_score(
            finger,
            false,
            width,
            slots,
            looks_virtual,
        ) + 5,
        detection_score(finger, touch, true, slots, looks_virtual) == detection_score(
            finger,
            touch,
            false,
            slots,
            looks_virtual,
        ) + 5,
        slots >= 2 ==> detection_score(finger, touch, width, slots, looks_virtual) == detection_score(
            finger,
            touch,
            width,
            1,
            looks_virtual,
        ) + 10,
        slots < 2 ==> detection_score(finger, touch, width, slots, looks_virtual) == detection_score(
            finger,
            touch,
            width,
            1,
            looks_virtual,
        ),
        detection_score(finger, touch, width, slots, true) == detection_score(finger, touch, width, slots, false)
            - 1000,
{
}

} // verus!
