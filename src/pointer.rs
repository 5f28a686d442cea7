//! Pointer data and how native pointer points become pointer events.

use vstd::prelude::*;
use crate::units::{LogicalPosition, PhysicalPosition, ScaleFactor, position_to_physical, to_physical_position};

verus! {

/// Native wheel units per line of scrolling.
pub const WHEEL_DELTA: i32 = 120;

/// The kind of device behind a native pointer.
#[derive(Debug, Clone, Copy, PartialEq, Eq, Hash, Structural)]
pub enum PointerDeviceType {
    Touch,
    Pen,
    Mouse,
}

/// What changed in a native pointer update.
#[derive(Debug, Clone, Copy, PartialEq, Eq, Hash, Structural)]
pub enum PointerUpdateKind {
    Other,
    LeftButtonPressed,
    LeftButtonReleased,
    RightButtonPressed,
    RightButtonReleased,
    MiddleButtonPressed,
    MiddleButtonReleased,
    XButton1Pressed,
    XButton1Released,
    XButton2Pressed,
    XButton2Released,
}

/// What the native layer could tell about a pointer point; `None` where a query failed.
#[derive(Debug, Clone, Copy, PartialEq, Eq, Hash, Structural)]
pub struct PointerPoint {
    pub position: LogicalPosition,
    pub is_primary: Option<bool>,
    pub device_type: Option<PointerDeviceType>,
    pub pointer_id: Option<u32>,
    pub update_kind: Option<PointerUpdateKind>,
}

/// Identifies one finger on a touch surface.
#[derive(Debug, Clone, Copy, PartialEq, Eq, Hash, Structural)]
pub struct FingerId(pub usize);

/// The kind of a tablet tool.
#[derive(Debug, Clone, Copy, PartialEq, Eq, Hash, Structural)]
pub enum TabletToolKind {
    Pen,
    Eraser,
    Brush,
    Pencil,
    Airbrush,
    Mouse,
    Lens,
}

/// A button of a tablet tool.
#[derive(Debug, Clone, Copy, PartialEq, Eq, Hash, Structural)]
pub enum TabletToolButton {
    Contact,
    Barrel,
    Other(u16),
}

/// The device that moved a pointer.
#[derive(Debug, Clone, Copy, PartialEq, Eq, Hash, Structural)]
pub enum PointerSource {
    Mouse,
    Touch { finger_id: FingerId },
    TabletTool { kind: TabletToolKind },
    Unknown,
}

/// The kind of device that a pointer belongs to.
#[derive(Debug, Clone, Copy, PartialEq, Eq, Hash, Structural)]
pub enum PointerKind {
    Mouse,
    Touch(FingerId),
    TabletTool(TabletToolKind),
    Unknown,
}

/// A mouse button.
#[derive(Debug, Clone, Copy, PartialEq, Eq, Hash, Structural)]
pub enum MouseButton {
    Left,
    Right,
    Middle,
    Back,
    Forward,
}

/// The button behind a pointer button event.
#[derive(Debug, Clone, Copy, PartialEq, Eq, Hash, Structural)]
pub enum ButtonSource {
    Mouse(MouseButton),
    Touch { finger_id: FingerId },
    TabletTool { kind: TabletToolKind, button: TabletToolButton },
    Unknown(u16),
}

/// A scroll amount in native wheel units: `WHEEL_DELTA` units make one line.
#[derive(Debug, Clone, Copy, PartialEq, Eq, Hash, Default, Structural)]
pub struct WheelDelta {
    pub x: i32,
    pub y: i32,
}

/// The phase of a touch or scroll gesture.
#[derive(Debug, Clone, Copy, PartialEq, Eq, Hash, Structural)]
pub enum TouchPhase {
    Started,
    Moved,
    Ended,
    Cancelled,
}

/// The source that a device type stands for; a touch carries its pointer id (0 if unknown).
pub open spec fn spec_pointer_source(device: Option<PointerDeviceType>, pointer_id: Option<u32>) -> PointerSource {
    match device {
        Some(PointerDeviceType::Mouse) => PointerSource::Mouse,
        Some(PointerDeviceType::Touch) => PointerSource::Touch {
            finger_id: FingerId(match pointer_id { Some(id) => id as usize, None => 0usize }),
        },
        Some(PointerDeviceType::Pen) => PointerSource::TabletTool { kind: TabletToolKind::Pen },
        None => PointerSource::Unknown,
    }
}

/// Classifies the device behind a pointer.
pub fn pointer_source(device: Option<PointerDeviceType>, pointer_id: Option<u32>) -> (r: PointerSource)
    ensures
        r == spec_pointer_source(device, pointer_id),
{
    match device {
        Some(PointerDeviceType::Mouse) => PointerSource::Mouse,
        Some(PointerDeviceType::Touch) => {
            let id: usize = match pointer_id {
                Some(id) => id as usize,
                None => 0,
            };
            PointerSource::Touch { finger_id: FingerId(id) }
        },
        Some(PointerDeviceType::Pen) => PointerSource::TabletTool { kind: TabletToolKind::Pen },
        None => PointerSource::Unknown,
    }
}

/// The kind of device that a pointer source belongs to.
pub open spec fn spec_pointer_kind(source: PointerSource) -> PointerKind {
    match source {
        PointerSource::Mouse => PointerKind::Mouse,
        PointerSource::Touch { finger_id } => PointerKind::Touch(finger_id),
        PointerSource::TabletTool { kind } => PointerKind::TabletTool(kind),
        PointerSource::Unknown => PointerKind::Unknown,
    }
}

/// Returns the kind of device that a pointer source belongs to.
pub fn pointer_kind(source: PointerSource) -> (r: PointerKind)
    ensures
        r == spec_pointer_kind(source),
{
    match source {
        PointerSource::Mouse => PointerKind::Mouse,
        PointerSource::Touch { finger_id } => PointerKind::Touch(finger_id),
        PointerSource::TabletTool { kind } => PointerKind::TabletTool(kind),
        PointerSource::Unknown => PointerKind::Unknown,
    }
}

/// The mouse button that an update names; an update that names none counts as the left button.
pub open spec fn spec_mouse_button(update: Option<PointerUpdateKind>) -> MouseButton {
    match update {
        Some(PointerUpdateKind::LeftButtonPressed) | Some(PointerUpdateKind::LeftButtonReleased) => MouseButton::Left,
        Some(PointerUpdateKind::RightButtonPressed) | Some(PointerUpdateKind::RightButtonReleased) => MouseButton::Right,
        Some(PointerUpdateKind::MiddleButtonPressed) | Some(PointerUpdateKind::MiddleButtonReleased) => MouseButton::Middle,
        Some(PointerUpdateKind::XButton1Pressed) | Some(PointerUpdateKind::XButton1Released) => MouseButton::Back,
        Some(PointerUpdateKind::XButton2Pressed) | Some(PointerUpdateKind::XButton2Released) => MouseButton::Forward,
        _ => MouseButton::Left,
    }
}

/// The button behind a button event of a pointer source.
pub open spec fn spec_button_source(update: Option<PointerUpdateKind>, source: PointerSource) -> ButtonSource {
    match source {
        PointerSource::Mouse => ButtonSource::Mouse(spec_mouse_button(update)),
        PointerSource::Touch { finger_id } => ButtonSource::Touch { finger_id },
        PointerSource::TabletTool { .. } => ButtonSource::TabletTool {
            kind: TabletToolKind::Pen,
            button: TabletToolButton::Contact,
        },
        PointerSource::Unknown => ButtonSource::Unknown(0),
    }
}

/// Determines the button behind a button event, from the native update kind and the source.
pub fn button_source_from_point(update: Option<PointerUpdateKind>, source: PointerSource) -> (r: ButtonSource)
    ensures
        r == spec_button_source(update, source),
{
    match source {
        PointerSource::Mouse => {
            let mouse = match update {
                Some(PointerUpdateKind::LeftButtonPressed)
                | Some(PointerUpdateKind::LeftButtonReleased) => MouseButton::Left,
                Some(PointerUpdateKind::RightButtonPressed)
                | Some(PointerUpdateKind::RightButtonReleased) => MouseButton::Right,
                Some(PointerUpdateKind::MiddleButtonPressed)
                | Some(PointerUpdateKind::MiddleButtonReleased) => MouseButton::Middle,
                Some(PointerUpdateKind::XButton1Pressed)
                | Some(PointerUpdateKind::XButton1Released) => MouseButton::Back,
                Some(PointerUpdateKind::XButton2Pressed)
                | Some(PointerUpdateKind::XButton2Released) => MouseButton::Forward,
                _ => MouseButton::Left,
            };
            ButtonSource::Mouse(mouse)
        },
        PointerSource::Touch { finger_id } => ButtonSource::Touch { finger_id },
        PointerSource::TabletTool { .. } => ButtonSource::TabletTool {
            kind: TabletToolKind::Pen,
            button: TabletToolButton::Contact,
        },
        PointerSource::Unknown => ButtonSource::Unknown(0),
    }
}

/// What a pointer event says of its pointer.
#[derive(Debug, Clone, Copy, PartialEq, Eq, Hash, Structural)]
pub struct PointerDetails {
    pub position: PhysicalPosition,
    pub primary: bool,
    pub source: PointerSource,
    pub kind: PointerKind,
}

/// The details of a pointer point at a scale factor; a point whose primacy is unknown is primary.
pub open spec fn spec_pointer_details(point: PointerPoint, scale: ScaleFactor) -> PointerDetails {
    let source = spec_pointer_source(point.device_type, point.pointer_id);
    PointerDetails {
        position: position_to_physical(point.position, scale),
        primary: match point.is_primary { Some(p) => p, None => true },
        source,
        kind: spec_pointer_kind(source),
    }
}

/// Resolves the position, primacy, source and kind of a pointer point.
pub fn pointer_details(point: &PointerPoint, scale: ScaleFactor) -> (r: PointerDetails)
    ensures
        r == spec_pointer_details(*point, scale),
{
    let source = pointer_source(point.device_type, point.pointer_id);
    PointerDetails {
        position: to_physical_position(point.position, scale),
        primary: match point.is_primary {
            Some(p) => p,
            None => true,
        },
        source,
        kind: pointer_kind(source),
    }
}

/// The line delta of a wheel turn: along x for a horizontal wheel, else along y.
pub open spec fn spec_wheel_delta(delta: i32, is_horizontal: bool) -> WheelDelta {
    if is_horizontal { WheelDelta { x: delta, y: 0 } } else { WheelDelta { x: 0, y: delta } }
}

/// Routes a native wheel delta to the horizontal or the vertical axis.
pub fn wheel_delta(delta: i32, is_horizontal: bool) -> (r: WheelDelta)
    ensures
        r == spec_wheel_delta(delta, is_horizontal),
{
    if is_horizontal {
        WheelDelta { x: delta, y: 0 }
    } else {
        WheelDelta { x: 0, y: delta }
    }
}

} // verus!
