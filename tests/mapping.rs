use winit_winrt::keyboard::{
    map_key, map_virtual_key_char, map_virtual_key_named, modifiers_from_key_states, Key,
    ModifierKeyStates, ModifiersState, NamedKey, NativeKey, NativeKeyCode, PhysicalKey,
};
use winit_winrt::pointer::{
    button_source_from_point, pointer_details, pointer_source, wheel_delta, ButtonSource, FingerId,
    MouseButton, PointerDeviceType, PointerKind, PointerPoint, PointerSource, PointerUpdateKind,
    TabletToolButton, TabletToolKind, WheelDelta, WHEEL_DELTA,
};
use winit_winrt::units::{
    scale_changed, to_physical_coordinate, to_physical_length, rescale_length, LogicalPosition,
    PhysicalPosition, ScaleFactor,
};
use winit_winrt::window::{cursor_icon_to_core, CoreCursorType, CursorIcon};
use winit_winrt::error::{NotSupportedError, Unsupported};
use winit_winrt::{physicalkey_to_scancode, scancode_to_physicalkey, BackdropType, Color, CornerPreference};

#[test]
fn color_packs_rgb() {
    assert_eq!(Color::from_rgb(0x12, 0x34, 0x56), Color(0x0056_3412));
    assert_eq!(Color::from_rgb(255, 255, 255), Color(0x00ff_ffff));
    assert_eq!(Color::default(), Color(0xffff_ffff));
    assert_eq!(Color::system_default(), Color::default());
    assert_eq!(BackdropType::default(), BackdropType::Auto);
    assert_eq!(CornerPreference::default(), CornerPreference::Default);
}

#[test]
fn scancode_round_trip() {
    assert_eq!(scancode_to_physicalkey(30), PhysicalKey::Unidentified(NativeKeyCode::Windows(30)));
    assert_eq!(physicalkey_to_scancode(scancode_to_physicalkey(30)), Some(30));
    assert_eq!(scancode_to_physicalkey(0x1_0005), PhysicalKey::Unidentified(NativeKeyCode::Windows(5)));
    assert_eq!(physicalkey_to_scancode(PhysicalKey::Unidentified(NativeKeyCode::Xkb(30))), None);
}

#[test]
fn virtual_keys_map_to_named_keys() {
    assert_eq!(map_virtual_key_named(13), Some(NamedKey::Enter));
    assert_eq!(map_virtual_key_named(8), Some(NamedKey::Backspace));
    assert_eq!(map_virtual_key_named(116), Some(NamedKey::F5));
    assert_eq!(map_virtual_key_named(40), Some(NamedKey::ArrowDown));
    assert_eq!(map_virtual_key_named(65), None);
}

#[test]
fn virtual_keys_map_to_characters() {
    assert_eq!(map_virtual_key_char(65, false), Some('a'));
    assert_eq!(map_virtual_key_char(90, true), Some('Z'));
    assert_eq!(map_virtual_key_char(48, true), Some('0'));
    assert_eq!(map_virtual_key_char(57, false), Some('9'));
    assert_eq!(map_virtual_key_char(32, false), Some(' '));
    assert_eq!(map_virtual_key_char(13, false), None);
}

#[test]
fn map_key_gives_key_and_text() {
    let none = ModifiersState::empty();
    let shift = ModifiersState { shift: true, ..none };
    assert_eq!(map_key(65, none), (Key::Character("a".to_string()), Some("a".to_string())));
    assert_eq!(map_key(65, shift), (Key::Character("A".to_string()), Some("A".to_string())));
    assert_eq!(map_key(9, none), (Key::Named(NamedKey::Tab), Some("\t".to_string())));
    assert_eq!(map_key(27, none), (Key::Named(NamedKey::Escape), Some("\u{1b}".to_string())));
    assert_eq!(map_key(46, none), (Key::Named(NamedKey::Delete), None));
    assert_eq!(map_key(200, none), (Key::Unidentified(NativeKey::Windows(200)), None));
    assert_eq!(map_key(-1, none), (Key::Unidentified(NativeKey::Windows(0)), None));
}

#[test]
fn modifiers_come_from_key_states() {
    let states = ModifierKeyStates { shift: true, control: false, menu: true, left_windows: false, right_windows: true };
    assert_eq!(
        modifiers_from_key_states(Some(states)),
        ModifiersState { shift: true, control: false, alt: true, meta: true }
    );
    assert_eq!(modifiers_from_key_states(None), ModifiersState::empty());
}

#[test]
fn wheel_delta_routes_axis() {
    let v = wheel_delta(120, false);
    assert_eq!(v, WheelDelta { x: 0, y: 120 });
    assert_eq!((v.x as f32 / WHEEL_DELTA as f32, v.y as f32 / WHEEL_DELTA as f32), (0.0, 1.0));
    let h = wheel_delta(-240, true);
    assert_eq!(h, WheelDelta { x: -240, y: 0 });
    assert_eq!((h.x as f32 / WHEEL_DELTA as f32, h.y as f32 / WHEEL_DELTA as f32), (-2.0, 0.0));
}

#[test]
fn mouse_buttons_follow_update_kind() {
    let b = |u| button_source_from_point(u, PointerSource::Mouse);
    assert_eq!(b(Some(PointerUpdateKind::LeftButtonReleased)), ButtonSource::Mouse(MouseButton::Left));
    assert_eq!(b(Some(PointerUpdateKind::RightButtonPressed)), ButtonSource::Mouse(MouseButton::Right));
    assert_eq!(b(Some(PointerUpdateKind::MiddleButtonReleased)), ButtonSource::Mouse(MouseButton::Middle));
    assert_eq!(b(Some(PointerUpdateKind::XButton1Pressed)), ButtonSource::Mouse(MouseButton::Back));
    assert_eq!(b(Some(PointerUpdateKind::XButton2Released)), ButtonSource::Mouse(MouseButton::Forward));
    assert_eq!(b(Some(PointerUpdateKind::Other)), ButtonSource::Mouse(MouseButton::Left));
    assert_eq!(b(None), ButtonSource::Mouse(MouseButton::Left));
}

#[test]
fn non_mouse_buttons() {
    let touch = PointerSource::Touch { finger_id: FingerId(3) };
    assert_eq!(button_source_from_point(None, touch), ButtonSource::Touch { finger_id: FingerId(3) });
    assert_eq!(
        button_source_from_point(None, PointerSource::TabletTool { kind: TabletToolKind::Pen }),
        ButtonSource::TabletTool { kind: TabletToolKind::Pen, button: TabletToolButton::Contact }
    );
    assert_eq!(button_source_from_point(None, PointerSource::Unknown), ButtonSource::Unknown(0));
}

#[test]
fn device_types_classify_sources() {
    assert_eq!(pointer_source(Some(PointerDeviceType::Mouse), Some(4)), PointerSource::Mouse);
    assert_eq!(pointer_source(Some(PointerDeviceType::Touch), None), PointerSource::Touch { finger_id: FingerId(0) });
    assert_eq!(pointer_source(Some(PointerDeviceType::Pen), None), PointerSource::TabletTool { kind: TabletToolKind::Pen });
    assert_eq!(pointer_source(None, Some(1)), PointerSource::Unknown);
}

#[test]
fn pointer_details_scale_position() {
    let point = PointerPoint {
        position: LogicalPosition { x: 100_000, y: 1 },
        is_primary: Some(false),
        device_type: Some(PointerDeviceType::Pen),
        pointer_id: None,
        update_kind: None,
    };
    let d = pointer_details(&point, ScaleFactor { nanos: 2_000_000_000 });
    assert_eq!(d.position, PhysicalPosition { x: 200_000, y: 2 });
    assert!(!d.primary);
    assert_eq!(d.kind, PointerKind::TabletTool(TabletToolKind::Pen));
}

#[test]
fn conversions_round_and_saturate() {
    let s = |nanos| ScaleFactor { nanos };
    assert_eq!(to_physical_length(1_500, s(1_000_000_000)), 2);
    assert_eq!(to_physical_length(1_499, s(1_000_000_000)), 1);
    assert_eq!(to_physical_length(u64::MAX, s(u64::MAX)), u32::MAX);
    assert_eq!(to_physical_coordinate(-1_500, s(1_000_000_000)), -1_500);
    assert_eq!(to_physical_coordinate(-1, s(500_000_000)), -1);
    assert_eq!(to_physical_coordinate(i64::MIN, s(2_000_000_000)), i64::MIN);
    assert_eq!(to_physical_coordinate(i64::MAX, s(2_000_000_000)), i64::MAX);
    assert_eq!(rescale_length(800, s(1_000_000_000), s(1_500_000_000)), 1200);
    assert_eq!(rescale_length(u32::MAX, s(1), s(2)), u32::MAX);
}

#[test]
fn scale_tolerance() {
    let s = |nanos| ScaleFactor { nanos };
    assert!(!scale_changed(s(1_000_000_000), s(1_000_000_100)));
    assert!(!scale_changed(s(1_000_000_000), s(1_000_000_999)));
    assert!(scale_changed(s(1_000_000_000), s(1_000_001_000)));
    assert!(scale_changed(s(1_500_000_000), s(1_000_000_000)));
}

#[test]
fn cursor_icons_map_to_system_cursors() {
    assert_eq!(cursor_icon_to_core(CursorIcon::Default), CoreCursorType::Arrow);
    assert_eq!(cursor_icon_to_core(CursorIcon::Grabbing), CoreCursorType::Hand);
    assert_eq!(cursor_icon_to_core(CursorIcon::VerticalText), CoreCursorType::IBeam);
    assert_eq!(cursor_icon_to_core(CursorIcon::Crosshair), CoreCursorType::Cross);
    assert_eq!(cursor_icon_to_core(CursorIcon::NoDrop), CoreCursorType::UniversalNo);
    assert_eq!(cursor_icon_to_core(CursorIcon::Progress), CoreCursorType::Wait);
    assert_eq!(cursor_icon_to_core(CursorIcon::AllResize), CoreCursorType::SizeAll);
    assert_eq!(cursor_icon_to_core(CursorIcon::ColResize), CoreCursorType::SizeWestEast);
    assert_eq!(cursor_icon_to_core(CursorIcon::RowResize), CoreCursorType::SizeNorthSouth);
    assert_eq!(cursor_icon_to_core(CursorIcon::SwResize), CoreCursorType::SizeNortheastSouthwest);
    assert_eq!(cursor_icon_to_core(CursorIcon::SeResize), CoreCursorType::SizeNorthwestSoutheast);
    assert_eq!(cursor_icon_to_core(CursorIcon::Help), CoreCursorType::Help);
    assert_eq!(cursor_icon_to_core(CursorIcon::ZoomIn), CoreCursorType::Arrow);
}

#[test]
fn unsupported_messages() {
    let m = |reason| NotSupportedError { reason }.message();
    assert_eq!(m(Unsupported::CustomCursor), "custom cursors are not supported on WinRT");
    assert_eq!(m(Unsupported::CoreWindowUnavailable), "CoreWindow is not available yet");
    assert_eq!(m(Unsupported::CursorGrab), "set_cursor_grab is not supported");
}
