use winit_winrt::event::{ControlFlow, Event, StartCause, Timestamp, WindowEvent, WindowId, next_start_cause};
use winit_winrt::event_loop::EventLoopRegistry;
use winit_winrt::error::{EventLoopError, NotSupportedError, RequestError, Unsupported};
use winit_winrt::keyboard::{ElementState, Key, ModifierKeyStates, ModifiersState, NamedKey, NativeKeyCode, PhysicalKey};
use winit_winrt::pointer::{PointerDeviceType, PointerKind, PointerPoint, PointerSource, WheelDelta, TouchPhase, FingerId};
use winit_winrt::runner::{pump_mode, LoopPhase, LoopStep, PumpMode, Runner};
use winit_winrt::units::{LogicalPosition, LogicalSize, PhysicalPosition, PhysicalSize, ScaleFactor};
use winit_winrt::window::{CoreCursorType, CursorIcon, Window};
use winit_winrt::PlatformSpecificEventLoopAttributes;

const VK_A: i32 = 65;
const VK_B: i32 = 66;
const VK_ENTER: i32 = 13;

fn t(nanos: u64) -> Timestamp {
    Timestamp { nanos }
}

/// Runs the loop up to the end of the next batch and returns the dispatched events.
fn drain(runner: &mut Runner) -> Vec<Event> {
    let mut out = Vec::new();
    loop {
        match runner.next_step(t(0)) {
            LoopStep::Dispatch(e) => out.push(e),
            LoopStep::AboutToWait => return out,
            LoopStep::Exit => return out,
            _ => {},
        }
    }
}

fn key_inputs(events: &[Event]) -> Vec<winit_winrt::keyboard::KeyEvent> {
    events
        .iter()
        .filter_map(|e| match e {
            Event::Window { event: WindowEvent::KeyboardInput { event, .. }, .. } => Some(event.clone()),
            _ => None,
        })
        .collect()
}

fn new_runner() -> Runner {
    Runner::new()
}

#[test]
fn press_character_release_emits_press_then_release() {
    let mut r = new_runner();
    r.handle_key(VK_A, 30, 1, None, ElementState::Pressed);
    r.handle_character_received('a' as u32);
    r.handle_key(VK_A, 30, 1, None, ElementState::Released);
    let events = drain(&mut r);
    let keys = key_inputs(&events);
    assert_eq!(keys.len(), 2);
    assert_eq!(keys[0].state, ElementState::Pressed);
    assert_eq!(keys[0].logical_key, Key::Character("a".to_string()));
    assert_eq!(keys[0].text, Some("a".to_string()));
    assert_eq!(keys[0].physical_key, PhysicalKey::Unidentified(NativeKeyCode::Windows(30)));
    assert_eq!(keys[1].state, ElementState::Released);
    assert_eq!(keys[1].text, None);
    assert!(!keys[1].repeat);
    assert_eq!(events.len(), 4);
    assert!(matches!(events[0], Event::Window { event: WindowEvent::ModifiersChanged(_), .. }));
}

#[test]
fn character_replaces_mapped_text_but_keeps_key_without_modifiers() {
    let mut r = new_runner();
    r.handle_key(VK_A, 30, 1, None, ElementState::Pressed);
    r.handle_character_received('\u{e9}' as u32);
    let keys = key_inputs(&drain(&mut r));
    assert_eq!(keys.len(), 1);
    assert_eq!(keys[0].logical_key, Key::Character("\u{e9}".to_string()));
    assert_eq!(keys[0].text_with_all_modifiers, Some("\u{e9}".to_string()));
    assert_eq!(keys[0].key_without_modifiers, Key::Character("a".to_string()));
}

#[test]
fn named_key_press_is_emitted_at_once() {
    let mut r = new_runner();
    r.handle_key(VK_ENTER, 28, 1, None, ElementState::Pressed);
    r.handle_character_received('\r' as u32);
    r.handle_key(VK_ENTER, 28, 1, None, ElementState::Released);
    let keys = key_inputs(&drain(&mut r));
    assert_eq!(keys.len(), 2);
    assert_eq!(keys[0].logical_key, Key::Named(NamedKey::Enter));
    assert_eq!(keys[0].text, Some("\r".to_string()));
    assert_eq!(keys[1].text, None);
}

#[test]
fn control_modified_character_is_not_held_back() {
    let mut r = new_runner();
    let ctrl = ModifierKeyStates { control: true, ..Default::default() };
    r.handle_key(VK_A, 30, 1, Some(ctrl), ElementState::Pressed);
    let events = drain(&mut r);
    assert_eq!(
        events[0],
        Event::Window {
            window_id: WindowId(0),
            event: WindowEvent::ModifiersChanged(ModifiersState { shift: false, control: true, alt: false, meta: false }),
        }
    );
    assert_eq!(key_inputs(&events).len(), 1);
}

#[test]
fn shift_gives_upper_case() {
    let mut r = new_runner();
    let shift = ModifierKeyStates { shift: true, ..Default::default() };
    r.handle_key(VK_A, 30, 1, Some(shift), ElementState::Pressed);
    r.handle_key(VK_A, 30, 1, Some(shift), ElementState::Released);
    let keys = key_inputs(&drain(&mut r));
    assert_eq!(keys[0].logical_key, Key::Character("A".to_string()));
    assert_eq!(keys[0].key_without_modifiers, Key::Character("a".to_string()));
}

#[test]
fn second_key_down_flushes_first() {
    let mut r = new_runner();
    r.handle_key(VK_A, 30, 1, None, ElementState::Pressed);
    r.handle_key(VK_B, 48, 1, None, ElementState::Pressed);
    let keys = key_inputs(&drain(&mut r));
    assert_eq!(keys.len(), 1);
    assert_eq!(keys[0].logical_key, Key::Character("a".to_string()));
    r.handle_character_received('b' as u32);
    let keys = key_inputs(&drain(&mut r));
    assert_eq!(keys.len(), 1);
    assert_eq!(keys[0].text, Some("b".to_string()));
}

#[test]
fn release_of_other_key_keeps_pending_press() {
    let mut r = new_runner();
    r.handle_key(VK_A, 30, 1, None, ElementState::Pressed);
    r.handle_key(VK_B, 48, 1, None, ElementState::Released);
    let keys = key_inputs(&drain(&mut r));
    assert_eq!(keys.len(), 1);
    assert_eq!(keys[0].state, ElementState::Released);
    r.handle_character_received('a' as u32);
    let keys = key_inputs(&drain(&mut r));
    assert_eq!(keys.len(), 1);
    assert_eq!(keys[0].text, Some("a".to_string()));
}

#[test]
fn invalid_character_code_keeps_pending_press() {
    let mut r = new_runner();
    r.handle_key(VK_A, 30, 1, None, ElementState::Pressed);
    r.handle_character_received(0xD800);
    assert!(key_inputs(&drain(&mut r)).is_empty());
    r.handle_key(VK_A, 30, 1, None, ElementState::Released);
    let keys = key_inputs(&drain(&mut r));
    assert_eq!(keys.len(), 2);
    assert_eq!(keys[0].text, Some("a".to_string()));
    assert_eq!(keys[1].state, ElementState::Released);
}

#[test]
fn repeat_flag_follows_repeat_count() {
    let mut r = new_runner();
    r.handle_key(VK_ENTER, 28, 3, None, ElementState::Pressed);
    r.handle_key(VK_ENTER, 28, 3, None, ElementState::Released);
    let keys = key_inputs(&drain(&mut r));
    assert!(keys[0].repeat);
    assert!(!keys[1].repeat);
}

#[test]
fn loop_runs_its_phases_in_order() {
    let mut r = new_runner();
    assert_eq!(r.next_step(t(5)), LoopStep::NewEvents { cause: StartCause::Init });
    assert_eq!(r.next_step(t(5)), LoopStep::PumpEvents(PumpMode::ProcessOneAndAllPending));
    r.handle_closed();
    assert_eq!(
        r.next_step(t(5)),
        LoopStep::Dispatch(Event::Window { window_id: WindowId(0), event: WindowEvent::CloseRequested })
    );
    assert_eq!(r.next_step(t(5)), LoopStep::AboutToWait);
    assert_eq!(
        r.next_step(t(7)),
        LoopStep::NewEvents { cause: StartCause::WaitCancelled { start: t(7), requested_resume: None } }
    );
}

#[test]
fn events_queued_during_dispatch_wait_for_next_batch() {
    let mut r = new_runner();
    r.request_redraw();
    r.next_step(t(0));
    r.next_step(t(0));
    assert!(matches!(r.next_step(t(0)), LoopStep::Dispatch(_)));
    r.request_redraw();
    assert_eq!(r.next_step(t(0)), LoopStep::AboutToWait);
    assert_eq!(r.queued_len(), 1);
}

#[test]
fn exit_during_dispatch_ends_the_loop_after_this_iteration() {
    let mut r = new_runner();
    r.handle_closed();
    r.request_redraw();
    assert_eq!(r.next_step(t(0)), LoopStep::NewEvents { cause: StartCause::Init });
    r.next_step(t(0));
    assert!(matches!(r.next_step(t(0)), LoopStep::Dispatch(_)));
    r.exit();
    assert!(r.exiting());
    assert!(matches!(r.next_step(t(0)), LoopStep::Dispatch(_)));
    assert_eq!(r.next_step(t(0)), LoopStep::AboutToWait);
    assert_eq!(r.next_step(t(0)), LoopStep::Exit);
    assert_eq!(r.next_step(t(0)), LoopStep::Exit);
    assert_eq!(r.phase(), LoopPhase::Exited);
}

#[test]
fn exit_before_start_allows_one_iteration() {
    let mut r = new_runner();
    r.exit();
    let mut iterations = 0;
    loop {
        match r.next_step(t(0)) {
            LoopStep::NewEvents { .. } => iterations += 1,
            LoopStep::Exit => break,
            _ => {},
        }
    }
    assert_eq!(iterations, 1);
}

#[test]
fn wake_up_requests_collapse_until_dispatched() {
    let mut r = new_runner();
    assert!(r.queue_wakeup());
    assert!(!r.queue_wakeup());
    assert_eq!(r.queued_len(), 1);
    r.next_step(t(0));
    r.next_step(t(0));
    assert_eq!(r.next_step(t(0)), LoopStep::Dispatch(Event::WakeUp));
    assert!(r.queue_wakeup());
    assert_eq!(r.next_step(t(0)), LoopStep::AboutToWait);
    let events = drain(&mut r);
    assert_eq!(events, vec![Event::WakeUp]);
}

#[test]
fn start_cause_follows_control_flow() {
    assert_eq!(next_start_cause(ControlFlow::Poll, t(10)), StartCause::Poll);
    assert_eq!(
        next_start_cause(ControlFlow::Wait, t(10)),
        StartCause::WaitCancelled { start: t(10), requested_resume: None }
    );
    assert_eq!(
        next_start_cause(ControlFlow::WaitUntil(t(10)), t(10)),
        StartCause::ResumeTimeReached { start: t(10), requested_resume: t(10) }
    );
    assert_eq!(
        next_start_cause(ControlFlow::WaitUntil(t(20)), t(10)),
        StartCause::WaitCancelled { start: t(10), requested_resume: Some(t(20)) }
    );
}

#[test]
fn pump_mode_follows_control_flow() {
    assert_eq!(pump_mode(ControlFlow::Poll, t(0)), PumpMode::ProcessAllIfPresent);
    assert_eq!(pump_mode(ControlFlow::Wait, t(0)), PumpMode::ProcessOneAndAllPending);
    assert_eq!(pump_mode(ControlFlow::WaitUntil(t(50)), t(20)), PumpMode::SleepThenProcessAll { nanos: 30 });
    assert_eq!(pump_mode(ControlFlow::WaitUntil(t(50)), t(60)), PumpMode::ProcessAllIfPresent);
}

#[test]
fn control_flow_is_kept() {
    let mut r = new_runner();
    assert_eq!(r.control_flow(), ControlFlow::Wait);
    r.set_control_flow(ControlFlow::Poll);
    assert_eq!(r.control_flow(), ControlFlow::Poll);
    r.next_step(t(0));
    assert_eq!(r.next_step(t(0)), LoopStep::PumpEvents(PumpMode::ProcessAllIfPresent));
}

fn scale(nanos: u64) -> ScaleFactor {
    ScaleFactor { nanos }
}

#[test]
fn tiny_scale_change_is_ignored() {
    let mut r = new_runner();
    r.set_window(Some(scale(1_000_000_000)), LogicalSize { width: 800_000, height: 600_000 });
    assert_eq!(r.surface_size(), PhysicalSize { width: 800, height: 600 });
    r.handle_dpi_changed(scale(1_000_000_100));
    assert_eq!(r.scale_factor(), scale(1_000_000_000));
    assert!(drain(&mut r).is_empty());
}

#[test]
fn scale_change_rescales_surface() {
    let mut r = new_runner();
    r.set_window(Some(scale(1_000_000_000)), LogicalSize { width: 800_000, height: 600_000 });
    r.handle_dpi_changed(scale(1_500_000_000));
    assert_eq!(r.scale_factor(), scale(1_500_000_000));
    assert_eq!(r.surface_size(), PhysicalSize { width: 1200, height: 900 });
    let events = drain(&mut r);
    assert_eq!(
        events,
        vec![Event::Window {
            window_id: WindowId(0),
            event: WindowEvent::ScaleFactorChanged {
                scale_factor: scale(1_500_000_000),
                surface_size: PhysicalSize { width: 1200, height: 900 },
            },
        }]
    );
    r.commit_surface_size(PhysicalSize { width: 1000, height: 700 });
    assert_eq!(r.surface_size(), PhysicalSize { width: 1200, height: 900 });
}

#[test]
fn surface_size_is_chosen_only_right_after_a_scale_change() {
    let mut r = new_runner();
    r.set_window(Some(scale(1_000_000_000)), LogicalSize { width: 333_000, height: 101_000 });
    r.handle_dpi_changed(scale(1_250_000_000));
    assert_eq!(r.surface_size(), PhysicalSize { width: 416, height: 126 });
    r.request_redraw();
    r.commit_surface_size(PhysicalSize { width: 1, height: 1 });
    assert_eq!(r.surface_size(), PhysicalSize { width: 416, height: 126 });
    r.next_step(t(0));
    r.next_step(t(0));
    assert!(matches!(
        r.next_step(t(0)),
        LoopStep::Dispatch(Event::Window { event: WindowEvent::ScaleFactorChanged { .. }, .. })
    ));
    assert_eq!(r.phase(), LoopPhase::Resizing);
    r.commit_surface_size(PhysicalSize { width: 500, height: 150 });
    assert_eq!(r.surface_size(), PhysicalSize { width: 500, height: 150 });
    assert_eq!(r.phase(), LoopPhase::Dispatching);
    assert!(matches!(r.next_step(t(0)), LoopStep::Dispatch(_)));
    r.commit_surface_size(PhysicalSize { width: 2, height: 2 });
    assert_eq!(r.surface_size(), PhysicalSize { width: 500, height: 150 });
    assert_eq!(r.next_step(t(0)), LoopStep::AboutToWait);
}

#[test]
fn scale_change_rounds_half_away_from_zero() {
    let mut r = new_runner();
    r.set_window(None, LogicalSize { width: 3_000, height: 1_000 });
    r.handle_dpi_changed(scale(1_500_000_000));
    assert_eq!(r.surface_size(), PhysicalSize { width: 5, height: 2 });
}

#[test]
fn size_change_converts_to_pixels() {
    let mut r = new_runner();
    r.set_window(Some(scale(1_250_000_000)), LogicalSize { width: 0, height: 0 });
    r.handle_size_changed(LogicalSize { width: 853_333, height: 480_000 });
    assert_eq!(r.surface_size(), PhysicalSize { width: 1067, height: 600 });
    assert_eq!(
        drain(&mut r),
        vec![Event::Window {
            window_id: WindowId(0),
            event: WindowEvent::SurfaceResized(PhysicalSize { width: 1067, height: 600 }),
        }]
    );
}

#[test]
fn activation_sets_focus() {
    let mut r = new_runner();
    assert!(!r.has_focus());
    r.handle_activated(true);
    assert!(r.has_focus());
    r.handle_activated(false);
    assert!(!r.has_focus());
    let events = drain(&mut r);
    assert_eq!(events.len(), 2);
    assert_eq!(events[1], Event::Window { window_id: WindowId(0), event: WindowEvent::Focused(false) });
}

#[test]
fn wheel_events_are_queued_in_wheel_units() {
    let mut r = new_runner();
    r.handle_pointer_wheel(Some(120), Some(false));
    r.handle_pointer_wheel(Some(-240), Some(true));
    r.handle_pointer_wheel(None, None);
    let events = drain(&mut r);
    let deltas: Vec<WheelDelta> = events
        .iter()
        .map(|e| match e {
            Event::Window { event: WindowEvent::MouseWheel { delta, phase: TouchPhase::Moved }, .. } => *delta,
            _ => panic!("not a wheel event"),
        })
        .collect();
    assert_eq!(deltas, vec![WheelDelta { x: 0, y: 120 }, WheelDelta { x: -240, y: 0 }, WheelDelta { x: 0, y: 0 }]);
}

#[test]
fn pointer_events_carry_physical_positions() {
    let mut r = new_runner();
    r.set_window(Some(scale(1_500_000_000)), LogicalSize { width: 0, height: 0 });
    let point = PointerPoint {
        position: LogicalPosition { x: 10_500, y: -3 },
        is_primary: None,
        device_type: Some(PointerDeviceType::Touch),
        pointer_id: Some(7),
        update_kind: None,
    };
    r.handle_pointer_moved(&point);
    r.handle_pointer_exited(&point);
    let events = drain(&mut r);
    assert_eq!(
        events[0],
        Event::Window {
            window_id: WindowId(0),
            event: WindowEvent::PointerMoved {
                position: PhysicalPosition { x: 15_750, y: -5 },
                primary: true,
                source: PointerSource::Touch { finger_id: FingerId(7) },
            },
        }
    );
    assert_eq!(
        events[1],
        Event::Window {
            window_id: WindowId(0),
            event: WindowEvent::PointerLeft { position: None, primary: true, kind: PointerKind::Touch(FingerId(7)) },
        }
    );
}

#[test]
fn second_event_loop_is_refused() {
    let mut registry = EventLoopRegistry::new();
    let attributes = PlatformSpecificEventLoopAttributes::default();
    assert!(registry.create_event_loop(&attributes).is_ok());
    assert!(registry.created());
    assert!(matches!(registry.create_event_loop(&attributes), Err(EventLoopError::RecreationAttempt)));
}

#[test]
fn second_window_is_refused() {
    let mut r = new_runner();
    let w = Window::new(&mut r, true).unwrap();
    assert_eq!(w.id(), WindowId(0));
    assert!(r.window_created());
    match Window::new(&mut r, true) {
        Err(RequestError::NotSupported(e)) => {
            assert_eq!(e, NotSupportedError { reason: Unsupported::SingleWindow });
            assert_eq!(e.message(), "WinRT only supports a single window");
        },
        _ => panic!("a second window was created"),
    }
}

#[test]
fn window_needs_core_window() {
    let mut r = new_runner();
    match Window::new(&mut r, false) {
        Err(RequestError::NotSupported(e)) => assert_eq!(e.reason, Unsupported::CoreWindowUnavailable),
        _ => panic!("window created without a core window"),
    }
    assert!(!r.window_created());
    assert!(Window::new(&mut r, true).is_ok());
    assert!(r.window_created());
    assert!(matches!(
        Window::new(&mut r, true),
        Err(RequestError::NotSupported(NotSupportedError { reason: Unsupported::SingleWindow }))
    ));
}

#[test]
fn cursor_state_tracks_icon_and_visibility() {
    let mut r = new_runner();
    let mut w = Window::new(&mut r, true).unwrap();
    assert_eq!(w.set_cursor(CursorIcon::Pointer), Some(CoreCursorType::Hand));
    assert_eq!(w.set_cursor_visible(false), None);
    assert_eq!(w.set_cursor(CursorIcon::Text), None);
    assert_eq!(w.cursor_icon(), CoreCursorType::IBeam);
    assert_eq!(w.set_cursor_visible(true), Some(CoreCursorType::IBeam));
    assert!(w.cursor_visible());
}

fn unsupported<T>(reason: Unsupported) -> Result<T, RequestError> {
    Err(RequestError::NotSupported(NotSupportedError { reason }))
}

#[test]
fn unsupported_window_requests_fail() {
    let mut r = new_runner();
    let w = Window::new(&mut r, true).unwrap();
    assert_eq!(w.outer_position(), unsupported(Unsupported::OuterPosition));
    assert_eq!(w.set_cursor_position(), unsupported(Unsupported::CursorPosition));
    assert_eq!(w.set_cursor_grab(), unsupported(Unsupported::CursorGrab));
    assert_eq!(w.drag_window(), unsupported(Unsupported::DragWindow));
    assert_eq!(w.drag_resize_window(), unsupported(Unsupported::DragResizeWindow));
    assert_eq!(w.set_cursor_hittest(), unsupported(Unsupported::CursorHittest));
    assert!(w.request_ime_update().is_err());
    assert!(!w.is_resizable());
    assert!(w.is_decorated());
    assert_eq!(w.title(), "");
    assert_eq!(w.surface_position(), PhysicalPosition { x: 0, y: 0 });
}
