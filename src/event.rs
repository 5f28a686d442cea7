//! The events that the runner queues for the application, and the loop's timing types.

use vstd::prelude::*;
use crate::keyboard::{ElementState, KeyEvent, KeyEventView, ModifiersState};
use crate::pointer::{ButtonSource, PointerKind, PointerSource, TouchPhase, WheelDelta};
use crate::units::{PhysicalPosition, PhysicalSize, ScaleFactor};

verus! {

/// A point in time, in nanoseconds since a fixed origin chosen by the host.
#[derive(Debug, Clone, Copy, PartialEq, Eq, Hash, Default, Structural)]
pub struct Timestamp {
    pub nanos: u64,
}

/// Identifies a window.
#[derive(Debug, Clone, Copy, PartialEq, Eq, Hash, Structural)]
pub struct WindowId(pub u64);

/// The raw id of the one window that WinRT/UWP gives an application.
pub const GLOBAL_WINDOW: u64 = 0;

/// How the loop waits between iterations.
#[derive(Debug, Clone, Copy, PartialEq, Eq, Hash, Default, Structural)]
pub enum ControlFlow {
    /// Run the next iteration as soon as the current one ends.
    Poll,
    /// Block until a native event arrives.
    #[default]
    Wait,
    /// Sleep until the given time, then take the native events that are pending.
    WaitUntil(Timestamp),
}

/// Why an iteration of the loop began.
#[derive(Debug, Clone, Copy, PartialEq, Eq, Hash, Structural)]
pub enum StartCause {
    /// The first iteration.
    Init,
    /// The loop polls.
    Poll,
    /// The loop waited and was woken before any resume time.
    WaitCancelled { start: Timestamp, requested_resume: Option<Timestamp> },
    /// The loop waited until the resume time it had asked for.
    ResumeTimeReached { start: Timestamp, requested_resume: Timestamp },
}

/// The cause of the next iteration, given the control flow and the time now.
pub open spec fn spec_next_start_cause(control_flow: ControlFlow, now: Timestamp) -> StartCause {
    match control_flow {
        ControlFlow::Poll => StartCause::Poll,
        ControlFlow::Wait => StartCause::WaitCancelled { start: now, requested_resume: None },
        ControlFlow::WaitUntil(instant) => if now.nanos >= instant.nanos {
            StartCause::ResumeTimeReached { start: now, requested_resume: instant }
        } else {
            StartCause::WaitCancelled { start: now, requested_resume: Some(instant) }
        },
    }
}

/// Computes the cause of the next iteration from the control flow and the time now.
pub fn next_start_cause(control_flow: ControlFlow, now: Timestamp) -> (r: StartCause)
    ensures
        r == spec_next_start_cause(control_flow, now),
{
    match control_flow {
        ControlFlow::Poll => StartCause::Poll,
        ControlFlow::Wait => StartCause::WaitCancelled { start: now, requested_resume: None },
        ControlFlow::WaitUntil(instant) => {
            if now.nanos >= instant.nanos {
                StartCause::ResumeTimeReached { start: now, requested_resume: instant }
            } else {
                StartCause::WaitCancelled { start: now, requested_resume: Some(instant) }
            }
        },
    }
}

/// Something that happened to a window.
#[derive(Debug, Clone, PartialEq, Eq, Hash)]
pub enum WindowEvent {
    SurfaceResized(PhysicalSize),
    Focused(bool),
    CloseRequested,
    RedrawRequested,
    ModifiersChanged(ModifiersState),
    KeyboardInput { event: KeyEvent, is_synthetic: bool },
    PointerEntered { position: PhysicalPosition, primary: bool, kind: PointerKind },
    PointerLeft { position: Option<PhysicalPosition>, primary: bool, kind: PointerKind },
    PointerMoved { position: PhysicalPosition, primary: bool, source: PointerSource },
    PointerButton {
        state: ElementState,
        position: PhysicalPosition,
        primary: bool,
        button: ButtonSource,
    },
    MouseWheel { delta: WheelDelta, phase: TouchPhase },
    /// The scale factor changed; `surface_size` is the size the runner chose for the surface,
    /// which the application may still replace.
    ScaleFactorChanged { scale_factor: ScaleFactor, surface_size: PhysicalSize },
}

/// A [`WindowEvent`] whose key event is seen through its view.
pub enum WindowEventView {
    SurfaceResized(PhysicalSize),
    Focused(bool),
    CloseRequested,
    RedrawRequested,
    ModifiersChanged(ModifiersState),
    KeyboardInput { event: KeyEventView, is_synthetic: bool },
    PointerEntered { position: PhysicalPosition, primary: bool, kind: PointerKind },
    PointerLeft { position: Option<PhysicalPosition>, primary: bool, kind: PointerKind },
    PointerMoved { position: PhysicalPosition, primary: bool, source: PointerSource },
    PointerButton {
        state: ElementState,
        position: PhysicalPosition,
        primary: bool,
        button: ButtonSource,
    },
    MouseWheel { delta: WheelDelta, phase: TouchPhase },
    ScaleFactorChanged { scale_factor: ScaleFactor, surface_size: PhysicalSize },
}

impl View for WindowEvent {
    type V = WindowEventView;

    open spec fn view(&self) -> WindowEventView {
        match *self {
            WindowEvent::SurfaceResized(s) => WindowEventView::SurfaceResized(s),
            WindowEvent::Focused(f) => WindowEventView::Focused(f),
            WindowEvent::CloseRequested => WindowEventView::CloseRequested,
            WindowEvent::RedrawRequested => WindowEventView::RedrawRequested,
            WindowEvent::ModifiersChanged(m) => WindowEventView::ModifiersChanged(m),
            WindowEvent::KeyboardInput { event, is_synthetic } => WindowEventView::KeyboardInput {
                event: event@,
                is_synthetic,
            },
            WindowEvent::PointerEntered { position, primary, kind } => WindowEventView::PointerEntered {
                position,
                primary,
                kind,
            },
            WindowEvent::PointerLeft { position, primary, kind } => WindowEventView::PointerLeft {
                position,
                primary,
                kind,
            },
            WindowEvent::PointerMoved { position, primary, source } => WindowEventView::PointerMoved {
                position,
                primary,
                source,
            },
            WindowEvent::PointerButton { state, position, primary, button } => WindowEventView::PointerButton {
                state,
                position,
                primary,
                button,
            },
            WindowEvent::MouseWheel { delta, phase } => WindowEventView::MouseWheel { delta, phase },
            WindowEvent::ScaleFactorChanged { scale_factor, surface_size } => WindowEventView::ScaleFactorChanged {
                scale_factor,
                surface_size,
            },
        }
    }
}

/// An entry of the runner's queue.
#[derive(Debug, Clone, PartialEq, Eq, Hash)]
pub enum Event {
    Window { window_id: WindowId, event: WindowEvent },
    /// A proxy asked the loop to wake up.
    WakeUp,
}

/// An [`Event`] seen through the view of its window event.
pub enum EventView {
    Window { window_id: WindowId, event: WindowEventView },
    WakeUp,
}

impl View for Event {
    type V = EventView;

    open spec fn view(&self) -> EventView {
        match *self {
            Event::Window { window_id, event } => EventView::Window { window_id, event: event@ },
            Event::WakeUp => EventView::WakeUp,
        }
    }
}

/// A window event of the one window.
pub open spec fn window_event(event: WindowEventView) -> EventView {
    EventView::Window { window_id: WindowId(GLOBAL_WINDOW), event }
}

/// A key event as an event of the one window.
pub open spec fn key_input(event: KeyEventView) -> EventView {
    window_event(WindowEventView::KeyboardInput { event, is_synthetic: false })
}

} // verus!
