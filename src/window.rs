//! The window facade: the single-window rule, the cursor state that the native window does not
//! keep, and the requests that WinRT/UWP does not support.

use vstd::prelude::*;
use crate::error::{ImeRequestError, NotSupportedError, RequestError, Unsupported, not_supported};
use crate::event::{WindowId, GLOBAL_WINDOW};
use crate::runner::{Runner, RunnerModel};
use crate::units::PhysicalPosition;

verus! {

/// A cursor icon that an application may ask for.
#[derive(Debug, Clone, Copy, PartialEq, Eq, Hash, Structural)]
pub enum CursorIcon {
    Default,
    ContextMenu,
    Help,
    Pointer,
    Progress,
    Wait,
    Cell,
    Crosshair,
    Text,
    VerticalText,
    Alias,
    Copy,
    Move,
    NoDrop,
    NotAllowed,
    Grab,
    Grabbing,
    EResize,
    NResize,
    NeResize,
    NwResize,
    SResize,
    SeResize,
    SwResize,
    WResize,
    EwResize,
    NsResize,
    NeswResize,
    NwseResize,
    ColResize,
    RowResize,
    AllScroll,
    ZoomIn,
    ZoomOut,
    DndAsk,
    AllResize,
}

/// The system cursors of a CoreWindow (`Windows.UI.Core.CoreCursorType`).
#[derive(Debug, Clone, Copy, PartialEq, Eq, Hash, Structural)]
pub enum CoreCursorType {
    Arrow,
    Cross,
    Custom,
    Hand,
    Help,
    IBeam,
    SizeAll,
    SizeNortheastSouthwest,
    SizeNorthSouth,
    SizeNorthwestSoutheast,
    SizeWestEast,
    UniversalNo,
    UpArrow,
    Wait,
    Pin,
    Person,
}

/// The system cursor that shows a cursor icon; icons without a close match show the arrow.
pub open spec fn spec_cursor_icon_to_core(icon: CursorIcon) -> CoreCursorType {
    match icon {
        CursorIcon::Pointer | CursorIcon::Grab | CursorIcon::Grabbing => CoreCursorType::Hand,
        CursorIcon::Text | CursorIcon::VerticalText => CoreCursorType::IBeam,
        CursorIcon::Crosshair => CoreCursorType::Cross,
        CursorIcon::NotAllowed | CursorIcon::NoDrop => CoreCursorType::UniversalNo,
        CursorIcon::Wait | CursorIcon::Progress => CoreCursorType::Wait,
        CursorIcon::Move | CursorIcon::AllResize => CoreCursorType::SizeAll,
        CursorIcon::EResize | CursorIcon::WResize | CursorIcon::EwResize | CursorIcon::ColResize => CoreCursorType::SizeWestEast,
        CursorIcon::NResize | CursorIcon::SResize | CursorIcon::NsResize | CursorIcon::RowResize => CoreCursorType::SizeNorthSouth,
        CursorIcon::NeswResize | CursorIcon::NeResize | CursorIcon::SwResize => CoreCursorType::SizeNortheastSouthwest,
        CursorIcon::NwseResize | CursorIcon::NwResize | CursorIcon::SeResize => CoreCursorType::SizeNorthwestSoutheast,
        CursorIcon::Help => CoreCursorType::Help,
        _ => CoreCursorType::Arrow,
    }
}

/// Maps a cursor icon to the system cursor that shows it.
pub fn cursor_icon_to_core(icon: CursorIcon) -> (r: CoreCursorType)
    ensures
        r == spec_cursor_icon_to_core(icon),
{
    match icon {
        CursorIcon::Default => CoreCursorType::Arrow,
        CursorIcon::Pointer | CursorIcon::Grab | CursorIcon::Grabbing => CoreCursorType::Hand,
        CursorIcon::Text | CursorIcon::VerticalText => CoreCursorType::IBeam,
        CursorIcon::Crosshair => CoreCursorType::Cross,
        CursorIcon::NotAllowed | CursorIcon::NoDrop => CoreCursorType::UniversalNo,
        CursorIcon::Wait | CursorIcon::Progress => CoreCursorType::Wait,
        CursorIcon::Move | CursorIcon::AllResize => CoreCursorType::SizeAll,
        CursorIcon::EResize
        | CursorIcon::WResize
        | CursorIcon::EwResize
        | CursorIcon::ColResize => CoreCursorType::SizeWestEast,
        CursorIcon::NResize
        | CursorIcon::SResize
        | CursorIcon::NsResize
        | CursorIcon::RowResize => CoreCursorType::SizeNorthSouth,
        CursorIcon::NeswResize | CursorIcon::NeResize | CursorIcon::SwResize => {
            CoreCursorType::SizeNortheastSouthwest
        },
        CursorIcon::NwseResize | CursorIcon::NwResize | CursorIcon::SeResize => {
            CoreCursorType::SizeNorthwestSoutheast
        },
        CursorIcon::Help => CoreCursorType::Help,
        _ => CoreCursorType::Arrow,
    }
}

/// The title-bar buttons that a window offers.
#[derive(Debug, Clone, Copy, PartialEq, Eq, Hash, Structural)]
pub struct WindowButtons {
    pub close: bool,
    pub minimize: bool,
    pub maximize: bool,
}

/// The one window of a WinRT/UWP application, with the cursor state it keeps itself.
pub struct Window {
    id: WindowId,
    cursor_visible: bool,
    cursor_icon: CoreCursorType,
}

impl Window {
    pub closed spec fn spec_cursor_visible(&self) -> bool {
        self.cursor_visible
    }

    pub closed spec fn spec_cursor_icon(&self) -> CoreCursorType {
        self.cursor_icon
    }

    pub closed spec fn spec_id(&self) -> WindowId {
        self.id
    }

    /// Creates the window. Only one window may ever be created, and only once the native window
    /// exists; an attempt that fails because the native window is missing leaves the one window
    /// to a later attempt.
    pub fn new(runner: &mut Runner, core_window_available: bool) -> (r: Result<Window, RequestError>)
        requires
            old(runner)@.inv(),
        ensures
            final(runner)@ == (RunnerModel {
                window_created: old(runner)@.window_created || core_window_available,
                ..old(runner)@
            }),
            final(runner)@.inv(),
            r is Ok <==> !old(runner)@.window_created && core_window_available,
            old(runner)@.window_created ==> r == Err::<Window, RequestError>(
                RequestError::NotSupported(NotSupportedError { reason: Unsupported::SingleWindow }),
            ),
            !old(runner)@.window_created && !core_window_available ==> r == Err::<Window, RequestError>(
                RequestError::NotSupported(NotSupportedError { reason: Unsupported::CoreWindowUnavailable }),
            ),
            r matches Ok(w) ==> w.spec_id() == WindowId(GLOBAL_WINDOW) && w.spec_cursor_visible()
                && w.spec_cursor_icon() == CoreCursorType::Arrow,
    {
        if runner.window_created() {
            return Err(not_supported(Unsupported::SingleWindow));
        }
        if !core_window_available {
            return Err(not_supported(Unsupported::CoreWindowUnavailable));
        }
        runner.claim_window();
        Ok(Window { id: WindowId(GLOBAL_WINDOW), cursor_visible: true, cursor_icon: CoreCursorType::Arrow })
    }

    pub fn id(&self) -> (r: WindowId)
        ensures
            r == self.spec_id(),
    {
        self.id
    }

    /// Whether the cursor is shown over the window.
    pub fn cursor_visible(&self) -> (r: bool)
        ensures
            r == self.spec_cursor_visible(),
    {
        self.cursor_visible
    }

    /// The system cursor chosen for the window.
    pub fn cursor_icon(&self) -> (r: CoreCursorType)
        ensures
            r == self.spec_cursor_icon(),
    {
        self.cursor_icon
    }

    /// Chooses the cursor icon. Returns the system cursor to set on the native window now, which
    /// is none while the cursor is hidden.
    pub fn set_cursor(&mut self, icon: CursorIcon) -> (r: Option<CoreCursorType>)
        ensures
            final(self).spec_cursor_icon() == spec_cursor_icon_to_core(icon),
            final(self).spec_cursor_visible() == old(self).spec_cursor_visible(),
            final(self).spec_id() == old(self).spec_id(),
            r == if old(self).spec_cursor_visible() { Some(spec_cursor_icon_to_core(icon)) } else { None },
    {
        let core = cursor_icon_to_core(icon);
        self.cursor_icon = core;
        if self.cursor_visible {
            Some(core)
        } else {
            None
        }
    }

    /// Shows or hides the cursor. Returns the system cursor to set on the native window, or none
    /// to clear it.
    pub fn set_cursor_visible(&mut self, visible: bool) -> (r: Option<CoreCursorType>)
        ensures
            final(self).spec_cursor_visible() == visible,
            final(self).spec_cursor_icon() == old(self).spec_cursor_icon(),
            final(self).spec_id() == old(self).spec_id(),
            r == if visible { Some(old(self).spec_cursor_icon()) } else { None },
    {
        self.cursor_visible = visible;
        if visible {
            Some(self.cursor_icon)
        } else {
            None
        }
    }

    /// The surface sits at the origin of the window.
    pub fn surface_position(&self) -> (r: PhysicalPosition)
        ensures
            r == (PhysicalPosition { x: 0, y: 0 }),
    {
        PhysicalPosition { x: 0, y: 0 }
    }

    pub fn outer_position(&self) -> (r: Result<PhysicalPosition, RequestError>)
        ensures
            r == Err::<PhysicalPosition, RequestError>(RequestError::NotSupported(
                NotSupportedError { reason: Unsupported::OuterPosition },
            )),
    {
        Err(not_supported(Unsupported::OuterPosition))
    }

    pub fn set_cursor_position(&self) -> (r: Result<(), RequestError>)
        ensures
            r == Err::<(), RequestError>(RequestError::NotSupported(
                NotSupportedError { reason: Unsupported::CursorPosition },
            )),
    {
        Err(not_supported(Unsupported::CursorPosition))
    }

    pub fn set_cursor_grab(&self) -> (r: Result<(), RequestError>)
        ensures
            r == Err::<(), RequestError>(RequestError::NotSupported(
                NotSupportedError { reason: Unsupported::CursorGrab },
            )),
    {
        Err(not_supported(Unsupported::CursorGrab))
    }

    pub fn drag_window(&self) -> (r: Result<(), RequestError>)
        ensures
            r == Err::<(), RequestError>(RequestError::NotSupported(
                NotSupportedError { reason: Unsupported::DragWindow },
            )),
    {
        Err(not_supported(Unsupported::DragWindow))
    }

    pub fn drag_resize_window(&self) -> (r: Result<(), RequestError>)
        ensures
            r == Err::<(), RequestError>(RequestError::NotSupported(
                NotSupportedError { reason: Unsupported::DragResizeWindow },
            )),
    {
        Err(not_supported(Unsupported::DragResizeWindow))
    }

    pub fn set_cursor_hittest(&self) -> (r: Result<(), RequestError>)
        ensures
            r == Err::<(), RequestError>(RequestError::NotSupported(
                NotSupportedError { reason: Unsupported::CursorHittest },
            )),
    {
        Err(not_supported(Unsupported::CursorHittest))
    }

    pub fn request_ime_update(&self) -> (r: Result<(), ImeRequestError>)
        ensures
            r == Err::<(), ImeRequestError>(ImeRequestError::NotSupported),
    {
        Err(ImeRequestError::NotSupported)
    }

    /// The user cannot resize a WinRT/UWP window through this backend.
    pub fn is_resizable(&self) -> (r: bool)
        ensures
            !r,
    {
        false
    }

    pub fn is_minimized(&self) -> (r: Option<bool>)
        ensures
            r is None,
    {
        None
    }

    pub fn is_maximized(&self) -> (r: bool)
        ensures
            !r,
    {
        false
    }

    pub fn is_decorated(&self) -> (r: bool)
        ensures
            r,
    {
        true
    }

    pub fn enabled_buttons(&self) -> (r: WindowButtons)
        ensures
            r == (WindowButtons { close: true, minimize: true, maximize: true }),
    {
        WindowButtons { close: true, minimize: true, maximize: true }
    }

    /// The platform keeps no title for the window.
    pub fn title(&self) -> (r: String)
        ensures
            r@.len() == 0,
    {
        String::new()
    }
}

} // verus!
