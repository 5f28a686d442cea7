//! Errors that the event loop and the window report.

use vstd::prelude::*;

verus! {

/// An operation that WinRT/UWP does not offer.
#[derive(Debug, Clone, Copy, PartialEq, Eq, Hash, Structural)]
pub enum Unsupported {
    SingleWindow,
    CoreWindowUnavailable,
    CustomCursor,
    OuterPosition,
    CursorPosition,
    CursorGrab,
    DragWindow,
    DragResizeWindow,
    CursorHittest,
}

/// The platform does not support the requested operation.
#[derive(Debug, Clone, Copy, PartialEq, Eq, Hash, Structural)]
pub struct NotSupportedError {
    pub reason: Unsupported,
}

impl NotSupportedError {
    pub fn new(reason: Unsupported) -> (r: NotSupportedError)
        ensures
            r.reason == reason,
    {
        NotSupportedError { reason }
    }

    /// A sentence that says what is not supported.
    pub fn message(&self) -> (r: &'static str)
        ensures
            r == spec_message(self.reason),
    {
        match self.reason {
            Unsupported::SingleWindow => "WinRT only supports a single window",
            Unsupported::CoreWindowUnavailable => "CoreWindow is not available yet",
            Unsupported::CustomCursor => "custom cursors are not supported on WinRT",
            Unsupported::OuterPosition => "outer_position is not supported",
            Unsupported::CursorPosition => "set_cursor_position is not supported",
            Unsupported::CursorGrab => "set_cursor_grab is not supported",
            Unsupported::DragWindow => "drag_window is not supported",
            Unsupported::DragResizeWindow => "drag_resize_window is not supported",
            Unsupported::CursorHittest => "set_cursor_hittest is not supported",
        }
    }
}

/// The sentence that says what is not supported.
pub open spec fn spec_message(reason: Unsupported) -> &'static str {
    match reason {
        Unsupported::SingleWindow => "WinRT only supports a single window",
        Unsupported::CoreWindowUnavailable => "CoreWindow is not available yet",
        Unsupported::CustomCursor => "custom cursors are not supported on WinRT",
        Unsupported::OuterPosition => "outer_position is not supported",
        Unsupported::CursorPosition => "set_cursor_position is not supported",
        Unsupported::CursorGrab => "set_cursor_grab is not supported",
        Unsupported::DragWindow => "drag_window is not supported",
        Unsupported::DragResizeWindow => "drag_resize_window is not supported",
        Unsupported::CursorHittest => "set_cursor_hittest is not supported",
    }
}

/// Why an event loop could not be created or run.
#[derive(Debug, Clone, Copy, PartialEq, Eq, Hash, Structural)]
pub enum EventLoopError {
    /// The platform does not support the operation.
    NotSupported(NotSupportedError),
    /// An event loop was already created in this process.
    RecreationAttempt,
    /// The application exited with this code.
    ExitFailure(i32),
}

/// Why a request to the window system failed.
#[derive(Debug, Clone, Copy, PartialEq, Eq, Hash, Structural)]
pub enum RequestError {
    /// The platform does not support the request.
    NotSupported(NotSupportedError),
    /// The request was ignored.
    Ignored,
}

/// Builds the error for an operation that the platform does not offer.
pub fn not_supported(reason: Unsupported) -> (r: RequestError)
    ensures
        r == RequestError::NotSupported(NotSupportedError { reason }),
{
    RequestError::NotSupported(NotSupportedError::new(reason))
}

/// Why an input-method request failed.
#[derive(Debug, Clone, Copy, PartialEq, Eq, Hash, Structural)]
pub enum ImeRequestError {
    NotSupported,
}

} // verus!
