//! WinRT/UWP backend for a cross-platform windowing library: the state and the decisions of
//! its event runner, its keyboard and pointer mapping, and its window facade.
//!
//! Everything that talks to the native CoreWindow/CoreDispatcher API lives outside this crate;
//! it hands plain values in and performs the actions that come back.

pub mod compat;
pub mod keyboard;
pub mod units;
pub mod pointer;
pub mod event;
pub mod error;
pub mod runner;
pub mod window;
pub mod event_loop;
pub mod laws;

pub use compat::{BackdropType, Color, CornerPreference, PlatformSpecificEventLoopAttributes};
pub use keyboard::{physicalkey_to_scancode, scancode_to_physicalkey};
