//! Compatibility types for Win32 window-customisation requests. WinRT/UWP accepts and ignores them.

use vstd::prelude::*;

verus! {

/// Platform attributes for creating an event loop. WinRT/UWP has none.
#[derive(Debug, Default, Copy, Clone, PartialEq, Eq, Hash)]
pub struct PlatformSpecificEventLoopAttributes {}

/// Compatibility enum for Windows backdrop requests.
///
/// On WinRT/UWP these values are accepted but ignored.
#[derive(Debug, Default, Clone, Copy, PartialEq, Eq, Hash)]
pub enum BackdropType {
    #[default]
    Auto,
    /// No backdrop.
    NoBackdrop,
    MainWindow,
    TransientWindow,
    TabbedWindow,
}

/// Compatibility color type for Windows titlebar/border customization requests, as `0x00BBGGRR`.
///
/// On WinRT/UWP this value is accepted but ignored.
#[derive(Debug, Copy, Clone, Eq, PartialEq, Hash)]
pub struct Color(pub u32);

/// The bits of the color that leaves the choice to the system.
pub const SYSTEM_DEFAULT_BITS: u32 = 0xffff_ffff;

/// The packed value of an RGB triple: red in the low byte, then green, then blue.
pub open spec fn rgb_bits(r: u8, g: u8, b: u8) -> u32 {
    (r as int + g as int * 0x100 + b as int * 0x1_0000) as u32
}

impl Color {
    /// The color that leaves the choice to the system.
    pub fn system_default() -> (c: Self)
        ensures
            c.0 == SYSTEM_DEFAULT_BITS,
    {
        Color(SYSTEM_DEFAULT_BITS)
    }

    pub fn from_rgb(r: u8, g: u8, b: u8) -> (c: Self)
        ensures
            c.0 == rgb_bits(r, g, b),
    {
        let r32 = r as u32;
        let g32 = g as u32;
        let b32 = b as u32;
        assert((r32 | (g32 << 8u32) | (b32 << 16u32)) == r32 + g32 * 0x100 + b32 * 0x1_0000)
            by (bit_vector)
            requires
                r32 < 0x100,
                g32 < 0x100,
                b32 < 0x100,
        ;
        Color(r32 | (g32 << 8u32) | (b32 << 16u32))
    }
}

impl Default for Color {
    fn default() -> (c: Self)
        ensures
            c.0 == SYSTEM_DEFAULT_BITS,
    {
        Self::system_default()
    }
}

/// Compatibility enum for Windows rounded-corner preferences.
///
/// On WinRT/UWP these values are accepted but ignored.
#[derive(Debug, Default, Clone, Copy, PartialEq, Eq, Hash)]
pub enum CornerPreference {
    #[default]
    Default,
    DoNotRound,
    Round,
    RoundSmall,
}

} // verus!
