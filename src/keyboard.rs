//! Keyboard data and the mapping of native virtual-key codes to logical keys.

use vstd::prelude::*;

verus! {

/// A key code that the platform reports but that has no portable meaning.
#[derive(Debug, Clone, Copy, PartialEq, Eq, Hash, Structural)]
pub enum NativeKeyCode {
    Unidentified,
    Android(u32),
    MacOS(u16),
    Windows(u16),
    Xkb(u32),
}

/// The position of a key on the keyboard. This backend only reports native scancodes.
#[derive(Debug, Clone, Copy, PartialEq, Eq, Hash, Structural)]
pub enum PhysicalKey {
    Unidentified(NativeKeyCode),
}

/// The scancode that a physical key carries, when it is a Windows scancode.
pub fn physicalkey_to_scancode(physical_key: PhysicalKey) -> (r: Option<u32>)
    ensures
        r == match physical_key {
            PhysicalKey::Unidentified(NativeKeyCode::Windows(code)) => Some(code as u32),
            _ => None,
        },
{
    match physical_key {
        PhysicalKey::Unidentified(NativeKeyCode::Windows(scancode)) => Some(scancode as u32),
        _ => None,
    }
}

/// The physical key of a Windows scancode; scancodes are 16 bits wide, higher bits are dropped.
pub fn scancode_to_physicalkey(scancode: u32) -> (r: PhysicalKey)
    ensures
        r == PhysicalKey::Unidentified(NativeKeyCode::Windows((scancode % 0x1_0000) as u16)),
{
    PhysicalKey::Unidentified(NativeKeyCode::Windows((scancode % 0x1_0000) as u16))
}


/// Virtual-key codes of `Windows.System.VirtualKey` that this backend reads.
pub const VK_NONE: i32 = 0;
pub const VK_BACK: i32 = 8;
pub const VK_TAB: i32 = 9;
pub const VK_ENTER: i32 = 13;
pub const VK_SHIFT: i32 = 16;
pub const VK_CONTROL: i32 = 17;
pub const VK_MENU: i32 = 18;
pub const VK_ESCAPE: i32 = 27;
pub const VK_SPACE: i32 = 32;
pub const VK_PAGE_UP: i32 = 33;
pub const VK_PAGE_DOWN: i32 = 34;
pub const VK_END: i32 = 35;
pub const VK_HOME: i32 = 36;
pub const VK_LEFT: i32 = 37;
pub const VK_UP: i32 = 38;
pub const VK_RIGHT: i32 = 39;
pub const VK_DOWN: i32 = 40;
pub const VK_INSERT: i32 = 45;
pub const VK_DELETE: i32 = 46;
pub const VK_NUMBER0: i32 = 48;
pub const VK_NUMBER9: i32 = 57;
pub const VK_A: i32 = 65;
pub const VK_Z: i32 = 90;
pub const VK_LEFT_WINDOWS: i32 = 91;
pub const VK_RIGHT_WINDOWS: i32 = 92;
pub const VK_F1: i32 = 112;
pub const VK_F12: i32 = 123;

/// A key with a name rather than a character.
#[derive(Debug, Clone, Copy, PartialEq, Eq, Hash, Structural)]
pub enum NamedKey {
    Enter,
    Escape,
    Backspace,
    Tab,
    Delete,
    Insert,
    Home,
    End,
    PageUp,
    PageDown,
    ArrowLeft,
    ArrowRight,
    ArrowUp,
    ArrowDown,
    F1,
    F2,
    F3,
    F4,
    F5,
    F6,
    F7,
    F8,
    F9,
    F10,
    F11,
    F12,
}

/// A key value that the platform reports but that has no portable meaning.
#[derive(Debug, Clone, Copy, PartialEq, Eq, Hash, Structural)]
pub enum NativeKey {
    Unidentified,
    Android(u32),
    MacOS(u16),
    Windows(u16),
    Xkb(u32),
}

/// The meaning of a key press.
#[derive(Debug, Clone, PartialEq, Eq, Hash)]
pub enum Key {
    Named(NamedKey),
    Character(String),
    Unidentified(NativeKey),
}

/// A [`Key`] with its text as a sequence of characters.
pub enum KeyView {
    Named(NamedKey),
    Character(Seq<char>),
    Unidentified(NativeKey),
}

impl View for Key {
    type V = KeyView;

    open spec fn view(&self) -> KeyView {
        match self {
            Key::Named(n) => KeyView::Named(*n),
            Key::Character(s) => KeyView::Character(s@),
            Key::Unidentified(k) => KeyView::Unidentified(*k),
        }
    }
}

/// Where on the keyboard a key is; this backend reports every key as standard.
#[derive(Debug, Clone, Copy, PartialEq, Eq, Hash, Structural)]
pub enum KeyLocation {
    Standard,
    Left,
    Right,
    Numpad,
}

/// Whether a key or button went down or up.
#[derive(Debug, Clone, Copy, PartialEq, Eq, Hash, Structural)]
pub enum ElementState {
    Pressed,
    Released,
}

/// The modifier keys held down.
#[derive(Debug, Clone, Copy, PartialEq, Eq, Hash, Default, Structural)]
pub struct ModifiersState {
    pub shift: bool,
    pub control: bool,
    pub alt: bool,
    pub meta: bool,
}

impl ModifiersState {
    pub open spec fn spec_empty() -> ModifiersState {
        ModifiersState { shift: false, control: false, alt: false, meta: false }
    }

    /// No modifier held.
    pub fn empty() -> (r: ModifiersState)
        ensures
            r == Self::spec_empty(),
    {
        ModifiersState { shift: false, control: false, alt: false, meta: false }
    }
}

/// The down/up state of the keys that make up the modifiers, as the native window reports it.
#[derive(Debug, Clone, Copy, PartialEq, Eq, Hash, Default, Structural)]
pub struct ModifierKeyStates {
    pub shift: bool,
    pub control: bool,
    pub menu: bool,
    pub left_windows: bool,
    pub right_windows: bool,
}

/// The modifiers that key states amount to; with no window to ask, no modifier is held.
pub open spec fn spec_modifiers(keys: Option<ModifierKeyStates>) -> ModifiersState {
    match keys {
        Some(k) => ModifiersState {
            shift: k.shift,
            control: k.control,
            alt: k.menu,
            meta: k.left_windows || k.right_windows,
        },
        None => ModifiersState::spec_empty(),
    }
}

/// Computes the current modifiers from the native key states.
pub fn modifiers_from_key_states(keys: Option<ModifierKeyStates>) -> (r: ModifiersState)
    ensures
        r == spec_modifiers(keys),
{
    match keys {
        Some(k) => ModifiersState {
            shift: k.shift,
            control: k.control,
            alt: k.menu,
            meta: k.left_windows || k.right_windows,
        },
        None => ModifiersState::empty(),
    }
}

/// One key press or release.
#[derive(Debug, Clone, PartialEq, Eq, Hash)]
pub struct KeyEvent {
    pub physical_key: PhysicalKey,
    pub logical_key: Key,
    pub text: Option<String>,
    pub location: KeyLocation,
    pub state: ElementState,
    pub repeat: bool,
    pub text_with_all_modifiers: Option<String>,
    pub key_without_modifiers: Key,
}

/// A [`KeyEvent`] with its keys and texts as sequences of characters.
pub struct KeyEventView {
    pub physical_key: PhysicalKey,
    pub logical_key: KeyView,
    pub text: Option<Seq<char>>,
    pub location: KeyLocation,
    pub state: ElementState,
    pub repeat: bool,
    pub text_with_all_modifiers: Option<Seq<char>>,
    pub key_without_modifiers: KeyView,
}

pub open spec fn text_view(t: Option<String>) -> Option<Seq<char>> {
    match t {
        Some(s) => Some(s@),
        None => None,
    }
}

impl View for KeyEvent {
    type V = KeyEventView;

    open spec fn view(&self) -> KeyEventView {
        KeyEventView {
            physical_key: self.physical_key,
            logical_key: self.logical_key@,
            text: text_view(self.text),
            location: self.location,
            state: self.state,
            repeat: self.repeat,
            text_with_all_modifiers: text_view(self.text_with_all_modifiers),
            key_without_modifiers: self.key_without_modifiers@,
        }
    }
}

/// Relies on `<char as ToString>::to_string`: the string holds exactly that character.
#[verifier::external_body]
pub(crate) fn char_to_string(c: char) -> (r: String)
    ensures
        r@ == seq![c],
{
    c.to_string()
}

/// Whether a code point is a Unicode scalar value, that is, a `char`.
pub open spec fn is_scalar_value(code: u32) -> bool {
    code < 0xD800 || (0xE000 <= code && code <= 0x10FFFF)
}

/// Relies on `char::from_u32`: `Some` exactly for scalar values, holding that code point.
#[verifier::external_body]
pub(crate) fn char_from_u32(code: u32) -> (r: Option<char>)
    ensures
        r == if is_scalar_value(code) { Some(code as char) } else { None },
{
    char::from_u32(code)
}

/// The named key of a virtual key, if it has one.
pub open spec fn spec_named_key(vk: i32) -> Option<NamedKey> {
    if vk == VK_ENTER { Some(NamedKey::Enter) }
    else if vk == VK_ESCAPE { Some(NamedKey::Escape) }
    else if vk == VK_BACK { Some(NamedKey::Backspace) }
    else if vk == VK_TAB { Some(NamedKey::Tab) }
    else if vk == VK_DELETE { Some(NamedKey::Delete) }
    else if vk == VK_INSERT { Some(NamedKey::Insert) }
    else if vk == VK_HOME { Some(NamedKey::Home) }
    else if vk == VK_END { Some(NamedKey::End) }
    else if vk == VK_PAGE_UP { Some(NamedKey::PageUp) }
    else if vk == VK_PAGE_DOWN { Some(NamedKey::PageDown) }
    else if vk == VK_LEFT { Some(NamedKey::ArrowLeft) }
    else if vk == VK_RIGHT { Some(NamedKey::ArrowRight) }
    else if vk == VK_UP { Some(NamedKey::ArrowUp) }
    else if vk == VK_DOWN { Some(NamedKey::ArrowDown) }
    else if VK_F1 <= vk <= VK_F12 { Some(function_key(vk - VK_F1)) }
    else { None }
}

/// The function key `F(n + 1)`, for `n` below 12.
pub open spec fn function_key(n: int) -> NamedKey {
    if n == 0 { NamedKey::F1 }
    else if n == 1 { NamedKey::F2 }
    else if n == 2 { NamedKey::F3 }
    else if n == 3 { NamedKey::F4 }
    else if n == 4 { NamedKey::F5 }
    else if n == 5 { NamedKey::F6 }
    else if n == 6 { NamedKey::F7 }
    else if n == 7 { NamedKey::F8 }
    else if n == 8 { NamedKey::F9 }
    else if n == 9 { NamedKey::F10 }
    else if n == 10 { NamedKey::F11 }
    else { NamedKey::F12 }
}

/// Maps a virtual key to its named key, if it has one.
pub fn map_virtual_key_named(virtual_key: i32) -> (r: Option<NamedKey>)
    ensures
        r == spec_named_key(virtual_key),
{
    match virtual_key {
        VK_ENTER => Some(NamedKey::Enter),
        VK_ESCAPE => Some(NamedKey::Escape),
        VK_BACK => Some(NamedKey::Backspace),
        VK_TAB => Some(NamedKey::Tab),
        VK_DELETE => Some(NamedKey::Delete),
        VK_INSERT => Some(NamedKey::Insert),
        VK_HOME => Some(NamedKey::Home),
        VK_END => Some(NamedKey::End),
        VK_PAGE_UP => Some(NamedKey::PageUp),
        VK_PAGE_DOWN => Some(NamedKey::PageDown),
        VK_LEFT => Some(NamedKey::ArrowLeft),
        VK_RIGHT => Some(NamedKey::ArrowRight),
        VK_UP => Some(NamedKey::ArrowUp),
        VK_DOWN => Some(NamedKey::ArrowDown),
        112 => Some(NamedKey::F1),
        113 => Some(NamedKey::F2),
        114 => Some(NamedKey::F3),
        115 => Some(NamedKey::F4),
        116 => Some(NamedKey::F5),
        117 => Some(NamedKey::F6),
        118 => Some(NamedKey::F7),
        119 => Some(NamedKey::F8),
        120 => Some(NamedKey::F9),
        121 => Some(NamedKey::F10),
        122 => Some(NamedKey::F11),
        123 => Some(NamedKey::F12),
        _ => None,
    }
}

/// The character that a virtual key types: a letter (upper case with shift), a digit or a space.
pub open spec fn spec_virtual_key_char(vk: i32, shift: bool) -> Option<char> {
    if VK_A <= vk <= VK_Z {
        Some((if shift { vk as int } else { vk + 32 }) as u32 as char)
    } else if VK_NUMBER0 <= vk <= VK_NUMBER9 {
        Some(vk as u32 as char)
    } else if vk == VK_SPACE {
        Some(' ')
    } else {
        None
    }
}

/// Maps a virtual key to the character it types, if it types one.
pub fn map_virtual_key_char(virtual_key: i32, shift: bool) -> (r: Option<char>)
    ensures
        r == spec_virtual_key_char(virtual_key, shift),
{
    if VK_A <= virtual_key && virtual_key <= VK_Z {
        let code: u8 = if shift { virtual_key as u8 } else { (virtual_key + 32) as u8 };
        Some(code as char)
    } else if VK_NUMBER0 <= virtual_key && virtual_key <= VK_NUMBER9 {
        Some((virtual_key as u8) as char)
    } else if virtual_key == VK_SPACE {
        Some(' ')
    } else {
        None
    }
}


/// The character that a named key types, if it types one.
pub open spec fn spec_named_key_char(k: NamedKey) -> Option<char> {
    match k {
        NamedKey::Enter => Some('\r'),
        NamedKey::Backspace => Some('\x08'),
        NamedKey::Tab => Some('\t'),
        NamedKey::Escape => Some('\x1b'),
        _ => None,
    }
}

/// Returns the character that a named key types, if it types one.
pub fn named_key_char(k: NamedKey) -> (r: Option<char>)
    ensures
        r == spec_named_key_char(k),
{
    match k {
        NamedKey::Enter => Some('\r'),
        NamedKey::Backspace => Some('\x08'),
        NamedKey::Tab => Some('\t'),
        NamedKey::Escape => Some('\x1b'),
        _ => None,
    }
}

/// The native key reported for a virtual key that has no portable meaning; codes that do not
/// fit in 16 bits are reported as 0.
pub open spec fn spec_native_key(vk: i32) -> NativeKey {
    NativeKey::Windows(if 0 <= vk <= 0xffff { vk as u16 } else { 0u16 })
}

/// The logical key of a virtual key under the given modifiers (only shift matters).
pub open spec fn spec_map_key(vk: i32, modifiers: ModifiersState) -> KeyView {
    match spec_named_key(vk) {
        Some(n) => KeyView::Named(n),
        None => match spec_virtual_key_char(vk, modifiers.shift) {
            Some(c) => KeyView::Character(seq![c]),
            None => KeyView::Unidentified(spec_native_key(vk)),
        },
    }
}

/// The text that a virtual key types under the given modifiers.
pub open spec fn spec_map_key_text(vk: i32, modifiers: ModifiersState) -> Option<Seq<char>> {
    match spec_named_key(vk) {
        Some(n) => match spec_named_key_char(n) {
            Some(c) => Some(seq![c]),
            None => None,
        },
        None => match spec_virtual_key_char(vk, modifiers.shift) {
            Some(c) => Some(seq![c]),
            None => None,
        },
    }
}

/// Maps a virtual key to its logical key and the text it types.
pub fn map_key(virtual_key: i32, modifiers: ModifiersState) -> (r: (Key, Option<String>))
    ensures
        r.0@ == spec_map_key(virtual_key, modifiers),
        text_view(r.1) == spec_map_key_text(virtual_key, modifiers),
{
    if let Some(named) = map_virtual_key_named(virtual_key) {
        let text = match named_key_char(named) {
            Some(c) => Some(char_to_string(c)),
            None => None,
        };
        return (Key::Named(named), text);
    }
    if let Some(ch) = map_virtual_key_char(virtual_key, modifiers.shift) {
        return (Key::Character(char_to_string(ch)), Some(char_to_string(ch)));
    }
    let code: u16 = if 0 <= virtual_key && virtual_key <= 0xffff { virtual_key as u16 } else { 0 };
    (Key::Unidentified(NativeKey::Windows(code)), None)
}

} // verus!
