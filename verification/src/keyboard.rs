//! The scan-code table: a closed set of logical keys, each mapped to the
//! hardware scan code used for injection.
//!
//! Most keys are *direct*: the stored constant is the scan code itself, with
//! codes above the single-byte range marking extended keys (the low byte is
//! the scan code proper). The four arrow keys are *hardware-variable*: their
//! constants carry a virtual-key code in the upper byte, and the scan code
//! must be obtained at run time from the OS virtual-key translation; the
//! translated values are handed in as an [`ArrowScanCodes`] table, so that
//! resolution itself is a pure, verified function.

use vstd::prelude::*;

verus! {

/// Logical keys that a caller may press, named by their position on a
/// standard keyboard.
///
/// Arrow-key scan codes (`KC_UP`, `KC_DOWN`, `KC_LEFT`, `KC_RIGHT`) differ
/// across hardware: their constants encode a virtual-key code in the upper
/// byte, which is only an input to the OS virtual-key-to-scan-code
/// translation, never a scan code itself.
///
/// The prefix that announces a two-byte scan-code sequence is deliberately
/// not a key here: it cannot be pressed, only emitted by the injector (see
/// `injector::PREFIX_SCAN`), so no caller can hand it in as part of a chord.
#[allow(non_camel_case_types)]
#[derive(Debug, Clone, Copy, PartialEq, Eq, Structural)]
pub enum KeySC {
    KC_ESC,
    KC_F1,
    KC_F2,
    KC_F3,
    KC_F4,
    KC_F5,
    KC_F6,
    KC_F7,
    KC_F8,
    KC_F9,
    KC_F10,
    KC_F11,
    KC_F12,
    KC_PRINTSCREEN,
    KC_SCROLLLOCK,
    KC_PAUSE,
    /// Key `
    KC_BACKTICK,
    KC_1,
    KC_2,
    KC_3,
    KC_4,
    KC_5,
    KC_6,
    KC_7,
    KC_8,
    KC_9,
    KC_0,
    /// Key -
    KC_HYPHEN,
    /// Key =
    KC_EQUAL,
    KC_BACKSPACE,
    KC_INSERT,
    KC_HOME,
    KC_PAGEUP,
    KC_PAGEDOWN,
    KC_NUMLOCK,
    KC_DIVIDE,
    KC_MULTIPLY,
    KC_SUBTRACT,
    KC_ADD,
    KC_DECIMAL,
    KC_NUMPADENTER,
    KC_NUMPAD1,
    KC_NUMPAD2,
    KC_NUMPAD3,
    KC_NUMPAD4,
    KC_NUMPAD5,
    KC_NUMPAD6,
    KC_NUMPAD7,
    KC_NUMPAD8,
    KC_NUMPAD9,
    KC_NUMPAD0,
    KC_TAB,
    KC_Q,
    KC_W,
    KC_E,
    KC_R,
    KC_T,
    KC_Y,
    KC_U,
    KC_I,
    KC_O,
    KC_P,
    /// Key [
    KC_LEFT_BRACKET,
    /// Key ]
    KC_RIGHT_BRACKET,
    /// Key \
    KC_BACKSLASH,
    KC_DEL,
    KC_END,
    KC_CAPSLOCK,
    KC_A,
    KC_S,
    KC_D,
    KC_F,
    KC_G,
    KC_H,
    KC_J,
    KC_K,
    KC_L,
    /// Key ;
    KC_SEMICOLON,
    /// Key '
    KC_APOSTROPHE,
    KC_ENTER,
    /// Key shift left
    KC_SHIFT,
    KC_Z,
    KC_X,
    KC_C,
    KC_V,
    KC_B,
    KC_N,
    KC_M,
    /// Key ,
    KC_COMMA,
    /// Key .
    KC_FULLSTOP,
    /// Key /
    KC_SLASH,
    KC_SHIFTRIGHT,
    /// Key ctrl left
    KC_CTRL,
    /// Key win left
    KC_WIN,
    /// Key alt left
    KC_ALT,
    KC_SPACE,
    KC_ALTRIGHT,
    KC_WINRIGHT,
    KC_APPS,
    KC_CTRLRIGHT,
    /// Hardware-variable; upper byte is the virtual-key code
    KC_UP,
    /// Hardware-variable; upper byte is the virtual-key code
    KC_DOWN,
    /// Hardware-variable; upper byte is the virtual-key code
    KC_LEFT,
    /// Hardware-variable; upper byte is the virtual-key code
    KC_RIGHT,
}

impl KeySC {
    /// The stored constant of the key: for direct keys the scan code
    /// (extended keys above `0xff`), for arrow keys the virtual-key code
    /// shifted into the upper byte.
    pub open spec fn code_spec(self) -> u32 {
        match self {
            KeySC::KC_ESC => 0x01,
            KeySC::KC_F1 => 0x3b,
            KeySC::KC_F2 => 0x3c,
            KeySC::KC_F3 => 0x3d,
            KeySC::KC_F4 => 0x3e,
            KeySC::KC_F5 => 0x3f,
            KeySC::KC_F6 => 0x40,
            KeySC::KC_F7 => 0x41,
            KeySC::KC_F8 => 0x42,
            KeySC::KC_F9 => 0x43,
            KeySC::KC_F10 => 0x44,
            KeySC::KC_F11 => 0x57,
            KeySC::KC_F12 => 0x58,
            KeySC::KC_PRINTSCREEN => 0xb7,
            KeySC::KC_SCROLLLOCK => 0x46,
            KeySC::KC_PAUSE => 0xc5,
            KeySC::KC_BACKTICK => 0x29,
            KeySC::KC_1 => 0x02,
            KeySC::KC_2 => 0x03,
            KeySC::KC_3 => 0x04,
            KeySC::KC_4 => 0x05,
            KeySC::KC_5 => 0x06,
            KeySC::KC_6 => 0x07,
            KeySC::KC_7 => 0x08,
            KeySC::KC_8 => 0x09,
            KeySC::KC_9 => 0x0a,
            KeySC::KC_0 => 0x0b,
            KeySC::KC_HYPHEN => 0x0c,
            KeySC::KC_EQUAL => 0x0d,
            KeySC::KC_BACKSPACE => 0x0e,
            KeySC::KC_INSERT => 0x4d2,
            KeySC::KC_HOME => 0x4c7,
            KeySC::KC_PAGEUP => 0x4c9,
            KeySC::KC_PAGEDOWN => 0x4d1,
            KeySC::KC_NUMLOCK => 0x45,
            KeySC::KC_DIVIDE => 0x4b5,
            KeySC::KC_MULTIPLY => 0x37,
            KeySC::KC_SUBTRACT => 0x4a,
            KeySC::KC_ADD => 0x4e,
            KeySC::KC_DECIMAL => 0x53,
            KeySC::KC_NUMPADENTER => 0x49c,
            KeySC::KC_NUMPAD1 => 0x4f,
            KeySC::KC_NUMPAD2 => 0x50,
            KeySC::KC_NUMPAD3 => 0x51,
            KeySC::KC_NUMPAD4 => 0x4b,
            KeySC::KC_NUMPAD5 => 0x4c,
            KeySC::KC_NUMPAD6 => 0x4d,
            KeySC::KC_NUMPAD7 => 0x47,
            KeySC::KC_NUMPAD8 => 0x48,
            KeySC::KC_NUMPAD9 => 0x49,
            KeySC::KC_NUMPAD0 => 0x52,
            KeySC::KC_TAB => 0x0f,
            KeySC::KC_Q => 0x10,
            KeySC::KC_W => 0x11,
            KeySC::KC_E => 0x12,
            KeySC::KC_R => 0x13,
            KeySC::KC_T => 0x14,
            KeySC::KC_Y => 0x15,
            KeySC::KC_U => 0x16,
            KeySC::KC_I => 0x17,
            KeySC::KC_O => 0x18,
            KeySC::KC_P => 0x19,
            KeySC::KC_LEFT_BRACKET => 0x1a,
            KeySC::KC_RIGHT_BRACKET => 0x1b,
            KeySC::KC_BACKSLASH => 0x2b,
            KeySC::KC_DEL => 0x4d3,
            KeySC::KC_END => 0x4cf,
            KeySC::KC_CAPSLOCK => 0x3a,
            KeySC::KC_A => 0x1e,
            KeySC::KC_S => 0x1f,
            KeySC::KC_D => 0x20,
            KeySC::KC_F => 0x21,
            KeySC::KC_G => 0x22,
            KeySC::KC_H => 0x23,
            KeySC::KC_J => 0x24,
            KeySC::KC_K => 0x25,
            KeySC::KC_L => 0x26,
            KeySC::KC_SEMICOLON => 0x27,
            KeySC::KC_APOSTROPHE => 0x28,
            KeySC::KC_ENTER => 0x1c,
            KeySC::KC_SHIFT => 0x2a,
            KeySC::KC_Z => 0x2c,
            KeySC::KC_X => 0x2d,
            KeySC::KC_C => 0x2e,
            KeySC::KC_V => 0x2f,
            KeySC::KC_B => 0x30,
            KeySC::KC_N => 0x31,
            KeySC::KC_M => 0x32,
            KeySC::KC_COMMA => 0x33,
            KeySC::KC_FULLSTOP => 0x34,
            KeySC::KC_SLASH => 0x35,
            KeySC::KC_SHIFTRIGHT => 0x36,
            KeySC::KC_CTRL => 0x1d,
            KeySC::KC_WIN => 0x4db,
            KeySC::KC_ALT => 0x38,
            KeySC::KC_SPACE => 0x39,
            KeySC::KC_ALTRIGHT => 0x4b8,
            KeySC::KC_WINRIGHT => 0x4dc,
            KeySC::KC_APPS => 0x4dd,
            KeySC::KC_CTRLRIGHT => 0x49d,
            KeySC::KC_UP => 0x2626,
            KeySC::KC_DOWN => 0x2525,
            KeySC::KC_LEFT => 0x2828,
            KeySC::KC_RIGHT => 0x2727,
        }
    }

    /// The stored constant of the key (see [`Self::code_spec`]).
    pub fn code(self) -> (c: u32)
        ensures
            c == self.code_spec(),
    {
        match self {
            KeySC::KC_ESC => 0x01,
            KeySC::KC_F1 => 0x3b,
            KeySC::KC_F2 => 0x3c,
            KeySC::KC_F3 => 0x3d,
            KeySC::KC_F4 => 0x3e,
            KeySC::KC_F5 => 0x3f,
            KeySC::KC_F6 => 0x40,
            KeySC::KC_F7 => 0x41,
            KeySC::KC_F8 => 0x42,
            KeySC::KC_F9 => 0x43,
            KeySC::KC_F10 => 0x44,
            KeySC::KC_F11 => 0x57,
            KeySC::KC_F12 => 0x58,
            KeySC::KC_PRINTSCREEN => 0xb7,
            KeySC::KC_SCROLLLOCK => 0x46,
            KeySC::KC_PAUSE => 0xc5,
            KeySC::KC_BACKTICK => 0x29,
            KeySC::KC_1 => 0x02,
            KeySC::KC_2 => 0x03,
            KeySC::KC_3 => 0x04,
            KeySC::KC_4 => 0x05,
            KeySC::KC_5 => 0x06,
            KeySC::KC_6 => 0x07,
            KeySC::KC_7 => 0x08,
            KeySC::KC_8 => 0x09,
            KeySC::KC_9 => 0x0a,
            KeySC::KC_0 => 0x0b,
            KeySC::KC_HYPHEN => 0x0c,
            KeySC::KC_EQUAL => 0x0d,
            KeySC::KC_BACKSPACE => 0x0e,
            KeySC::KC_INSERT => 0x4d2,
            KeySC::KC_HOME => 0x4c7,
            KeySC::KC_PAGEUP => 0x4c9,
            KeySC::KC_PAGEDOWN => 0x4d1,
            KeySC::KC_NUMLOCK => 0x45,
            KeySC::KC_DIVIDE => 0x4b5,
            KeySC::KC_MULTIPLY => 0x37,
            KeySC::KC_SUBTRACT => 0x4a,
            KeySC::KC_ADD => 0x4e,
            KeySC::KC_DECIMAL => 0x53,
            KeySC::KC_NUMPADENTER => 0x49c,
            KeySC::KC_NUMPAD1 => 0x4f,
            KeySC::KC_NUMPAD2 => 0x50,
            KeySC::KC_NUMPAD3 => 0x51,
            KeySC::KC_NUMPAD4 => 0x4b,
            KeySC::KC_NUMPAD5 => 0x4c,
            KeySC::KC_NUMPAD6 => 0x4d,
            KeySC::KC_NUMPAD7 => 0x47,
            KeySC::KC_NUMPAD8 => 0x48,
            KeySC::KC_NUMPAD9 => 0x49,
            KeySC::KC_NUMPAD0 => 0x52,
            KeySC::KC_TAB => 0x0f,
            KeySC::KC_Q => 0x10,
            KeySC::KC_W => 0x11,
            KeySC::KC_E => 0x12,
            KeySC::KC_R => 0x13,
            KeySC::KC_T => 0x14,
            KeySC::KC_Y => 0x15,
            KeySC::KC_U => 0x16,
            KeySC::KC_I => 0x17,
            KeySC::KC_O => 0x18,
            KeySC::KC_P => 0x19,
            KeySC::KC_LEFT_BRACKET => 0x1a,
            KeySC::KC_RIGHT_BRACKET => 0x1b,
            KeySC::KC_BACKSLASH => 0x2b,
            KeySC::KC_DEL => 0x4d3,
            KeySC::KC_END => 0x4cf,
            KeySC::KC_CAPSLOCK => 0x3a,
            KeySC::KC_A => 0x1e,
            KeySC::KC_S => 0x1f,
            KeySC::KC_D => 0x20,
            KeySC::KC_F => 0x21,
            KeySC::KC_G => 0x22,
            KeySC::KC_H => 0x23,
            KeySC::KC_J => 0x24,
            KeySC::KC_K => 0x25,
            KeySC::KC_L => 0x26,
            KeySC::KC_SEMICOLON => 0x27,
            KeySC::KC_APOSTROPHE => 0x28,
            KeySC::KC_ENTER => 0x1c,
            KeySC::KC_SHIFT => 0x2a,
            KeySC::KC_Z => 0x2c,
            KeySC::KC_X => 0x2d,
            KeySC::KC_C => 0x2e,
            KeySC::KC_V => 0x2f,
            KeySC::KC_B => 0x30,
            KeySC::KC_N => 0x31,
            KeySC::KC_M => 0x32,
            KeySC::KC_COMMA => 0x33,
            KeySC::KC_FULLSTOP => 0x34,
            KeySC::KC_SLASH => 0x35,
            KeySC::KC_SHIFTRIGHT => 0x36,
            KeySC::KC_CTRL => 0x1d,
            KeySC::KC_WIN => 0x4db,
            KeySC::KC_ALT => 0x38,
            KeySC::KC_SPACE => 0x39,
            KeySC::KC_ALTRIGHT => 0x4b8,
            KeySC::KC_WINRIGHT => 0x4dc,
            KeySC::KC_APPS => 0x4dd,
            KeySC::KC_CTRLRIGHT => 0x49d,
            KeySC::KC_UP => 0x2626,
            KeySC::KC_DOWN => 0x2525,
            KeySC::KC_LEFT => 0x2828,
            KeySC::KC_RIGHT => 0x2727,
        }
    }

    /// Whether the key is one of the four hardware-variable arrow keys.
    pub open spec fn is_arrow_spec(self) -> bool {
        self is KC_UP || self is KC_DOWN || self is KC_LEFT || self is KC_RIGHT
    }

    /// Whether the key is one of the four hardware-variable arrow keys; these
    /// need runtime scan-code translation and NumLock compensation.
    pub fn is_arrow(self) -> (b: bool)
        ensures
            b == self.is_arrow_spec(),
    {
        matches!(self, KeySC::KC_UP | KeySC::KC_DOWN | KeySC::KC_RIGHT | KeySC::KC_LEFT)
    }

    /// The virtual-key code of an arrow key: the upper byte of its stored
    /// constant.
    pub open spec fn arrow_vk_spec(self) -> u32 {
        self.code_spec() / 0x100
    }

    /// The virtual-key code of an arrow key, the input to the OS
    /// virtual-key-to-scan-code translation.
    pub fn arrow_vk(self) -> (vk: u32)
        requires
            self.is_arrow_spec(),
        ensures
            vk == self.arrow_vk_spec(),
    {
        self.code() / 0x100
    }

    /// The scan code of a direct key: the low byte of its stored constant.
    pub open spec fn direct_scan_spec(self) -> u16 {
        (self.code_spec() % 0x100) as u16
    }

    /// Whether a direct key is an extended key: its stored constant exceeds
    /// the single-byte scan-code range.
    pub open spec fn extended_spec(self) -> bool {
        self.code_spec() > 0xff
    }
}

/// The runtime scan codes of the four arrow keys, as the OS virtual-key
/// translation reported them. Queried afresh by the driver for each press and
/// handed in as plain values, because the codes are hardware-dependent.
#[derive(Debug, Clone, Copy, PartialEq, Eq, Structural)]
pub struct ArrowScanCodes {
    pub up: u16,
    pub down: u16,
    pub left: u16,
    pub right: u16,
}

impl KeySC {
    /// The translated scan code an arrow key picks out of the table; zero for
    /// keys that are not arrows (never used for those).
    pub open spec fn arrow_scan_spec(self, t: ArrowScanCodes) -> u16 {
        match self {
            KeySC::KC_UP => t.up,
            KeySC::KC_DOWN => t.down,
            KeySC::KC_LEFT => t.left,
            KeySC::KC_RIGHT => t.right,
            _ => 0,
        }
    }
}

/// The mapping from logical keys to the scan code and extended-key flag that
/// an injected event must carry.
pub struct ScanCodeTable;

impl ScanCodeTable {
    /// What `resolve` returns: for an arrow key the translated hardware scan
    /// code with the extended flag set; for a direct key the low byte of its
    /// constant, extended exactly when the constant exceeds one byte.
    pub open spec fn resolve_spec(key: KeySC, t: ArrowScanCodes) -> (u16, bool) {
        if key.is_arrow_spec() {
            (key.arrow_scan_spec(t), true)
        } else {
            (key.direct_scan_spec(), key.extended_spec())
        }
    }

    /// Resolve a key to `(scan_code, extended)`. A pure function of the key
    /// and the translation table alone: nothing is cached between calls, so
    /// equal inputs always yield equal results.
    pub fn resolve(key: KeySC, t: ArrowScanCodes) -> (r: (u16, bool))
        ensures
            r == Self::resolve_spec(key, t),
    {
        if key.is_arrow() {
            let scan: u16 = match key {
                KeySC::KC_UP => t.up,
                KeySC::KC_DOWN => t.down,
                KeySC::KC_LEFT => t.left,
                KeySC::KC_RIGHT => t.right,
                _ => 0,
            };
            (scan, true)
        } else {
            let c = key.code();
            ((c % 0x100) as u16, c > 0xff)
        }
    }
}

/// Resolution of a direct key depends on the key alone: the arrow translation
/// table plays no part, so any two tables give the same scan code and
/// extended flag.
pub proof fn lemma_resolve_direct_independent(key: KeySC, t1: ArrowScanCodes, t2: ArrowScanCodes)
    requires
        !key.is_arrow_spec(),
    ensures
        ScanCodeTable::resolve_spec(key, t1) == ScanCodeTable::resolve_spec(key, t2),
{
}

/// Resolution of an arrow key depends only on the key and the translation
/// table: it is the table's entry for that key, marked extended.
pub proof fn lemma_resolve_arrow(key: KeySC, t: ArrowScanCodes)
    requires
        key.is_arrow_spec(),
    ensures
        ScanCodeTable::resolve_spec(key, t) == (key.arrow_scan_spec(t), true),
{
}

} // verus!
