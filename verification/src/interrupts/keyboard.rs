//! The keyboard decoder: from scancodes of PS/2 set 1 to key events.
//!
//! A scancode names a key in its low seven bits and tells in its high bit
//! whether the key went down or came up. The decoder keeps one bit of state,
//! the shift latch, which the two shift keys set while held and clear when
//! released, and which turns letters into capitals.

use vstd::prelude::*;

verus! {

/// The bit of a scancode that marks a key release.
pub const RELEASE_BIT: u8 = 0x80;

/// Base code of the left shift key.
pub const LEFT_SHIFT: u8 = 0x2A;

/// Base code of the right shift key.
pub const RIGHT_SHIFT: u8 = 0x36;

/// Base code of the key that deletes the last character.
pub const DELETE: u8 = 0x0E;

/// Distance between a lower-case ASCII letter and its capital.
pub const CASE_DELTA: u8 = 0x20;

/// Whether a key went down or came up.
#[derive(Clone, Copy, Debug, PartialEq, Eq, Structural)]
pub enum KeyState {
    Pressed,
    Released,
}

/// A key that stands for an action instead of a character.
#[derive(Clone, Copy, Debug, PartialEq, Eq, Structural)]
pub enum Action {
    Delete,
    Space,
    Enter,
    Shift,
}

/// What a key means.
#[derive(Clone, Copy, Debug, PartialEq, Eq, Structural)]
pub enum KeyType {
    /// A letter, as its ASCII code.
    Character(u8),
    /// A digit, as its ASCII code.
    Number(u8),
    /// A named action.
    Action(Action),
    /// A key outside the layout, with its base code.
    Undefined(u8),
}

impl KeyType {
    /// The byte the key puts on the screen, if it puts one.
    pub open spec fn glyph(self) -> Option<u8> {
        match self {
            KeyType::Character(c) => Some(c),
            KeyType::Number(n) => Some(n),
            _ => None,
        }
    }

    /// Whether the key stands for a byte that can be shown.
    pub fn is_printable(&self) -> (printable: bool)
        ensures
            printable == self.glyph().is_some(),
            printable == (*self is Character || *self is Number),
    {
        match self {
            Self::Character(_) => true,
            Self::Number(_) => true,
            Self::Action(_) => false,
            Self::Undefined(_) => false,
        }
    }

    /// The byte to show for the key: the ASCII code of a letter or digit,
    /// nothing for an action or an unknown key.
    pub fn print(&self) -> (byte: Option<u8>)
        ensures
            byte == self.glyph(),
    {
        match *self {
            Self::Character(c) => Some(c),
            Self::Number(n) => Some(n),
            _ => None,
        }
    }
}

/// One decoded scancode: the key and what happened to it.
#[derive(Clone, Copy, Debug, PartialEq, Eq, Structural)]
pub struct KeyPressed {
    pub key: KeyType,
    pub state: KeyState,
}

/// Whether the scancode reports a release: its high bit is set.
pub open spec fn is_release(scancode: u8) -> bool {
    scancode >= RELEASE_BIT
}

/// The scancode without its release bit: the code of the key itself.
pub open spec fn base_code(scancode: u8) -> u8 {
    if is_release(scancode) {
        (scancode - RELEASE_BIT) as u8
    } else {
        scancode
    }
}

/// Whether the press or the release of a key is reported.
pub open spec fn state_of(scancode: u8) -> KeyState {
    if is_release(scancode) {
        KeyState::Released
    } else {
        KeyState::Pressed
    }
}

/// Whether the base code is that of one of the two shift keys.
pub open spec fn is_shift(code: u8) -> bool {
    code == LEFT_SHIFT || code == RIGHT_SHIFT
}

/// The digit row, from the key after escape: `1234567890`.
pub open spec fn digit_row() -> Seq<u8> {
    seq![0x31u8, 0x32, 0x33, 0x34, 0x35, 0x36, 0x37, 0x38, 0x39, 0x30]
}

/// The upper letter row: `qwertyuiop`.
pub open spec fn upper_row() -> Seq<u8> {
    seq![0x71u8, 0x77, 0x65, 0x72, 0x74, 0x79, 0x75, 0x69, 0x6F, 0x70]
}

/// The home row: `asdfghjkl`.
pub open spec fn home_row() -> Seq<u8> {
    seq![0x61u8, 0x73, 0x64, 0x66, 0x67, 0x68, 0x6A, 0x6B, 0x6C]
}

/// The lower letter row: `zxcvbnm`.
pub open spec fn lower_row() -> Seq<u8> {
    seq![0x7Au8, 0x78, 0x63, 0x76, 0x62, 0x6E, 0x6D]
}

/// The key behind a base code on the unshifted layout. Scancode set 1
/// numbers the keys of each row from left to right: digits from 0x02, the
/// upper letter row from 0x10, the home row from 0x1E and the lower letter
/// row from 0x2C. A code outside the layout is reported as it is.
pub open spec fn layout(code: u8) -> KeyType {
    if 0x02 <= code < 0x02 + digit_row().len() {
        KeyType::Number(digit_row()[code - 0x02])
    } else if 0x10 <= code < 0x10 + upper_row().len() {
        KeyType::Character(upper_row()[code - 0x10])
    } else if 0x1E <= code < 0x1E + home_row().len() {
        KeyType::Character(home_row()[code - 0x1E])
    } else if 0x2C <= code < 0x2C + lower_row().len() {
        KeyType::Character(lower_row()[code - 0x2C])
    } else if is_shift(code) {
        KeyType::Action(Action::Shift)
    } else if code == DELETE {
        KeyType::Action(Action::Delete)
    } else {
        KeyType::Undefined(code)
    }
}

/// The key as it reads under the latch: a letter becomes its capital while
/// shift is latched, every other key stays what it is.
pub open spec fn with_shift(key: KeyType, shift: bool) -> KeyType {
    match key {
        KeyType::Character(c) if shift => KeyType::Character((c - CASE_DELTA) as u8),
        _ => key,
    }
}

/// The shift latch after a scancode: a shift key sets it when pressed and
/// clears it when released, whichever of the two keys it is; any other key
/// leaves it alone.
pub open spec fn latch_after(scancode: u8, shift: bool) -> bool {
    if is_shift(base_code(scancode)) {
        !is_release(scancode)
    } else {
        shift
    }
}

/// The event a scancode decodes to when the latch holds `shift` beforehand.
pub open spec fn decode(scancode: u8, shift: bool) -> KeyPressed {
    KeyPressed {
        key: with_shift(layout(base_code(scancode)), latch_after(scancode, shift)),
        state: state_of(scancode),
    }
}

/// The decoder and its state.
pub struct Keyboard {
    /// The shift latch: set while a shift key is held.
    pub shift_enabled: bool,
}

impl Keyboard {
    /// A decoder with the latch clear.
    pub fn new() -> (keyboard: Keyboard)
        ensures
            !keyboard.shift_enabled,
    {
        Keyboard { shift_enabled: false }
    }

    /// Whether the byte is an ASCII digit.
    pub fn is_number(&self, ascii_code: u8) -> (digit: bool)
        ensures
            digit == (0x30 <= ascii_code <= 0x39),
    {
        0x30 <= ascii_code && ascii_code <= 0x39
    }

    /// Whether the byte is an ASCII letter of either case.
    pub fn is_alphabet(ascii_code: u8) -> (letter: bool)
        ensures
            letter == (0x61 <= ascii_code <= 0x7A || 0x41 <= ascii_code <= 0x5A),
    {
        (0x61 <= ascii_code && ascii_code <= 0x7A) || (0x41 <= ascii_code && ascii_code <= 0x5A)
    }

    /// Whether the byte is an ASCII letter or digit.
    pub fn is_printable(&self, ascii_code: u8) -> (printable: bool)
        ensures
            printable == (0x61 <= ascii_code <= 0x7A || 0x41 <= ascii_code <= 0x5A || 0x30
                <= ascii_code <= 0x39),
    {
        Keyboard::is_alphabet(ascii_code) || self.is_number(ascii_code)
    }

    /// Decodes one scancode. Every byte decodes to exactly one event; a shift
    /// key also moves the latch.
    pub fn scan(&mut self, scancode: u8) -> (pressed: KeyPressed)
        ensures
            pressed == decode(scancode, old(self).shift_enabled),
            final(self).shift_enabled == latch_after(scancode, old(self).shift_enabled),
    {
        assert((scancode & 0x80 != 0) == (scancode >= 0x80)) by (bit_vector);
        let mut code: u8 = scancode;
        let state = if scancode & RELEASE_BIT != 0 {
            code -= RELEASE_BIT;
            KeyState::Released
        } else {
            KeyState::Pressed
        };

        let key = match code {
            0x0B => KeyType::Number(0x30),  // 0
            0x02..=0x0A => KeyType::Number(code + 0x2F),  // 1-9
            0x1E => KeyType::Character(0x61),  // a
            0x30 => KeyType::Character(0x62),  // b
            0x2E => KeyType::Character(0x63),  // c
            0x20 => KeyType::Character(0x64),  // d
            0x12 => KeyType::Character(0x65),  // e
            0x21..=0x23 => KeyType::Character(code + 0x45),  // f-h
            0x17 => KeyType::Character(0x69),  // i
            0x24..=0x26 => KeyType::Character(code + 0x46),  // j-l
            0x32 => KeyType::Character(0x6D),  // m
            0x31 => KeyType::Character(0x6E),  // n
            0x18 => KeyType::Character(0x6F),  // o
            0x19 => KeyType::Character(0x70),  // p
            0x10 => KeyType::Character(0x71),  // q
            0x13 => KeyType::Character(0x72),  // r
            0x1F => KeyType::Character(0x73),  // s
            0x14 => KeyType::Character(0x74),  // t
            0x16 => KeyType::Character(0x75),  // u
            0x2F => KeyType::Character(0x76),  // v
            0x11 => KeyType::Character(0x77),  // w
            0x2D => KeyType::Character(0x78),  // x
            0x15 => KeyType::Character(0x79),  // y
            0x2C => KeyType::Character(0x7A),  // z
            RIGHT_SHIFT | LEFT_SHIFT => {
                self.shift_enabled = state == KeyState::Pressed;
                KeyType::Action(Action::Shift)
            },
            DELETE => KeyType::Action(Action::Delete),
            _ => KeyType::Undefined(code),
        };

        let key = match key {
            KeyType::Character(chr) if self.shift_enabled => KeyType::Character(chr - CASE_DELTA),
            other => other,
        };

        KeyPressed { key, state }
    }
}

/// Whether the base code is that of a letter key.
pub open spec fn is_letter(code: u8) -> bool {
    layout(code) is Character
}

/// Every letter key carries a lower-case ASCII letter on the unshifted
/// layout, and every digit key an ASCII digit.
pub proof fn lemma_layout_classes(code: u8)
    ensures
        layout(code) matches KeyType::Character(c) ==> 0x61 <= c <= 0x7A,
        layout(code) matches KeyType::Number(n) ==> 0x30 <= n <= 0x39,
        layout(code) matches KeyType::Undefined(raw) ==> raw == code,
{
}

/// Decoding is a function of the scancode and the latch alone, and a key
/// other than shift leaves the latch as it found it. So decoding such a
/// scancode a second time gives the event it gave the first time; with the
/// latch set, a letter key gives its capital both times.
pub proof fn lemma_decode_is_repeatable(scancode: u8, shift: bool)
    requires
        !is_shift(base_code(scancode)),
    ensures
        latch_after(scancode, shift) == shift,
        decode(scancode, latch_after(scancode, shift)) == decode(scancode, shift),
        layout(base_code(scancode)) matches KeyType::Character(lower) ==> decode(
            scancode,
            true,
        ).key == KeyType::Character((lower - CASE_DELTA) as u8) && 0x41 <= lower - CASE_DELTA
            <= 0x5A,
        !is_letter(base_code(scancode)) ==> decode(scancode, true).key == decode(
            scancode,
            false,
        ).key,
{
    lemma_layout_classes(base_code(scancode));
}

/// Pressing a shift key sets the latch and releasing one clears it, whatever
/// the latch held before and whichever of the two keys is released.
pub proof fn lemma_shift_latches(scancode: u8, shift: bool)
    requires
        is_shift(base_code(scancode)),
    ensures
        latch_after(scancode, shift) == !is_release(scancode),
        decode(scancode, shift).key == KeyType::Action(Action::Shift),
{
}

} // verus!
