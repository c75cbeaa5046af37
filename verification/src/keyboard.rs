//! The keyboard scancode decoder: bytes of scancode set 1 in, key events and
//! decoded keys of the US 104-key layout out. The decoding tables are those of
//! the `pc_keyboard` crate; what is proved here is how the bytes of a sequence
//! are framed into events.

use pc_keyboard::layouts::Us104Key;
use pc_keyboard::{HandleControl, KeyCode, Keyboard, ScancodeSet1};
use vstd::prelude::*;

verus! {

/// The byte that announces an extended, two-byte scancode.
pub const EXTENDED_KEY_CODE: u8 = 0xE0;

/// A `pc_keyboard::Keyboard` for scancode set 1 and the US 104-key layout.
/// Nothing of its inside is visible here; `keyboard_state` names what it
/// holds.
#[verifier::external_body]
pub struct Set1Keyboard {
    inner: Keyboard<Us104Key, ScancodeSet1>,
}

/// `pc_keyboard::KeyCode`, the name of a key.
#[verifier::external_type_specification]
#[verifier::external_body]
pub struct ExKeyCode(KeyCode);

/// `pc_keyboard::Error`, the reason a byte was not decoded.
#[verifier::external_type_specification]
#[verifier::external_body]
pub struct ExError(pc_keyboard::Error);

/// Whether a key went down or came up.
#[derive(Debug, Clone, Copy, PartialEq, Eq)]
pub enum KeyState {
    Up,
    Down,
}

/// One transition of one key.
#[derive(Debug, Clone, Copy, PartialEq, Eq)]
pub struct KeyEvent {
    pub code: KeyCode,
    pub state: KeyState,
}

/// What a key press means: a character, or a key that has none.
#[derive(Debug, Clone, Copy, PartialEq, Eq)]
pub enum DecodedKey {
    RawKey(KeyCode),
    Unicode(char),
}

/// What the decoder remembers between two bytes.
pub struct KeyboardState {
    /// The last byte announced an extended scancode and its second byte is
    /// still to come.
    pub awaiting_extension: bool,
    pub lshift: bool,
    pub rshift: bool,
    pub lctrl: bool,
    pub rctrl: bool,
    pub numlock: bool,
    pub capslock: bool,
    pub alt_gr: bool,
    /// Letters typed with Ctrl held are mapped to control characters.
    pub ctrl_maps_letters: bool,
}

/// The state of a decoder that has seen nothing yet: no byte pending, no
/// modifier held, number lock on, Ctrl not mapped.
pub open spec fn initial_state() -> KeyboardState {
    KeyboardState {
        awaiting_extension: false,
        lshift: false,
        rshift: false,
        lctrl: false,
        rctrl: false,
        numlock: true,
        capslock: false,
        alt_gr: false,
        ctrl_maps_letters: false,
    }
}

/// What a `pc_keyboard::Keyboard` holds: its decode state, its modifiers and
/// its handling of Ctrl.
pub uninterp spec fn keyboard_state(keyboard: Set1Keyboard) -> KeyboardState;

/// The key that scancode set 1 gives to a seven-bit code, plain or extended,
/// as the tables of `pc_keyboard::Keyboard::add_byte` have it; `None` where
/// the tables have no key for the code.
pub uninterp spec fn set1_key(extended: bool, code: u8) -> Option<KeyCode>;

/// What `pc_keyboard::Keyboard::process_keyevent` makes of an event in a
/// given state: the decoded key, if any, and the state afterwards.
pub uninterp spec fn us104_step(state: KeyboardState, event: KeyEvent) -> (
    Option<DecodedKey>,
    KeyboardState,
);

/// The seven low bits of a scancode: the code of the key without the bit
/// that tells a release from a press.
pub open spec fn key_bits(byte: u8) -> u8 {
    if byte >= 0x80 {
        (byte - 0x80) as u8
    } else {
        byte
    }
}

/// Whether a byte opens an extended sequence: the prefix byte, met while no
/// other sequence is open.
pub open spec fn opens_extension(state: KeyboardState, byte: u8) -> bool {
    !state.awaiting_extension && byte == EXTENDED_KEY_CODE
}

/// The event that a byte completes, if it completes one: none for the byte
/// that opens an extended sequence, none for a code without a key; else the
/// key of the code, released if the high bit is set and pressed if not.
pub open spec fn event_of(state: KeyboardState, byte: u8) -> Option<KeyEvent> {
    if opens_extension(state, byte) {
        None
    } else {
        match set1_key(state.awaiting_extension, key_bits(byte)) {
            Some(code) => Some(
                KeyEvent { code, state: if byte >= 0x80 {
                    KeyState::Up
                } else {
                    KeyState::Down
                } },
            ),
            None => None,
        }
    }
}

/// The state after a byte: a sequence is open exactly if this byte opened
/// one; the modifiers are as before.
pub open spec fn after_byte(state: KeyboardState, byte: u8) -> KeyboardState {
    KeyboardState { awaiting_extension: opens_extension(state, byte), ..state }
}

/// The key that an event decodes to: none for a release, else what the
/// layout gives in the state.
pub open spec fn decoded_of(state: KeyboardState, event: KeyEvent) -> Option<DecodedKey> {
    match event.state {
        KeyState::Up => None,
        KeyState::Down => us104_step(state, event).0,
    }
}

/// The state after an event: the modifiers as the layout leaves them; the
/// pending byte and the handling of Ctrl as before.
pub open spec fn after_event(state: KeyboardState, event: KeyEvent) -> KeyboardState {
    KeyboardState {
        awaiting_extension: state.awaiting_extension,
        ctrl_maps_letters: state.ctrl_maps_letters,
        ..us104_step(state, event).1
    }
}

/// `pc_keyboard::Keyboard::new` with the US 104-key layout, scancode set 1
/// and Ctrl left alone. The new decoder is in its initial state.
#[verifier::external_body]
fn keyboard_new() -> (keyboard: Set1Keyboard)
    ensures
        keyboard_state(keyboard) == initial_state(),
{
    Set1Keyboard { inner: Keyboard::new(Us104Key, ScancodeSet1, HandleControl::Ignore) }
}

/// `pc_keyboard::Keyboard::add_byte`. The prefix byte of an extended
/// sequence gives `Ok(None)`; any other byte gives the event of its key, or
/// an error where the tables have no key for it. Only the pending-byte part
/// of the state changes. With scancode set 1 the keyboard knows two decode
/// states only, and the call returns in both.
#[verifier::external_body]
fn keyboard_add_byte(
    keyboard: &mut Set1Keyboard,
    byte: u8,
) -> (result: Result<Option<KeyEvent>, pc_keyboard::Error>)
    ensures
        keyboard_state(*final(keyboard)) == after_byte(keyboard_state(*old(keyboard)), byte),
        opens_extension(keyboard_state(*old(keyboard)), byte) ==> result is Ok && result->Ok_0 is None,
        !opens_extension(keyboard_state(*old(keyboard)), byte) && set1_key(
            keyboard_state(*old(keyboard)).awaiting_extension,
            key_bits(byte),
        ) is None ==> result is Err,
        !opens_extension(keyboard_state(*old(keyboard)), byte) && set1_key(
            keyboard_state(*old(keyboard)).awaiting_extension,
            key_bits(byte),
        ) is Some ==> result is Ok && result->Ok_0 == event_of(keyboard_state(*old(keyboard)), byte),
{
    match keyboard.inner.add_byte(byte) {
        Ok(Some(pc_keyboard::KeyEvent { code, state: pc_keyboard::KeyState::Up })) => Ok(
            Some(KeyEvent { code, state: KeyState::Up }),
        ),
        Ok(Some(pc_keyboard::KeyEvent { code, state: pc_keyboard::KeyState::Down })) => Ok(
            Some(KeyEvent { code, state: KeyState::Down }),
        ),
        Ok(None) => Ok(None),
        Err(error) => Err(error),
    }
}

/// `pc_keyboard::Keyboard::process_keyevent`. A release decodes to nothing;
/// a press decodes to what the layout gives in the current state. The
/// modifiers change as the layout has it; the pending byte and the handling
/// of Ctrl do not change.
#[verifier::external_body]
fn keyboard_process_keyevent(
    keyboard: &mut Set1Keyboard,
    event: KeyEvent,
) -> (key: Option<DecodedKey>)
    ensures
        event.state is Up ==> key is None,
        event.state is Down ==> key == us104_step(keyboard_state(*old(keyboard)), event).0,
        keyboard_state(*final(keyboard)) == after_event(keyboard_state(*old(keyboard)), event),
{
    let state = match event.state {
        KeyState::Up => pc_keyboard::KeyState::Up,
        KeyState::Down => pc_keyboard::KeyState::Down,
    };
    match keyboard.inner.process_keyevent(pc_keyboard::KeyEvent { code: event.code, state }) {
        Some(pc_keyboard::DecodedKey::RawKey(code)) => Some(DecodedKey::RawKey(code)),
        Some(pc_keyboard::DecodedKey::Unicode(character)) => Some(DecodedKey::Unicode(character)),
        None => None,
    }
}

/// The scancode decoder: one keyboard for scancode set 1 and the US 104-key
/// layout, fed one byte at a time.
pub struct ScancodeDecoder {
    keyboard: Set1Keyboard,
}

impl View for ScancodeDecoder {
    type V = KeyboardState;

    closed spec fn view(&self) -> KeyboardState {
        keyboard_state(self.keyboard)
    }
}

impl ScancodeDecoder {
    pub fn new() -> (decoder: ScancodeDecoder)
        ensures
            decoder@ == initial_state(),
    {
        ScancodeDecoder { keyboard: keyboard_new() }
    }

    /// Takes one byte from the keyboard. Returns the event that the byte
    /// completes; nothing for the first byte of an extended sequence and
    /// nothing for a byte that the scancode set does not know.
    pub fn add_byte(&mut self, byte: u8) -> (event: Option<KeyEvent>)
        ensures
            event == event_of(old(self)@, byte),
            final(self)@ == after_byte(old(self)@, byte),
    {
        match keyboard_add_byte(&mut self.keyboard, byte) {
            Ok(event) => event,
            Err(_) => None,
        }
    }

    /// Turns an event into a decoded key. Returns nothing for a release and
    /// for a key that only changes the modifiers.
    pub fn process_keyevent(&mut self, event: KeyEvent) -> (key: Option<DecodedKey>)
        ensures
            key == decoded_of(old(self)@, event),
            final(self)@ == after_event(old(self)@, event),
    {
        keyboard_process_keyevent(&mut self.keyboard, event)
    }
}

} // verus!
