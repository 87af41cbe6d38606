use vstd::prelude::*;
use pc_keyboard::layouts::Us104Key;
use pc_keyboard::{DecodedKey, HandleControl, KeyEvent, Keyboard, ScancodeSet1};

verus! {

/// `pc_keyboard::ScancodeSet1`, carried through opaque.
#[verifier::external_type_specification]
#[verifier::external_body]
pub struct ExScancodeSet1(ScancodeSet1);

/// `pc_keyboard::KeyEvent`, carried through opaque.
#[verifier::external_type_specification]
#[verifier::external_body]
pub struct ExKeyEvent(KeyEvent);

/// `pc_keyboard::Error`, carried through opaque.
#[verifier::external_type_specification]
#[verifier::external_body]
pub struct ExKeyboardError(pc_keyboard::Error);

/// A decoded key press: a character, or the code (`pc_keyboard::KeyCode`
/// as a number) of a key that has none.
#[derive(Debug, Clone, Copy, PartialEq, Eq, Structural)]
pub enum Key {
    Unicode(char),
    RawKey(u8),
}

/// A US 104-key PS/2 keyboard that speaks scancode set 1, with Ctrl
/// combinations left as letters: the decoder state that spans several
/// bytes (extended codes, held modifiers).
#[verifier::external_body]
pub struct Ps2Keyboard {
    keyboard: Keyboard<Us104Key, ScancodeSet1>,
}

/// The scancode bytes fed to a keyboard decoder since it was made.
pub uninterp spec fn fed_bytes(k: Ps2Keyboard) -> Seq<u8>;

/// Whether the last byte fed completed a key event that has not been
/// turned into a key press yet.
pub uninterp spec fn pending_event(k: Ps2Keyboard) -> bool;

/// Whether the last byte of `bytes` completes a key event, for a set-1
/// decoder fed `bytes` from its start state.
pub uninterp spec fn completes_event(bytes: Seq<u8>) -> bool;

/// The key event that the last byte of `bytes` completes.
pub uninterp spec fn event_of(bytes: Seq<u8>) -> KeyEvent;

/// The key press that the event completed by the last byte of `bytes`
/// decodes to, when every earlier event was decoded in turn (so the
/// modifier state follows the whole history).
pub uninterp spec fn key_of(bytes: Seq<u8>) -> Option<Key>;

/// Relies on `pc_keyboard::ScancodeSet1::new`: a set-1 decoder in its start state.
#[verifier::external_body]
fn new_scancode_set() -> ScancodeSet1 {
    ScancodeSet1::new()
}

/// Relies on `pc_keyboard::Keyboard::new`: a fresh US 104-key keyboard with
/// Ctrl combinations left as letters; nothing fed, nothing pending.
#[verifier::external_body]
fn new_keyboard(scancode_set: ScancodeSet1) -> (r: Ps2Keyboard)
    ensures
        fed_bytes(r) == Seq::<u8>::empty(),
        !pending_event(r),
{
    Ps2Keyboard { keyboard: Keyboard::new(scancode_set, Us104Key, HandleControl::Ignore) }
}

/// Relies on `pc_keyboard::Keyboard::add_byte`: feeds one scancode byte to
/// the set-1 state machine, whose state depends on the bytes alone. It
/// reports a key event exactly when the byte completes one.
#[verifier::external_body]
fn add_byte(k: &mut Ps2Keyboard, byte: u8) -> (r: Result<Option<KeyEvent>, pc_keyboard::Error>)
    requires
        !pending_event(*old(k)),
    ensures
        fed_bytes(*final(k)) == fed_bytes(*old(k)).push(byte),
        (r matches Ok(Some(_))) == completes_event(fed_bytes(*final(k))),
        r matches Ok(Some(e)) ==> e == event_of(fed_bytes(*final(k))),
        pending_event(*final(k)) == completes_event(fed_bytes(*final(k))),
{
    k.keyboard.add_byte(byte)
}

/// Relies on `pc_keyboard::Keyboard::process_keyevent`: turns the pending
/// key event into a key press under the modifier state, if it is one.
#[verifier::external_body]
fn process_keyevent(k: &mut Ps2Keyboard, event: KeyEvent) -> (r: Option<Key>)
    requires
        pending_event(*old(k)),
        event == event_of(fed_bytes(*old(k))),
    ensures
        fed_bytes(*final(k)) == fed_bytes(*old(k)),
        !pending_event(*final(k)),
        r == key_of(fed_bytes(*old(k))),
{
    match k.keyboard.process_keyevent(event) {
        Some(DecodedKey::Unicode(c)) => Some(Key::Unicode(c)),
        Some(DecodedKey::RawKey(code)) => Some(Key::RawKey(code as u8)),
        None => None,
    }
}

/// Turns the PS/2 keyboard's scancodes into key presses, one byte at a time.
pub struct KeyDecoder {
    keyboard: Ps2Keyboard,
}

impl KeyDecoder {
    /// The scancodes fed so far.
    pub closed spec fn fed(&self) -> Seq<u8> {
        fed_bytes(self.keyboard)
    }

    /// Every completed key event has been decoded.
    pub closed spec fn wf(&self) -> bool {
        !pending_event(self.keyboard)
    }

    /// A decoder with nothing fed.
    pub fn new() -> (s: Self)
        ensures
            s.wf(),
            s.fed() == Seq::<u8>::empty(),
    {
        KeyDecoder { keyboard: new_keyboard(new_scancode_set()) }
    }
}

/// The key event that a decoder step completed, if any: a byte that
/// completes no event, or that the decoder rejects, is dropped.
pub fn completed_event(step: Result<Option<KeyEvent>, pc_keyboard::Error>) -> (r: Option<KeyEvent>)
    ensures
        step matches Ok(Some(event)) ==> r == Some(event),
        !(step matches Ok(Some(_))) ==> r is None,
{
    match step {
        Ok(Some(event)) => Some(event),
        _ => None,
    }
}

/// Feeds one scancode to the decoder. A byte that does not complete a key
/// event is dropped (`None`); one that does gives the key press that event
/// decodes to, if it is one.
pub fn get_key(decoder: &mut KeyDecoder, scancode: u8) -> (r: Option<Key>)
    requires
        old(decoder).wf(),
    ensures
        final(decoder).wf(),
        final(decoder).fed() == old(decoder).fed().push(scancode),
        !completes_event(final(decoder).fed()) ==> r is None,
        completes_event(final(decoder).fed()) ==> r == key_of(final(decoder).fed()),
{
    match completed_event(add_byte(&mut decoder.keyboard, scancode)) {
        Some(event) => process_keyevent(&mut decoder.keyboard, event),
        None => None,
    }
}

/// What a typed character does to the console line.
#[derive(Debug, Clone, Copy, PartialEq, Eq, Structural)]
pub enum KeyAction {
    /// Enter: run the line.
    Submit,
    /// Backspace: remove the last character.
    Erase,
    /// Any other character: add it to the line and show it.
    Insert(char),
}

/// What a typed character does: Enter submits the line, backspace erases,
/// anything else is inserted.
pub fn key_action(c: char) -> (r: KeyAction)
    ensures
        c == '\n' ==> r == KeyAction::Submit,
        c == '\u{8}' ==> r == KeyAction::Erase,
        c != '\n' && c != '\u{8}' ==> r == KeyAction::Insert(c),
{
    if c == '\n' {
        KeyAction::Submit
    } else if c == '\u{8}' {
        KeyAction::Erase
    } else {
        KeyAction::Insert(c)
    }
}

} // verus!
