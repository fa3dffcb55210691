//! The decisions of the interrupt handlers: which vectors the hardware lines
//! use, what a timer tick paints, and what a decoded key does to the screen.
use vstd::prelude::*;
use vstd::utf8::encode_scalar;
use pc_keyboard::layouts::Us104Key;
use pc_keyboard::{DecodedKey, HandleControl, KeyCode, KeyEvent, KeyState, Keyboard, ScancodeSet1};
use crate::vga_buffer::{
    color_of_index, displayed_bytes, rgb_heimdall_effect, Color, ScreenState, Writer,
    HEIMDALL_COLUMN, HEIMDALL_LEN, HEIMDALL_ROW,
};

verus! {

/// First interrupt vector of the master PIC, just above the CPU exceptions.
pub const PIC_1_OFFSET: u8 = 32;

/// First interrupt vector of the slave PIC, right after the master's eight.
pub const PIC_2_OFFSET: u8 = PIC_1_OFFSET + 8;

/// The value the timer's colour counter starts from; the first tick thus
/// paints palette index 2 (green).
pub const FIRST_COLOR_TICK: u8 = 1;

/// The hardware interrupt lines the kernel serves, wired to the master PIC.
#[derive(Debug, Clone, Copy, PartialEq, Eq, Structural)]
pub enum InterruptIndex {
    Timer,
    Keyboard,
}

impl InterruptIndex {
    /// The interrupt vector of this line: IRQ 0 (timer) and IRQ 1 (keyboard)
    /// of the master PIC.
    pub open spec fn vector(self) -> u8 {
        match self {
            InterruptIndex::Timer => PIC_1_OFFSET,
            InterruptIndex::Keyboard => (PIC_1_OFFSET + 1) as u8,
        }
    }

    /// The interrupt vector of this line.
    pub fn as_u8(self) -> (r: u8)
        ensures
            r == self.vector(),
    {
        match self {
            InterruptIndex::Timer => PIC_1_OFFSET,
            InterruptIndex::Keyboard => PIC_1_OFFSET + 1,
        }
    }
}

/// The timer is vector 32 and the keyboard vector 33 (IRQ 0 and IRQ 1 of
/// the master PIC). Each line has its own vector, and every vector lies in
/// the master PIC's range, so end-of-interrupt goes to the master only.
pub proof fn lemma_interrupt_vectors(a: InterruptIndex, b: InterruptIndex)
    ensures
        InterruptIndex::Timer.vector() == 32,
        InterruptIndex::Keyboard.vector() == 33,
        PIC_1_OFFSET <= a.vector() < PIC_2_OFFSET,
        a.vector() == b.vector() ==> a == b,
{
}

/// The palette index that the timer tick numbered `tick` paints with: it
/// cycles through 1 (blue) to 15 (white) and skips black.
pub fn timer_color(tick: u8) -> (r: u8)
    ensures
        r == tick % 15 + 1,
        1 <= r <= 15,
{
    (tick % 15) + 1
}

/// A timer tick never paints the name black, whatever the counter holds.
pub proof fn lemma_timer_never_black(tick: u8)
    ensures
        color_of_index((tick % 15 + 1) as u8) != Color::Black,
{
}

/// The work of a timer tick on the screen: the kernel's name in the banner
/// takes the colour of tick number `tick`.
pub fn on_timer_tick(writer: &mut Writer, tick: u8)
    ensures
        old(writer).wf() ==> final(writer).wf(),
        final(writer)@ == old(writer)@.recolored(
            HEIMDALL_ROW as int,
            HEIMDALL_COLUMN as int,
            HEIMDALL_LEN as int,
            color_of_index((tick % 15 + 1) as u8),
        ),
{
    let color = timer_color(tick);
    rgb_heimdall_effect(writer, color);
}

/// The backspace character, as the keyboard layout decodes the key.
pub const BACKSPACE: char = '\u{8}';

/// `pc_keyboard`'s representation of `KeyCode::ArrowLeft` (`KeyCode` is
/// `#[repr(u8)]` and numbers its variants from 0 in declaration order).
pub const ARROW_LEFT_CODE: u8 = 101;

/// `pc_keyboard`'s representation of `KeyCode::ArrowRight`.
pub const ARROW_RIGHT_CODE: u8 = 103;

/// A key as the keyboard decoder hands it out: a character, or the `u8`
/// representation of a key code that has no character.
#[derive(Debug, Clone, Copy, PartialEq, Eq, Structural)]
pub enum KeyInput {
    Unicode(char),
    RawKey(u8),
}

/// What a key does to the screen: backspace erases, any other character is
/// printed, the left and right arrows move along the line, every other key
/// without a character does nothing.
pub open spec fn key_effect(s: ScreenState, key: KeyInput) -> ScreenState {
    match key {
        KeyInput::Unicode(c) => if c == BACKSPACE {
            s.backspaced()
        } else {
            s.put_bytes(displayed_bytes(encode_scalar(c as u32)))
        },
        KeyInput::RawKey(code) => if code == ARROW_LEFT_CODE {
            s.moved_left()
        } else if code == ARROW_RIGHT_CODE {
            s.moved_right()
        } else {
            s
        },
    }
}

/// Applies a decoded key to the console.
pub fn apply_key(writer: &mut Writer, key: KeyInput)
    requires
        old(writer).wf(),
    ensures
        final(writer).wf(),
        final(writer)@ == key_effect(old(writer)@, key),
{
    match key {
        KeyInput::Unicode(character) => {
            if character == BACKSPACE {
                writer.backspace();
            } else {
                writer.write_char(character);
            }
        },
        KeyInput::RawKey(code) => {
            if code == arrow_left_code() {
                writer.move_cursor_left();
            } else if code == arrow_right_code() {
                writer.move_cursor_right();
            }
        },
    }
}

/// Converts `KeyCode::ArrowLeft` to its `u8` representation, which the
/// crate's source fixes at the variant's position in `KeyCode` (101).
#[verifier::external_body]
fn arrow_left_code() -> (r: u8)
    ensures
        r == ARROW_LEFT_CODE,
{
    KeyCode::ArrowLeft as u8
}

/// Converts `KeyCode::ArrowRight` to its `u8` representation, which the
/// crate's source fixes at the variant's position in `KeyCode` (103).
#[verifier::external_body]
fn arrow_right_code() -> (r: u8)
    ensures
        r == ARROW_RIGHT_CODE,
{
    KeyCode::ArrowRight as u8
}

/// How a key state is written as a plain value: a release.
pub const KEY_STATE_UP: u8 = 0;

/// How a key state is written as a plain value: a press.
pub const KEY_STATE_DOWN: u8 = 1;

/// How a key state is written as a plain value: a press and release at once.
pub const KEY_STATE_SINGLE_SHOT: u8 = 2;

/// What `Keyboard::add_byte` hands back, with the error read as `None`, when
/// the scancode bytes `fed` have been given, in this order, to a decoder
/// fresh from `KeyDecoder::new`: the event that the last byte completes, as
/// the `u8` representation of its key code and its key state (`KEY_STATE_*`).
pub uninterp spec fn scancode_event(fed: Seq<u8>) -> Option<(u8, u8)>;

/// What `Keyboard::process_keyevent` hands back, as a `KeyInput`, when the
/// key events `events` (written as by `scancode_event`) have been processed,
/// in this order, by a decoder fresh from `KeyDecoder::new`: the key that the
/// last event decodes to.
pub uninterp spec fn decoded_key(events: Seq<(u8, u8)>) -> Option<KeyInput>;

/// `pc_keyboard`'s `Keyboard` for scancode set 1 and the US 104-key layout,
/// with Ctrl passed through; its state is held opaque.
#[verifier::external_body]
pub struct Ps2Keyboard {
    keyboard: Keyboard<Us104Key, ScancodeSet1>,
}

#[verifier::external_type_specification]
#[verifier::external_body]
pub struct ExKeyEvent(KeyEvent);

/// The console's keyboard decoder, with the scancode bytes it has been fed
/// and the key events it has processed since it was made.
pub struct KeyDecoder {
    keyboard: Ps2Keyboard,
    fed: Ghost<Seq<u8>>,
    events: Ghost<Seq<(u8, u8)>>,
}

/// A key event that `Keyboard::add_byte` completed, with its key code and
/// key state written as plain values; only `keyboard_add_byte` makes one.
struct KeyEventRecord {
    event: KeyEvent,
    code: u8,
    state: u8,
}

impl KeyEventRecord {
    closed spec fn plain(self) -> (u8, u8) {
        (self.code, self.state)
    }
}

spec fn record_plain(r: Option<KeyEventRecord>) -> Option<(u8, u8)> {
    match r {
        Some(record) => Some(record.plain()),
        None => None,
    }
}

/// Calls `Keyboard::new` with `ScancodeSet1::new()`, the `Us104Key` layout
/// and `HandleControl::Ignore`.
#[verifier::external_body]
fn new_ps2_keyboard() -> Ps2Keyboard {
    Ps2Keyboard { keyboard: Keyboard::new(ScancodeSet1::new(), Us104Key, HandleControl::Ignore) }
}

impl KeyDecoder {
    /// The scancode bytes fed to the decoder since it was made, in order.
    pub closed spec fn fed(&self) -> Seq<u8> {
        self.fed@
    }

    /// The key events the decoder has processed since it was made, in order.
    pub closed spec fn events(&self) -> Seq<(u8, u8)> {
        self.events@
    }

    /// A decoder in its start state: nothing fed, nothing processed.
    pub fn new() -> (r: KeyDecoder)
        ensures
            r.fed() == Seq::<u8>::empty(),
            r.events() == Seq::<(u8, u8)>::empty(),
    {
        KeyDecoder { keyboard: new_ps2_keyboard(), fed: Ghost(Seq::empty()), events: Ghost(Seq::empty()) }
    }
}

/// Calls `Keyboard::add_byte`, which feeds one scancode byte to the
/// scancode-set decoder, and hands back the event it completes with its key
/// code and state written as plain values; `None` when the byte only
/// advanced the decoder or the crate reported an error. The byte joins the
/// fed bytes, and what comes back is the name `scancode_event` of them.
#[verifier::external_body]
fn keyboard_add_byte(decoder: &mut KeyDecoder, scancode: u8) -> (r: Option<KeyEventRecord>)
    ensures
        final(decoder).fed() == old(decoder).fed().push(scancode),
        final(decoder).events() == old(decoder).events(),
        record_plain(r) == scancode_event(final(decoder).fed()),
{
    match decoder.keyboard.keyboard.add_byte(scancode) {
        Ok(Some(event)) => {
            let state = match event.state {
                KeyState::Up => KEY_STATE_UP,
                KeyState::Down => KEY_STATE_DOWN,
                KeyState::SingleShot => KEY_STATE_SINGLE_SHOT,
            };
            Some(KeyEventRecord { code: event.code as u8, state, event })
        },
        Ok(None) | Err(_) => None,
    }
}

/// Calls `Keyboard::process_keyevent`, which updates the modifier state and
/// decodes the event under the US layout; the decoded key is handed back as
/// its character or as the `u8` representation of its key code. The event
/// joins the processed events, and what comes back is the name `decoded_key`
/// of them. As the crate's source shows, only a press decodes to a key.
#[verifier::external_body]
fn keyboard_process_keyevent(decoder: &mut KeyDecoder, record: KeyEventRecord) -> (r: Option<KeyInput>)
    ensures
        final(decoder).events() == old(decoder).events().push(record.plain()),
        final(decoder).fed() == old(decoder).fed(),
        r == decoded_key(final(decoder).events()),
        record.plain().1 != KEY_STATE_DOWN ==> r is None,
{
    match decoder.keyboard.keyboard.process_keyevent(record.event) {
        Some(DecodedKey::Unicode(character)) => Some(KeyInput::Unicode(character)),
        Some(DecodedKey::RawKey(code)) => Some(KeyInput::RawKey(code as u8)),
        None => None,
    }
}

/// The decoder's work for one scancode: the fed bytes and processed events
/// afterwards, and the key decoded. The byte is fed once; if that completes
/// an event it is fed a second time, and the event that second offer
/// completes, if any, is processed and decoded.
pub open spec fn decode_step(fed: Seq<u8>, events: Seq<(u8, u8)>, scancode: u8) -> (
    Seq<u8>,
    Seq<(u8, u8)>,
    Option<KeyInput>,
) {
    let once = fed.push(scancode);
    if scancode_event(once) is None {
        (once, events, None)
    } else {
        let twice = once.push(scancode);
        match scancode_event(twice) {
            None => (twice, events, None),
            Some(event) => (twice, events.push(event), decoded_key(events.push(event))),
        }
    }
}

/// The decoder's work for one scancode read from the controller (see
/// `decode_step`). A key comes back only from a completed press.
pub fn decode_scancode(keyboard: &mut KeyDecoder, scancode: u8) -> (r: Option<KeyInput>)
    ensures
        (final(keyboard).fed(), final(keyboard).events(), r) == decode_step(
            old(keyboard).fed(),
            old(keyboard).events(),
            scancode,
        ),
        r is Some ==> final(keyboard).events().last().1 == KEY_STATE_DOWN,
{
    if let Some(_first) = keyboard_add_byte(keyboard, scancode) {
        if let Some(event) = keyboard_add_byte(keyboard, scancode) {
            return keyboard_process_keyevent(keyboard, event);
        }
    }
    None
}

/// The work of a keyboard interrupt on the decoder and the console, given
/// the scancode read from the controller: the key that `decode_scancode`
/// yields is applied; when it yields none (a byte that completes no event,
/// a release) the console stays as it was.
pub fn handle_scancode(
    keyboard: &mut KeyDecoder,
    writer: &mut Writer,
    scancode: u8,
)
    requires
        old(writer).wf(),
    ensures
        final(writer).wf(),
        (final(keyboard).fed(), final(keyboard).events()) == (
            decode_step(old(keyboard).fed(), old(keyboard).events(), scancode).0,
            decode_step(old(keyboard).fed(), old(keyboard).events(), scancode).1,
        ),
        final(writer)@ == match decode_step(
            old(keyboard).fed(),
            old(keyboard).events(),
            scancode,
        ).2 {
            Some(key) => key_effect(old(writer)@, key),
            None => old(writer)@,
        },
        final(keyboard).events().len() > old(keyboard).events().len()
            && final(keyboard).events().last().1 != KEY_STATE_DOWN ==> final(writer)@ == old(
            writer,
        )@,
{
    if let Some(key) = decode_scancode(keyboard, scancode) {
        apply_key(writer, key);
    }
}

} // verus!
