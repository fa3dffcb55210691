//! What a decoded key does to the console and what the decoder does with a
//! scancode, stated in terms of the keys, the scancode and the decoder's
//! answers.
use vstd::prelude::*;
use vstd::utf8::encode_scalar;
use crate::interrupts::{decode_step, decoded_key, key_effect, scancode_event, KeyInput};
use crate::screen_behaviour::{is_printable_ascii, lemma_displayed_byte_law, lemma_put_byte_law};
use crate::vga_buffer::{displayed_bytes, ScreenChar, ScreenState};

verus! {

/// Every character key other than backspace (U+0008) has the effect of
/// writing that character's UTF-8 encoding.
pub proof fn lemma_character_key_writes_it(s: ScreenState, c: char)
    requires
        c != '\u{8}',
    ensures
        key_effect(s, KeyInput::Unicode(c)) == s.put_bytes(displayed_bytes(encode_scalar(c as u32))),
{
}

/// A printable ASCII key (space included) stores its character at the
/// writing position in the current colour and moves the position one
/// column on.
pub proof fn lemma_printable_key_advances(s: ScreenState, c: char)
    requires
        s.wf(),
        s.column < 80,
        0x20 <= c as u32 <= 0x7e,
    ensures
        ({
            let t = key_effect(s, KeyInput::Unicode(c));
            &&& t.row == s.row
            &&& t.column == s.column + 1
            &&& t.cells[s.row * 80 + s.column] == (ScreenChar {
                ascii_character: c as u8,
                color_code: s.color,
            })
        }),
{
    let v = c as u32;
    let b = v as u8;
    assert(((v & 0x7F) as u8) == b) by (bit_vector)
        requires
            v <= 0x7e,
            b == v as u8,
    ;
    assert(encode_scalar(v) =~= seq![b]);
    lemma_displayed_byte_law(b);
    assert(is_printable_ascii(b));
    let shown = displayed_bytes(encode_scalar(v));
    assert(shown =~= seq![b]);
    assert(shown.drop_last() =~= Seq::<u8>::empty());
    assert(shown.last() == b);
    assert(s.put_bytes(Seq::<u8>::empty()) == s);
    assert(s.put_bytes(shown) == s.put_byte(b));
    assert(c != '\u{8}') by {
        assert(('\u{8}' as u32) == 8);
    }
    assert(key_effect(s, KeyInput::Unicode(c)) == s.put_byte(b));
    assert(b != 0x0a);
    lemma_put_byte_law(s, b);
}

/// The backspace key (U+0008) is a backspace.
pub proof fn lemma_backspace_key(s: ScreenState)
    ensures
        key_effect(s, KeyInput::Unicode('\u{8}')) == s.backspaced(),
{
}

/// The left arrow (key code 101) moves left, the right arrow (key code 103)
/// moves right, and any other key without a character leaves the console
/// as it is.
pub proof fn lemma_raw_keys(s: ScreenState, code: u8)
    ensures
        key_effect(s, KeyInput::RawKey(101)) == s.moved_left(),
        key_effect(s, KeyInput::RawKey(103)) == s.moved_right(),
        code != 101 && code != 103 ==> key_effect(s, KeyInput::RawKey(code)) == s,
{
}

/// For one scancode the decoder is fed the byte once, and a second time when
/// the first offer completes an event. Every event that the second offer
/// completes, whatever its key state (releases included), is processed, and
/// the key it decodes to is the result; otherwise nothing is processed and
/// no key results.
pub proof fn lemma_decode_law(fed: Seq<u8>, events: Seq<(u8, u8)>, scancode: u8)
    ensures
        ({
            let once = fed.push(scancode);
            let twice = once.push(scancode);
            let r = decode_step(fed, events, scancode);
            &&& scancode_event(once) is None ==> r == (once, events, None::<KeyInput>)
            &&& scancode_event(once) is Some ==> r.0 == twice
            &&& scancode_event(once) is Some && scancode_event(twice) is None ==> r.1 == events
                && r.2 is None
            &&& scancode_event(once) is Some && scancode_event(twice) is Some ==> {
                &&& r.1 == events.push(scancode_event(twice)->0)
                &&& r.2 == decoded_key(events.push(scancode_event(twice)->0))
            }
        }),
{
}

} // verus!
