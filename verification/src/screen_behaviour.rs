//! What each operation of the writer does, stated cell by cell in terms of
//! its inputs: which bytes appear, where, in which colour, and where the
//! writing position and the cursor go.
use vstd::prelude::*;
use crate::vga_buffer::{
    cell_index, color_index, displayed_byte, displayed_bytes, Color, ColorCode, ScreenChar,
    ScreenState, BUFFER_HEIGHT, BUFFER_SIZE, BUFFER_WIDTH, NEWLINE, REPLACEMENT_BYTE,
};

verus! {

/// Whether `b` is printable ASCII (space to tilde).
pub open spec fn is_printable_ascii(b: u8) -> bool {
    0x20 <= b <= 0x7e
}

/// Printable ASCII and the newline are shown as themselves; every other byte
/// is shown as the block 0xfe.
pub proof fn lemma_displayed_byte_law(b: u8)
    ensures
        is_printable_ascii(b) ==> displayed_byte(b) == b,
        b == 0x0a ==> displayed_byte(b) == b,
        !is_printable_ascii(b) && b != 0x0a ==> displayed_byte(b) == 0xfe,
{
}

/// A text made of printable ASCII and newlines is shown byte for byte.
pub proof fn lemma_printable_text_shown_as_is(bytes: Seq<u8>)
    requires
        forall|i: int| 0 <= i < bytes.len() ==> is_printable_ascii(#[trigger] bytes[i]) || bytes[i] == 0x0a,
    ensures
        displayed_bytes(bytes) == bytes,
{
    assert(displayed_bytes(bytes) =~= bytes);
}

/// Writing a byte other than a newline: a full line wraps first (to column 0
/// of the next row, or of the same row on the last one); then the byte is
/// stored in the current colour at the writing position, which moves one
/// column on, the cursor following; no other cell changes.
pub proof fn lemma_put_byte_law(s: ScreenState, b: u8)
    requires
        s.wf(),
        b != 0x0a,
    ensures
        ({
            let t = s.put_byte(b);
            let row = if s.column < 80 {
                s.row
            } else if s.row < 24 {
                s.row + 1
            } else {
                s.row
            };
            let col = if s.column < 80 {
                s.column
            } else {
                0
            };
            &&& t.row == row
            &&& t.column == col + 1
            &&& t.color == s.color
            &&& t.cursor == row * 80 + col + 1
            &&& t.cells.len() == s.cells.len()
            &&& t.cells[row * 80 + col] == (ScreenChar { ascii_character: b, color_code: s.color })
            &&& forall|j: int|
                0 <= j < 2000 && j != row * 80 + col ==> #[trigger] t.cells[j] == s.cells[j]
        }),
{
}

/// Writing a newline: column 0 of the next row (the same row on the last
/// one); no cell, the colour and the cursor stay.
pub proof fn lemma_newline_law(s: ScreenState)
    requires
        s.wf(),
    ensures
        ({
            let t = s.put_byte(0x0a);
            &&& t.column == 0
            &&& t.row == if s.row < 24 {
                s.row + 1
            } else {
                s.row
            }
            &&& t.cells == s.cells
            &&& t.color == s.color
            &&& t.cursor == s.cursor
        }),
{
}

/// Writing printable ASCII that fits in the rest of the line stores exactly
/// those bytes, in the current colour, from the writing position on; the
/// position moves past them and no other cell changes.
pub proof fn lemma_write_printable_in_line(s: ScreenState, bytes: Seq<u8>)
    requires
        s.wf(),
        s.column + bytes.len() <= 80,
        forall|i: int| 0 <= i < bytes.len() ==> is_printable_ascii(#[trigger] bytes[i]),
    ensures
        ({
            let t = s.put_bytes(displayed_bytes(bytes));
            &&& t.row == s.row
            &&& t.column == s.column + bytes.len()
            &&& t.color == s.color
            &&& t.cells.len() == s.cells.len()
            &&& forall|i: int|
                0 <= i < bytes.len() ==> #[trigger] t.cells[s.row * 80 + s.column + i] == (ScreenChar {
                    ascii_character: bytes[i],
                    color_code: s.color,
                })
            &&& forall|j: int|
                0 <= j < 2000 && !(s.row * 80 + s.column <= j < s.row * 80 + s.column
                    + bytes.len()) ==> #[trigger] t.cells[j] == s.cells[j]
        }),
    decreases bytes.len(),
{
    lemma_printable_text_shown_as_is(bytes);
    if bytes.len() > 0 {
        let init = bytes.drop_last();
        lemma_write_printable_in_line(s, init);
        lemma_printable_text_shown_as_is(init);
        let m = s.put_bytes(init);
        crate::vga_laws::lemma_operations_keep_wf(s, 0, init, 0, 0, 0, Color::Black, s.color);
        lemma_put_byte_law(m, bytes.last());
        assert(displayed_bytes(bytes).drop_last() =~= init);
    }
}

/// Backspace at column 0 changes nothing. Elsewhere it steps one column back
/// on the same row, blanks that cell in the current colour, puts the cursor
/// there, and changes no other cell.
pub proof fn lemma_backspace_law(s: ScreenState)
    requires
        s.wf(),
    ensures
        s.column == 0 ==> s.backspaced() == s,
        s.column > 0 ==> {
            let t = s.backspaced();
            &&& t.row == s.row
            &&& t.column == s.column - 1
            &&& t.color == s.color
            &&& t.cursor == s.row * 80 + s.column - 1
            &&& t.cells.len() == s.cells.len()
            &&& t.cells[s.row * 80 + s.column - 1] == (ScreenChar {
                ascii_character: 0x20,
                color_code: s.color,
            })
            &&& forall|j: int|
                0 <= j < 2000 && j != s.row * 80 + s.column - 1 ==> #[trigger] t.cells[j]
                    == s.cells[j]
        },
{
}

/// The arrows never change a cell or the colour. Left steps one column back
/// unless at column 0, where nothing changes; right steps one column on
/// unless at column 79 or beyond, where nothing changes. A move puts the
/// cursor on the new position.
pub proof fn lemma_arrow_law(s: ScreenState)
    requires
        s.wf(),
    ensures
        s.moved_left().cells == s.cells && s.moved_left().color == s.color,
        s.moved_right().cells == s.cells && s.moved_right().color == s.color,
        s.moved_left().row == s.row && s.moved_right().row == s.row,
        s.column == 0 ==> s.moved_left() == s,
        s.column > 0 ==> s.moved_left().column == s.column - 1 && s.moved_left().cursor == s.row
            * 80 + s.column - 1,
        s.column >= 79 ==> s.moved_right() == s,
        s.column < 79 ==> s.moved_right().column == s.column + 1 && s.moved_right().cursor
            == s.row * 80 + s.column + 1,
{
}

/// The sixteen colours carry the VGA palette numbers of the hardware.
pub proof fn lemma_palette_numbers()
    ensures
        color_index(Color::Black) == 0,
        color_index(Color::Blue) == 1,
        color_index(Color::Green) == 2,
        color_index(Color::Cyan) == 3,
        color_index(Color::Red) == 4,
        color_index(Color::Magenta) == 5,
        color_index(Color::Brown) == 6,
        color_index(Color::LightGray) == 7,
        color_index(Color::DarkGray) == 8,
        color_index(Color::LightBlue) == 9,
        color_index(Color::LightGreen) == 10,
        color_index(Color::LightCyan) == 11,
        color_index(Color::LightRed) == 12,
        color_index(Color::Pink) == 13,
        color_index(Color::Yellow) == 14,
        color_index(Color::White) == 15,
{
}

/// Light green text on black is attribute byte 0x0a, light red 0x0c, yellow
/// 0x0e, light cyan on blue 0x1b: the background's palette number in the
/// high nibble and the foreground's in the low one.
pub proof fn lemma_attribute_bytes(foreground: Color, background: Color)
    ensures
        ColorCode::packed(foreground, background).byte() == color_index(background) * 16
            + color_index(foreground),
        ColorCode::packed(Color::LightGreen, Color::Black).byte() == 0x0a,
        ColorCode::packed(Color::LightRed, Color::Black).byte() == 0x0c,
        ColorCode::packed(Color::Yellow, Color::Black).byte() == 0x0e,
        ColorCode::packed(Color::LightCyan, Color::Blue).byte() == 0x1b,
{
    ColorCode::lemma_packed(foreground, background);
    ColorCode::lemma_packed(Color::LightGreen, Color::Black);
    ColorCode::lemma_packed(Color::LightRed, Color::Black);
    ColorCode::lemma_packed(Color::Yellow, Color::Black);
    ColorCode::lemma_packed(Color::LightCyan, Color::Blue);
}

} // verus!
