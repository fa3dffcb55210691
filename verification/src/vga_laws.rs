//! Properties of the screen model that hold across the writer's operations.
use vstd::prelude::*;
use vstd::string::StringSliceAdditionalSpecFns;
use vstd::utf8::{encode_scalar, encode_utf8};
use crate::vga_buffer::{
    cell_index, displayed_bytes, Color, ColorCode, ScreenChar, ScreenState, BLANK, BUFFER_SIZE,
    BUFFER_WIDTH, NEWLINE,
};

verus! {

/// Writing a byte sequence in two parts gives the state of writing it whole.
pub proof fn lemma_put_bytes_concat(s: ScreenState, a: Seq<u8>, b: Seq<u8>)
    ensures
        s.put_bytes(a + b) == s.put_bytes(a).put_bytes(b),
    decreases b.len(),
{
    if b.len() == 0 {
        assert(a + b =~= a);
    } else {
        lemma_put_bytes_concat(s, a, b.drop_last());
        assert((a + b).drop_last() =~= a + b.drop_last());
        assert((a + b).last() == b.last());
    }
}

/// Filtering the bytes of a text piece by piece is filtering them at once.
pub proof fn lemma_displayed_bytes_concat(a: Seq<u8>, b: Seq<u8>)
    ensures
        displayed_bytes(a + b) == displayed_bytes(a) + displayed_bytes(b),
{
    assert(displayed_bytes(a + b) =~= displayed_bytes(a) + displayed_bytes(b));
}

proof fn lemma_encode_utf8_concat(a: Seq<char>, b: Seq<char>)
    ensures
        encode_utf8(a + b) == encode_utf8(a) + encode_utf8(b),
    decreases a.len(),
{
    if a.len() == 0 {
        assert(a + b =~= b);
        assert(encode_utf8(a) + encode_utf8(b) =~= encode_utf8(b));
    } else {
        lemma_encode_utf8_concat(a.drop_first(), b);
        assert((a + b).drop_first() =~= a.drop_first() + b);
        assert((a + b)[0] == a[0]);
        assert(encode_utf8(a + b) =~= encode_utf8(a) + encode_utf8(b));
    }
}

/// Writing a text in two pieces, as the formatting machinery does, leaves the
/// screen exactly as writing the whole text at once.
pub proof fn lemma_write_string_in_pieces(s: ScreenState, whole: &str, first: &str, second: &str)
    requires
        whole@ == first@ + second@,
    ensures
        s.put_bytes(displayed_bytes(whole.spec_bytes())) == s.put_bytes(
            displayed_bytes(first.spec_bytes()),
        ).put_bytes(displayed_bytes(second.spec_bytes())),
{
    lemma_encode_utf8_concat(first@, second@);
    lemma_displayed_bytes_concat(first.spec_bytes(), second.spec_bytes());
    lemma_put_bytes_concat(
        s,
        displayed_bytes(first.spec_bytes()),
        displayed_bytes(second.spec_bytes()),
    );
}

/// Writing a character shows what writing the one-character text shows.
pub proof fn lemma_char_as_text(s: ScreenState, c: char, text: &str)
    requires
        text@ == seq![c],
    ensures
        s.put_bytes(displayed_bytes(encode_scalar(c as u32))) == s.put_bytes(
            displayed_bytes(text.spec_bytes()),
        ),
{
    assert(text@.drop_first() =~= Seq::<char>::empty());
    assert(text@[0] == c);
    assert(encode_utf8(text@.drop_first()) =~= Seq::<u8>::empty());
    assert(encode_utf8(text@) =~= encode_scalar(c as u32));
}

/// Every operation of the writer keeps its state well formed: the writing
/// position and the cursor stay on the screen and the screen keeps its size.
pub proof fn lemma_operations_keep_wf(
    s: ScreenState,
    b: u8,
    bytes: Seq<u8>,
    row: int,
    col_start: int,
    len: int,
    color: Color,
    code: ColorCode,
)
    requires
        s.wf(),
    ensures
        s.put_byte(b).wf(),
        s.put_bytes(bytes).wf(),
        s.backspaced().wf(),
        s.moved_left().wf(),
        s.moved_right().wf(),
        s.recolored(row, col_start, len, color).wf(),
        s.with_color(code).wf(),
    decreases bytes.len(),
{
    if bytes.len() > 0 {
        lemma_operations_keep_wf(s, b, bytes.drop_last(), row, col_start, len, color, code);
        lemma_operations_keep_wf(
            s.put_bytes(bytes.drop_last()),
            bytes.last(),
            Seq::empty(),
            row,
            col_start,
            len,
            color,
            code,
        );
    }
}

/// A backspace right after a character written inside the line takes the
/// writer back to where it stood: same position, the cursor on that cell,
/// and the cell blank in the current colour; every other cell as before.
pub proof fn lemma_backspace_after_write(s: ScreenState, b: u8)
    requires
        s.wf(),
        s.column < BUFFER_WIDTH,
        b != NEWLINE,
    ensures
        ({
            let t = s.put_byte(b).backspaced();
            &&& t.row == s.row
            &&& t.column == s.column
            &&& t.color == s.color
            &&& t.cursor == cell_index(s.row, s.column)
            &&& t.cells == s.cells.update(
                cell_index(s.row, s.column),
                ScreenChar { ascii_character: BLANK, color_code: s.color },
            )
        }),
{
    let t = s.put_byte(b).backspaced();
    assert(t.cells =~= s.cells.update(
        cell_index(s.row, s.column),
        ScreenChar { ascii_character: BLANK, color_code: s.color },
    ));
}

/// The left arrow undoes the right arrow, away from the last column.
pub proof fn lemma_left_undoes_right(s: ScreenState)
    requires
        s.wf(),
        s.column < BUFFER_WIDTH - 1,
    ensures
        s.moved_right().moved_left() == (ScreenState {
            cursor: cell_index(s.row, s.column),
            ..s
        }),
{
}

/// The right arrow undoes the left arrow, away from column 0 and from the
/// wrap position past the last column.
pub proof fn lemma_right_undoes_left(s: ScreenState)
    requires
        s.wf(),
        0 < s.column < BUFFER_WIDTH,
    ensures
        s.moved_left().moved_right() == (ScreenState {
            cursor: cell_index(s.row, s.column),
            ..s
        }),
{
}

/// Recolouring never changes a character, and changes no cell outside the
/// given span; the writing position, colour and cursor stay.
pub proof fn lemma_recolor_keeps_text(
    s: ScreenState,
    row: int,
    col_start: int,
    len: int,
    color: Color,
    i: int,
)
    requires
        s.wf(),
        0 <= i < BUFFER_SIZE,
    ensures
        ({
            let t = s.recolored(row, col_start, len, color);
            &&& t.cells[i].ascii_character == s.cells[i].ascii_character
            &&& !ScreenState::in_span(i, row, col_start, len) ==> t.cells[i] == s.cells[i]
            &&& ScreenState::in_span(i, row, col_start, len) ==> t.cells[i].color_code
                == ColorCode::packed(color, Color::Black)
            &&& t.row == s.row && t.column == s.column && t.color == s.color && t.cursor
                == s.cursor
        }),
{
}

/// The hardware cursor follows the writing position: after a character
/// (other than a newline), a backspace or an arrow key it stands on the cell
/// where the next character goes.
pub proof fn lemma_cursor_follows_writing_position(s: ScreenState, b: u8)
    requires
        s.wf(),
        b != NEWLINE,
    ensures
        s.put_byte(b).cursor == cell_index(s.put_byte(b).row, s.put_byte(b).column),
        s.column > 0 ==> s.backspaced().cursor == cell_index(
            s.backspaced().row,
            s.backspaced().column,
        ),
        s.column > 0 ==> s.moved_left().cursor == cell_index(
            s.moved_left().row,
            s.moved_left().column,
        ),
        s.column < BUFFER_WIDTH - 1 ==> s.moved_right().cursor == cell_index(
            s.moved_right().row,
            s.moved_right().column,
        ),
{
}

/// Two screen states agree on the writing position, the cursor and every
/// character, and each cell is either the same on both sides or coloured
/// `color_a` on the first and `color_b` on the second.
pub open spec fn same_text_but_colors(
    a: ScreenState,
    b: ScreenState,
    color_a: ColorCode,
    color_b: ColorCode,
) -> bool {
    &&& a.row == b.row
    &&& a.column == b.column
    &&& a.cursor == b.cursor
    &&& a.cells.len() == b.cells.len()
    &&& forall|i: int|
        0 <= i < a.cells.len() ==> {
            &&& (#[trigger] a.cells[i]).ascii_character == b.cells[i].ascii_character
            &&& (a.cells[i] == b.cells[i] || (a.cells[i].color_code == color_a
                && b.cells[i].color_code == color_b))
        }
}

proof fn lemma_same_text_put_byte(a: ScreenState, b: ScreenState, x: u8)
    requires
        a.wf(),
        b.wf(),
        same_text_but_colors(a, b, a.color, b.color),
    ensures
        same_text_but_colors(a.put_byte(x), b.put_byte(x), a.color, b.color),
        a.put_byte(x).color == a.color,
        b.put_byte(x).color == b.color,
{
    let a2 = a.put_byte(x);
    let b2 = b.put_byte(x);
    assert(a2.cells.len() == a.cells.len());
    assert(b2.cells.len() == b.cells.len());
    assert forall|i: int| 0 <= i < a2.cells.len() implies {
        &&& (#[trigger] a2.cells[i]).ascii_character == b2.cells[i].ascii_character
        &&& (a2.cells[i] == b2.cells[i] || (a2.cells[i].color_code == a.color
            && b2.cells[i].color_code == b.color))
    } by {
        assert(a.cells[i].ascii_character == b.cells[i].ascii_character);
    }
}

proof fn lemma_same_text_put_bytes(a: ScreenState, b: ScreenState, bytes: Seq<u8>)
    requires
        a.wf(),
        b.wf(),
        same_text_but_colors(a, b, a.color, b.color),
    ensures
        same_text_but_colors(a.put_bytes(bytes), b.put_bytes(bytes), a.color, b.color),
        a.put_bytes(bytes).color == a.color,
        b.put_bytes(bytes).color == b.color,
    decreases bytes.len(),
{
    if bytes.len() > 0 {
        lemma_same_text_put_bytes(a, b, bytes.drop_last());
        lemma_operations_keep_wf(a, 0, bytes.drop_last(), 0, 0, 0, Color::Black, a.color);
        lemma_operations_keep_wf(b, 0, bytes.drop_last(), 0, 0, 0, Color::Black, b.color);
        lemma_same_text_put_byte(
            a.put_bytes(bytes.drop_last()),
            b.put_bytes(bytes.drop_last()),
            bytes.last(),
        );
    }
}

/// Printing in a colour and printing plainly from the same state end alike
/// but for colours: same writing position, cursor and colour afterwards, the
/// same character in every cell, and every cell either the same or, where
/// the text was written, `foreground` over black on the coloured side and
/// the writer's own colour on the plain side.
pub proof fn lemma_colored_print_changes_only_colors(
    s: ScreenState,
    foreground: Color,
    bytes: Seq<u8>,
)
    requires
        s.wf(),
    ensures
        ({
            let colored = s.with_color(ColorCode::packed(foreground, Color::Black)).put_bytes(
                bytes,
            ).with_color(s.color);
            let plain = s.put_bytes(bytes);
            &&& colored.color == plain.color
            &&& same_text_but_colors(
                colored,
                plain,
                ColorCode::packed(foreground, Color::Black),
                s.color,
            )
        }),
{
    let start = s.with_color(ColorCode::packed(foreground, Color::Black));
    lemma_same_text_put_bytes(start, s, bytes);
}

/// Recolouring a span that has no cell on the screen (a row off the screen,
/// a start past the last column, or no length) leaves the state unchanged.
pub proof fn lemma_recolor_off_screen_is_identity(
    s: ScreenState,
    row: int,
    col_start: int,
    len: int,
    color: Color,
)
    requires
        s.cells.len() == BUFFER_SIZE,
        row < 0 || row >= 25 || col_start >= BUFFER_WIDTH || len <= 0,
    ensures
        s.recolored(row, col_start, len, color) == s,
{
    assert(s.recolored(row, col_start, len, color).cells =~= s.cells);
}

} // verus!
