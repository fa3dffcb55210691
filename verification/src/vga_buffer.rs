use vstd::prelude::*;
use vstd::string::StringSliceAdditionalSpecFns;
use vstd::utf8::encode_scalar;

verus! {

/// The sixteen colours of the VGA text mode palette.
#[derive(Debug, Clone, Copy, PartialEq, Eq, Structural)]
pub enum Color {
    Black,
    Blue,
    Green,
    Cyan,
    Red,
    Magenta,
    Brown,
    LightGray,
    DarkGray,
    LightBlue,
    LightGreen,
    LightCyan,
    LightRed,
    Pink,
    Yellow,
    White,
}

/// The palette index of a colour, as the VGA hardware reads it.
pub open spec fn color_index(c: Color) -> u8 {
    match c {
        Color::Black => 0,
        Color::Blue => 1,
        Color::Green => 2,
        Color::Cyan => 3,
        Color::Red => 4,
        Color::Magenta => 5,
        Color::Brown => 6,
        Color::LightGray => 7,
        Color::DarkGray => 8,
        Color::LightBlue => 9,
        Color::LightGreen => 10,
        Color::LightCyan => 11,
        Color::LightRed => 12,
        Color::Pink => 13,
        Color::Yellow => 14,
        Color::White => 15,
    }
}

/// The colour with palette index `v`; meaningful for `v < 16`.
pub open spec fn color_of_index(v: u8) -> Color {
    if v == 0 {
        Color::Black
    } else if v == 1 {
        Color::Blue
    } else if v == 2 {
        Color::Green
    } else if v == 3 {
        Color::Cyan
    } else if v == 4 {
        Color::Red
    } else if v == 5 {
        Color::Magenta
    } else if v == 6 {
        Color::Brown
    } else if v == 7 {
        Color::LightGray
    } else if v == 8 {
        Color::DarkGray
    } else if v == 9 {
        Color::LightBlue
    } else if v == 10 {
        Color::LightGreen
    } else if v == 11 {
        Color::LightCyan
    } else if v == 12 {
        Color::LightRed
    } else if v == 13 {
        Color::Pink
    } else if v == 14 {
        Color::Yellow
    } else {
        Color::White
    }
}

/// Palette indices and colours are in one-to-one correspondence.
pub proof fn lemma_color_index_bijective(c: Color, v: u8)
    requires
        v < 16,
    ensures
        color_index(c) < 16,
        color_of_index(color_index(c)) == c,
        color_index(color_of_index(v)) == v,
{
}

impl Color {
    /// The palette index of this colour (its one-byte representation).
    pub fn as_u8(self) -> (r: u8)
        ensures
            r == color_index(self),
            r < 16,
    {
        match self {
            Color::Black => 0,
            Color::Blue => 1,
            Color::Green => 2,
            Color::Cyan => 3,
            Color::Red => 4,
            Color::Magenta => 5,
            Color::Brown => 6,
            Color::LightGray => 7,
            Color::DarkGray => 8,
            Color::LightBlue => 9,
            Color::LightGreen => 10,
            Color::LightCyan => 11,
            Color::LightRed => 12,
            Color::Pink => 13,
            Color::Yellow => 14,
            Color::White => 15,
        }
    }

    /// The colour whose palette index is `v`, if `v` names one.
    pub fn from_u8(v: u8) -> (r: Option<Color>)
        ensures
            r is Some <==> v < 16,
            v < 16 ==> r == Some(color_of_index(v)),
    {
        match v {
            0 => Some(Color::Black),
            1 => Some(Color::Blue),
            2 => Some(Color::Green),
            3 => Some(Color::Cyan),
            4 => Some(Color::Red),
            5 => Some(Color::Magenta),
            6 => Some(Color::Brown),
            7 => Some(Color::LightGray),
            8 => Some(Color::DarkGray),
            9 => Some(Color::LightBlue),
            10 => Some(Color::LightGreen),
            11 => Some(Color::LightCyan),
            12 => Some(Color::LightRed),
            13 => Some(Color::Pink),
            14 => Some(Color::Yellow),
            15 => Some(Color::White),
            _ => None,
        }
    }
}

/// A VGA attribute byte: the background colour in the high nibble and the
/// foreground colour in the low nibble.
#[derive(Debug, Clone, Copy, PartialEq, Eq, Structural)]
pub struct ColorCode(u8);

impl ColorCode {
    /// The attribute byte itself.
    pub closed spec fn byte(self) -> u8 {
        self.0
    }

    /// The colour of the glyph, read from the low nibble.
    pub open spec fn foreground(self) -> Color {
        color_of_index(self.byte() % 16)
    }

    /// The colour behind the glyph, read from the high nibble.
    pub open spec fn background(self) -> Color {
        color_of_index(self.byte() / 16)
    }

    /// The code that packs `foreground` over `background`.
    pub closed spec fn packed(foreground: Color, background: Color) -> ColorCode {
        ColorCode((color_index(background) * 16 + color_index(foreground)) as u8)
    }

    /// What a packed code holds: the background index in the high nibble,
    /// the foreground index in the low one, and both colours read back.
    pub proof fn lemma_packed(foreground: Color, background: Color)
        ensures
            ColorCode::packed(foreground, background).byte() == color_index(background) * 16
                + color_index(foreground),
            ColorCode::packed(foreground, background).foreground() == foreground,
            ColorCode::packed(foreground, background).background() == background,
    {
    }

    /// Two codes with the same attribute byte are the same code.
    pub proof fn lemma_byte_determines(self, other: ColorCode)
        requires
            self.byte() == other.byte(),
        ensures
            self == other,
    {
    }

    /// Packs a foreground and a background colour into one attribute byte.
    pub fn new(foreground: Color, background: Color) -> (r: ColorCode)
        ensures
            r == ColorCode::packed(foreground, background),
            r.byte() == color_index(background) * 16 + color_index(foreground),
            r.foreground() == foreground,
            r.background() == background,
    {
        let f = foreground.as_u8();
        let b = background.as_u8();
        let packed: u8 = (b << 4) | f;
        assert(packed == b * 16 + f) by (bit_vector)
            requires
                f < 16,
                b < 16,
                packed == (b << 4) | f,
        ;
        ColorCode(packed)
    }

    /// The attribute byte that this code stands for.
    pub fn as_u8(self) -> (r: u8)
        ensures
            r == self.byte(),
    {
        self.0
    }
}


/// Number of text rows on the VGA screen.
pub const BUFFER_HEIGHT: usize = 25;

/// Number of text columns on the VGA screen.
pub const BUFFER_WIDTH: usize = 80;

/// Number of character cells on the VGA screen.
pub const BUFFER_SIZE: usize = BUFFER_HEIGHT * BUFFER_WIDTH;

/// The line-feed byte, which starts a new line.
pub const NEWLINE: u8 = 0x0a;

/// The space byte, which backspace leaves behind.
pub const BLANK: u8 = 0x20;

/// The byte shown in place of a byte that is not printable ASCII (a block).
pub const REPLACEMENT_BYTE: u8 = 0xfe;

/// One character cell as the VGA hardware lays it out: the code page 437 byte
/// and its attribute byte.
#[derive(Debug, Clone, Copy, PartialEq, Eq, Structural)]
pub struct ScreenChar {
    pub ascii_character: u8,
    pub color_code: ColorCode,
}

/// Index of the cell at `row`, `col` in the row-major screen.
pub open spec fn cell_index(row: int, col: int) -> int {
    row * BUFFER_WIDTH + col
}

/// The byte that `write_string` puts on screen for a byte of text: printable
/// ASCII and the newline go through, anything else becomes a block.
pub open spec fn displayed_byte(b: u8) -> u8 {
    if (0x20 <= b && b <= 0x7e) || b == NEWLINE {
        b
    } else {
        REPLACEMENT_BYTE
    }
}

/// The bytes that `write_string` puts on screen for a text's bytes.
pub open spec fn displayed_bytes(bytes: Seq<u8>) -> Seq<u8> {
    bytes.map_values(|b: u8| displayed_byte(b))
}

/// The contents of the VGA text screen, cell by cell in row-major order.
pub struct Buffer {
    chars: [ScreenChar; BUFFER_SIZE],
}

impl View for Buffer {
    type V = Seq<ScreenChar>;

    closed spec fn view(&self) -> Seq<ScreenChar> {
        self.chars@
    }
}

impl Buffer {
    /// A buffer holds exactly one cell per screen position.
    pub open spec fn wf(&self) -> bool {
        self@.len() == BUFFER_SIZE
    }

    /// Every buffer holds exactly one cell per screen position.
    pub proof fn lemma_wf(&self)
        ensures
            self.wf(),
    {
    }

    /// A buffer with the given cells, in row-major order.
    pub fn from_cells(cells: [ScreenChar; BUFFER_SIZE]) -> (r: Buffer)
        ensures
            r@ == cells@,
            r.wf(),
    {
        Buffer { chars: cells }
    }

    /// The cell at `row`, `col`.
    pub fn read(&self, row: usize, col: usize) -> (c: ScreenChar)
        requires
            row < BUFFER_HEIGHT,
            col < BUFFER_WIDTH,
        ensures
            c == self@[cell_index(row as int, col as int)],
    {
        self.chars[row * BUFFER_WIDTH + col]
    }

    fn write(&mut self, row: usize, col: usize, c: ScreenChar)
        requires
            row < BUFFER_HEIGHT,
            col < BUFFER_WIDTH,
        ensures
            final(self)@ == old(self)@.update(cell_index(row as int, col as int), c),
            final(self).wf(),
    {
        self.chars[row * BUFFER_WIDTH + col] = c;
    }
}

/// The abstract state of a writer: where the next character goes, in which
/// colour, what the screen shows, and where the hardware cursor stands.
#[verifier::ext_equal]
pub ghost struct ScreenState {
    pub column: int,
    pub row: int,
    pub color: ColorCode,
    pub cells: Seq<ScreenChar>,
    pub cursor: int,
}

impl ScreenState {
    /// The writing position lies on the screen (the column may be one past the
    /// last, until the next character wraps), and so does the cursor.
    pub open spec fn wf(self) -> bool {
        &&& self.cells.len() == BUFFER_SIZE
        &&& 0 <= self.row < BUFFER_HEIGHT
        &&& 0 <= self.column <= BUFFER_WIDTH
        &&& 0 <= self.cursor <= BUFFER_SIZE
    }

    /// The state after a line break: back to column 0, one row down unless the
    /// writer already stands on the last row (the screen does not scroll).
    pub open spec fn new_line(self) -> ScreenState {
        ScreenState {
            column: 0,
            row: if self.row < BUFFER_HEIGHT - 1 {
                self.row + 1
            } else {
                self.row
            },
            ..self
        }
    }

    /// The state after writing the byte `b`: a newline breaks the line; any
    /// other byte wraps a full line, is stored at the writing position in the
    /// current colour, and the position and the cursor move one cell on.
    pub open spec fn put_byte(self, b: u8) -> ScreenState {
        if b == NEWLINE {
            self.new_line()
        } else {
            let s = if self.column >= BUFFER_WIDTH {
                self.new_line()
            } else {
                self
            };
            ScreenState {
                column: s.column + 1,
                cells: s.cells.update(
                    cell_index(s.row, s.column),
                    ScreenChar { ascii_character: b, color_code: s.color },
                ),
                cursor: cell_index(s.row, s.column + 1),
                ..s
            }
        }
    }

    /// The state after writing the bytes one after the other.
    pub open spec fn put_bytes(self, bytes: Seq<u8>) -> ScreenState
        decreases bytes.len(),
    {
        if bytes.len() == 0 {
            self
        } else {
            self.put_bytes(bytes.drop_last()).put_byte(bytes.last())
        }
    }

    /// The state after a backspace: unless at column 0, the position moves
    /// one cell back, that cell is blanked in the current colour and the
    /// cursor follows.
    pub open spec fn backspaced(self) -> ScreenState {
        if self.column > 0 {
            ScreenState {
                column: self.column - 1,
                cells: self.cells.update(
                    cell_index(self.row, self.column - 1),
                    ScreenChar { ascii_character: BLANK, color_code: self.color },
                ),
                cursor: cell_index(self.row, self.column - 1),
                ..self
            }
        } else {
            self
        }
    }

    /// The state after the left arrow: one column back unless at column 0.
    pub open spec fn moved_left(self) -> ScreenState {
        if self.column > 0 {
            ScreenState {
                column: self.column - 1,
                cursor: cell_index(self.row, self.column - 1),
                ..self
            }
        } else {
            self
        }
    }

    /// The state after the right arrow: one column on unless at the last one.
    pub open spec fn moved_right(self) -> ScreenState {
        if self.column < BUFFER_WIDTH - 1 {
            ScreenState {
                column: self.column + 1,
                cursor: cell_index(self.row, self.column + 1),
                ..self
            }
        } else {
            self
        }
    }

    /// The same state with `color` as the current colour.
    pub open spec fn with_color(self, color: ColorCode) -> ScreenState {
        ScreenState { color, ..self }
    }

    /// Whether cell `i` lies on `row` at a column in `[col_start, col_start + len)`.
    pub open spec fn in_span(i: int, row: int, col_start: int, len: int) -> bool {
        &&& cell_index(row, 0) <= i < cell_index(row, BUFFER_WIDTH as int)
        &&& col_start <= i - cell_index(row, 0) < col_start + len
    }

    /// The state after recolouring the cells of `row` from `col_start` on for
    /// `len` columns (those on the screen): each keeps its character and gets
    /// `color` over black.
    pub open spec fn recolored(self, row: int, col_start: int, len: int, color: Color) -> ScreenState {
        ScreenState {
            cells: Seq::new(
                self.cells.len(),
                |i: int|
                    if ScreenState::in_span(i, row, col_start, len) {
                        ScreenChar {
                            ascii_character: self.cells[i].ascii_character,
                            color_code: ColorCode::packed(color, Color::Black),
                        }
                    } else {
                        self.cells[i]
                    },
            ),
            ..self
        }
    }
}

/// Writes text on the VGA screen: it remembers the writing position, the
/// current colour, the screen contents and where the hardware cursor is.
pub struct Writer {
    pub column_position: usize,
    pub row_position: usize,
    pub color_code: ColorCode,
    pub buffer: Buffer,
    /// The cell index last handed to the VGA cursor-location registers.
    pub hardware_cursor: u16,
}

impl View for Writer {
    type V = ScreenState;

    open spec fn view(&self) -> ScreenState {
        ScreenState {
            column: self.column_position as int,
            row: self.row_position as int,
            color: self.color_code,
            cells: self.buffer@,
            cursor: self.hardware_cursor as int,
        }
    }
}

impl Writer {
    pub open spec fn wf(&self) -> bool {
        self@.wf()
    }

    /// Whether the writer is well formed: the writing position and the
    /// cursor on the screen.
    pub fn is_wf(&self) -> (r: bool)
        ensures
            r == self.wf(),
    {
        proof {
            self.buffer.lemma_wf();
        }
        self.row_position < BUFFER_HEIGHT && self.column_position <= BUFFER_WIDTH
            && (self.hardware_cursor as usize) <= BUFFER_SIZE
    }

    /// Writes one byte at the writing position (see `ScreenState::put_byte`).
    /// Any column is accepted (from the last one on, the line wraps first);
    /// a byte other than a newline needs the writing row on the screen.
    pub fn write_byte(&mut self, byte: u8)
        requires
            byte == NEWLINE || old(self).row_position < BUFFER_HEIGHT,
        ensures
            old(self).wf() ==> final(self).wf(),
            final(self)@ == old(self)@.put_byte(byte),
    {
        if byte == NEWLINE {
            self.new_line();
        } else {
            if self.column_position >= BUFFER_WIDTH {
                self.new_line();
            }
            let row = self.row_position;
            let col = self.column_position;
            let color_code = self.color_code;
            self.buffer.write(row, col, ScreenChar { ascii_character: byte, color_code });
            self.column_position = col + 1;
            self.update_hardware_cursor(row, col + 1);
        }
    }

    /// Changes the colour of `len` cells of `row` from `col_start` on to
    /// `color` over black, leaving their characters; columns past the screen
    /// are skipped.
    pub fn change_color_at(&mut self, row: usize, col_start: usize, len: usize, color: Color)
        requires
            col_start + len <= usize::MAX + 1,
            row < BUFFER_HEIGHT || col_start >= BUFFER_WIDTH || len == 0,
        ensures
            old(self).wf() ==> final(self).wf(),
            final(self)@ == old(self)@.recolored(row as int, col_start as int, len as int, color),
    {
        let color_code = ColorCode::new(color, Color::Black);
        proof {
            self.buffer.lemma_wf();
        }
        let mut i: usize = 0;
        while i < len
            invariant
                self.buffer.wf(),
                i <= len,
                col_start + len <= usize::MAX + 1,
                row < BUFFER_HEIGHT || col_start >= BUFFER_WIDTH || len == 0,
                color_code == ColorCode::packed(color, Color::Black),
                self@ == old(self)@.recolored(row as int, col_start as int, i as int, color),
            decreases len - i,
        {
            let col = col_start + i;
            if col < BUFFER_WIDTH {
                let mut screen_char = self.buffer.read(row, col);
                screen_char.color_code = color_code;
                self.buffer.write(row, col, screen_char);
            }
            i += 1;
            assert(self@.cells =~= old(self)@.recolored(
                row as int,
                col_start as int,
                i as int,
                color,
            ).cells);
        }
    }

    /// Hands the cell index of `row`, `col` to the hardware cursor.
    fn update_hardware_cursor(&mut self, row: usize, col: usize)
        requires
            row < BUFFER_HEIGHT,
            col <= BUFFER_WIDTH,
        ensures
            final(self).hardware_cursor == cell_index(row as int, col as int),
            final(self).column_position == old(self).column_position,
            final(self).row_position == old(self).row_position,
            final(self).color_code == old(self).color_code,
            final(self).buffer@ == old(self).buffer@,
    {
        let pos = (row * BUFFER_WIDTH + col) as u16;
        self.hardware_cursor = pos;
    }

    /// Erases the character before the writing position and steps back onto
    /// it (see `ScreenState::backspaced`).
    pub fn backspace(&mut self)
        requires
            old(self).wf(),
        ensures
            final(self).wf(),
            final(self)@ == old(self)@.backspaced(),
    {
        if self.column_position > 0 {
            self.column_position = self.column_position - 1;
            let blank = ScreenChar { ascii_character: BLANK, color_code: self.color_code };
            let row = self.row_position;
            let col = self.column_position;
            self.buffer.write(row, col, blank);
            self.update_hardware_cursor(row, col);
        }
    }

    /// Moves the writing position one column to the left, unless at column 0.
    pub fn move_cursor_left(&mut self)
        requires
            old(self).wf(),
        ensures
            final(self).wf(),
            final(self)@ == old(self)@.moved_left(),
    {
        if self.column_position > 0 {
            self.column_position = self.column_position - 1;
            let row = self.row_position;
            let col = self.column_position;
            self.update_hardware_cursor(row, col);
        }
    }

    /// Moves the writing position one column to the right, unless at the last
    /// column.
    pub fn move_cursor_right(&mut self)
        requires
            old(self).wf(),
        ensures
            final(self).wf(),
            final(self)@ == old(self)@.moved_right(),
    {
        if self.column_position < BUFFER_WIDTH - 1 {
            self.column_position = self.column_position + 1;
            let row = self.row_position;
            let col = self.column_position;
            self.update_hardware_cursor(row, col);
        }
    }

    /// Goes to column 0 of the next row; on the last row only the column is
    /// reset, as the screen does not scroll.
    fn new_line(&mut self)
        ensures
            old(self).wf() ==> final(self).wf(),
            final(self)@ == old(self)@.new_line(),
    {
        self.column_position = 0;
        if self.row_position < BUFFER_HEIGHT - 1 {
            self.row_position = self.row_position + 1;
        }
    }

    /// Writes the bytes of `s`, each printable ASCII byte or newline as it is
    /// and every other byte as a block.
    pub fn write_string(&mut self, s: &str)
        requires
            old(self).wf(),
        ensures
            final(self).wf(),
            final(self)@ == old(self)@.put_bytes(displayed_bytes(s.spec_bytes())),
    {
        let bytes = s.as_bytes();
        let mut i: usize = 0;
        while i < bytes.len()
            invariant
                self.wf(),
                bytes@ == s.spec_bytes(),
                i <= bytes@.len(),
                self@ == old(self)@.put_bytes(displayed_bytes(bytes@.take(i as int))),
            decreases bytes@.len() - i,
        {
            let shown = displayed(bytes[i]);
            self.write_byte(shown);
            proof {
                let done = displayed_bytes(bytes@.take(i as int));
                let next = displayed_bytes(bytes@.take(i + 1));
                assert(next.drop_last() =~= done);
                assert(next.last() == shown);
            }
            i += 1;
        }
        proof {
            assert(bytes@.take(bytes@.len() as int) =~= bytes@);
        }
    }
}


/// The byte shown for `byte`: itself if it is printable ASCII or a newline,
/// a block otherwise.
fn displayed(byte: u8) -> (r: u8)
    ensures
        r == displayed_byte(byte),
{
    if (0x20 <= byte && byte <= 0x7e) || byte == NEWLINE {
        byte
    } else {
        REPLACEMENT_BYTE
    }
}

/// `n` blocks in a row.
pub open spec fn blocks(n: nat) -> Seq<u8> {
    Seq::new(n, |k: int| REPLACEMENT_BYTE)
}

proof fn lemma_or_sets_high_bit(x: u8)
    by (bit_vector)
    ensures
        0x80 <= (0x80u8 | x),
        0x80 <= (0xC0u8 | x),
        0x80 <= (0xE0u8 | x),
        0x80 <= (0xF0u8 | x),
{
}

/// Every byte of the UTF-8 encoding of a non-ASCII scalar has its high bit
/// set, so each is shown as a block.
proof fn lemma_non_ascii_shown_as_blocks(v: u32)
    requires
        0x80 <= v,
        v <= 0x10FFFF,
        !(0xD800 <= v <= 0xDFFF),
    ensures
        displayed_bytes(encode_scalar(v)) =~= blocks(encode_scalar(v).len()),
        encode_scalar(v).len() == (if v < 0x800 {
            2int
        } else if v < 0x10000 {
            3int
        } else {
            4int
        }),
{
    lemma_or_sets_high_bit(((v >> 6) & 0x1F) as u8);
    lemma_or_sets_high_bit(((v >> 12) & 0x0F) as u8);
    lemma_or_sets_high_bit(((v >> 18) & 0x7) as u8);
    lemma_or_sets_high_bit((v & 0x3F) as u8);
    lemma_or_sets_high_bit(((v >> 6) & 0x3F) as u8);
    lemma_or_sets_high_bit(((v >> 12) & 0x3F) as u8);
}

impl Writer {
    /// Writes the UTF-8 encoding of `c` as `write_string` would: an ASCII
    /// character as its displayed byte, any other character as one block per
    /// byte of its encoding.
    pub fn write_char(&mut self, c: char)
        requires
            old(self).wf(),
        ensures
            final(self).wf(),
            final(self)@ == old(self)@.put_bytes(displayed_bytes(encode_scalar(c as u32))),
    {
        let v = c as u32;
        if v < 0x80 {
            let byte = v as u8;
            assert(((v & 0x7F) as u8) == byte) by (bit_vector)
                requires
                    v < 0x80,
                    byte == v as u8,
            ;
            self.write_byte(displayed(byte));
            proof {
                let shown = displayed_bytes(encode_scalar(v));
                assert(encode_scalar(v) =~= seq![byte]);
                assert(shown.drop_last() =~= Seq::<u8>::empty());
                assert(shown.last() == displayed_byte(byte));
                assert(old(self)@.put_bytes(Seq::<u8>::empty()) == old(self)@);
            }
        } else {
            let n: usize = if v < 0x800 {
                2
            } else if v < 0x10000 {
                3
            } else {
                4
            };
            proof {
                lemma_non_ascii_shown_as_blocks(v);
            }
            let mut k: usize = 0;
            while k < n
                invariant
                    self.wf(),
                    k <= n,
                    self@ == old(self)@.put_bytes(blocks(k as nat)),
                decreases n - k,
            {
                self.write_byte(REPLACEMENT_BYTE);
                proof {
                    assert(blocks((k + 1) as nat).drop_last() =~= blocks(k as nat));
                }
                k += 1;
            }
        }
    }
}

/// Writes `text` with the writer's current colour.
pub fn _print(writer: &mut Writer, text: &str)
    requires
        old(writer).wf(),
    ensures
        final(writer).wf(),
        final(writer)@ == old(writer)@.put_bytes(displayed_bytes(text.spec_bytes())),
{
    writer.write_string(text);
}

/// Writes `text` in `foreground` over black, then gives the writer back the
/// colour it had before.
pub fn _print_with_color(writer: &mut Writer, foreground: Color, text: &str)
    requires
        old(writer).wf(),
    ensures
        final(writer).wf(),
        final(writer)@ == old(writer)@.with_color(ColorCode::packed(foreground, Color::Black)).put_bytes(
            displayed_bytes(text.spec_bytes()),
        ).with_color(old(writer).color_code),
{
    let old_color = writer.color_code;
    writer.color_code = ColorCode::new(foreground, Color::Black);
    writer.write_string(text);
    writer.color_code = old_color;
}

/// Row of the kernel's name in the start-up banner.
pub const HEIMDALL_ROW: usize = 0;

/// Column where the kernel's name starts in the start-up banner.
pub const HEIMDALL_COLUMN: usize = 23;

/// Length of the kernel's name in the start-up banner.
pub const HEIMDALL_LEN: usize = 8;

/// Paints the kernel's name in the banner with the colour of palette index
/// `color_value`.
pub fn rgb_heimdall_effect(writer: &mut Writer, color_value: u8)
    requires
        color_value < 16,
    ensures
        old(writer).wf() ==> final(writer).wf(),
        final(writer)@ == old(writer)@.recolored(
            HEIMDALL_ROW as int,
            HEIMDALL_COLUMN as int,
            HEIMDALL_LEN as int,
            color_of_index(color_value),
        ),
{
    let color = Color::from_u8(color_value).unwrap();
    writer.change_color_at(HEIMDALL_ROW, HEIMDALL_COLUMN, HEIMDALL_LEN, color);
}

/// First pixel line of the text cursor within a character cell.
pub const CURSOR_START_LINE: u8 = 14;

/// Last pixel line of the text cursor within a character cell.
pub const CURSOR_END_LINE: u8 = 15;

/// The two bytes that the cursor-location registers take for cell `pos`:
/// the low byte (register 0x0F) and the high byte (register 0x0E).
pub fn cursor_location_bytes(pos: u16) -> (r: (u8, u8))
    ensures
        r.0 == pos % 256,
        r.1 == pos / 256,
{
    let low = (pos & 0xFF) as u8;
    let high = ((pos >> 8) & 0xFF) as u8;
    assert(low == pos % 256 && high == pos / 256) by (bit_vector)
        requires
            low == (pos & 0xFF) as u8,
            high == ((pos >> 8) & 0xFF) as u8,
    ;
    (low, high)
}

/// The new value of the cursor-start register (0x0A), given its current
/// value: the cursor starts at pixel line 14, the cursor-disable bit (bit 5)
/// is cleared and the two reserved high bits are kept.
pub fn cursor_start_register(current: u8) -> (r: u8)
    ensures
        r % 32 == CURSOR_START_LINE,
        (r / 32) % 2 == 0,
        r / 64 == current / 64,
{
    let r = (current & 0xC0) | CURSOR_START_LINE;
    assert(r % 32 == 14 && (r / 32) % 2 == 0 && r / 64 == current / 64) by (bit_vector)
        requires
            r == (current & 0xC0) | 14u8,
    ;
    r
}

/// The new value of the cursor-end register (0x0B), given its current value:
/// the cursor ends at pixel line 15 and the three high bits are kept.
pub fn cursor_end_register(current: u8) -> (r: u8)
    ensures
        r % 32 == CURSOR_END_LINE,
        r / 32 == current / 32,
{
    let r = (current & 0xE0) | CURSOR_END_LINE;
    assert(r % 32 == 15 && r / 32 == current / 32) by (bit_vector)
        requires
            r == (current & 0xE0) | 15u8,
    ;
    r
}

} // verus!
