use heimdall::vga_buffer::{
    Buffer, Color, ColorCode, ScreenChar, Writer, BUFFER_HEIGHT, BUFFER_SIZE, BUFFER_WIDTH,
    REPLACEMENT_BYTE,
};
use heimdall::vga_buffer::{
    _print, _print_with_color, cursor_end_register, cursor_location_bytes,
    cursor_start_register, rgb_heimdall_effect,
};

fn blank() -> ScreenChar {
    ScreenChar { ascii_character: b' ', color_code: ColorCode::new(Color::LightGray, Color::Black) }
}

fn writer_at(row: usize, col: usize) -> Writer {
    Writer {
        column_position: col,
        row_position: row,
        color_code: ColorCode::new(Color::Yellow, Color::Black),
        buffer: Buffer::from_cells([blank(); BUFFER_SIZE]),
        hardware_cursor: 0,
    }
}

fn text_of_row(w: &Writer, row: usize, from: usize, len: usize) -> Vec<u8> {
    (from..from + len).map(|c| w.buffer.read(row, c).ascii_character).collect()
}

#[test]
fn color_code_packs_background_in_high_nibble() {
    assert_eq!(ColorCode::new(Color::LightCyan, Color::Blue).as_u8(), 0b0001_1011);
    assert_eq!(ColorCode::new(Color::LightCyan, Color::Black).as_u8(), 0x0b);
    assert_eq!(ColorCode::new(Color::Yellow, Color::Black).as_u8(), 0x0e);
    assert_eq!(ColorCode::new(Color::White, Color::White).as_u8(), 0xff);
    assert_eq!(ColorCode::new(Color::Black, Color::Black).as_u8(), 0x00);
}

#[test]
fn color_palette_indices_round_trip() {
    for v in 0u8..16 {
        let c = Color::from_u8(v).unwrap();
        assert_eq!(c.as_u8(), v);
    }
    assert_eq!(Color::from_u8(14), Some(Color::Yellow));
    assert_eq!(Color::from_u8(16), None);
    assert_eq!(Color::from_u8(255), None);
}

#[test]
fn buffer_cells_are_row_major() {
    let mut cells = [blank(); BUFFER_SIZE];
    cells[1999].ascii_character = b'_';
    cells[81].ascii_character = b'x';
    let b = Buffer::from_cells(cells);
    assert_eq!(b.read(1, 1).ascii_character, b'x');
    // The last cell of the row-major screen is row 24, column 79.
    assert_eq!(b.read(24, 79).ascii_character, b'_');
}

#[test]
fn write_string_places_text_and_moves_cursor() {
    let mut w = writer_at(0, 0);
    w.write_string("Heimdall");
    assert_eq!(text_of_row(&w, 0, 0, 8), b"Heimdall".to_vec());
    assert_eq!(w.buffer.read(0, 0).color_code, ColorCode::new(Color::Yellow, Color::Black));
    assert_eq!(w.column_position, 8);
    assert_eq!(w.row_position, 0);
    assert_eq!(w.hardware_cursor, 8);
}

#[test]
fn newline_moves_to_next_row_without_cursor_update() {
    let mut w = writer_at(0, 0);
    w.write_string("ab\ncd");
    assert_eq!(text_of_row(&w, 0, 0, 2), b"ab".to_vec());
    assert_eq!(text_of_row(&w, 1, 0, 2), b"cd".to_vec());
    assert_eq!((w.row_position, w.column_position), (1, 2));
    assert_eq!(w.hardware_cursor, 82);

    let mut v = writer_at(3, 5);
    v.write_byte(b'\n');
    assert_eq!((v.row_position, v.column_position), (4, 0));
    assert_eq!(v.hardware_cursor, 0);
}

#[test]
fn full_line_wraps_to_next_row() {
    let mut w = writer_at(2, 79);
    w.write_byte(b'x');
    assert_eq!(w.column_position, 80);
    assert_eq!(w.hardware_cursor, (2 * 80 + 80) as u16);
    w.write_byte(b'y');
    assert_eq!(w.buffer.read(2, 79).ascii_character, b'x');
    assert_eq!(w.buffer.read(3, 0).ascii_character, b'y');
    assert_eq!((w.row_position, w.column_position), (3, 1));
}

#[test]
fn last_row_does_not_scroll() {
    let mut w = writer_at(BUFFER_HEIGHT - 1, 0);
    w.write_string("top\nnew");
    assert_eq!(w.row_position, BUFFER_HEIGHT - 1);
    assert_eq!(text_of_row(&w, BUFFER_HEIGHT - 1, 0, 3), b"new".to_vec());
    assert_eq!(text_of_row(&w, BUFFER_HEIGHT - 2, 0, 3), b"   ".to_vec());
}

#[test]
fn unprintable_bytes_become_blocks() {
    let mut w = writer_at(0, 0);
    w.write_string("a\tb\u{7f}é~");
    // 'é' is two bytes of UTF-8, each shown as a block.
    assert_eq!(
        text_of_row(&w, 0, 0, 7),
        vec![b'a', REPLACEMENT_BYTE, b'b', REPLACEMENT_BYTE, REPLACEMENT_BYTE, REPLACEMENT_BYTE, b'~']
    );
}

#[test]
fn write_char_matches_write_string() {
    for c in ['a', ' ', '~', '\t', 'é', '€', '😀'] {
        let mut by_char = writer_at(5, 10);
        by_char.write_char(c);
        let mut by_text = writer_at(5, 10);
        by_text.write_string(c.encode_utf8(&mut [0u8; 4]));
        assert_eq!(by_char.column_position, by_text.column_position);
        assert_eq!(by_char.hardware_cursor, by_text.hardware_cursor);
        assert_eq!(text_of_row(&by_char, 5, 10, 4), text_of_row(&by_text, 5, 10, 4));
    }
    let mut w = writer_at(0, 0);
    w.write_char('😀');
    assert_eq!(w.column_position, 4);
    assert_eq!(text_of_row(&w, 0, 0, 4), vec![REPLACEMENT_BYTE; 4]);
}

#[test]
fn writing_in_pieces_equals_writing_whole() {
    let mut whole = writer_at(0, 70);
    whole.write_string("0123456789abcdef\nxyz");
    let mut pieces = writer_at(0, 70);
    pieces.write_string("0123456789");
    pieces.write_string("abcdef\nx");
    pieces.write_string("yz");
    assert_eq!(whole.column_position, pieces.column_position);
    assert_eq!(whole.row_position, pieces.row_position);
    assert_eq!(whole.hardware_cursor, pieces.hardware_cursor);
    for row in 0..3 {
        assert_eq!(text_of_row(&whole, row, 0, BUFFER_WIDTH), text_of_row(&pieces, row, 0, BUFFER_WIDTH));
    }
}

#[test]
fn backspace_erases_previous_character() {
    let mut w = writer_at(1, 0);
    w.write_string("ok");
    w.backspace();
    assert_eq!(w.column_position, 1);
    assert_eq!(w.hardware_cursor, 81);
    assert_eq!(w.buffer.read(1, 1).ascii_character, b' ');
    assert_eq!(w.buffer.read(1, 1).color_code, w.color_code);
    assert_eq!(w.buffer.read(1, 0).ascii_character, b'o');
}

#[test]
fn backspace_at_line_start_does_nothing() {
    let mut w = writer_at(3, 0);
    w.hardware_cursor = 7;
    w.backspace();
    assert_eq!((w.row_position, w.column_position), (3, 0));
    assert_eq!(w.hardware_cursor, 7);
}

#[test]
fn arrows_move_within_the_line() {
    let mut w = writer_at(2, 0);
    w.move_cursor_left();
    assert_eq!(w.column_position, 0);
    assert_eq!(w.hardware_cursor, 0);
    w.move_cursor_right();
    assert_eq!(w.column_position, 1);
    assert_eq!(w.hardware_cursor, 161);
    w.move_cursor_left();
    assert_eq!(w.column_position, 0);
    assert_eq!(w.hardware_cursor, 160);

    let mut e = writer_at(0, 79);
    e.move_cursor_right();
    assert_eq!(e.column_position, 79);
    let mut past = writer_at(0, 80);
    past.move_cursor_left();
    past.move_cursor_right();
    assert_eq!(past.column_position, 79);
}

#[test]
fn change_color_keeps_text_and_clips_at_line_end() {
    let mut w = writer_at(0, 0);
    w.write_string("Inicializando o Kernel Heimdall...");
    w.change_color_at(0, 75, 10, Color::Red);
    let red = ColorCode::new(Color::Red, Color::Black);
    for col in 75..80 {
        assert_eq!(w.buffer.read(0, col).color_code, red);
    }
    assert_eq!(w.buffer.read(0, 74).color_code, ColorCode::new(Color::LightGray, Color::Black));
    assert_eq!(w.buffer.read(1, 0).color_code, ColorCode::new(Color::LightGray, Color::Black));

    rgb_heimdall_effect(&mut w, 9);
    let blue = ColorCode::new(Color::LightBlue, Color::Black);
    assert_eq!(text_of_row(&w, 0, 23, 8), b"Heimdall".to_vec());
    for col in 23..31 {
        assert_eq!(w.buffer.read(0, col).color_code, blue);
    }
    assert_eq!(w.buffer.read(0, 22).color_code, ColorCode::new(Color::Yellow, Color::Black));
    assert_eq!(w.buffer.read(0, 31).color_code, ColorCode::new(Color::Yellow, Color::Black));
    assert_eq!(w.column_position, 34);
}

#[test]
fn change_color_off_screen_row_with_no_visible_column() {
    let mut w = writer_at(0, 0);
    w.change_color_at(100, 80, 5, Color::Red);
    w.change_color_at(100, 0, 0, Color::Red);
    assert_eq!(w.buffer.read(0, 0), blank());
}

#[test]
fn print_helpers_write_and_restore_color() {
    let mut w = writer_at(0, 0);
    _print(&mut w, "[ ");
    _print_with_color(&mut w, Color::LightGreen, "OK");
    _print(&mut w, " ]");
    assert_eq!(text_of_row(&w, 0, 0, 6), b"[ OK ]".to_vec());
    assert_eq!(w.buffer.read(0, 2).color_code, ColorCode::new(Color::LightGreen, Color::Black));
    assert_eq!(w.buffer.read(0, 4).color_code, ColorCode::new(Color::Yellow, Color::Black));
    assert_eq!(w.color_code, ColorCode::new(Color::Yellow, Color::Black));
}

#[test]
fn cursor_registers() {
    assert_eq!(cursor_location_bytes(1999), (0xCF, 0x07));
    assert_eq!(cursor_location_bytes(0), (0, 0));
    assert_eq!(cursor_location_bytes(2000), (0xD0, 0x07));
    assert_eq!(cursor_start_register(0x00), 14);
    assert_eq!(cursor_start_register(0xFF), 0xC0 | 14);
    assert_eq!(cursor_start_register(0x2D), 14);
    assert_eq!(cursor_end_register(0x00), 15);
    assert_eq!(cursor_end_register(0xFF), 0xE0 | 15);
}

#[test]
fn write_byte_accepts_any_column() {
    let mut w = writer_at(4, 200);
    w.write_byte(b'z');
    assert_eq!(w.buffer.read(5, 0).ascii_character, b'z');
    assert_eq!((w.row_position, w.column_position), (5, 1));
    assert_eq!(w.hardware_cursor, 401);
    // A newline is fine on any row.
    let mut off = writer_at(30, 7);
    off.write_byte(b'\n');
    assert_eq!((off.row_position, off.column_position), (30, 0));
}

#[test]
fn colored_and_plain_printing_differ_only_in_colors() {
    let mut colored = writer_at(0, 75);
    _print_with_color(&mut colored, Color::Red, "abcdefgh\nij");
    let mut plain = writer_at(0, 75);
    _print(&mut plain, "abcdefgh\nij");
    assert_eq!(colored.row_position, plain.row_position);
    assert_eq!(colored.column_position, plain.column_position);
    assert_eq!(colored.hardware_cursor, plain.hardware_cursor);
    assert_eq!(colored.color_code, plain.color_code);
    for row in 0..BUFFER_HEIGHT {
        for col in 0..BUFFER_WIDTH {
            let a = colored.buffer.read(row, col);
            let b = plain.buffer.read(row, col);
            assert_eq!(a.ascii_character, b.ascii_character);
            if a != b {
                assert_eq!(a.color_code, ColorCode::new(Color::Red, Color::Black));
                assert_eq!(b.color_code, ColorCode::new(Color::Yellow, Color::Black));
            }
        }
    }
    assert_eq!(colored.buffer.read(1, 2).color_code, ColorCode::new(Color::Red, Color::Black));
}
